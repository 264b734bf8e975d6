use vstd::prelude::*;

use crate::types::EscrowError;

verus! {

/// Basis-point denominator; a protocol fee rate must stay strictly below it.
pub const MAX_PROTOCOL_FEE_BPS: u32 = 10_000;

/// The protocol fee charged on a release of `amount` at `fee_bps` basis
/// points: `(amount * fee_bps + 5000) / 10000`, i.e. `amount * fee_bps / 10000`
/// rounded half-up (to the nearest integer, an exact half rounding upward),
/// capped at `amount - 1` so that the fee is always strictly below the
/// released amount.
pub open spec fn protocol_fee(amount: int, fee_bps: int) -> int {
    let raw = (amount * fee_bps + 5000) / 10000;
    if raw < amount - 1 {
        raw
    } else {
        amount - 1
    }
}

/// Calculates the protocol fee for a release of `amount` (positive) at
/// `fee_bps` basis points, with the product computed in 128-bit unsigned
/// arithmetic. Fails with `ProtocolFeeOverflow` when `amount * fee_bps` does
/// not fit in `u128`; the half-unit rounding term is added without overflow
/// whenever `amount * fee_bps + 5000` fits.
pub fn calculate_protocol_fee(amount: i128, fee_bps: u32) -> (r: Result<i128, EscrowError>)
    requires
        amount > 0,
        amount * fee_bps > u128::MAX || amount * fee_bps + 5000 <= u128::MAX,
    ensures
        amount * fee_bps > u128::MAX ==> r == Err::<i128, EscrowError>(
            EscrowError::ProtocolFeeOverflow,
        ),
        amount * fee_bps <= u128::MAX ==> r == Ok::<i128, EscrowError>(
            protocol_fee(amount as int, fee_bps as int) as i128,
        ),
        r matches Ok(fee) ==> 0 <= fee < amount,
{
    let amount_u128: u128 = amount as u128;
    let fee_bps_u128: u128 = fee_bps as u128;
    let divisor: u128 = MAX_PROTOCOL_FEE_BPS as u128;
    let product = match amount_u128.checked_mul(fee_bps_u128) {
        Some(p) => p,
        None => {
            return Err(EscrowError::ProtocolFeeOverflow);
        },
    };
    let rounding: u128 = divisor / 2;
    assert(rounding == 5000 && divisor == 10000);
    assert(product == amount * fee_bps);
    let raw: u128 = (product + rounding) / divisor;
    let cap: u128 = amount_u128 - 1;
    let fee: u128 = if raw < cap {
        raw
    } else {
        cap
    };
    Ok(fee as i128)
}

} // verus!
