use vstd::prelude::*;

use crate::types::EscrowError;

verus! {

/// Upper bound on the total value of one escrow: 1,000,000 tokens of 10^7 stroops.
pub const MAX_TOTAL_ESCROW_STROOPS: i128 = 10_000_000_000_000;

/// What `validate_single_amount` decides for `amount`.
pub open spec fn single_amount_check(amount: int) -> Result<(), EscrowError> {
    if amount <= 0 {
        Err(EscrowError::AmountMustBePositive)
    } else if amount > MAX_TOTAL_ESCROW_STROOPS {
        Err(EscrowError::InvalidMilestoneAmount)
    } else {
        Ok(())
    }
}

/// Scans `amounts` left to right from the running total `acc`: the first
/// non-positive amount, or the first prefix whose total exceeds `max_total`,
/// decides the error; otherwise the result is the grand total.
pub open spec fn milestone_scan(amounts: Seq<i128>, acc: int, max_total: int) -> Result<int, EscrowError>
    decreases amounts.len(),
{
    if amounts.len() == 0 {
        Ok(acc)
    } else if amounts[0] <= 0 {
        Err(EscrowError::AmountMustBePositive)
    } else if acc + amounts[0] > max_total {
        Err(EscrowError::InvalidMilestoneAmount)
    } else {
        milestone_scan(amounts.drop_first(), acc + amounts[0], max_total)
    }
}

/// What `validate_deposit_amount` decides.
pub open spec fn deposit_check(amount: int, current_funded: int, max_total: int) -> Result<int, EscrowError> {
    if amount <= 0 {
        Err(EscrowError::AmountMustBePositive)
    } else if current_funded + amount > max_total {
        Err(EscrowError::InvalidMilestoneAmount)
    } else {
        Ok(current_funded + amount)
    }
}

/// Sum of a sequence of amounts.
pub open spec fn seq_sum(s: Seq<i128>) -> int
    decreases s.len(),
{
    if s.len() == 0 {
        0
    } else {
        seq_sum(s.drop_last()) + s.last()
    }
}

/// Validates one money amount: strictly positive and at most
/// `MAX_TOTAL_ESCROW_STROOPS`.
pub fn validate_single_amount(amount: i128) -> (r: Result<(), EscrowError>)
    ensures
        r == single_amount_check(amount as int),
{
    if amount <= 0 {
        Err(EscrowError::AmountMustBePositive)
    } else if amount > MAX_TOTAL_ESCROW_STROOPS {
        Err(EscrowError::InvalidMilestoneAmount)
    } else {
        Ok(())
    }
}

proof fn lemma_skip_step(s: Seq<i128>, i: int)
    requires
        0 <= i < s.len(),
    ensures
        s.skip(i).drop_first() =~= s.skip(i + 1),
        s.skip(i)[0] == s[i],
        s.skip(i).len() > 0,
{
}

/// Validates a list of milestone amounts: each must be positive and the
/// running total must stay within `max_total`. Returns the total.
pub fn validate_milestone_amounts(amounts: &[i128], max_total: i128) -> (r: Result<i128, EscrowError>)
    ensures
        match milestone_scan(amounts@, 0, max_total as int) {
            Ok(t) => r == Ok::<i128, EscrowError>(t as i128),
            Err(e) => r == Err::<i128, EscrowError>(e),
        },
{
    let mut total: i128 = 0;
    let mut i: usize = 0;
    proof {
        assert(amounts@.skip(0) =~= amounts@);
    }
    while i < amounts.len()
        invariant
            0 <= i <= amounts@.len(),
            milestone_scan(amounts@.skip(i as int), total as int, max_total as int)
                == milestone_scan(amounts@, 0, max_total as int),
            total <= max_total || i == 0,
            0 <= total,
        decreases amounts.len() - i,
    {
        let a = amounts[i];
        proof {
            lemma_skip_step(amounts@, i as int);
        }
        if a <= 0 {
            return Err(EscrowError::AmountMustBePositive);
        }
        match total.checked_add(a) {
            None => {
                return Err(EscrowError::InvalidMilestoneAmount);
            },
            Some(t) => {
                if t > max_total {
                    return Err(EscrowError::InvalidMilestoneAmount);
                }
                total = t;
            },
        }
        i = i + 1;
    }
    proof {
        assert(amounts@.skip(i as int).len() == 0);
    }
    Ok(total)
}

/// Validates a deposit against the amount already funded: the deposit must
/// be positive and the cumulative funding must stay within `max_total`.
/// Returns the new cumulative funding.
pub fn validate_deposit_amount(amount: i128, current_funded: i128, max_total: i128) -> (r: Result<i128, EscrowError>)
    ensures
        match deposit_check(amount as int, current_funded as int, max_total as int) {
            Ok(t) => r == Ok::<i128, EscrowError>(t as i128),
            Err(e) => r == Err::<i128, EscrowError>(e),
        },
{
    if amount <= 0 {
        return Err(EscrowError::AmountMustBePositive);
    }
    match current_funded.checked_add(amount) {
        None => Err(EscrowError::InvalidMilestoneAmount),
        Some(t) => {
            if t > max_total {
                Err(EscrowError::InvalidMilestoneAmount)
            } else {
                Ok(t)
            }
        },
    }
}

/// Overflow-checked addition of two amounts.
pub fn safe_add_amounts(a: i128, b: i128) -> (r: Option<i128>)
    ensures
        r == (if i128::MIN <= a + b <= i128::MAX {
            Some((a + b) as i128)
        } else {
            None::<i128>
        }),
{
    a.checked_add(b)
}

/// Subtraction of amounts that refuses overflow and negative results.
pub fn safe_subtract_amounts(a: i128, b: i128) -> (r: Option<i128>)
    ensures
        r == (if 0 <= a - b <= i128::MAX {
            Some((a - b) as i128)
        } else {
            None::<i128>
        }),
{
    match a.checked_sub(b) {
        Some(d) => {
            if d >= 0 {
                Some(d)
            } else {
                None
            }
        },
        None => None,
    }
}


pub proof fn lemma_seq_sum_first(s: Seq<i128>)
    requires
        s.len() > 0,
    ensures
        seq_sum(s) == s[0] + seq_sum(s.drop_first()),
    decreases s.len(),
{
    if s.len() > 1 {
        lemma_seq_sum_first(s.drop_last());
        assert(s.drop_first().drop_last() =~= s.drop_last().drop_first());
        assert(s.drop_first().last() == s.last());
        assert(s.drop_last()[0] == s[0]);
        assert(seq_sum(s) == seq_sum(s.drop_last()) + s.last());
        assert(seq_sum(s.drop_first()) == seq_sum(s.drop_first().drop_last()) + s.drop_first().last());
    } else {
        assert(s.drop_last().len() == 0);
        assert(s.drop_first().len() == 0);
        assert(seq_sum(s.drop_last()) == 0);
        assert(seq_sum(s.drop_first()) == 0);
        assert(seq_sum(s) == seq_sum(s.drop_last()) + s.last());
        assert(s.last() == s[0]);
    }
}

/// A successful scan certifies positive amounts whose total (added to
/// `acc`) is the result and, when non-empty, stays within `max_total`.
pub proof fn lemma_scan_ok(s: Seq<i128>, acc: int, max_total: int)
    requires
        milestone_scan(s, acc, max_total) is Ok,
    ensures
        forall|i: int| 0 <= i < s.len() ==> s[i] > 0,
        milestone_scan(s, acc, max_total) == Ok::<int, EscrowError>(acc + seq_sum(s)),
        s.len() > 0 ==> acc + seq_sum(s) <= max_total,
    decreases s.len(),
{
    if s.len() > 0 {
        lemma_scan_ok(s.drop_first(), acc + s[0], max_total);
        lemma_seq_sum_first(s);
        assert forall|i: int| 0 <= i < s.len() implies s[i] > 0 by {
            if i > 0 {
                assert(s[i] == s.drop_first()[i - 1]);
            }
        }
    }
}

} // verus!
