# escrow

A milestone-based freelancer escrow, verified with Verus.

`src/` is the escrow ledger as a plain value (`Escrow`) with every operation
proved against its contract:

- `types.rs` – participants, contract, milestone, approval, reputation and
  summary records, and the two error sets (`Error`, `EscrowError`, joined in
  `Failure`).
- `amounts.rs` – amount validation and checked arithmetic.
- `fees.rs` – the protocol fee (rounded to the nearest unit, exact halves
  down, capped below the amount).
- `milestones.rs` – sums over milestones and the lemmas about them.
- `registry.rs` – per-address records (reputation, pending credits).
- `state.rs` – the ledger, its consistency invariant and the read accessors.
- `admin.rs`, `governance.rs` – initialization, pause/emergency controls,
  fee rate and two-step admin transfer.
- `lifecycle.rs` – contract creation (at most 16 milestones), deposits and
  cancellation.
- `release.rs` – approvals with ledger-bounded lifetime and milestone release.
- `refund.rs` – all-or-nothing refund of unreleased milestones.
- `evidence.rs` – work evidence the freelancer submits for a milestone.
- `reputation.rs` – reputation issuance, once per completed contract and
  only against a pending completed-contract credit, and average ratings.
- `finalize.rs` – finalization records and contract summaries.
- `laws.rs` – properties of the whole ledger, stated and proved.

`app/` is the Soroban contract around the library: it rebuilds the ledger
from the stored log of accepted operations, checks authorization with the
host, reads the ledger clock, maps errors to contract error codes and
publishes events. Because the ledger is rebuilt by replay, every state the
contract exposes is one the verified library produced; the price is that the
cost of a call grows with the number of operations accepted before it.
