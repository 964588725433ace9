//! Accounting and lifecycle logic of a crowdfunding escrow.
//!
//! Campaigns accept pledges toward a fixed target within a deadline; funds are
//! released to the creator (on success or expiry) or returned to contributors
//! (on failure). This crate holds the escrow state machine: validation of
//! campaign parameters, contribution bookkeeping, and the mutually exclusive
//! withdrawal and refund paths. Custody of the underlying value, persistent
//! storage of the records, signer verification, event delivery and the clock
//! are external collaborators: the operations here take their readings as
//! plain values and return the authorized transfer as part of the event.

pub mod account;
pub mod campaign;
pub mod contribution;
pub mod errors;
pub mod escrow;
pub mod events;
pub mod ledger;
