//! Identities of accounts: creators, contributors, campaigns and their vaults.

use vstd::prelude::*;

verus! {

/// The identity of an account, as the external ledger substrate names it.
/// The escrow logic only ever compares identities for equality; who actually
/// signed an operation is established by an external identity verifier before
/// an identity is handed in here.
#[derive(Clone, Copy, Debug, PartialEq, Eq, Structural, Hash)]
pub struct AccountId {
    pub id: u64,
}

} // verus!
