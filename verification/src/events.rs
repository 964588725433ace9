//! What each successful operation reports to the external event sink, and
//! which transfer it authorizes. Publication is best-effort and outside this
//! crate; the amounts here are also the transfer instructions the caller
//! hands to the external value custodian.

use vstd::prelude::*;

use crate::account::AccountId;

verus! {

/// A campaign came into being.
#[derive(Clone, Copy, Debug, PartialEq, Eq, Structural)]
pub struct CampaignCreated {
    pub campaign: AccountId,
    pub creator: AccountId,
    pub target_amount: u64,
    pub end_time: i64,
}

/// A pledge was recorded; `amount` has moved into the campaign's vault.
#[derive(Clone, Copy, Debug, PartialEq, Eq, Structural)]
pub struct ContributionMade {
    pub campaign: AccountId,
    pub contributor: AccountId,
    pub amount: u64,
    pub total_raised: u64,
}

/// The vault was paid out to the creator.
#[derive(Clone, Copy, Debug, PartialEq, Eq, Structural)]
pub struct FundsWithdrawn {
    pub campaign: AccountId,
    pub creator: AccountId,
    pub amount: u64,
}

/// A pledge was returned to its contributor.
#[derive(Clone, Copy, Debug, PartialEq, Eq, Structural)]
pub struct ContributionRefunded {
    pub campaign: AccountId,
    pub contributor: AccountId,
    pub amount: u64,
}

} // verus!
