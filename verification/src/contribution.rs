//! The contribution record and the rules of the contribution ledger.

use vstd::prelude::*;

use crate::account::AccountId;
use crate::campaign::Campaign;
use crate::errors::CrowdfundingError;

verus! {

/// One contributor's cumulative, currently unrefunded pledge toward one
/// campaign. The external storage keeps exactly one record per
/// (campaign, contributor) pair, created lazily with a zero amount on the
/// first pledge; a refund zeroes the amount but the record persists.
#[derive(Clone, Copy, Debug, PartialEq, Eq, Structural)]
pub struct Contribution {
    /// Identity of the contributor; set on the first pledge.
    pub contributor: AccountId,
    /// Identity of the campaign; set on the first pledge.
    pub campaign: AccountId,
    /// The pledge still held in the vault for this contributor.
    pub amount: u64,
}

impl Contribution {
    /// Whether this record is the one the external storage keeps for the
    /// given (campaign, contributor) pair: a record with a positive amount
    /// carries that pair; a zero record is fresh or refunded and its
    /// identity fields carry no information.
    pub open spec fn keyed(self, campaign: AccountId, contributor: AccountId) -> bool {
        self.amount > 0 ==> self.campaign == campaign && self.contributor == contributor
    }
}

/// The error `refund_contribution` fails with, if any: the campaign must
/// have ended without reaching its target, and the record must still hold
/// a positive pledge.
pub open spec fn refund_error(
    campaign: Campaign,
    contribution: Contribution,
    now: i64,
) -> Option<CrowdfundingError> {
    if now < campaign.end_time {
        Some(CrowdfundingError::CampaignStillActive)
    } else if campaign.is_successful {
        Some(CrowdfundingError::CampaignWasSuccessful)
    } else if contribution.amount == 0 {
        Some(CrowdfundingError::NoContributionToRefund)
    } else {
        None
    }
}

/// The contribution record after a successful refund: the pledge zeroed,
/// the identity pair untouched.
pub open spec fn refund_ok_contribution(contribution: Contribution) -> Contribution {
    Contribution { amount: 0, ..contribution }
}

/// The campaign record after a successful refund: the running total drops by
/// the refunded pledge — it is the total of the outstanding, non-refunded
/// pledges — and everything else is untouched.
pub open spec fn refund_ok_campaign(campaign: Campaign, refunded: u64) -> Campaign {
    Campaign { current_amount: (campaign.current_amount - refunded) as u64, ..campaign }
}

} // verus!
