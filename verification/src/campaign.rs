//! The campaign record and the rules of the campaign ledger.

use vstd::prelude::*;

use crate::account::AccountId;
use crate::errors::CrowdfundingError;

verus! {

/// One fundraising campaign: a fixed target, a deadline, and the running
/// total of the pledges held in its vault.
#[derive(Clone, Debug)]
pub struct Campaign {
    /// Identity of the originator; immutable after creation.
    pub creator: AccountId,
    /// Immutable metadata, at most 100 characters.
    pub title: String,
    /// Immutable metadata, at most 500 characters.
    pub description: String,
    /// The goal; positive and immutable.
    pub target_amount: u64,
    /// Running total of the outstanding pledges: contributions recorded so
    /// far, less those refunded.
    pub current_amount: u64,
    /// When the campaign was created, in epoch seconds.
    pub start_time: i64,
    /// First moment at which the campaign no longer accepts contributions.
    pub end_time: i64,
    /// Becomes true, and stays true, the first moment the target is reached.
    pub is_successful: bool,
    /// Becomes true, and stays true, when the vault is paid out.
    pub is_withdrawn: bool,
    /// How many times a contributor went from a zero pledge to a positive one.
    pub contributors_count: u32,
}

impl Campaign {
    /// Well-formedness: what creation establishes and every operation keeps.
    ///
    /// The running total never passes the target, the target is positive,
    /// the deadline lies after the start, and success holds exactly when the
    /// target is reached.
    pub open spec fn wf(self) -> bool {
        &&& self.title@.len() <= 100
        &&& self.description@.len() <= 500
        &&& self.target_amount > 0
        &&& self.current_amount <= self.target_amount
        &&& self.start_time < self.end_time
        &&& (self.is_successful <==> self.current_amount == self.target_amount)
    }
}

/// The error `initialize_campaign` fails with on the given parameters, if
/// any: parameters are checked in this order, and a campaign is created
/// exactly when none of the checks fails.
pub open spec fn create_error(
    title: Seq<char>,
    description: Seq<char>,
    target_amount: u64,
    duration_days: u64,
) -> Option<CrowdfundingError> {
    if title.len() > 100 {
        Some(CrowdfundingError::TitleTooLong)
    } else if description.len() > 500 {
        Some(CrowdfundingError::DescriptionTooLong)
    } else if target_amount == 0 {
        Some(CrowdfundingError::InvalidTargetAmount)
    } else if duration_days == 0 || duration_days > 365 {
        Some(CrowdfundingError::InvalidDuration)
    } else {
        None
    }
}

/// The error `withdraw_funds` fails with, if any: the requester must be the
/// creator, the campaign must be successful or past its deadline, the vault
/// must not have been paid out already, and there must be something to pay.
pub open spec fn withdraw_error(
    campaign: Campaign,
    requester: AccountId,
    now: i64,
    vault_balance: u64,
) -> Option<CrowdfundingError> {
    if requester != campaign.creator {
        Some(CrowdfundingError::UnauthorizedWithdrawal)
    } else if !(campaign.is_successful || now >= campaign.end_time) {
        Some(CrowdfundingError::WithdrawalConditionsNotMet)
    } else if campaign.is_withdrawn {
        Some(CrowdfundingError::AlreadyWithdrawn)
    } else if vault_balance == 0 {
        Some(CrowdfundingError::NoFundsToWithdraw)
    } else {
        None
    }
}

/// The campaign record after a successful withdrawal: the payout flag set,
/// everything else untouched.
pub open spec fn withdraw_ok_campaign(campaign: Campaign) -> Campaign {
    Campaign { is_withdrawn: true, ..campaign }
}

} // verus!
