//! The errors an escrow operation can fail with, and their taxonomy.

use vstd::prelude::*;

verus! {

/// Why an operation was refused. Every error aborts the whole operation
/// before any record is changed; there is no partial-success state.
#[derive(Clone, Copy, Debug, PartialEq, Eq, Structural)]
pub enum CrowdfundingError {
    /// Campaign title is too long (max 100 characters).
    TitleTooLong,
    /// Campaign description is too long (max 500 characters).
    DescriptionTooLong,
    /// Invalid target amount.
    InvalidTargetAmount,
    /// Invalid campaign duration (1-365 days).
    InvalidDuration,
    /// Campaign has already ended.
    CampaignEnded,
    /// Invalid contribution amount.
    InvalidContributionAmount,
    /// Contribution exceeds campaign target.
    ExceedsTarget,
    /// Amount overflow.
    AmountOverflow,
    /// Unauthorized withdrawal.
    UnauthorizedWithdrawal,
    /// Withdrawal conditions not met.
    WithdrawalConditionsNotMet,
    /// Funds already withdrawn.
    AlreadyWithdrawn,
    /// No funds to withdraw.
    NoFundsToWithdraw,
    /// Campaign is still active.
    CampaignStillActive,
    /// Campaign was successful.
    CampaignWasSuccessful,
    /// No contribution to refund.
    NoContributionToRefund,
    /// Campaign funds already withdrawn.
    CampaignAlreadyWithdrawn,
}

/// The broad class an error falls in: malformed input, wrong lifecycle state,
/// wrong actor, arithmetic overflow, or nothing available to transfer.
#[derive(Clone, Copy, Debug, PartialEq, Eq, Structural)]
pub enum ErrorKind {
    Validation,
    State,
    Authorization,
    Arithmetic,
    Resource,
}

impl CrowdfundingError {
    /// The class this error belongs to.
    pub open spec fn spec_kind(self) -> ErrorKind {
        match self {
            CrowdfundingError::TitleTooLong => ErrorKind::Validation,
            CrowdfundingError::DescriptionTooLong => ErrorKind::Validation,
            CrowdfundingError::InvalidTargetAmount => ErrorKind::Validation,
            CrowdfundingError::InvalidDuration => ErrorKind::Validation,
            CrowdfundingError::CampaignEnded => ErrorKind::State,
            CrowdfundingError::InvalidContributionAmount => ErrorKind::Validation,
            CrowdfundingError::ExceedsTarget => ErrorKind::Validation,
            CrowdfundingError::AmountOverflow => ErrorKind::Arithmetic,
            CrowdfundingError::UnauthorizedWithdrawal => ErrorKind::Authorization,
            CrowdfundingError::WithdrawalConditionsNotMet => ErrorKind::State,
            CrowdfundingError::AlreadyWithdrawn => ErrorKind::State,
            CrowdfundingError::NoFundsToWithdraw => ErrorKind::Resource,
            CrowdfundingError::CampaignStillActive => ErrorKind::State,
            CrowdfundingError::CampaignWasSuccessful => ErrorKind::State,
            CrowdfundingError::NoContributionToRefund => ErrorKind::State,
            CrowdfundingError::CampaignAlreadyWithdrawn => ErrorKind::State,
        }
    }

    /// The class this error belongs to.
    pub fn kind(self) -> (k: ErrorKind)
        ensures
            k == self.spec_kind(),
    {
        match self {
            CrowdfundingError::TitleTooLong => ErrorKind::Validation,
            CrowdfundingError::DescriptionTooLong => ErrorKind::Validation,
            CrowdfundingError::InvalidTargetAmount => ErrorKind::Validation,
            CrowdfundingError::InvalidDuration => ErrorKind::Validation,
            CrowdfundingError::CampaignEnded => ErrorKind::State,
            CrowdfundingError::InvalidContributionAmount => ErrorKind::Validation,
            CrowdfundingError::ExceedsTarget => ErrorKind::Validation,
            CrowdfundingError::AmountOverflow => ErrorKind::Arithmetic,
            CrowdfundingError::UnauthorizedWithdrawal => ErrorKind::Authorization,
            CrowdfundingError::WithdrawalConditionsNotMet => ErrorKind::State,
            CrowdfundingError::AlreadyWithdrawn => ErrorKind::State,
            CrowdfundingError::NoFundsToWithdraw => ErrorKind::Resource,
            CrowdfundingError::CampaignStillActive => ErrorKind::State,
            CrowdfundingError::CampaignWasSuccessful => ErrorKind::State,
            CrowdfundingError::NoContributionToRefund => ErrorKind::State,
            CrowdfundingError::CampaignAlreadyWithdrawn => ErrorKind::State,
        }
    }

    /// What this error means, in words.
    pub open spec fn spec_message(self) -> Seq<char> {
        match self {
            CrowdfundingError::TitleTooLong => "Campaign title is too long (max 100 characters)"@,
            CrowdfundingError::DescriptionTooLong => "Campaign description is too long (max 500 characters)"@,
            CrowdfundingError::InvalidTargetAmount => "Invalid target amount"@,
            CrowdfundingError::InvalidDuration => "Invalid campaign duration (1-365 days)"@,
            CrowdfundingError::CampaignEnded => "Campaign has already ended"@,
            CrowdfundingError::InvalidContributionAmount => "Invalid contribution amount"@,
            CrowdfundingError::ExceedsTarget => "Contribution exceeds campaign target"@,
            CrowdfundingError::AmountOverflow => "Amount overflow"@,
            CrowdfundingError::UnauthorizedWithdrawal => "Unauthorized withdrawal"@,
            CrowdfundingError::WithdrawalConditionsNotMet => "Withdrawal conditions not met"@,
            CrowdfundingError::AlreadyWithdrawn => "Funds already withdrawn"@,
            CrowdfundingError::NoFundsToWithdraw => "No funds to withdraw"@,
            CrowdfundingError::CampaignStillActive => "Campaign is still active"@,
            CrowdfundingError::CampaignWasSuccessful => "Campaign was successful"@,
            CrowdfundingError::NoContributionToRefund => "No contribution to refund"@,
            CrowdfundingError::CampaignAlreadyWithdrawn => "Campaign funds already withdrawn"@,
        }
    }

    /// What this error means, in words.
    pub fn message(self) -> (m: &'static str)
        ensures
            m@ == self.spec_message(),
    {
        match self {
            CrowdfundingError::TitleTooLong => "Campaign title is too long (max 100 characters)",
            CrowdfundingError::DescriptionTooLong => "Campaign description is too long (max 500 characters)",
            CrowdfundingError::InvalidTargetAmount => "Invalid target amount",
            CrowdfundingError::InvalidDuration => "Invalid campaign duration (1-365 days)",
            CrowdfundingError::CampaignEnded => "Campaign has already ended",
            CrowdfundingError::InvalidContributionAmount => "Invalid contribution amount",
            CrowdfundingError::ExceedsTarget => "Contribution exceeds campaign target",
            CrowdfundingError::AmountOverflow => "Amount overflow",
            CrowdfundingError::UnauthorizedWithdrawal => "Unauthorized withdrawal",
            CrowdfundingError::WithdrawalConditionsNotMet => "Withdrawal conditions not met",
            CrowdfundingError::AlreadyWithdrawn => "Funds already withdrawn",
            CrowdfundingError::NoFundsToWithdraw => "No funds to withdraw",
            CrowdfundingError::CampaignStillActive => "Campaign is still active",
            CrowdfundingError::CampaignWasSuccessful => "Campaign was successful",
            CrowdfundingError::NoContributionToRefund => "No contribution to refund",
            CrowdfundingError::CampaignAlreadyWithdrawn => "Campaign funds already withdrawn",
        }
    }
}

} // verus!
