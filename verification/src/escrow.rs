//! The four escrow operations. Each one validates against the records and
//! the clock reading it is handed, and only then commits its changes; on any
//! error every record is left exactly as it was. The external transfer that
//! accompanies a successful operation is returned in the event, so the
//! caller can stage transfer and commit as one unit.

use vstd::prelude::*;

use crate::account::AccountId;
use crate::campaign::Campaign;
use crate::campaign::create_error;
use crate::campaign::withdraw_error;
use crate::campaign::withdraw_ok_campaign;
use crate::contribution::Contribution;
use crate::contribution::refund_error;
use crate::contribution::refund_ok_campaign;
use crate::contribution::refund_ok_contribution;
use crate::errors::CrowdfundingError;
use crate::events::CampaignCreated;
use crate::events::ContributionMade;
use crate::events::ContributionRefunded;
use crate::events::FundsWithdrawn;

verus! {

/// What `initialize_campaign` reads from its surroundings: the identity the
/// storage assigned to the new record, the verified identity of the caller,
/// and the clock.
#[derive(Clone, Copy, Debug, PartialEq, Eq, Structural)]
pub struct InitializeCampaign {
    /// Identity of the campaign record being created.
    pub campaign: AccountId,
    /// Verified identity of the caller, who becomes the creator.
    pub creator: AccountId,
    /// The clock reading, in epoch seconds, used for every check.
    pub now: i64,
}

/// Creates a campaign: validates the parameters and returns the new record
/// together with the event to publish. Nothing is persisted on failure.
pub fn initialize_campaign(
    ctx: InitializeCampaign,
    title: String,
    description: String,
    target_amount: u64,
    duration_days: u64,
) -> (r: Result<(Campaign, CampaignCreated), CrowdfundingError>)
    requires
        1 <= duration_days <= 365 ==> ctx.now + duration_days * 86400 <= i64::MAX,
    ensures
        r is Ok <==> create_error(title@, description@, target_amount, duration_days) is None,
        r matches Err(e) ==> create_error(title@, description@, target_amount, duration_days)
            == Some(e),
        r matches Ok((campaign, event)) ==> {
            &&& campaign == (Campaign {
                creator: ctx.creator,
                title: title,
                description: description,
                target_amount: target_amount,
                current_amount: 0,
                start_time: ctx.now,
                end_time: (ctx.now + duration_days * 86400) as i64,
                is_successful: false,
                is_withdrawn: false,
                contributors_count: 0,
            })
            &&& campaign.wf()
            &&& event == (CampaignCreated {
                campaign: ctx.campaign,
                creator: ctx.creator,
                target_amount: target_amount,
                end_time: campaign.end_time,
            })
        },
{
    if title.as_str().unicode_len() > 100 {
        return Err(CrowdfundingError::TitleTooLong);
    }
    if description.as_str().unicode_len() > 500 {
        return Err(CrowdfundingError::DescriptionTooLong);
    }
    if target_amount == 0 {
        return Err(CrowdfundingError::InvalidTargetAmount);
    }
    if duration_days == 0 || duration_days > 365 {
        return Err(CrowdfundingError::InvalidDuration);
    }
    let end_time: i64 = ctx.now + (duration_days as i64) * 86400;
    let campaign = Campaign {
        creator: ctx.creator,
        title,
        description,
        target_amount,
        current_amount: 0,
        start_time: ctx.now,
        end_time,
        is_successful: false,
        is_withdrawn: false,
        contributors_count: 0,
    };
    let event = CampaignCreated {
        campaign: ctx.campaign,
        creator: ctx.creator,
        target_amount,
        end_time,
    };
    Ok((campaign, event))
}

/// What `contribute` reads from its surroundings: the identities of the
/// campaign and the contributor, and the clock.
#[derive(Clone, Copy, Debug, PartialEq, Eq, Structural)]
pub struct Contribute {
    /// Identity of the campaign being pledged to.
    pub campaign: AccountId,
    /// Verified identity of the contributor.
    pub contributor: AccountId,
    /// The clock reading, in epoch seconds, used for every check.
    pub now: i64,
}

/// The error `contribute` fails with, if any: the campaign must still be
/// open and not paid out, the amount positive, neither running total may
/// overflow, and the new total may not pass the target — the target is a
/// hard cap, not a threshold to cross.
pub open spec fn contribute_error(
    campaign: Campaign,
    contribution: Contribution,
    amount: u64,
    now: i64,
) -> Option<CrowdfundingError> {
    if now >= campaign.end_time {
        Some(CrowdfundingError::CampaignEnded)
    } else if amount == 0 {
        Some(CrowdfundingError::InvalidContributionAmount)
    } else if campaign.is_withdrawn {
        Some(CrowdfundingError::CampaignAlreadyWithdrawn)
    } else if campaign.current_amount + amount > u64::MAX {
        Some(CrowdfundingError::AmountOverflow)
    } else if campaign.current_amount + amount > campaign.target_amount {
        Some(CrowdfundingError::ExceedsTarget)
    } else if contribution.amount + amount > u64::MAX {
        Some(CrowdfundingError::AmountOverflow)
    } else {
        None
    }
}

/// The campaign record after a successful contribution: the running total
/// grows by the amount, success is recorded the moment the target is
/// reached, and a contributor whose pledge stood at zero is counted anew.
pub open spec fn contribute_ok_campaign(
    campaign: Campaign,
    old_pledge: u64,
    amount: u64,
) -> Campaign {
    Campaign {
        current_amount: (campaign.current_amount + amount) as u64,
        is_successful: campaign.current_amount + amount >= campaign.target_amount,
        contributors_count: if old_pledge == 0 {
            (campaign.contributors_count + 1) as u32
        } else {
            campaign.contributors_count
        },
        ..campaign
    }
}

/// The contribution record after a successful contribution: the pledge
/// grows by the amount, and a record that stood at zero takes on the
/// identity pair of this call.
pub open spec fn contribute_ok_contribution(
    contribution: Contribution,
    campaign: AccountId,
    contributor: AccountId,
    amount: u64,
) -> Contribution {
    Contribution {
        contributor: if contribution.amount == 0 {
            contributor
        } else {
            contribution.contributor
        },
        campaign: if contribution.amount == 0 {
            campaign
        } else {
            contribution.campaign
        },
        amount: (contribution.amount + amount) as u64,
    }
}

/// Records a pledge: adds the amount to the campaign's running total and to
/// the contributor's record, counting a contributor whose pledge stood at
/// zero as new. Returns the event carrying the transfer into the vault; the
/// transfer and the commit must be one unit, and on any error both records
/// are untouched.
pub fn contribute(
    ctx: Contribute,
    campaign: &mut Campaign,
    contribution: &mut Contribution,
    amount: u64,
) -> (r: Result<ContributionMade, CrowdfundingError>)
    requires
        old(campaign).wf(),
        old(contribution).keyed(ctx.campaign, ctx.contributor),
        (contribute_error(*old(campaign), *old(contribution), amount, ctx.now) is None
            && old(contribution).amount == 0) ==> old(campaign).contributors_count < u32::MAX,
    ensures
        r is Ok <==> contribute_error(*old(campaign), *old(contribution), amount, ctx.now)
            is None,
        r matches Err(e) ==> {
            &&& contribute_error(*old(campaign), *old(contribution), amount, ctx.now) == Some(e)
            &&& *final(campaign) == *old(campaign)
            &&& *final(contribution) == *old(contribution)
        },
        r matches Ok(event) ==> {
            &&& *final(campaign) == contribute_ok_campaign(
                *old(campaign),
                old(contribution).amount,
                amount,
            )
            &&& *final(contribution) == contribute_ok_contribution(
                *old(contribution),
                ctx.campaign,
                ctx.contributor,
                amount,
            )
            &&& event == (ContributionMade {
                campaign: ctx.campaign,
                contributor: ctx.contributor,
                amount: amount,
                total_raised: final(campaign).current_amount,
            })
        },
        final(campaign).wf(),
        final(contribution).keyed(ctx.campaign, ctx.contributor),
        old(campaign).is_successful ==> final(campaign).is_successful,
        final(campaign).is_withdrawn == old(campaign).is_withdrawn,
{
    if ctx.now >= campaign.end_time {
        return Err(CrowdfundingError::CampaignEnded);
    }
    if amount == 0 {
        return Err(CrowdfundingError::InvalidContributionAmount);
    }
    if campaign.is_withdrawn {
        return Err(CrowdfundingError::CampaignAlreadyWithdrawn);
    }
    let new_total: u64 = match campaign.current_amount.checked_add(amount) {
        Some(t) => t,
        None => {
            return Err(CrowdfundingError::AmountOverflow);
        },
    };
    if new_total > campaign.target_amount {
        return Err(CrowdfundingError::ExceedsTarget);
    }
    let new_pledge: u64 = match contribution.amount.checked_add(amount) {
        Some(p) => p,
        None => {
            return Err(CrowdfundingError::AmountOverflow);
        },
    };
    if contribution.amount == 0 {
        contribution.contributor = ctx.contributor;
        contribution.campaign = ctx.campaign;
        campaign.contributors_count = campaign.contributors_count + 1;
    }
    contribution.amount = new_pledge;
    campaign.current_amount = new_total;
    if campaign.current_amount >= campaign.target_amount {
        campaign.is_successful = true;
    }
    Ok(ContributionMade {
        campaign: ctx.campaign,
        contributor: ctx.contributor,
        amount,
        total_raised: campaign.current_amount,
    })
}

/// What `withdraw_funds` reads from its surroundings: the campaign's
/// identity, the verified identity of the requester, the clock, and the
/// balance the external custodian reports for the campaign's vault.
#[derive(Clone, Copy, Debug, PartialEq, Eq, Structural)]
pub struct WithdrawFunds {
    /// Identity of the campaign whose vault is to be paid out.
    pub campaign: AccountId,
    /// Verified identity of the requester; must be the creator.
    pub creator: AccountId,
    /// The clock reading, in epoch seconds, used for every check.
    pub now: i64,
    /// The vault's balance as the custodian reports it.
    pub vault_balance: u64,
}

/// Pays the whole vault balance out to the creator: marks the campaign
/// withdrawn and returns the event carrying the transfer to perform. The
/// flag flip and the transfer must be committed as one unit; on any error
/// the record is untouched.
///
/// Withdrawal is allowed on a campaign that merely ended, successful or
/// not. On an ended, unsuccessful campaign refunds are allowed too, and
/// both paths draw on the same vault; nothing here arbitrates between them,
/// the balance is simply read from the custodian per call.
pub fn withdraw_funds(ctx: WithdrawFunds, campaign: &mut Campaign) -> (r: Result<
    FundsWithdrawn,
    CrowdfundingError,
>)
    ensures
        r is Ok <==> withdraw_error(*old(campaign), ctx.creator, ctx.now, ctx.vault_balance)
            is None,
        r matches Err(e) ==> {
            &&& withdraw_error(*old(campaign), ctx.creator, ctx.now, ctx.vault_balance) == Some(e)
            &&& *final(campaign) == *old(campaign)
        },
        r matches Ok(event) ==> {
            &&& *final(campaign) == withdraw_ok_campaign(*old(campaign))
            &&& !old(campaign).is_withdrawn
            &&& event == (FundsWithdrawn {
                campaign: ctx.campaign,
                creator: old(campaign).creator,
                amount: ctx.vault_balance,
            })
        },
        old(campaign).is_withdrawn ==> final(campaign).is_withdrawn,
        final(campaign).is_successful == old(campaign).is_successful,
        old(campaign).wf() ==> final(campaign).wf(),
{
    if campaign.creator != ctx.creator {
        return Err(CrowdfundingError::UnauthorizedWithdrawal);
    }
    if !(campaign.is_successful || ctx.now >= campaign.end_time) {
        return Err(CrowdfundingError::WithdrawalConditionsNotMet);
    }
    if campaign.is_withdrawn {
        return Err(CrowdfundingError::AlreadyWithdrawn);
    }
    if ctx.vault_balance == 0 {
        return Err(CrowdfundingError::NoFundsToWithdraw);
    }
    campaign.is_withdrawn = true;
    Ok(FundsWithdrawn { campaign: ctx.campaign, creator: campaign.creator, amount: ctx.vault_balance })
}

/// What `refund_contribution` reads from its surroundings: the identities
/// of the campaign and the contributor, and the clock.
#[derive(Clone, Copy, Debug, PartialEq, Eq, Structural)]
pub struct RefundContribution {
    /// Identity of the campaign the pledge was made to.
    pub campaign: AccountId,
    /// Verified identity of the contributor taking the pledge back.
    pub contributor: AccountId,
    /// The clock reading, in epoch seconds, used for every check.
    pub now: i64,
}

/// Returns a contributor's whole remaining pledge: zeroes the record, takes
/// the refunded amount back out of the campaign's running total — the total
/// counts only outstanding, non-refunded pledges — and returns the event
/// carrying the transfer to perform. The commit and the transfer must be one
/// unit; on any error both records are untouched.
pub fn refund_contribution(
    ctx: RefundContribution,
    campaign: &mut Campaign,
    contribution: &mut Contribution,
) -> (r: Result<ContributionRefunded, CrowdfundingError>)
    requires
        old(contribution).keyed(ctx.campaign, ctx.contributor),
        old(contribution).amount <= old(campaign).current_amount,
    ensures
        r is Ok <==> refund_error(*old(campaign), *old(contribution), ctx.now) is None,
        r matches Err(e) ==> {
            &&& refund_error(*old(campaign), *old(contribution), ctx.now) == Some(e)
            &&& *final(campaign) == *old(campaign)
            &&& *final(contribution) == *old(contribution)
        },
        r matches Ok(event) ==> {
            &&& *final(campaign) == refund_ok_campaign(*old(campaign), old(contribution).amount)
            &&& *final(contribution) == refund_ok_contribution(*old(contribution))
            &&& old(contribution).amount > 0
            &&& event == (ContributionRefunded {
                campaign: ctx.campaign,
                contributor: ctx.contributor,
                amount: old(contribution).amount,
            })
        },
        final(campaign).is_successful == old(campaign).is_successful,
        final(campaign).is_withdrawn == old(campaign).is_withdrawn,
        final(campaign).contributors_count == old(campaign).contributors_count,
        old(campaign).wf() ==> final(campaign).wf(),
{
    if ctx.now < campaign.end_time {
        return Err(CrowdfundingError::CampaignStillActive);
    }
    if campaign.is_successful {
        return Err(CrowdfundingError::CampaignWasSuccessful);
    }
    if contribution.amount == 0 {
        return Err(CrowdfundingError::NoContributionToRefund);
    }
    let refund_amount = contribution.amount;
    contribution.amount = 0;
    campaign.current_amount = campaign.current_amount - refund_amount;
    Ok(ContributionRefunded {
        campaign: ctx.campaign,
        contributor: ctx.contributor,
        amount: refund_amount,
    })
}

} // verus!
