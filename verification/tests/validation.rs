use crowdfunding::account::AccountId;
use crowdfunding::campaign::Campaign;
use crowdfunding::contribution::Contribution;
use crowdfunding::errors::CrowdfundingError;
use crowdfunding::errors::ErrorKind;
use crowdfunding::escrow::Contribute;
use crowdfunding::escrow::InitializeCampaign;
use crowdfunding::escrow::RefundContribution;
use crowdfunding::escrow::WithdrawFunds;
use crowdfunding::escrow::contribute;
use crowdfunding::escrow::initialize_campaign;
use crowdfunding::escrow::refund_contribution;
use crowdfunding::escrow::withdraw_funds;

const CAMPAIGN: AccountId = AccountId { id: 7 };
const CREATOR: AccountId = AccountId { id: 1 };
const ALICE: AccountId = AccountId { id: 2 };

fn create(
    title: String,
    description: String,
    target: u64,
    duration_days: u64,
) -> Result<Campaign, CrowdfundingError> {
    let ctx = InitializeCampaign { campaign: CAMPAIGN, creator: CREATOR, now: 50_000 };
    initialize_campaign(ctx, title, description, target, duration_days).map(|(campaign, _)| campaign)
}

fn fresh_record() -> Contribution {
    Contribution { contributor: AccountId { id: 0 }, campaign: AccountId { id: 0 }, amount: 0 }
}

#[test]
fn title_may_have_a_hundred_characters_but_no_more() {
    assert!(create("a".repeat(100), String::from("d"), 1000, 30).is_ok());
    let err = create("a".repeat(101), String::from("d"), 1000, 30).unwrap_err();
    assert_eq!(err, CrowdfundingError::TitleTooLong);
    assert_eq!(err.kind(), ErrorKind::Validation);
    assert_eq!(err.message(), "Campaign title is too long (max 100 characters)");
}

#[test]
fn description_may_have_five_hundred_characters_but_no_more() {
    assert!(create(String::from("t"), "d".repeat(500), 1000, 30).is_ok());
    let err = create(String::from("t"), "d".repeat(501), 1000, 30).unwrap_err();
    assert_eq!(err, CrowdfundingError::DescriptionTooLong);
    assert_eq!(err.message(), "Campaign description is too long (max 500 characters)");
}

#[test]
fn target_must_be_positive() {
    let err = create(String::from("t"), String::from("d"), 0, 30).unwrap_err();
    assert_eq!(err, CrowdfundingError::InvalidTargetAmount);
    assert_eq!(err.kind(), ErrorKind::Validation);
}

#[test]
fn duration_must_be_between_one_and_a_year() {
    assert!(create(String::from("t"), String::from("d"), 1000, 1).is_ok());
    assert!(create(String::from("t"), String::from("d"), 1000, 365).is_ok());
    let err = create(String::from("t"), String::from("d"), 1000, 0).unwrap_err();
    assert_eq!(err, CrowdfundingError::InvalidDuration);
    let err = create(String::from("t"), String::from("d"), 1000, 366).unwrap_err();
    assert_eq!(err, CrowdfundingError::InvalidDuration);
    assert_eq!(err.message(), "Invalid campaign duration (1-365 days)");
}

#[test]
fn pledges_need_an_open_campaign_and_a_positive_amount() {
    let mut campaign = create(String::from("t"), String::from("d"), 1000, 30).unwrap();
    let mut alice = fresh_record();
    let at_end = campaign.end_time;
    let ctx = Contribute { campaign: CAMPAIGN, contributor: ALICE, now: at_end };
    let err = contribute(ctx, &mut campaign, &mut alice, 100).unwrap_err();
    assert_eq!(err, CrowdfundingError::CampaignEnded);
    assert_eq!(err.kind(), ErrorKind::State);
    assert_eq!(err.message(), "Campaign has already ended");

    let ctx = Contribute { campaign: CAMPAIGN, contributor: ALICE, now: 60_000 };
    let err = contribute(ctx, &mut campaign, &mut alice, 0).unwrap_err();
    assert_eq!(err, CrowdfundingError::InvalidContributionAmount);
    assert_eq!(err.kind(), ErrorKind::Validation);
    assert_eq!(campaign.current_amount, 0);
    assert_eq!(alice.amount, 0);
}

#[test]
fn no_pledge_after_the_vault_was_paid_out() {
    let mut campaign = create(String::from("t"), String::from("d"), 1000, 30).unwrap();
    let mut alice = fresh_record();
    let ctx = Contribute { campaign: CAMPAIGN, contributor: ALICE, now: 60_000 };
    contribute(ctx, &mut campaign, &mut alice, 1000).expect("open");
    let wctx = WithdrawFunds { campaign: CAMPAIGN, creator: CREATOR, now: 61_000, vault_balance: 1000 };
    withdraw_funds(wctx, &mut campaign).expect("successful campaign");
    // Still before the deadline, but the vault is gone.
    let err = contribute(ctx, &mut campaign, &mut alice, 1).unwrap_err();
    assert_eq!(err, CrowdfundingError::CampaignAlreadyWithdrawn);
    assert_eq!(err.message(), "Campaign funds already withdrawn");
}

#[test]
fn running_total_overflow_is_refused() {
    let mut campaign = create(String::from("t"), String::from("d"), u64::MAX, 30).unwrap();
    let mut alice = fresh_record();
    let ctx = Contribute { campaign: CAMPAIGN, contributor: ALICE, now: 60_000 };
    contribute(ctx, &mut campaign, &mut alice, 5).expect("open");
    let err = contribute(ctx, &mut campaign, &mut alice, u64::MAX).unwrap_err();
    assert_eq!(err, CrowdfundingError::AmountOverflow);
    assert_eq!(err.kind(), ErrorKind::Arithmetic);
    assert_eq!(err.message(), "Amount overflow");
    assert_eq!(campaign.current_amount, 5);
    assert_eq!(alice.amount, 5);
}

#[test]
fn pledge_overflow_is_refused_before_anything_changes() {
    // A record holding nearly the whole range while the campaign's running
    // total is small: only the contributor's own sum would overflow.
    let mut campaign = Campaign {
        creator: CREATOR,
        title: String::from("t"),
        description: String::from("d"),
        target_amount: u64::MAX,
        current_amount: 5,
        start_time: 50_000,
        end_time: 52_000,
        is_successful: false,
        is_withdrawn: false,
        contributors_count: 1,
    };
    let mut alice = Contribution { contributor: ALICE, campaign: CAMPAIGN, amount: u64::MAX - 2 };
    let ctx = Contribute { campaign: CAMPAIGN, contributor: ALICE, now: 51_000 };
    let err = contribute(ctx, &mut campaign, &mut alice, 3).unwrap_err();
    assert_eq!(err, CrowdfundingError::AmountOverflow);
    assert_eq!(campaign.current_amount, 5);
    assert_eq!(alice.amount, u64::MAX - 2);
}

#[test]
fn only_the_creator_may_withdraw() {
    let mut campaign = create(String::from("t"), String::from("d"), 1000, 30).unwrap();
    let ctx = WithdrawFunds { campaign: CAMPAIGN, creator: ALICE, now: 60_000, vault_balance: 500 };
    let err = withdraw_funds(ctx, &mut campaign).unwrap_err();
    assert_eq!(err, CrowdfundingError::UnauthorizedWithdrawal);
    assert_eq!(err.kind(), ErrorKind::Authorization);
    assert_eq!(err.message(), "Unauthorized withdrawal");
    assert!(!campaign.is_withdrawn);
}

#[test]
fn an_empty_vault_yields_nothing() {
    let mut campaign = create(String::from("t"), String::from("d"), 1000, 30).unwrap();
    let after_end = campaign.end_time + 1;
    let ctx = WithdrawFunds { campaign: CAMPAIGN, creator: CREATOR, now: after_end, vault_balance: 0 };
    let err = withdraw_funds(ctx, &mut campaign).unwrap_err();
    assert_eq!(err, CrowdfundingError::NoFundsToWithdraw);
    assert_eq!(err.kind(), ErrorKind::Resource);
    assert_eq!(err.message(), "No funds to withdraw");
    assert!(!campaign.is_withdrawn);
}

#[test]
fn no_refund_while_the_campaign_runs() {
    let mut campaign = create(String::from("t"), String::from("d"), 1000, 30).unwrap();
    let mut alice = fresh_record();
    let ctx = Contribute { campaign: CAMPAIGN, contributor: ALICE, now: 60_000 };
    contribute(ctx, &mut campaign, &mut alice, 250).expect("open");
    let rctx = RefundContribution { campaign: CAMPAIGN, contributor: ALICE, now: 61_000 };
    let err = refund_contribution(rctx, &mut campaign, &mut alice).unwrap_err();
    assert_eq!(err, CrowdfundingError::CampaignStillActive);
    assert_eq!(err.kind(), ErrorKind::State);
    assert_eq!(err.message(), "Campaign is still active");
    assert_eq!(alice.amount, 250);
    assert_eq!(campaign.current_amount, 250);
}

#[test]
fn no_refund_from_a_successful_campaign() {
    let mut campaign = create(String::from("t"), String::from("d"), 1000, 30).unwrap();
    let mut alice = fresh_record();
    let ctx = Contribute { campaign: CAMPAIGN, contributor: ALICE, now: 60_000 };
    contribute(ctx, &mut campaign, &mut alice, 1000).expect("open");
    let rctx = RefundContribution {
        campaign: CAMPAIGN,
        contributor: ALICE,
        now: campaign.end_time + 1,
    };
    let err = refund_contribution(rctx, &mut campaign, &mut alice).unwrap_err();
    assert_eq!(err, CrowdfundingError::CampaignWasSuccessful);
    assert_eq!(err.kind(), ErrorKind::State);
    assert_eq!(err.message(), "Campaign was successful");
    assert_eq!(alice.amount, 1000);
    assert_eq!(campaign.current_amount, 1000);
}
