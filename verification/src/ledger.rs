//! Laws relating a campaign record to the full collection of its
//! contribution records. The storage substrate keeps one record per
//! (campaign, contributor) pair, externally to this crate; a snapshot of all
//! records of one campaign is modelled here as a sequence, and the laws say
//! what each operation does to the sums and counts over that snapshot.

use vstd::prelude::*;

use crate::account::AccountId;
use crate::campaign::Campaign;
use crate::campaign::withdraw_error;
use crate::campaign::withdraw_ok_campaign;
use crate::contribution::Contribution;
use crate::contribution::refund_error;
use crate::contribution::refund_ok_campaign;
use crate::contribution::refund_ok_contribution;
use crate::errors::CrowdfundingError;
use crate::escrow::contribute_error;
use crate::escrow::contribute_ok_campaign;
use crate::escrow::contribute_ok_contribution;

verus! {

/// The sum of all pledges in a snapshot of one campaign's contribution
/// records. Zero-amount records add nothing, so this is also the sum of the
/// non-zero pledges.
pub open spec fn sum_amounts(records: Seq<Contribution>) -> int
    decreases records.len(),
{
    if records.len() == 0 {
        0
    } else {
        sum_amounts(records.drop_last()) + records.last().amount
    }
}

/// How many records of a snapshot hold a positive pledge.
pub open spec fn count_funded(records: Seq<Contribution>) -> int
    decreases records.len(),
{
    if records.len() == 0 {
        0
    } else {
        count_funded(records.drop_last()) + if records.last().amount > 0 {
            1int
        } else {
            0int
        }
    }
}

/// A sum of pledges is never negative.
pub proof fn lemma_sum_nonneg(records: Seq<Contribution>)
    ensures
        sum_amounts(records) >= 0,
    decreases records.len(),
{
    if records.len() > 0 {
        lemma_sum_nonneg(records.drop_last());
    }
}

/// No single pledge exceeds the sum of all of them.
pub proof fn lemma_sum_element_bound(records: Seq<Contribution>, i: int)
    requires
        0 <= i < records.len(),
    ensures
        records[i].amount <= sum_amounts(records),
    decreases records.len(),
{
    if i == records.len() - 1 {
        lemma_sum_nonneg(records.drop_last());
    } else {
        lemma_sum_element_bound(records.drop_last(), i);
    }
}

/// Replacing one record changes the sum by exactly the difference of that
/// record's pledge.
pub proof fn lemma_sum_update(records: Seq<Contribution>, i: int, record: Contribution)
    requires
        0 <= i < records.len(),
    ensures
        sum_amounts(records.update(i, record)) == sum_amounts(records) - records[i].amount
            + record.amount,
    decreases records.len(),
{
    if i == records.len() - 1 {
        assert(records.update(i, record).drop_last() =~= records.drop_last());
    } else {
        lemma_sum_update(records.drop_last(), i, record);
        assert(records.update(i, record).drop_last() =~= records.drop_last().update(i, record));
        assert(records.update(i, record).last() == records.last());
    }
}

/// Replacing one record changes the funded count by the difference of the
/// two records' zero tests.
pub proof fn lemma_count_update(records: Seq<Contribution>, i: int, record: Contribution)
    requires
        0 <= i < records.len(),
    ensures
        count_funded(records.update(i, record)) == count_funded(records) - (
        if records[i].amount > 0 {
            1int
        } else {
            0int
        }) + (
        if record.amount > 0 {
            1int
        } else {
            0int
        }),
    decreases records.len(),
{
    if i == records.len() - 1 {
        assert(records.update(i, record).drop_last() =~= records.drop_last());
    } else {
        lemma_count_update(records.drop_last(), i, record);
        assert(records.update(i, record).drop_last() =~= records.drop_last().update(i, record));
        assert(records.update(i, record).last() == records.last());
    }
}

/// Law: a campaign starts with straight books. Creation persists no
/// contribution record, and the empty snapshot's sum and count are the zero
/// running total and zero contributor count of the new record.
pub proof fn lemma_new_campaign_books()
    ensures
        sum_amounts(Seq::<Contribution>::empty()) == 0,
        count_funded(Seq::<Contribution>::empty()) == 0,
{
}

/// Law: a contribution keeps the campaign's books straight. If, before the
/// operation, the running total equals the sum of the campaign's pledges and
/// the contributor count equals the number of positive pledges, then both
/// equalities hold again after the contribution updates one record and the
/// campaign.
pub proof fn lemma_contribute_preserves_accounting(
    campaign: Campaign,
    records: Seq<Contribution>,
    i: int,
    campaign_id: AccountId,
    contributor: AccountId,
    amount: u64,
    now: i64,
)
    requires
        0 <= i < records.len(),
        contribute_error(campaign, records[i], amount, now) is None,
        records[i].amount == 0 ==> campaign.contributors_count < u32::MAX,
        sum_amounts(records) == campaign.current_amount,
        count_funded(records) == campaign.contributors_count,
    ensures
        sum_amounts(
            records.update(i, contribute_ok_contribution(records[i], campaign_id, contributor, amount)),
        ) == contribute_ok_campaign(campaign, records[i].amount, amount).current_amount,
        count_funded(
            records.update(i, contribute_ok_contribution(records[i], campaign_id, contributor, amount)),
        ) == contribute_ok_campaign(campaign, records[i].amount, amount).contributors_count,
{
    let updated = contribute_ok_contribution(records[i], campaign_id, contributor, amount);
    lemma_sum_update(records, i, updated);
    lemma_count_update(records, i, updated);
}

/// Law: a refund keeps the campaign's books straight. If the running total
/// equals the sum of the campaign's pledges before the operation, it does
/// again after the refund zeroes one record and takes the same amount out of
/// the total. The funded count drops by one while `contributors_count` stays:
/// the latter counts contributors ever funded and is deliberately never
/// decremented.
pub proof fn lemma_refund_preserves_accounting(
    campaign: Campaign,
    records: Seq<Contribution>,
    i: int,
    now: i64,
)
    requires
        0 <= i < records.len(),
        refund_error(campaign, records[i], now) is None,
        sum_amounts(records) == campaign.current_amount,
    ensures
        sum_amounts(records.update(i, refund_ok_contribution(records[i])))
            == refund_ok_campaign(campaign, records[i].amount).current_amount,
        count_funded(records.update(i, refund_ok_contribution(records[i]))) == count_funded(records)
            - 1,
        refund_ok_campaign(campaign, records[i].amount).contributors_count
            == campaign.contributors_count,
{
    let updated = refund_ok_contribution(records[i]);
    lemma_sum_element_bound(records, i);
    lemma_sum_update(records, i, updated);
    lemma_count_update(records, i, updated);
}

/// One allowed move of a campaign record: it is left alone (creation and
/// every refused operation do not touch it), one pledge is recorded against
/// some contribution record, one outstanding pledge is refunded, or the
/// vault is paid out.
pub open spec fn campaign_step(pre: Campaign, post: Campaign) -> bool {
    ||| post == pre
    ||| (exists |record: Contribution, amount: u64, now: i64|
        contribute_error(pre, record, amount, now) is None && (record.amount == 0
            ==> pre.contributors_count < u32::MAX) && post == contribute_ok_campaign(
            pre,
            record.amount,
            amount,
        ))
    ||| (exists |record: Contribution, now: i64|
        refund_error(pre, record, now) is None && record.amount <= pre.current_amount && post
            == refund_ok_campaign(pre, record.amount))
    ||| (exists |requester: AccountId, now: i64, balance: u64|
        withdraw_error(pre, requester, now, balance) is None && post == withdraw_ok_campaign(pre))
}

/// A successful contribution is one allowed move of the campaign record.
pub proof fn lemma_contribute_is_step(
    pre: Campaign,
    record: Contribution,
    amount: u64,
    now: i64,
)
    requires
        contribute_error(pre, record, amount, now) is None,
        record.amount == 0 ==> pre.contributors_count < u32::MAX,
    ensures
        campaign_step(pre, contribute_ok_campaign(pre, record.amount, amount)),
{
    let post = contribute_ok_campaign(pre, record.amount, amount);
    assert(contribute_error(pre, record, amount, now) is None && (record.amount == 0
        ==> pre.contributors_count < u32::MAX) && post == contribute_ok_campaign(
        pre,
        record.amount,
        amount,
    ));
}

/// A successful refund is one allowed move of the campaign record.
pub proof fn lemma_refund_is_step(pre: Campaign, record: Contribution, now: i64)
    requires
        refund_error(pre, record, now) is None,
        record.amount <= pre.current_amount,
    ensures
        campaign_step(pre, refund_ok_campaign(pre, record.amount)),
{
    let post = refund_ok_campaign(pre, record.amount);
    assert(refund_error(pre, record, now) is None && record.amount <= pre.current_amount && post
        == refund_ok_campaign(pre, record.amount));
}

/// A successful withdrawal is one allowed move of the campaign record.
pub proof fn lemma_withdraw_is_step(
    pre: Campaign,
    requester: AccountId,
    now: i64,
    vault_balance: u64,
)
    requires
        withdraw_error(pre, requester, now, vault_balance) is None,
    ensures
        campaign_step(pre, withdraw_ok_campaign(pre)),
{
    assert(withdraw_error(pre, requester, now, vault_balance) is None && withdraw_ok_campaign(pre)
        == withdraw_ok_campaign(pre));
}

/// Law: over any allowed move, the two flags only ever go from false to
/// true — success, once recorded, is never cleared, and neither is the
/// payout — the contributor count never goes down, and the identity, the
/// metadata, the target and the deadline of the campaign never change at
/// all.
pub proof fn lemma_step_monotone(pre: Campaign, post: Campaign)
    requires
        pre.wf(),
        campaign_step(pre, post),
    ensures
        pre.is_successful ==> post.is_successful,
        pre.is_withdrawn ==> post.is_withdrawn,
        pre.contributors_count <= post.contributors_count,
        post.creator == pre.creator,
        post.title == pre.title,
        post.description == pre.description,
        post.target_amount == pre.target_amount,
        post.start_time == pre.start_time,
        post.end_time == pre.end_time,
{
}

/// Law: the vault is paid out at most once. After a withdrawal succeeds, no
/// later withdrawal can: whoever asks, whenever, and whatever the custodian
/// then reports, the operation is refused — and a requester who is the
/// creator and meets the timing conditions is told the funds were already
/// withdrawn.
pub proof fn lemma_withdraw_at_most_once(
    campaign: Campaign,
    requester: AccountId,
    now: i64,
    vault_balance: u64,
    later_requester: AccountId,
    later_now: i64,
    later_balance: u64,
)
    requires
        withdraw_error(campaign, requester, now, vault_balance) is None,
    ensures
        withdraw_error(withdraw_ok_campaign(campaign), later_requester, later_now, later_balance)
            is Some,
        (later_requester == campaign.creator && (campaign.is_successful || later_now
            >= campaign.end_time)) ==> withdraw_error(
            withdraw_ok_campaign(campaign),
            later_requester,
            later_now,
            later_balance,
        ) == Some(CrowdfundingError::AlreadyWithdrawn),
{
}

/// Law: success is final. A campaign that has reached its target accepts no
/// further pledge, so its running total — equal to the target — and its
/// success flag can never change again; a refund is refused on a successful
/// campaign, and a withdrawal only sets the payout flag.
pub proof fn lemma_successful_campaign_accepts_no_pledge(
    campaign: Campaign,
    contribution: Contribution,
    amount: u64,
    now: i64,
)
    requires
        campaign.wf(),
        campaign.is_successful,
    ensures
        contribute_error(campaign, contribution, amount, now) is Some,
{
}

/// Law: a refunded pledge cannot be refunded again. Zeroing the record is
/// exactly what makes a second refund fail, whatever clock reading the later
/// call is handed.
pub proof fn lemma_refund_at_most_once(
    campaign: Campaign,
    contribution: Contribution,
    now: i64,
    later_now: i64,
)
    requires
        refund_error(campaign, contribution, now) is None,
    ensures
        refund_error(campaign, refund_ok_contribution(contribution), later_now) is Some,
        later_now >= campaign.end_time ==> refund_error(
            campaign,
            refund_ok_contribution(contribution),
            later_now,
        ) == Some(CrowdfundingError::NoContributionToRefund),
{
}

} // verus!
