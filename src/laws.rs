use vstd::prelude::*;

use crate::backers::{
    amounts_positive, find, keys_unique, lemma_entry_le_total, lemma_find, lemma_find_index,
    lemma_total_push, lemma_total_update, pledge_of, total, AccountId,
};
use crate::campaign::{
    add_pledge, after_pledge, after_refund, perk_fires, CampaignModel, CampaignState, Error,
};
use crate::contract::StellarPledgeContract;

verus! {

proof fn lemma_add_pledge(m: CampaignModel, backer: AccountId, amount: u128)
    requires
        m.wf(),
        amount > 0,
        m.pledged + amount <= u128::MAX,
    ensures
        keys_unique(add_pledge(m.backers, backer, amount)),
        amounts_positive(add_pledge(m.backers, backer, amount)),
        total(add_pledge(m.backers, backer, amount)) == m.pledged + amount,
        pledge_of(add_pledge(m.backers, backer, amount), backer) == pledge_of(m.backers, backer)
            + amount,
{
    let s = m.backers;
    let i = find(s, backer);
    lemma_find(s, backer);
    let t = add_pledge(s, backer, amount);
    if i >= 0 {
        lemma_entry_le_total(s, i);
        lemma_total_update(s, i, (backer, (s[i].1 + amount) as u128));
        assert(keys_unique(t));
        lemma_find_index(t, i);
    } else {
        lemma_total_push(s, (backer, amount));
        assert(keys_unique(t));
        lemma_find_index(t, s.len() as int);
    }
}

/// In every campaign of a consistent store, `pledged` is the sum of what the
/// backers have pledged.
pub proof fn pledged_matches_backers(store: &StellarPledgeContract, id: int)
    requires
        store.wf(),
        0 <= id < store@.len(),
    ensures
        store@[id].pledged == total(store@[id].backers),
{
    assert(store@[id].wf());
}

/// An accepted pledge keeps the campaign consistent and adds the amount to
/// the backer's cumulative pledge.
pub proof fn pledge_keeps_campaign_consistent(
    m: CampaignModel,
    backer: AccountId,
    amount: u128,
    now: u64,
    m1: CampaignModel,
)
    requires
        m.wf(),
        after_pledge(m, backer, amount, now) == Ok::<CampaignModel, Error>(m1),
    ensures
        m1.wf(),
        pledge_of(m1.backers, backer) == pledge_of(m.backers, backer) + amount,
{
    lemma_add_pledge(m, backer, amount);
}

/// Two accepted pledges by one backer add up in that backer's entry.
pub proof fn pledges_accumulate(
    m: CampaignModel,
    backer: AccountId,
    a: u128,
    b: u128,
    t1: u64,
    t2: u64,
    m1: CampaignModel,
    m2: CampaignModel,
)
    requires
        m.wf(),
        after_pledge(m, backer, a, t1) == Ok::<CampaignModel, Error>(m1),
        after_pledge(m1, backer, b, t2) == Ok::<CampaignModel, Error>(m2),
    ensures
        pledge_of(m2.backers, backer) == pledge_of(m.backers, backer) + a + b,
{
    pledge_keeps_campaign_consistent(m, backer, a, t1, m1);
    pledge_keeps_campaign_consistent(m1, backer, b, t2, m2);
}

/// The pledge that brings the total to the goal makes the campaign
/// successful; one that stays below leaves it active.
pub proof fn pledge_reaching_goal_succeeds(
    m: CampaignModel,
    backer: AccountId,
    amount: u128,
    now: u64,
    m1: CampaignModel,
)
    requires
        m.wf(),
        after_pledge(m, backer, amount, now) == Ok::<CampaignModel, Error>(m1),
    ensures
        m1.pledged == m.pledged + amount,
        m1.pledged >= m.goal ==> m1.state == CampaignState::Successful,
        m1.pledged < m.goal ==> m1.state == CampaignState::Active,
{
}

/// A refund removes the backer's entry, so a second refund is refused.
pub proof fn refund_only_once(m: CampaignModel, backer: AccountId, m1: CampaignModel)
    requires
        m.wf(),
        after_refund(m, backer) == Ok::<CampaignModel, Error>(m1),
    ensures
        pledge_of(m1.backers, backer) == 0,
        after_refund(m1, backer) == Err::<CampaignModel, Error>(Error::NoPledgeToRefund),
{
    let i = find(m.backers, backer);
    lemma_find(m.backers, backer);
    assert forall|j: int| 0 <= j < m1.backers.len() implies m1.backers[j].0 != backer by {
        if j < i {
            assert(m1.backers[j] == m.backers[j]);
        } else {
            assert(m1.backers[j] == m.backers[j + 1]);
        }
    }
    lemma_find(m1.backers, backer);
}

/// The perk reaches a backer once: after the pledge that crosses the
/// threshold, no later pledge of theirs crosses it again.
pub proof fn perk_fires_once(
    m: CampaignModel,
    backer: AccountId,
    a1: u128,
    t1: u64,
    m1: CampaignModel,
    a2: u128,
)
    requires
        m.wf(),
        after_pledge(m, backer, a1, t1) == Ok::<CampaignModel, Error>(m1),
        perk_fires(m, backer, a1),
    ensures
        !perk_fires(m1, backer, a2),
{
    pledge_keeps_campaign_consistent(m, backer, a1, t1, m1);
}

} // verus!
