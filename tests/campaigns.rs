use stellar_pledge::{
    Campaign, CampaignState, Error, Party, PerkConfig, StellarPledgeContract, Transfer,
};

const CREATOR: u64 = 1;
const ALICE: u64 = 2;
const BOB: u64 = 3;
const TOKEN: u64 = 100;
const REWARD: u64 = 200;
const NOW: u64 = 1_000;
const DEADLINE: u64 = 2_000;

fn store_with(goal: u128, perk_threshold: u128, perk_amount: i128) -> StellarPledgeContract {
    let mut s = StellarPledgeContract::new();
    let id = s
        .create_campaign(CREATOR, goal, DEADLINE, NOW, perk_threshold, Some(REWARD), perk_amount)
        .unwrap();
    assert_eq!(id, 0);
    s
}

fn escrow(from: u64, amount: u128) -> Transfer {
    Transfer { asset: TOKEN, from: Party::Account(from), to: Party::Escrow, amount }
}

fn amount_of(c: &Campaign, who: u64) -> Option<u128> {
    c.backers.iter().find(|e| e.0 == who).map(|e| e.1)
}

fn sum_of(c: &Campaign) -> u128 {
    c.backers.iter().map(|e| e.1).sum()
}

#[test]
fn create_assigns_dense_ids() {
    let mut s = StellarPledgeContract::new();
    assert_eq!(s.campaign_count(), 0);
    assert_eq!(s.create_campaign(CREATOR, 100, DEADLINE, NOW, 0, None, 0), Ok(0));
    assert_eq!(s.create_campaign(BOB, 5, DEADLINE, NOW, 0, None, 0), Ok(1));
    assert_eq!(s.campaign_count(), 2);
    let c = s.get_campaign(1).unwrap();
    assert_eq!(c.creator, BOB);
    assert_eq!(c.goal, 5);
    assert_eq!(c.pledged, 0);
    assert_eq!(c.deadline, DEADLINE);
    assert_eq!(c.state, CampaignState::Active);
    assert!(c.backers.is_empty());
    assert_eq!(c.perk, None);
    assert!(!c.claimed);
}

#[test]
fn create_with_zero_goal_fails() {
    let mut s = StellarPledgeContract::new();
    assert_eq!(
        s.create_campaign(CREATOR, 0, DEADLINE, NOW, 0, None, 0),
        Err(Error::InvalidGoalAmount)
    );
    // checked before the deadline
    assert_eq!(s.create_campaign(CREATOR, 0, NOW, NOW, 0, None, 0), Err(Error::InvalidGoalAmount));
    assert_eq!(s.campaign_count(), 0);
    assert_eq!(s.get_campaign(0).err(), Some(Error::CampaignNotFound));
}

#[test]
fn create_with_past_deadline_fails() {
    let mut s = StellarPledgeContract::new();
    assert_eq!(s.create_campaign(CREATOR, 10, NOW, NOW, 0, None, 0), Err(Error::DeadlineInThePast));
    assert_eq!(
        s.create_campaign(CREATOR, 10, NOW - 1, NOW, 0, None, 0),
        Err(Error::DeadlineInThePast)
    );
    assert_eq!(s.campaign_count(), 0);
    assert_eq!(s.create_campaign(CREATOR, 10, NOW + 1, NOW, 0, None, 0), Ok(0));
}

#[test]
fn perk_attached_only_when_complete() {
    let mut s = StellarPledgeContract::new();
    s.create_campaign(CREATOR, 10, DEADLINE, NOW, 50, Some(REWARD), 7).unwrap();
    s.create_campaign(CREATOR, 10, DEADLINE, NOW, 0, Some(REWARD), 7).unwrap();
    s.create_campaign(CREATOR, 10, DEADLINE, NOW, 50, None, 7).unwrap();
    s.create_campaign(CREATOR, 10, DEADLINE, NOW, 50, Some(REWARD), 0).unwrap();
    s.create_campaign(CREATOR, 10, DEADLINE, NOW, 50, Some(REWARD), -3).unwrap();
    assert_eq!(
        s.get_campaign(0).unwrap().perk,
        Some(PerkConfig { threshold: 50, asset: REWARD, amount: 7 })
    );
    for id in 1..5 {
        assert_eq!(s.get_campaign(id).unwrap().perk, None);
    }
}

#[test]
fn pledge_of_zero_fails() {
    let mut s = store_with(100, 0, 0);
    assert_eq!(s.pledge(ALICE, 0, 0, TOKEN, NOW), Err(Error::PledgeAmountZero));
    // checked before the lookup
    assert_eq!(s.pledge(ALICE, 9, 0, TOKEN, NOW), Err(Error::PledgeAmountZero));
    assert_eq!(s.get_campaign(0).unwrap().pledged, 0);
}

#[test]
fn pledge_to_missing_campaign_fails() {
    let mut s = store_with(100, 0, 0);
    assert_eq!(s.pledge(ALICE, 1, 10, TOKEN, NOW), Err(Error::CampaignNotFound));
    assert_eq!(s.pledge(ALICE, u64::MAX, 10, TOKEN, NOW), Err(Error::CampaignNotFound));
}

#[test]
fn pledge_after_deadline_fails() {
    let mut s = store_with(100, 0, 0);
    assert_eq!(s.pledge(ALICE, 0, 10, TOKEN, DEADLINE), Err(Error::CampaignEnded));
    assert_eq!(s.pledge(ALICE, 0, 10, TOKEN, DEADLINE + 5), Err(Error::CampaignEnded));
    let c = s.get_campaign(0).unwrap();
    assert_eq!(c.pledged, 0);
    assert!(c.backers.is_empty());
    assert_eq!(s.pledge(ALICE, 0, 10, TOKEN, DEADLINE - 1), Ok(vec![escrow(ALICE, 10)]));
}

#[test]
fn pledge_to_resolved_campaign_fails() {
    let mut s = store_with(100, 0, 0);
    s.pledge(ALICE, 0, 100, TOKEN, NOW).unwrap();
    assert_eq!(s.pledge(BOB, 0, 10, TOKEN, NOW), Err(Error::CampaignEnded));
    let c = s.get_campaign(0).unwrap();
    assert_eq!(c.pledged, 100);
    assert_eq!(amount_of(&c, BOB), None);
}

#[test]
fn pledge_that_would_overflow_fails() {
    let mut s = store_with(u128::MAX, 0, 0);
    s.pledge(ALICE, 0, u128::MAX - 10, TOKEN, NOW).unwrap();
    assert_eq!(s.pledge(BOB, 0, 11, TOKEN, NOW), Err(Error::AmountOverflow));
    assert_eq!(s.get_campaign(0).unwrap().pledged, u128::MAX - 10);
    s.pledge(BOB, 0, 10, TOKEN, NOW).unwrap();
    assert_eq!(s.get_campaign(0).unwrap().state, CampaignState::Successful);
}

#[test]
fn pledges_from_one_backer_accumulate() {
    let mut s = store_with(1_000, 0, 0);
    assert_eq!(s.pledge(ALICE, 0, 30, TOKEN, NOW), Ok(vec![escrow(ALICE, 30)]));
    assert_eq!(s.pledge(ALICE, 0, 40, TOKEN, NOW), Ok(vec![escrow(ALICE, 40)]));
    let c = s.get_campaign(0).unwrap();
    assert_eq!(amount_of(&c, ALICE), Some(70));
    assert_eq!(c.backers.len(), 1);
    assert_eq!(c.pledged, 70);
}

#[test]
fn goal_reached_exactly_succeeds() {
    let mut s = store_with(100, 0, 0);
    s.pledge(ALICE, 0, 60, TOKEN, NOW).unwrap();
    assert_eq!(s.get_campaign(0).unwrap().state, CampaignState::Active);
    s.pledge(BOB, 0, 40, TOKEN, NOW).unwrap();
    assert_eq!(s.get_campaign(0).unwrap().state, CampaignState::Successful);
}

#[test]
fn goal_missed_by_one_stays_active() {
    let mut s = store_with(100, 0, 0);
    s.pledge(ALICE, 0, 60, TOKEN, NOW).unwrap();
    s.pledge(BOB, 0, 39, TOKEN, NOW).unwrap();
    let c = s.get_campaign(0).unwrap();
    assert_eq!(c.pledged, 99);
    assert_eq!(c.state, CampaignState::Active);
}

#[test]
fn pledged_is_sum_of_backers() {
    let mut s = store_with(1_000, 0, 0);
    s.pledge(ALICE, 0, 5, TOKEN, NOW).unwrap();
    s.pledge(BOB, 0, 7, TOKEN, NOW).unwrap();
    s.pledge(ALICE, 0, 11, TOKEN, NOW).unwrap();
    let c = s.get_campaign(0).unwrap();
    assert_eq!(c.pledged, 23);
    assert_eq!(sum_of(&c), 23);
    s.finalize(0, DEADLINE).unwrap();
    s.withdraw_refund(BOB, 0, TOKEN).unwrap();
    let c = s.get_campaign(0).unwrap();
    assert_eq!(c.pledged, 16);
    assert_eq!(sum_of(&c), 16);
}

#[test]
fn creator_claims_exactly_pledged() {
    let mut s = store_with(100, 0, 0);
    s.pledge(ALICE, 0, 70, TOKEN, NOW).unwrap();
    s.pledge(BOB, 0, 50, TOKEN, NOW).unwrap();
    assert_eq!(
        s.claim_funds(CREATOR, 0, TOKEN),
        Ok(Transfer { asset: TOKEN, from: Party::Escrow, to: Party::Account(CREATOR), amount: 120 })
    );
    assert!(s.get_campaign(0).unwrap().claimed);
}

#[test]
fn claim_by_other_than_creator_fails() {
    let mut s = store_with(100, 0, 0);
    s.pledge(ALICE, 0, 100, TOKEN, NOW).unwrap();
    assert_eq!(s.claim_funds(ALICE, 0, TOKEN), Err(Error::NotTheCreator));
    assert!(!s.get_campaign(0).unwrap().claimed);
}

#[test]
fn claim_on_unsuccessful_campaign_fails() {
    let mut s = store_with(100, 0, 0);
    s.pledge(ALICE, 0, 10, TOKEN, NOW).unwrap();
    assert_eq!(s.claim_funds(CREATOR, 0, TOKEN), Err(Error::CampaignNotSuccessful));
    s.finalize(0, DEADLINE).unwrap();
    assert_eq!(s.claim_funds(CREATOR, 0, TOKEN), Err(Error::CampaignNotSuccessful));
    assert_eq!(s.claim_funds(CREATOR, 3, TOKEN), Err(Error::CampaignNotFound));
}

#[test]
fn second_claim_fails() {
    let mut s = store_with(100, 0, 0);
    s.pledge(ALICE, 0, 100, TOKEN, NOW).unwrap();
    s.claim_funds(CREATOR, 0, TOKEN).unwrap();
    assert_eq!(s.claim_funds(CREATOR, 0, TOKEN), Err(Error::FundsAlreadyClaimed));
}

#[test]
fn refund_returns_recorded_pledge_once() {
    let mut s = store_with(100, 0, 0);
    s.pledge(ALICE, 0, 30, TOKEN, NOW).unwrap();
    s.pledge(ALICE, 0, 12, TOKEN, NOW).unwrap();
    s.pledge(BOB, 0, 8, TOKEN, NOW).unwrap();
    assert_eq!(s.finalize(0, DEADLINE), Ok(CampaignState::Failed));
    assert_eq!(
        s.withdraw_refund(ALICE, 0, TOKEN),
        Ok(Transfer { asset: TOKEN, from: Party::Escrow, to: Party::Account(ALICE), amount: 42 })
    );
    let c = s.get_campaign(0).unwrap();
    assert_eq!(amount_of(&c, ALICE), None);
    assert_eq!(amount_of(&c, BOB), Some(8));
    assert_eq!(c.pledged, 8);
    assert_eq!(s.withdraw_refund(ALICE, 0, TOKEN), Err(Error::NoPledgeToRefund));
    assert_eq!(s.withdraw_refund(CREATOR, 0, TOKEN), Err(Error::NoPledgeToRefund));
}

#[test]
fn refund_on_campaign_not_failed_fails() {
    let mut s = store_with(100, 0, 0);
    s.pledge(ALICE, 0, 30, TOKEN, NOW).unwrap();
    assert_eq!(s.withdraw_refund(ALICE, 0, TOKEN), Err(Error::CampaignNotFailed));
    s.pledge(BOB, 0, 70, TOKEN, NOW).unwrap();
    assert_eq!(s.withdraw_refund(ALICE, 0, TOKEN), Err(Error::CampaignNotFailed));
    assert_eq!(s.withdraw_refund(ALICE, 1, TOKEN), Err(Error::CampaignNotFound));
    assert_eq!(amount_of(&s.get_campaign(0).unwrap(), ALICE), Some(30));
}

#[test]
fn finalize_resolves_after_deadline_only() {
    let mut s = store_with(100, 0, 0);
    assert_eq!(s.finalize(0, DEADLINE - 1), Err(Error::CampaignStillActive));
    assert_eq!(s.get_campaign(0).unwrap().state, CampaignState::Active);
    assert_eq!(s.finalize(0, DEADLINE), Ok(CampaignState::Failed));
    assert_eq!(s.finalize(0, DEADLINE + 100), Ok(CampaignState::Failed));
    assert_eq!(s.finalize(1, DEADLINE), Err(Error::CampaignNotFound));
}

#[test]
fn finalize_leaves_successful_campaign() {
    let mut s = store_with(100, 0, 0);
    s.pledge(ALICE, 0, 150, TOKEN, NOW).unwrap();
    assert_eq!(s.finalize(0, NOW), Ok(CampaignState::Successful));
    assert_eq!(s.finalize(0, DEADLINE), Ok(CampaignState::Successful));
    assert_eq!(s.get_campaign(0).unwrap().state, CampaignState::Successful);
}

#[test]
fn perk_fires_once_on_crossing() {
    let mut s = store_with(1_000, 100, 5);
    let perk =
        Transfer { asset: REWARD, from: Party::Account(CREATOR), to: Party::Account(ALICE), amount: 5 };
    assert_eq!(s.pledge(ALICE, 0, 60, TOKEN, NOW), Ok(vec![escrow(ALICE, 60)]));
    assert_eq!(s.pledge(ALICE, 0, 50, TOKEN, NOW), Ok(vec![escrow(ALICE, 50), perk]));
    assert_eq!(s.pledge(ALICE, 0, 10, TOKEN, NOW), Ok(vec![escrow(ALICE, 10)]));
    assert_eq!(amount_of(&s.get_campaign(0).unwrap(), ALICE), Some(120));
}

#[test]
fn perk_fires_on_first_pledge_at_threshold() {
    let mut s = store_with(1_000, 100, 5);
    let perk =
        Transfer { asset: REWARD, from: Party::Account(CREATOR), to: Party::Account(BOB), amount: 5 };
    assert_eq!(s.pledge(BOB, 0, 100, TOKEN, NOW), Ok(vec![escrow(BOB, 100), perk]));
    assert_eq!(s.pledge(ALICE, 0, 99, TOKEN, NOW), Ok(vec![escrow(ALICE, 99)]));
}

#[test]
fn no_perk_without_configuration() {
    let mut s = StellarPledgeContract::new();
    s.create_campaign(CREATOR, 1_000, DEADLINE, NOW, 100, None, 5).unwrap();
    assert_eq!(s.pledge(ALICE, 0, 500, TOKEN, NOW), Ok(vec![escrow(ALICE, 500)]));
}

#[test]
fn campaign_record_operations() {
    let mut c = Campaign::new(CREATOR, 10, DEADLINE, NOW, 0, None, 0).unwrap();
    assert_eq!(c.pledge(ALICE, 4, TOKEN, NOW), Ok(vec![escrow(ALICE, 4)]));
    let copy = c.snapshot();
    assert_eq!(c.finalize(DEADLINE), Ok(CampaignState::Failed));
    assert_eq!(copy.state, CampaignState::Active);
    assert_eq!(copy.backers, vec![(ALICE, 4)]);
    assert_eq!(c.refund(ALICE, TOKEN).map(|t| t.amount), Ok(4));
    assert_eq!(c.pledged, 0);
    assert_eq!(c.claim(CREATOR, TOKEN), Err(Error::CampaignNotSuccessful));
    assert_eq!(Campaign::new(CREATOR, 0, DEADLINE, NOW, 0, None, 0).err(), Some(Error::InvalidGoalAmount));
}

fn record(backers: Vec<(u64, u128)>, pledged: u128, state: CampaignState) -> Campaign {
    Campaign {
        creator: CREATOR,
        goal: 100,
        pledged,
        deadline: DEADLINE,
        state,
        backers,
        perk: None,
        claimed: false,
    }
}

#[test]
fn consistent_records_accepted() {
    assert!(record(vec![], 0, CampaignState::Active).is_consistent());
    assert!(record(vec![(ALICE, 30), (BOB, 20)], 50, CampaignState::Active).is_consistent());
    assert!(record(vec![(ALICE, 30)], 30, CampaignState::Failed).is_consistent());
    let mut c = record(vec![(ALICE, 100)], 100, CampaignState::Successful);
    c.claimed = true;
    assert!(c.is_consistent());
    let mut s = store_with(100, 10, 1);
    s.pledge(ALICE, 0, 40, TOKEN, NOW).unwrap();
    assert!(s.get_campaign(0).unwrap().is_consistent());
}

#[test]
fn inconsistent_records_rejected() {
    // total differs from the entries
    assert!(!record(vec![(ALICE, 30), (BOB, 20)], 40, CampaignState::Active).is_consistent());
    assert!(!record(vec![(ALICE, 30)], 31, CampaignState::Active).is_consistent());
    // repeated backer
    assert!(!record(vec![(ALICE, 30), (ALICE, 20)], 50, CampaignState::Active).is_consistent());
    // empty entry
    assert!(!record(vec![(ALICE, 0)], 0, CampaignState::Active).is_consistent());
    // state against the goal
    assert!(!record(vec![(ALICE, 100)], 100, CampaignState::Active).is_consistent());
    assert!(!record(vec![(ALICE, 99)], 99, CampaignState::Successful).is_consistent());
    // claimed before success
    let mut c = record(vec![], 0, CampaignState::Failed);
    c.claimed = true;
    assert!(!c.is_consistent());
    // zero goal and half-empty perk
    let mut c = record(vec![], 0, CampaignState::Failed);
    c.goal = 0;
    assert!(!c.is_consistent());
    let mut c = record(vec![], 0, CampaignState::Active);
    c.perk = Some(PerkConfig { threshold: 0, asset: REWARD, amount: 5 });
    assert!(!c.is_consistent());
}
