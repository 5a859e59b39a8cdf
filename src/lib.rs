//! Escrow engine for crowdfunding campaigns: creation, pledging with an
//! optional reward for large backers, resolution, and settlement.
//!
//! Every operation is a deterministic step on plain values. Identity checks,
//! the clock and asset transfers belong to the host: operations take the
//! authenticated caller and the current time as arguments, and return the
//! transfers that the host must carry out for the step to commit.
//!
//! Choices where the lifecycle leaves room:
//! - an active campaign past its deadline is resolved by `finalize`, to
//!   `Failed` (or `Successful` if the goal was met);
//! - the perk reaches a backer once, on the pledge that takes their
//!   cumulative pledge from below the threshold to at least the threshold;
//! - the perk transfer is part of the pledge: if the host cannot perform it,
//!   the pledge fails as a whole;
//! - the creator claims the funds once (`claimed`);
//! - a refund lowers `pledged` with the backer's entry, so that `pledged`
//!   stays the sum of the entries.

mod backers;
mod campaign;
mod contract;
mod laws;

pub use backers::{
    amounts_positive, find, find_entry, keys_unique, pledge_of, total, AccountId, Entry,
};
pub use campaign::{
    add_pledge, after_claim, after_finalize, after_pledge, after_refund, claim_transfer, created,
    perk_fires, perk_of, perk_valid, pledge_transfers, refund_transfer, AssetId, Campaign,
    CampaignModel, CampaignState, Error, Party, PerkConfig, Transfer,
};
pub use contract::{StellarPledgeContract, StorageKey};
pub use laws::{
    perk_fires_once, pledge_keeps_campaign_consistent, pledge_reaching_goal_succeeds,
    pledged_matches_backers, pledges_accumulate, refund_only_once,
};
