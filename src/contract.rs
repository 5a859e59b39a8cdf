use vstd::prelude::*;

use crate::backers::AccountId;
use crate::campaign::{
    after_claim, after_finalize, after_pledge, after_refund, claim_transfer, created,
    pledge_transfers, refund_transfer, AssetId, Campaign, CampaignModel, CampaignState, Error,
    Transfer,
};

verus! {

/// Keys under which a host store keeps the records of the contract.
#[derive(Clone, Copy, Debug, PartialEq, Eq, Structural)]
pub enum StorageKey {
    Campaigns(u64),
    CampaignCounter,
}

/// All campaigns, by identifier. Identifiers are dense from 0: the next
/// identifier is the number of campaigns, and records are never removed.
pub struct StellarPledgeContract {
    campaigns: Vec<Campaign>,
}

impl View for StellarPledgeContract {
    type V = Seq<CampaignModel>;

    closed spec fn view(&self) -> Seq<CampaignModel> {
        self.campaigns@.map_values(|c: Campaign| c@)
    }
}

impl StellarPledgeContract {
    pub open spec fn wf(&self) -> bool {
        &&& self@.len() <= u64::MAX
        &&& forall|i: int| 0 <= i < self@.len() ==> #[trigger] self@[i].wf()
    }

    /// A store with no campaigns.
    pub fn new() -> (r: Self)
        ensures
            r.wf(),
            r@ == Seq::<CampaignModel>::empty(),
    {
        let r = StellarPledgeContract { campaigns: Vec::new() };
        assert(r@ =~= Seq::<CampaignModel>::empty());
        r
    }

    /// The identifier that the next campaign will get.
    pub fn campaign_count(&self) -> (r: u64)
        requires
            self.wf(),
        ensures
            r == self@.len(),
    {
        self.campaigns.len() as u64
    }

    pub fn create_campaign(
        &mut self,
        creator: AccountId,
        goal: u128,
        deadline: u64,
        now: u64,
        perk_threshold: u128,
        perk_asset: Option<AssetId>,
        perk_amount: i128,
    ) -> (r: Result<u64, Error>)
        requires
            old(self).wf(),
            old(self)@.len() < u64::MAX,
        ensures
            final(self).wf(),
            match r {
                Ok(id) => id == old(self)@.len() && final(self)@.len() == id + 1 && final(self)@ == old(self)@.push(final(self)@[id as int]) && created(
                    creator,
                    goal,
                    deadline,
                    now,
                    perk_threshold,
                    perk_asset,
                    perk_amount,
                ) == Ok::<CampaignModel, Error>(final(self)@[id as int]),
                Err(e) => created(
                    creator,
                    goal,
                    deadline,
                    now,
                    perk_threshold,
                    perk_asset,
                    perk_amount,
                ) == Err::<CampaignModel, Error>(e) && final(self)@ == old(self)@,
            },
    {
        let c = Campaign::new(
            creator,
            goal,
            deadline,
            now,
            perk_threshold,
            perk_asset,
            perk_amount,
        )?;
        let id = self.campaigns.len() as u64;
        self.campaigns.push(c);
        assert(self@ =~= old(self)@.push(self@[id as int]));
        Ok(id)
    }

    pub fn pledge(
        &mut self,
        backer: AccountId,
        campaign_id: u64,
        amount: u128,
        asset: AssetId,
        now: u64,
    ) -> (r: Result<Vec<Transfer>, Error>)
        requires
            old(self).wf(),
        ensures
            final(self).wf(),
            amount == 0 ==> r == Err::<Vec<Transfer>, Error>(Error::PledgeAmountZero) && final(self)@ == old(self)@,
            amount != 0 && campaign_id >= old(self)@.len() ==> r == Err::<Vec<Transfer>, Error>(
                Error::CampaignNotFound,
            ) && final(self)@ == old(self)@,
            campaign_id < old(self)@.len() ==> match r {
                Ok(t) => after_pledge(old(self)@[campaign_id as int], backer, amount, now) == Ok::<
                    CampaignModel,
                    Error,
                >(final(self)@[campaign_id as int]) && final(self)@ == old(self)@.update(
                    campaign_id as int,
                    final(self)@[campaign_id as int],
                ) && t@ == pledge_transfers(old(self)@[campaign_id as int], backer, amount, asset),
                Err(e) => after_pledge(old(self)@[campaign_id as int], backer, amount, now)
                    == Err::<CampaignModel, Error>(e) && final(self)@ == old(self)@,
            },
    {
        if amount == 0 {
            return Err(Error::PledgeAmountZero);
        }
        if campaign_id >= self.campaigns.len() as u64 {
            return Err(Error::CampaignNotFound);
        }
        let i = campaign_id as usize;
        proof {
            assert(self.campaigns@[i as int]@ == self@[i as int]);
            assert(self@[i as int].wf());
        }
        let r = self.campaigns[i].pledge(backer, amount, asset, now);
        assert(self@ =~= old(self)@.update(i as int, self@[i as int]));
        r
    }

    pub fn claim_funds(&mut self, creator: AccountId, campaign_id: u64, asset: AssetId) -> (r:
        Result<Transfer, Error>)
        requires
            old(self).wf(),
        ensures
            final(self).wf(),
            campaign_id >= old(self)@.len() ==> r == Err::<Transfer, Error>(Error::CampaignNotFound)
                && final(self)@ == old(self)@,
            campaign_id < old(self)@.len() ==> match r {
                Ok(t) => after_claim(old(self)@[campaign_id as int], creator) == Ok::<
                    CampaignModel,
                    Error,
                >(final(self)@[campaign_id as int]) && final(self)@ == old(self)@.update(
                    campaign_id as int,
                    final(self)@[campaign_id as int],
                ) && t == claim_transfer(old(self)@[campaign_id as int], asset),
                Err(e) => after_claim(old(self)@[campaign_id as int], creator) == Err::<
                    CampaignModel,
                    Error,
                >(e) && final(self)@ == old(self)@,
            },
    {
        if campaign_id >= self.campaigns.len() as u64 {
            return Err(Error::CampaignNotFound);
        }
        let i = campaign_id as usize;
        proof {
            assert(self.campaigns@[i as int]@ == self@[i as int]);
            assert(self@[i as int].wf());
        }
        let r = self.campaigns[i].claim(creator, asset);
        assert(self@ =~= old(self)@.update(i as int, self@[i as int]));
        r
    }

    pub fn withdraw_refund(&mut self, backer: AccountId, campaign_id: u64, asset: AssetId) -> (r:
        Result<Transfer, Error>)
        requires
            old(self).wf(),
        ensures
            final(self).wf(),
            campaign_id >= old(self)@.len() ==> r == Err::<Transfer, Error>(Error::CampaignNotFound)
                && final(self)@ == old(self)@,
            campaign_id < old(self)@.len() ==> match r {
                Ok(t) => after_refund(old(self)@[campaign_id as int], backer) == Ok::<
                    CampaignModel,
                    Error,
                >(final(self)@[campaign_id as int]) && final(self)@ == old(self)@.update(
                    campaign_id as int,
                    final(self)@[campaign_id as int],
                ) && t == refund_transfer(old(self)@[campaign_id as int], backer, asset),
                Err(e) => after_refund(old(self)@[campaign_id as int], backer) == Err::<
                    CampaignModel,
                    Error,
                >(e) && final(self)@ == old(self)@,
            },
    {
        if campaign_id >= self.campaigns.len() as u64 {
            return Err(Error::CampaignNotFound);
        }
        let i = campaign_id as usize;
        proof {
            assert(self.campaigns@[i as int]@ == self@[i as int]);
            assert(self@[i as int].wf());
        }
        let r = self.campaigns[i].refund(backer, asset);
        assert(self@ =~= old(self)@.update(i as int, self@[i as int]));
        r
    }

    /// Resolves campaign `campaign_id` once its deadline has passed; anyone
    /// may call it.
    pub fn finalize(&mut self, campaign_id: u64, now: u64) -> (r: Result<CampaignState, Error>)
        requires
            old(self).wf(),
        ensures
            final(self).wf(),
            campaign_id >= old(self)@.len() ==> r == Err::<CampaignState, Error>(
                Error::CampaignNotFound,
            ) && final(self)@ == old(self)@,
            campaign_id < old(self)@.len() ==> match r {
                Ok(st) => after_finalize(old(self)@[campaign_id as int], now) == Ok::<
                    CampaignModel,
                    Error,
                >(final(self)@[campaign_id as int]) && final(self)@ == old(self)@.update(
                    campaign_id as int,
                    final(self)@[campaign_id as int],
                ) && st == final(self)@[campaign_id as int].state,
                Err(e) => after_finalize(old(self)@[campaign_id as int], now) == Err::<
                    CampaignModel,
                    Error,
                >(e) && final(self)@ == old(self)@,
            },
    {
        if campaign_id >= self.campaigns.len() as u64 {
            return Err(Error::CampaignNotFound);
        }
        let i = campaign_id as usize;
        proof {
            assert(self.campaigns@[i as int]@ == self@[i as int]);
            assert(self@[i as int].wf());
        }
        let r = self.campaigns[i].finalize(now);
        assert(self@ =~= old(self)@.update(i as int, self@[i as int]));
        r
    }

    pub fn get_campaign(&self, campaign_id: u64) -> (r: Result<Campaign, Error>)
        requires
            self.wf(),
        ensures
            campaign_id >= self@.len() ==> r is Err && r->Err_0 == Error::CampaignNotFound,
            campaign_id < self@.len() ==> r is Ok && r->Ok_0@ == self@[campaign_id as int],
    {
        if campaign_id >= self.campaigns.len() as u64 {
            return Err(Error::CampaignNotFound);
        }
        let i = campaign_id as usize;
        assert(self.campaigns@[i as int]@ == self@[i as int]);
        Ok(self.campaigns[i].snapshot())
    }
}

} // verus!
