use vstd::prelude::*;

use crate::backers::{
    amounts_positive, find, find_entry, keys_unique, lemma_entry_le_total, lemma_find,
    lemma_total_prefix, lemma_total_push, lemma_total_remove, lemma_total_update, pledge_of, total, AccountId, Entry,
};

verus! {

/// Identity of the asset contract that a transfer moves.
pub type AssetId = u64;

#[derive(Clone, Copy, Debug, PartialEq, Eq, Structural)]
pub enum Error {
    InvalidGoalAmount,
    DeadlineInThePast,
    CampaignNotFound,
    CampaignEnded,
    PledgeAmountZero,
    NotTheCreator,
    CampaignStillActive,
    CampaignNotSuccessful,
    CampaignNotFailed,
    PerkTransferFailed,
    /// A refund was asked by an account that holds no pledge.
    NoPledgeToRefund,
    /// The creator has already claimed the funds of this campaign.
    FundsAlreadyClaimed,
    /// The pledge would take the campaign total past `u128::MAX`.
    AmountOverflow,
}

#[derive(Clone, Copy, Debug, PartialEq, Eq, Structural)]
pub enum CampaignState {
    Active,
    Successful,
    Failed,
}

/// Reward paid by the creator to each backer whose cumulative pledge reaches
/// `threshold`.
#[derive(Clone, Copy, Debug, PartialEq, Eq, Structural)]
pub struct PerkConfig {
    pub threshold: u128,
    pub asset: AssetId,
    pub amount: i128,
}

/// One side of a transfer: the campaign escrow, or an account.
#[derive(Clone, Copy, Debug, PartialEq, Eq, Structural)]
pub enum Party {
    Escrow,
    Account(AccountId),
}

/// A movement of `amount` units of `asset` that the host must perform.
#[derive(Clone, Copy, Debug, PartialEq, Eq, Structural)]
pub struct Transfer {
    pub asset: AssetId,
    pub from: Party,
    pub to: Party,
    pub amount: u128,
}

#[derive(Debug)]
pub struct Campaign {
    pub creator: AccountId,
    pub goal: u128,
    pub pledged: u128,
    pub deadline: u64,
    pub state: CampaignState,
    /// Cumulative pledge of each backer, in order of first pledge.
    pub backers: Vec<Entry>,
    pub perk: Option<PerkConfig>,
    /// Set once the creator has taken the escrowed funds.
    pub claimed: bool,
}

/// Mathematical value of a [`Campaign`].
pub struct CampaignModel {
    pub creator: AccountId,
    pub goal: u128,
    pub pledged: u128,
    pub deadline: u64,
    pub state: CampaignState,
    pub backers: Seq<Entry>,
    pub perk: Option<PerkConfig>,
    pub claimed: bool,
}

impl View for Campaign {
    type V = CampaignModel;

    open spec fn view(&self) -> CampaignModel {
        CampaignModel {
            creator: self.creator,
            goal: self.goal,
            pledged: self.pledged,
            deadline: self.deadline,
            state: self.state,
            backers: self.backers@,
            perk: self.perk,
            claimed: self.claimed,
        }
    }
}

pub open spec fn perk_valid(perk: Option<PerkConfig>) -> bool {
    perk matches Some(p) ==> p.threshold > 0 && p.amount > 0
}

impl CampaignModel {
    /// The invariant of every campaign record.
    pub open spec fn wf(self) -> bool {
        &&& self.goal > 0
        &&& keys_unique(self.backers)
        &&& amounts_positive(self.backers)
        &&& self.pledged == total(self.backers)
        &&& self.state == CampaignState::Active ==> self.pledged < self.goal
        &&& self.state == CampaignState::Successful ==> self.pledged >= self.goal
        &&& self.claimed ==> self.state == CampaignState::Successful
        &&& perk_valid(self.perk)
    }

    pub open spec fn with_state(self, state: CampaignState) -> CampaignModel {
        CampaignModel { state, ..self }
    }
}

/// The perk attached at creation: present only when every part is given
/// and positive.
pub open spec fn perk_of(threshold: u128, asset: Option<AssetId>, amount: i128) -> Option<
    PerkConfig,
> {
    if threshold > 0 && asset is Some && amount > 0 {
        Some(PerkConfig { threshold, asset: asset->0, amount })
    } else {
        None
    }
}

pub open spec fn created(
    creator: AccountId,
    goal: u128,
    deadline: u64,
    now: u64,
    perk_threshold: u128,
    perk_asset: Option<AssetId>,
    perk_amount: i128,
) -> Result<CampaignModel, Error> {
    if goal == 0 {
        Err(Error::InvalidGoalAmount)
    } else if deadline <= now {
        Err(Error::DeadlineInThePast)
    } else {
        Ok(
            CampaignModel {
                creator,
                goal,
                pledged: 0,
                deadline,
                state: CampaignState::Active,
                backers: Seq::empty(),
                perk: perk_of(perk_threshold, perk_asset, perk_amount),
                claimed: false,
            },
        )
    }
}

/// The ledger after `backer` adds `amount`: their entry grows, or a new
/// entry is appended.
pub open spec fn add_pledge(s: Seq<Entry>, backer: AccountId, amount: u128) -> Seq<Entry> {
    let i = find(s, backer);
    if i >= 0 {
        s.update(i, (backer, (s[i].1 + amount) as u128))
    } else {
        s.push((backer, amount))
    }
}

/// The pledge of `amount` takes `backer`'s cumulative pledge from below the
/// perk threshold to at least the threshold.
pub open spec fn perk_fires(m: CampaignModel, backer: AccountId, amount: u128) -> bool {
    match m.perk {
        Some(p) => pledge_of(m.backers, backer) < p.threshold <= pledge_of(m.backers, backer)
            + amount,
        None => false,
    }
}

pub open spec fn after_pledge(m: CampaignModel, backer: AccountId, amount: u128, now: u64) -> Result<
    CampaignModel,
    Error,
> {
    if amount == 0 {
        Err(Error::PledgeAmountZero)
    } else if now >= m.deadline || m.state != CampaignState::Active {
        Err(Error::CampaignEnded)
    } else if m.pledged + amount > u128::MAX {
        Err(Error::AmountOverflow)
    } else {
        let pledged = (m.pledged + amount) as u128;
        Ok(
            CampaignModel {
                pledged,
                backers: add_pledge(m.backers, backer, amount),
                state: if pledged >= m.goal {
                    CampaignState::Successful
                } else {
                    CampaignState::Active
                },
                ..m
            },
        )
    }
}

/// Transfers of an accepted pledge: the pledge into escrow, then the perk
/// from the creator when it fires.
pub open spec fn pledge_transfers(
    m: CampaignModel,
    backer: AccountId,
    amount: u128,
    asset: AssetId,
) -> Seq<Transfer> {
    let escrow = Transfer { asset, from: Party::Account(backer), to: Party::Escrow, amount };
    if perk_fires(m, backer, amount) {
        let p = m.perk->0;
        seq![
            escrow,
            Transfer {
                asset: p.asset,
                from: Party::Account(m.creator),
                to: Party::Account(backer),
                amount: p.amount as u128,
            },
        ]
    } else {
        seq![escrow]
    }
}

pub open spec fn after_claim(m: CampaignModel, caller: AccountId) -> Result<CampaignModel, Error> {
    if caller != m.creator {
        Err(Error::NotTheCreator)
    } else if m.state != CampaignState::Successful {
        Err(Error::CampaignNotSuccessful)
    } else if m.claimed {
        Err(Error::FundsAlreadyClaimed)
    } else {
        Ok(CampaignModel { claimed: true, ..m })
    }
}

pub open spec fn claim_transfer(m: CampaignModel, asset: AssetId) -> Transfer {
    Transfer { asset, from: Party::Escrow, to: Party::Account(m.creator), amount: m.pledged }
}

pub open spec fn after_refund(m: CampaignModel, backer: AccountId) -> Result<CampaignModel, Error> {
    if m.state != CampaignState::Failed {
        Err(Error::CampaignNotFailed)
    } else if find(m.backers, backer) < 0 {
        Err(Error::NoPledgeToRefund)
    } else {
        Ok(
            CampaignModel {
                pledged: (m.pledged - pledge_of(m.backers, backer)) as u128,
                backers: m.backers.remove(find(m.backers, backer)),
                ..m
            },
        )
    }
}

pub open spec fn refund_transfer(m: CampaignModel, backer: AccountId, asset: AssetId) -> Transfer {
    Transfer {
        asset,
        from: Party::Escrow,
        to: Party::Account(backer),
        amount: pledge_of(m.backers, backer) as u128,
    }
}

/// Resolution once the deadline has passed; a resolved campaign stays as it is.
pub open spec fn after_finalize(m: CampaignModel, now: u64) -> Result<CampaignModel, Error> {
    if m.state != CampaignState::Active {
        Ok(m)
    } else if now < m.deadline {
        Err(Error::CampaignStillActive)
    } else if m.pledged >= m.goal {
        Ok(m.with_state(CampaignState::Successful))
    } else {
        Ok(m.with_state(CampaignState::Failed))
    }
}

impl Campaign {
    pub open spec fn wf(&self) -> bool {
        self@.wf()
    }

    /// Tells whether this record meets the campaign invariant, as a record
    /// read back from a store must before any operation on it.
    pub fn is_consistent(&self) -> (r: bool)
        ensures
            r == self.wf(),
    {
        if self.goal == 0 {
            return false;
        }
        if let Some(p) = self.perk {
            if p.threshold == 0 || p.amount <= 0 {
                return false;
            }
        }
        if self.claimed && self.state != CampaignState::Successful {
            return false;
        }
        match self.state {
            CampaignState::Active => {
                if self.pledged >= self.goal {
                    return false;
                }
            },
            CampaignState::Successful => {
                if self.pledged < self.goal {
                    return false;
                }
            },
            CampaignState::Failed => {},
        }
        let ghost s = self.backers@;
        let mut sum: u128 = 0;
        let mut i: usize = 0;
        while i < self.backers.len()
            invariant
                i <= s.len(),
                s == self.backers@,
                sum == total(s.subrange(0, i as int)),
                sum <= self.pledged,
                keys_unique(s.subrange(0, i as int)),
                amounts_positive(s.subrange(0, i as int)),
            decreases s.len() - i,
        {
            let (key, amount) = self.backers[i];
            assert(s.subrange(0, i + 1).drop_last() =~= s.subrange(0, i as int));
            if amount == 0 {
                assert(!amounts_positive(s));
                return false;
            }
            if amount > self.pledged - sum {
                proof {
                    lemma_total_prefix(s, i + 1);
                }
                return false;
            }
            let mut j: usize = 0;
            while j < i
                invariant
                    j <= i < s.len(),
                    s == self.backers@,
                    key == s[i as int].0,
                    forall|k: int| 0 <= k < j ==> s[k].0 != key,
                decreases i - j,
            {
                if self.backers[j].0 == key {
                    assert(!keys_unique(s));
                    return false;
                }
                j = j + 1;
            }
            sum = sum + amount;
            i = i + 1;
            assert(keys_unique(s.subrange(0, i as int)));
            assert(amounts_positive(s.subrange(0, i as int)));
        }
        assert(s.subrange(0, i as int) =~= s);
        sum == self.pledged
    }

    /// An independent copy of this record.
    pub fn snapshot(&self) -> (r: Campaign)
        ensures
            r@ == self@,
    {
        let mut backers: Vec<Entry> = Vec::new();
        let mut i: usize = 0;
        while i < self.backers.len()
            invariant
                i <= self.backers@.len(),
                backers@ == self.backers@.subrange(0, i as int),
            decreases self.backers@.len() - i,
        {
            backers.push(self.backers[i]);
            i = i + 1;
            assert(backers@ =~= self.backers@.subrange(0, i as int));
        }
        assert(backers@ =~= self.backers@);
        Campaign {
            creator: self.creator,
            goal: self.goal,
            pledged: self.pledged,
            deadline: self.deadline,
            state: self.state,
            backers,
            perk: self.perk,
            claimed: self.claimed,
        }
    }

    /// A new active campaign with no backers. The perk is attached only when
    /// its threshold, asset and amount are all given and positive.
    pub fn new(
        creator: AccountId,
        goal: u128,
        deadline: u64,
        now: u64,
        perk_threshold: u128,
        perk_asset: Option<AssetId>,
        perk_amount: i128,
    ) -> (r: Result<Campaign, Error>)
        ensures
            match r {
                Ok(c) => created(
                    creator,
                    goal,
                    deadline,
                    now,
                    perk_threshold,
                    perk_asset,
                    perk_amount,
                ) == Ok::<CampaignModel, Error>(c@) && c.wf(),
                Err(e) => created(
                    creator,
                    goal,
                    deadline,
                    now,
                    perk_threshold,
                    perk_asset,
                    perk_amount,
                ) == Err::<CampaignModel, Error>(e),
            },
    {
        if goal == 0 {
            return Err(Error::InvalidGoalAmount);
        }
        if deadline <= now {
            return Err(Error::DeadlineInThePast);
        }
        let perk = match perk_asset {
            Some(asset) if perk_threshold > 0 && perk_amount > 0 => Some(
                PerkConfig { threshold: perk_threshold, asset, amount: perk_amount },
            ),
            _ => None,
        };
        let c = Campaign {
            creator,
            goal,
            pledged: 0,
            deadline,
            state: CampaignState::Active,
            backers: Vec::new(),
            perk,
            claimed: false,
        };
        assert(c@.backers =~= Seq::<Entry>::empty());
        Ok(c)
    }

    /// Records a pledge of `amount` by `backer` at time `now`, and returns
    /// the transfers that carry it out.
    pub fn pledge(&mut self, backer: AccountId, amount: u128, asset: AssetId, now: u64) -> (r:
        Result<Vec<Transfer>, Error>)
        requires
            old(self).wf(),
        ensures
            final(self).wf(),
            match r {
                Ok(t) => after_pledge(old(self)@, backer, amount, now) == Ok::<
                    CampaignModel,
                    Error,
                >(final(self)@) && t@ == pledge_transfers(old(self)@, backer, amount, asset),
                Err(e) => after_pledge(old(self)@, backer, amount, now) == Err::<
                    CampaignModel,
                    Error,
                >(e) && final(self)@ == old(self)@,
            },
    {
        if amount == 0 {
            return Err(Error::PledgeAmountZero);
        }
        if now >= self.deadline || self.state != CampaignState::Active {
            return Err(Error::CampaignEnded);
        }
        if amount > u128::MAX - self.pledged {
            return Err(Error::AmountOverflow);
        }
        let ghost m = self@;
        let mut transfers: Vec<Transfer> = Vec::new();
        transfers.push(Transfer { asset, from: Party::Account(backer), to: Party::Escrow, amount });
        let previous: u128;
        match find_entry(&self.backers, backer) {
            Some(i) => {
                previous = self.backers[i].1;
                proof {
                    lemma_entry_le_total(m.backers, i as int);
                    lemma_total_update(m.backers, i as int, (backer, (previous + amount) as u128));
                }
                self.backers.set(i, (backer, previous + amount));
            },
            None => {
                previous = 0;
                proof {
                    lemma_find(m.backers, backer);
                    lemma_total_push(m.backers, (backer, amount));
                }
                self.backers.push((backer, amount));
            },
        }
        let now_total = previous + amount;
        self.pledged = self.pledged + amount;
        if let Some(p) = self.perk {
            if previous < p.threshold && now_total >= p.threshold {
                transfers.push(
                    Transfer {
                        asset: p.asset,
                        from: Party::Account(self.creator),
                        to: Party::Account(backer),
                        amount: p.amount as u128,
                    },
                );
            }
        }
        if self.pledged >= self.goal {
            self.state = CampaignState::Successful;
        }
        assert(self@.backers =~= add_pledge(m.backers, backer, amount));
        assert(transfers@ =~= pledge_transfers(m, backer, amount, asset));
        Ok(transfers)
    }

    /// The creator takes the escrowed total of a successful campaign, once.
    pub fn claim(&mut self, caller: AccountId, asset: AssetId) -> (r: Result<Transfer, Error>)
        requires
            old(self).wf(),
        ensures
            final(self).wf(),
            match r {
                Ok(t) => after_claim(old(self)@, caller) == Ok::<CampaignModel, Error>(
                    final(self)@,
                ) && t == claim_transfer(old(self)@, asset),
                Err(e) => after_claim(old(self)@, caller) == Err::<CampaignModel, Error>(e)
                    && final(self)@ == old(self)@,
            },
    {
        if caller != self.creator {
            return Err(Error::NotTheCreator);
        }
        if self.state != CampaignState::Successful {
            return Err(Error::CampaignNotSuccessful);
        }
        if self.claimed {
            return Err(Error::FundsAlreadyClaimed);
        }
        self.claimed = true;
        Ok(Transfer { asset, from: Party::Escrow, to: Party::Account(caller), amount: self.pledged })
    }

    /// A backer of a failed campaign takes back everything they pledged.
    pub fn refund(&mut self, backer: AccountId, asset: AssetId) -> (r: Result<Transfer, Error>)
        requires
            old(self).wf(),
        ensures
            final(self).wf(),
            match r {
                Ok(t) => after_refund(old(self)@, backer) == Ok::<CampaignModel, Error>(
                    final(self)@,
                ) && t == refund_transfer(old(self)@, backer, asset),
                Err(e) => after_refund(old(self)@, backer) == Err::<CampaignModel, Error>(e)
                    && final(self)@ == old(self)@,
            },
    {
        if self.state != CampaignState::Failed {
            return Err(Error::CampaignNotFailed);
        }
        match find_entry(&self.backers, backer) {
            None => Err(Error::NoPledgeToRefund),
            Some(i) => {
                let ghost m = self@;
                let amount = self.backers[i].1;
                proof {
                    lemma_entry_le_total(m.backers, i as int);
                    lemma_total_remove(m.backers, i as int);
                }
                self.backers.remove(i);
                self.pledged = self.pledged - amount;
                assert(keys_unique(self@.backers));
                Ok(Transfer { asset, from: Party::Escrow, to: Party::Account(backer), amount })
            },
        }
    }

    /// Resolves an active campaign whose deadline has passed.
    pub fn finalize(&mut self, now: u64) -> (r: Result<CampaignState, Error>)
        requires
            old(self).wf(),
        ensures
            final(self).wf(),
            match r {
                Ok(st) => after_finalize(old(self)@, now) == Ok::<CampaignModel, Error>(
                    final(self)@,
                ) && st == final(self).state,
                Err(e) => after_finalize(old(self)@, now) == Err::<CampaignModel, Error>(e)
                    && final(self)@ == old(self)@,
            },
    {
        if self.state != CampaignState::Active {
            return Ok(self.state);
        }
        if now < self.deadline {
            return Err(Error::CampaignStillActive);
        }
        if self.pledged >= self.goal {
            self.state = CampaignState::Successful;
        } else {
            self.state = CampaignState::Failed;
        }
        Ok(self.state)
    }
}

} // verus!
