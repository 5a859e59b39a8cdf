use vstd::prelude::*;

verus! {

/// Identity of an account (a creator, a backer, or an asset contract).
pub type AccountId = u64;

/// One backer's cumulative pledge: the backer and the amount held for them.
pub type Entry = (AccountId, u128);

/// No account appears twice in the ledger.
pub open spec fn keys_unique(s: Seq<Entry>) -> bool {
    forall|i: int, j: int| 0 <= i < j < s.len() ==> s[i].0 != s[j].0
}

/// Every recorded pledge is positive.
pub open spec fn amounts_positive(s: Seq<Entry>) -> bool {
    forall|i: int| 0 <= i < s.len() ==> s[i].1 > 0
}

/// Sum of all recorded pledges.
pub open spec fn total(s: Seq<Entry>) -> int
    decreases s.len(),
{
    if s.len() == 0 {
        0
    } else {
        total(s.drop_last()) + s.last().1
    }
}

/// Position of `k`'s entry, or -1 when `k` has none.
pub open spec fn find(s: Seq<Entry>, k: AccountId) -> int
    decreases s.len(),
{
    if s.len() == 0 {
        -1
    } else if s.last().0 == k {
        s.len() - 1
    } else {
        find(s.drop_last(), k)
    }
}

/// What `k` has pledged in total (0 when `k` has no entry).
pub open spec fn pledge_of(s: Seq<Entry>, k: AccountId) -> int {
    if find(s, k) >= 0 {
        s[find(s, k)].1 as int
    } else {
        0
    }
}

pub proof fn lemma_find(s: Seq<Entry>, k: AccountId)
    ensures
        -1 <= find(s, k) < s.len(),
        find(s, k) >= 0 ==> s[find(s, k)].0 == k,
        find(s, k) == -1 <==> forall|i: int| 0 <= i < s.len() ==> s[i].0 != k,
    decreases s.len(),
{
    if s.len() > 0 {
        lemma_find(s.drop_last(), k);
        if s.last().0 != k && find(s, k) == -1 {
            assert forall|i: int| 0 <= i < s.len() implies s[i].0 != k by {
                if i < s.len() - 1 {
                    assert(s[i] == s.drop_last()[i]);
                }
            }
        }
    }
}

pub proof fn lemma_find_index(s: Seq<Entry>, i: int)
    requires
        keys_unique(s),
        0 <= i < s.len(),
    ensures
        find(s, s[i].0) == i,
    decreases s.len(),
{
    if i < s.len() - 1 {
        assert(s.drop_last()[i] == s[i]);
        lemma_find_index(s.drop_last(), i);
    }
}

pub proof fn lemma_total_nonneg(s: Seq<Entry>)
    ensures
        total(s) >= 0,
    decreases s.len(),
{
    if s.len() > 0 {
        lemma_total_nonneg(s.drop_last());
    }
}

pub proof fn lemma_total_push(s: Seq<Entry>, e: Entry)
    ensures
        total(s.push(e)) == total(s) + e.1,
{
    assert(s.push(e).drop_last() =~= s);
}

pub proof fn lemma_total_update(s: Seq<Entry>, i: int, e: Entry)
    requires
        0 <= i < s.len(),
    ensures
        total(s.update(i, e)) == total(s) - s[i].1 + e.1,
    decreases s.len(),
{
    let u = s.update(i, e);
    if i == s.len() - 1 {
        assert(u.drop_last() =~= s.drop_last());
    } else {
        assert(u.drop_last() =~= s.drop_last().update(i, e));
        lemma_total_update(s.drop_last(), i, e);
    }
}

pub proof fn lemma_total_remove(s: Seq<Entry>, i: int)
    requires
        0 <= i < s.len(),
    ensures
        total(s.remove(i)) == total(s) - s[i].1,
    decreases s.len(),
{
    let r = s.remove(i);
    if i == s.len() - 1 {
        assert(r =~= s.drop_last());
    } else {
        assert(r.drop_last() =~= s.drop_last().remove(i));
        lemma_total_remove(s.drop_last(), i);
    }
}

/// A prefix of the ledger holds at most the total.
pub proof fn lemma_total_prefix(s: Seq<Entry>, k: int)
    requires
        0 <= k <= s.len(),
    ensures
        total(s.subrange(0, k)) <= total(s),
    decreases s.len(),
{
    if k < s.len() {
        assert(s.subrange(0, k) =~= s.drop_last().subrange(0, k));
        lemma_total_prefix(s.drop_last(), k);
    } else {
        assert(s.subrange(0, k) =~= s);
    }
}

/// Each entry is at most the total.
pub proof fn lemma_entry_le_total(s: Seq<Entry>, i: int)
    requires
        0 <= i < s.len(),
    ensures
        s[i].1 <= total(s),
{
    lemma_total_update(s, i, (s[i].0, 0));
    lemma_total_nonneg(s.update(i, (s[i].0, 0)));
}

/// Looks up the position of `k`'s entry.
pub fn find_entry(v: &Vec<Entry>, k: AccountId) -> (r: Option<usize>)
    requires
        keys_unique(v@),
    ensures
        r is Some <==> find(v@, k) >= 0,
        r is Some ==> r->0 == find(v@, k) && r->0 < v@.len() && v@[r->0 as int].0 == k,
        r is None ==> forall|i: int| 0 <= i < v@.len() ==> v@[i].0 != k,
{
    let mut i: usize = 0;
    while i < v.len()
        invariant
            i <= v@.len(),
            keys_unique(v@),
            forall|j: int| 0 <= j < i ==> v@[j].0 != k,
        decreases v@.len() - i,
    {
        if v[i].0 == k {
            proof {
                lemma_find_index(v@, i as int);
            }
            return Some(i);
        }
        i = i + 1;
    }
    proof {
        lemma_find(v@, k);
    }
    None
}

} // verus!
