//! Merging repeated observations of a network and ranking the result.
//!
//! An access point may be seen several times in one scan. Of all the
//! observations that carry one name, the strongest is kept; where two are
//! equally strong, the earlier one. What is kept is then ordered from the
//! strongest signal to the weakest.

use vstd::prelude::*;
use vstd::seq_lib::*;

verus! {

/// What ranking reads of an observation: a name and a signal strength.
pub trait Sighting {
    /// The name under which it was observed.
    spec fn name(&self) -> Seq<char>;

    /// Its signal strength.
    spec fn strength(&self) -> int;
}

/// An observation held in memory, whose name and strength can be read.
pub trait Observation: Sighting + Sized {
    /// Whether `self` and `other` carry the same name.
    fn has_name_of(&self, other: &Self) -> (same: bool)
        ensures
            same == (self.name() == other.name()),
    ;

    /// The signal strength as a machine integer.
    fn signal_value(&self) -> (signal: i32)
        ensures
            signal == self.strength(),
    ;
}

/// Whether `obs[k]` is the observation kept for its name among the first
/// `n` observations: none of them with that name is stronger, and none
/// before it is as strong.
pub open spec fn is_kept_among<T: Sighting>(obs: Seq<T>, n: int, k: int) -> bool {
    &&& 0 <= k < n <= obs.len()
    &&& forall|j: int|
        0 <= j < n && (#[trigger] obs[j]).name() == obs[k].name() ==> obs[j].strength()
            <= obs[k].strength()
    &&& forall|j: int|
        0 <= j < k && (#[trigger] obs[j]).name() == obs[k].name() ==> obs[j].strength()
            < obs[k].strength()
}

/// Whether `obs[k]` is the observation kept for its name.
pub open spec fn is_kept<T: Sighting>(obs: Seq<T>, k: int) -> bool {
    is_kept_among(obs, obs.len() as int, k)
}

/// Whether `item` is one of the observations kept from `obs`.
pub open spec fn kept_from<T: Sighting>(obs: Seq<T>, item: T) -> bool {
    exists|k: int| #[trigger] is_kept(obs, k) && obs[k] == item
}

/// No two entries carry the same name.
pub open spec fn names_unique<T: Sighting>(s: Seq<T>) -> bool {
    forall|i: int, j: int|
        0 <= i < j < s.len() ==> (#[trigger] s[i]).name() != (#[trigger] s[j]).name()
}

/// No entry is weaker than one that follows it.
pub open spec fn ranked<T: Sighting>(s: Seq<T>) -> bool {
    forall|i: int, j: int|
        0 <= i < j < s.len() ==> (#[trigger] s[i]).strength() >= (#[trigger] s[j]).strength()
}

/// Whether some entry of `s` carries the name of `item`.
pub open spec fn has_name<T: Sighting>(s: Seq<T>, item: T) -> bool {
    exists|i: int| 0 <= i < s.len() && (#[trigger] s[i]).name() == item.name()
}

/// Whether `result` is what merging and ranking makes of `obs`: it is
/// ranked, holds each name once, holds only observations that are kept
/// for their names, and misses no name that was observed.
pub open spec fn is_ranking_of<T: Sighting>(result: Seq<T>, obs: Seq<T>) -> bool {
    &&& ranked(result)
    &&& names_unique(result)
    &&& forall|i: int| 0 <= i < result.len() ==> kept_from(obs, #[trigger] result[i])
    &&& forall|k: int| 0 <= k < obs.len() ==> has_name(result, #[trigger] obs[k])
}

/// The position in `list` of the entry with the name of `item`.
fn position_of_name<T: Observation>(list: &Vec<T>, item: &T) -> (found: Option<usize>)
    ensures
        match found {
            Some(p) => p < list.len() && list@[p as int].name() == item.name(),
            None => !has_name(list@, *item),
        },
{
    let mut i: usize = 0;
    while i < list.len()
        invariant
            i <= list.len(),
            forall|j: int| 0 <= j < i ==> (#[trigger] list@[j]).name() != item.name(),
        decreases list.len() - i,
    {
        if list[i].has_name_of(item) {
            return Some(i);
        }
        i += 1;
    }
    None
}

/// Keeps one observation for each name: the strongest, and of equally
/// strong ones the first.
pub fn merge_strongest<T: Observation>(observations: Vec<T>) -> (out: Vec<T>)
    ensures
        names_unique(out@),
        forall|i: int| 0 <= i < out.len() ==> kept_from(observations@, #[trigger] out@[i]),
        forall|k: int| 0 <= k < observations.len() ==> has_name(out@, #[trigger] observations@[k]),
{
    let ghost all = observations@;
    let mut kept: Vec<T> = Vec::new();
    let ghost mut origin: Seq<int> = Seq::empty();
    for o in it: observations
        invariant
            it.seq() == all,
            origin.len() == kept.len(),
            names_unique(kept@),
            forall|i: int|
                0 <= i < kept.len() ==> is_kept_among(all, it.index() as int, #[trigger] origin[i])
                    && all[origin[i]] == kept@[i],
            forall|k: int| 0 <= k < it.index() ==> has_name(kept@, #[trigger] all[k]),
    {
        let ghost n = it.index() as int;
        let ghost before = kept@;
        let ghost before_origin = origin;
        assert(o == all[n]);
        match position_of_name(&kept, &o) {
            Some(p) => {
                if o.signal_value() > kept[p].signal_value() {
                    kept.set(p, o);
                    proof {
                        origin = origin.update(p as int, n);
                    }
                }
                proof {
                    assert forall|k: int| 0 <= k < n + 1 implies has_name(
                        kept@,
                        #[trigger] all[k],
                    ) by {
                        if k < n {
                            let i = choose|i: int|
                                0 <= i < before.len() && (#[trigger] before[i]).name()
                                    == all[k].name();
                            assert(kept@[i].name() == all[k].name());
                        } else {
                            assert(kept@[p as int].name() == all[k].name());
                        }
                    }
                    assert forall|i: int| 0 <= i < kept.len() implies is_kept_among(
                        all,
                        n + 1,
                        #[trigger] origin[i],
                    ) && all[origin[i]] == kept@[i] by {
                        let k0 = before_origin[i];
                        assert(is_kept_among(all, n, k0) && all[k0] == before[i]);
                        if i != p {
                            assert(before[i].name() != before[p as int].name());
                        } else {
                            assert(is_kept_among(all, n, before_origin[p as int]));
                        }
                    }
                }
            },
            None => {
                kept.push(o);
                proof {
                    origin = origin.push(n);
                    assert forall|k: int| 0 <= k < n + 1 implies has_name(
                        kept@,
                        #[trigger] all[k],
                    ) by {
                        if k < n {
                            let i = choose|i: int|
                                0 <= i < before.len() && (#[trigger] before[i]).name()
                                    == all[k].name();
                            assert(kept@[i].name() == all[k].name());
                        } else {
                            assert(kept@[kept@.len() - 1].name() == all[k].name());
                        }
                    }
                    assert forall|j: int| 0 <= j < n implies (#[trigger] all[j]).name()
                        != all[n].name() by {
                        if all[j].name() == all[n].name() {
                            let i = choose|i: int|
                                0 <= i < before.len() && (#[trigger] before[i]).name()
                                    == all[j].name();
                            assert(before[i].name() == o.name());
                        }
                    }
                    assert forall|i: int| 0 <= i < kept.len() implies is_kept_among(
                        all,
                        n + 1,
                        #[trigger] origin[i],
                    ) && all[origin[i]] == kept@[i] by {
                        if i < before.len() {
                            let k0 = before_origin[i];
                            assert(is_kept_among(all, n, k0) && all[k0] == before[i]);
                            assert(before[i].name() != o.name());
                        }
                    }
                }
            },
        }
    }
    proof {
        assert forall|i: int| 0 <= i < kept.len() implies kept_from(all, #[trigger] kept@[i]) by {
            assert(is_kept(all, origin[i]));
        }
    }
    kept
}

/// Orders `networks` from the strongest signal to the weakest: the same
/// entries, each as often as before, none weaker than one that follows.
pub fn rank_by_signal<T: Observation>(networks: Vec<T>) -> (out: Vec<T>)
    ensures
        ranked(out@),
        out@.to_multiset() == networks@.to_multiset(),
        names_unique(networks@) ==> names_unique(out@),
{
    let ghost all = networks@;
    let mut out: Vec<T> = Vec::new();
    let ghost mut origin: Seq<int> = Seq::empty();
    assert(all.take(0) =~= Seq::<T>::empty());
    for o in it: networks
        invariant
            it.seq() == all,
            ranked(out@),
            out@.to_multiset() == all.take(it.index() as int).to_multiset(),
            origin.len() == out.len(),
            forall|i: int|
                0 <= i < out.len() ==> 0 <= #[trigger] origin[i] < it.index() && all[origin[i]]
                    == out@[i],
            forall|i: int, j: int|
                0 <= i < j < out.len() ==> #[trigger] origin[i] != #[trigger] origin[j],
    {
        let ghost n = it.index() as int;
        let ghost before = out@;
        let ghost before_origin = origin;
        assert(o == all[n]);
        let signal = o.signal_value();
        let mut p: usize = 0;
        while p < out.len() && out[p].signal_value() >= signal
            invariant
                p <= out.len(),
                forall|j: int| 0 <= j < p ==> (#[trigger] out@[j]).strength() >= signal,
            decreases out.len() - p,
        {
            p += 1;
        }
        out.insert(p, o);
        proof {
            origin = origin.insert(p as int, n);
            to_multiset_insert(before, p as int, o);
            to_multiset_build(all.take(n), o);
            assert(all.take(n + 1) =~= all.take(n).push(o));
            assert forall|i: int, j: int|
                0 <= i < j < out.len() implies (#[trigger] out@[i]).strength()
                >= (#[trigger] out@[j]).strength() by {
                if i < p && j > p {
                    assert(before[i].strength() >= before[j - 1].strength());
                } else if i > p {
                    assert(before[i - 1].strength() >= before[j - 1].strength());
                } else if j < p {
                    assert(before[i].strength() >= before[j].strength());
                }
            }
            assert forall|i: int| 0 <= i < out.len() implies 0 <= #[trigger] origin[i] < n + 1
                && all[origin[i]] == out@[i] by {
                if i < p {
                    assert(origin[i] == before_origin[i]);
                } else if i > p {
                    assert(origin[i] == before_origin[i - 1]);
                }
            }
            assert forall|i: int, j: int| 0 <= i < j < out.len() implies #[trigger] origin[i]
                != #[trigger] origin[j] by {
                let a = if i < p { i } else { i - 1 };
                let b = if j < p { j } else { j - 1 };
                if i != p && j != p {
                    assert(before_origin[a] != before_origin[b]);
                } else if i == p {
                    assert(origin[j] == before_origin[b]);
                } else {
                    assert(origin[i] == before_origin[a]);
                }
            }
        }
    }
    proof {
        assert(all.take(all.len() as int) =~= all);
        if names_unique(all) {
            assert forall|i: int, j: int| 0 <= i < j < out.len() implies (#[trigger] out@[i]).name()
                != (#[trigger] out@[j]).name() by {
                let a = origin[i];
                let b = origin[j];
                if a < b {
                    assert(all[a].name() != all[b].name());
                } else {
                    assert(all[b].name() != all[a].name());
                }
            }
        }
    }
    out
}

/// One entry for each observed name, the strongest observation of it,
/// ordered from the strongest signal to the weakest.
pub fn merge_and_rank<T: Observation>(observations: Vec<T>) -> (out: Vec<T>)
    ensures
        is_ranking_of(out@, observations@),
{
    let ghost all = observations@;
    let merged = merge_strongest(observations);
    let ghost middle = merged@;
    let out = rank_by_signal(merged);
    proof {
        assert forall|i: int| 0 <= i < out.len() implies kept_from(all, #[trigger] out@[i]) by {
            assert(out@.contains(out@[i]));
            to_multiset_contains(out@, out@[i]);
            to_multiset_contains(middle, out@[i]);
            let m = choose|m: int| 0 <= m < middle.len() && middle[m] == out@[i];
            assert(kept_from(all, middle[m]));
        }
        assert forall|k: int| 0 <= k < all.len() implies has_name(out@, #[trigger] all[k]) by {
            let m = choose|m: int|
                0 <= m < middle.len() && (#[trigger] middle[m]).name() == all[k].name();
            assert(middle.contains(middle[m]));
            to_multiset_contains(middle, middle[m]);
            to_multiset_contains(out@, middle[m]);
            let i = choose|i: int| 0 <= i < out.len() && out@[i] == middle[m];
            assert(out@[i].name() == all[k].name());
        }
    }
    out
}

/// The observation kept for a name is at least as strong as every
/// observation of that name.
pub proof fn lemma_kept_is_strongest<T: Sighting>(obs: Seq<T>, item: T, k: int)
    requires
        kept_from(obs, item),
        0 <= k < obs.len(),
        obs[k].name() == item.name(),
    ensures
        obs[k].strength() <= item.strength(),
{
    let kept = choose|kept: int| #[trigger] is_kept(obs, kept) && obs[kept] == item;
    assert(is_kept(obs, kept));
}

/// After merging and ranking no name occurs twice, and the entry that
/// stands for a name is at least as strong as every observation of that
/// name, the discarded ones included.
pub proof fn lemma_ranking_is_deduplicated<T: Sighting>(result: Seq<T>, obs: Seq<T>)
    requires
        is_ranking_of(result, obs),
    ensures
        forall|i: int, j: int|
            0 <= i < j < result.len() ==> (#[trigger] result[i]).name() != (
            #[trigger] result[j]).name(),
        forall|i: int, k: int|
            0 <= i < result.len() && 0 <= k < obs.len() && (#[trigger] obs[k]).name() == (
            #[trigger] result[i]).name() ==> obs[k].strength() <= result[i].strength(),
{
    assert forall|i: int, k: int|
        0 <= i < result.len() && 0 <= k < obs.len() && (#[trigger] obs[k]).name() == (
        #[trigger] result[i]).name() implies obs[k].strength() <= result[i].strength() by {
        lemma_kept_is_strongest(obs, result[i], k);
    }
}

/// After merging and ranking the signal never rises from one entry to
/// the next.
pub proof fn lemma_ranking_is_ordered<T: Sighting>(result: Seq<T>, obs: Seq<T>)
    requires
        is_ranking_of(result, obs),
    ensures
        forall|i: int|
            0 <= i < result.len() - 1 ==> (#[trigger] result[i]).strength()
                >= result[i + 1].strength(),
{
}

/// Two sequences that agree, place by place, on name and strength agree
/// on what is kept, on uniqueness of names and on being ranked.
pub proof fn lemma_same_sightings<T: Sighting, V: Sighting>(a: Seq<T>, b: Seq<V>)
    requires
        a.len() == b.len(),
        forall|i: int|
            0 <= i < a.len() ==> (#[trigger] a[i]).name() == b[i].name() && a[i].strength()
                == b[i].strength(),
    ensures
        forall|k: int| #[trigger] is_kept(a, k) ==> is_kept(b, k),
        names_unique(a) ==> names_unique(b),
        ranked(a) ==> ranked(b),
{
    assert forall|k: int| #[trigger] is_kept(a, k) implies is_kept(b, k) by {
        assert forall|j: int|
            0 <= j < b.len() && (#[trigger] b[j]).name() == b[k].name() implies b[j].strength()
            <= b[k].strength() by {
            assert(a[j].name() == a[k].name());
        }
        assert forall|j: int|
            0 <= j < k && (#[trigger] b[j]).name() == b[k].name() implies b[j].strength()
            < b[k].strength() by {
            assert(a[j].name() == a[k].name());
        }
    }
    if names_unique(a) {
        assert forall|i: int, j: int| 0 <= i < j < b.len() implies (#[trigger] b[i]).name()
            != (#[trigger] b[j]).name() by {
            assert(a[i].name() != a[j].name());
        }
    }
    if ranked(a) {
        assert forall|i: int, j: int| 0 <= i < j < b.len() implies (#[trigger] b[i]).strength()
            >= (#[trigger] b[j]).strength() by {
            assert(a[i].strength() >= a[j].strength());
        }
    }
}

/// A ranking stays a ranking when every entry is replaced by a value that
/// has its name and strength, equal entries by equal values.
pub proof fn lemma_ranking_carries_over<T: Sighting, V: Sighting>(
    result: Seq<T>,
    obs: Seq<T>,
    result_values: Seq<V>,
    obs_values: Seq<V>,
)
    requires
        is_ranking_of(result, obs),
        result_values.len() == result.len(),
        obs_values.len() == obs.len(),
        forall|i: int|
            0 <= i < result.len() ==> (#[trigger] result[i]).name() == result_values[i].name()
                && result[i].strength() == result_values[i].strength(),
        forall|k: int|
            0 <= k < obs.len() ==> (#[trigger] obs[k]).name() == obs_values[k].name()
                && obs[k].strength() == obs_values[k].strength(),
        forall|i: int, k: int|
            0 <= i < result.len() && 0 <= k < obs.len() && #[trigger] result[i] == #[trigger] obs[k]
                ==> result_values[i] == obs_values[k],
    ensures
        is_ranking_of(result_values, obs_values),
{
    lemma_same_sightings(result, result_values);
    lemma_same_sightings(obs, obs_values);
    assert forall|i: int| 0 <= i < result_values.len() implies kept_from(
        obs_values,
        #[trigger] result_values[i],
    ) by {
        assert(kept_from(obs, result[i]));
        let k = choose|k: int| #[trigger] is_kept(obs, k) && obs[k] == result[i];
        assert(is_kept(obs_values, k));
        assert(obs_values[k] == result_values[i]);
    }
    assert forall|k: int| 0 <= k < obs_values.len() implies has_name(
        result_values,
        #[trigger] obs_values[k],
    ) by {
        assert(has_name(result, obs[k]));
        let i = choose|i: int|
            0 <= i < result.len() && (#[trigger] result[i]).name() == obs[k].name();
        assert(result_values[i].name() == obs_values[k].name());
    }
}

} // verus!
