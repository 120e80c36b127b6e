//! The interaction engine: what adding one intermediate does to a mix.
use vstd::prelude::*;

use ahash::AHashMap;

use crate::effect::Effect;
use crate::effect_set::{EffectSet, CAPACITY};
use crate::ingredients::{interaction_table, intermediate_seed, Intermediate};
use crate::rules::{map_entries, map_from_pairs, map_get, pairs_to_map, rule_entries};

verus! {

/// The interaction rules of an intermediate as a map from source to target.
pub open spec fn interactions_spec(i: Intermediate) -> Map<Effect, Effect> {
    pairs_to_map(interaction_table(i))
}

/// The effects of `before` that a rule turns into an effect that `before`
/// does not hold yet.
pub open spec fn fired_sources(before: Set<Effect>, rules: Map<Effect, Effect>) -> Set<Effect> {
    before.filter(|a: Effect| rules.contains_key(a) && !before.contains(rules[a]))
}

/// `before` with the seed added, when there is room for it.
pub open spec fn seeded(before: Set<Effect>, seed: Effect) -> Set<Effect> {
    if before.len() < CAPACITY {
        before.insert(seed)
    } else {
        before
    }
}

/// The effects after an ingredient with the given seed and rules is added to
/// `before`. Every rule reads `before` only, so rules never chain within one
/// addition: each fired source leaves and its target comes in.
pub open spec fn apply_rules(before: Set<Effect>, seed: Effect, rules: Map<Effect, Effect>) -> Set<
    Effect,
> {
    let fired = fired_sources(before, rules);
    seeded(before, seed).difference(fired).union(fired.map(|a: Effect| rules[a]))
}

/// The effects after intermediate `i` is added to a mix holding `before`.
pub open spec fn applied(before: Set<Effect>, i: Intermediate) -> Set<Effect> {
    apply_rules(before, intermediate_seed(i), interactions_spec(i))
}

spec fn fires(before: Set<Effect>, p: (Effect, Effect)) -> bool {
    before.contains(p.0) && !before.contains(p.1)
}

spec fn sources_upto(before: Set<Effect>, pairs: Seq<(Effect, Effect)>, k: int) -> Set<Effect> {
    Set::new(|a: Effect| exists|j: int| 0 <= j < k && pairs[j].0 == a && fires(before, pairs[j]))
}

spec fn targets_upto(before: Set<Effect>, pairs: Seq<(Effect, Effect)>, k: int) -> Set<Effect> {
    Set::new(|b: Effect| exists|j: int| 0 <= j < k && pairs[j].1 == b && fires(before, pairs[j]))
}

/// Adding an intermediate to a mix of at most `CAPACITY` effects leaves at
/// most `CAPACITY` effects.
pub proof fn lemma_applied_bounded(before: Set<Effect>, i: Intermediate)
    requires
        before.finite(),
        before.len() <= CAPACITY,
    ensures
        applied(before, i).finite(),
        applied(before, i).len() <= CAPACITY,
{
    let rules = interactions_spec(i);
    let fired = fired_sources(before, rules);
    let s = seeded(before, intermediate_seed(i));
    let t = fired.map(|a: Effect| rules[a]);
    assert(fired.subset_of(before));
    vstd::set_lib::lemma_len_subset(fired, before);
    vstd::set_lib::lemma_map_size_bound(fired, t, |a: Effect| rules[a]);
    assert(fired.subset_of(s));
    vstd::set_lib::lemma_len_difference(s, fired);
    assert(s.difference(fired).len() + fired.len() == s.len()) by {
        vstd::set_lib::lemma_set_intersect_union_lens(s, fired);
        vstd::set_lib::lemma_set_difference_len(s, fired);
        assert(s.intersect(fired) =~= fired);
    }
    vstd::set_lib::lemma_len_union(s.difference(fired), t);
}

impl Intermediate {
    /// The interaction rules of this intermediate, in a hash map from source
    /// to target effect.
    pub fn interactions_hardcoded(&self) -> (r: AHashMap<Effect, Effect>)
        ensures
            rule_entries(r) == interactions_spec(*self),
    {
        map_from_pairs(self.interaction_pairs())
    }

    /// The effect that this intermediate turns `effect` into, if any.
    pub fn interaction(&self, effect: &Effect) -> (r: Option<Effect>)
        ensures
            r == (if interactions_spec(*self).contains_key(*effect) {
                Some(interactions_spec(*self)[*effect])
            } else {
                None
            }),
    {
        let rules = self.interactions_hardcoded();
        map_get(&rules, effect)
    }

    /// Adds this intermediate to a mix: its seed goes in when there is room,
    /// then each rule whose source the mix held before, and whose target it
    /// did not, replaces the source by the target.
    pub fn apply_to_effect_set(&self, effect_set: &mut EffectSet)
        ensures
            final(effect_set)@ == applied(old(effect_set)@, *self),
    {
        let frozen_effect_set = effect_set.snapshot();
        let ghost frozen = frozen_effect_set@;
        if effect_set.len() < CAPACITY {
            effect_set.insert(self.effect());
        }
        let ghost seeded_set = effect_set@;
        assert(seeded_set == seeded(frozen, intermediate_seed(*self)));
        let rules = self.interactions_hardcoded();
        let pairs = map_entries(&rules);
        let ghost m = rule_entries(rules);
        let mut k: usize = 0;
        while k < pairs.len()
            invariant
                k <= pairs.len(),
                frozen_effect_set@ == frozen,
                frozen.subset_of(seeded_set),
                pairs@.map_values(|p: (Effect, Effect)| p.0).no_duplicates(),
                effect_set@ == seeded_set.difference(sources_upto(frozen, pairs@, k as int)).union(
                    targets_upto(frozen, pairs@, k as int),
                ),
            decreases pairs.len() - k,
        {
            let (from, to) = pairs[k];
            let ghost before_step = effect_set@;
            if frozen_effect_set.contains(from) && !frozen_effect_set.contains(to) {
                proof {
                    assert(!sources_upto(frozen, pairs@, k as int).contains(from)) by {
                        if sources_upto(frozen, pairs@, k as int).contains(from) {
                            let j = choose|j: int|
                                0 <= j < k && pairs@[j].0 == from && fires(frozen, pairs@[j]);
                            let keys = pairs@.map_values(|p: (Effect, Effect)| p.0);
                            assert(keys[j] == keys[k as int]);
                        }
                    }
                    assert(!targets_upto(frozen, pairs@, k as int).contains(from));
                    assert(before_step.contains(from));
                }
                effect_set.check_bounded();
                effect_set.remove(from);
                effect_set.insert(to);
                proof {
                    assert(sources_upto(frozen, pairs@, k + 1) =~= sources_upto(
                        frozen,
                        pairs@,
                        k as int,
                    ).insert(from));
                    assert(targets_upto(frozen, pairs@, k + 1) =~= targets_upto(
                        frozen,
                        pairs@,
                        k as int,
                    ).insert(to));
                    assert(effect_set@ =~= seeded_set.difference(
                        sources_upto(frozen, pairs@, k + 1),
                    ).union(targets_upto(frozen, pairs@, k + 1)));
                }
            } else {
                proof {
                    assert(sources_upto(frozen, pairs@, k + 1) =~= sources_upto(
                        frozen,
                        pairs@,
                        k as int,
                    ));
                    assert(targets_upto(frozen, pairs@, k + 1) =~= targets_upto(
                        frozen,
                        pairs@,
                        k as int,
                    ));
                }
            }
            k = k + 1;
        }
        proof {
            let n = pairs.len() as int;
            let fired = fired_sources(frozen, m);
            assert(sources_upto(frozen, pairs@, n) =~= fired) by {
                assert forall|a: Effect| fired.contains(a) implies sources_upto(
                    frozen,
                    pairs@,
                    n,
                ).contains(a) by {
                    assert(pairs@.contains((a, m[a])));
                    let j = choose|j: int| 0 <= j < n && pairs@[j] == (a, m[a]);
                    assert(fires(frozen, pairs@[j]));
                }
                assert forall|a: Effect| sources_upto(frozen, pairs@, n).contains(a) implies fired.contains(a) by {
                    let j = choose|j: int| 0 <= j < n && pairs@[j].0 == a && fires(frozen, pairs@[j]);
                    assert(pairs@.contains(pairs@[j]));
                }
            }
            assert(targets_upto(frozen, pairs@, n) =~= fired.map(|a: Effect| m[a])) by {
                assert forall|b: Effect| fired.map(|a: Effect| m[a]).contains(b) implies targets_upto(
                    frozen,
                    pairs@,
                    n,
                ).contains(b) by {
                    let a = choose|a: Effect| fired.contains(a) && m[a] == b;
                    assert(pairs@.contains((a, m[a])));
                    let j = choose|j: int| 0 <= j < n && pairs@[j] == (a, m[a]);
                    assert(fires(frozen, pairs@[j]));
                }
                assert forall|b: Effect| targets_upto(frozen, pairs@, n).contains(b) implies fired.map(
                    |a: Effect| m[a],
                ).contains(b) by {
                    let j = choose|j: int| 0 <= j < n && pairs@[j].1 == b && fires(frozen, pairs@[j]);
                    assert(pairs@.contains(pairs@[j]));
                    let a = pairs@[j].0;
                    assert(pairs@.contains((a, b)));
                    assert(fired.contains(a));
                }
            }
        }
    }
}

} // verus!
