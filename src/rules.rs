//! Interaction rule maps, kept in `ahash` hash maps.
use vstd::prelude::*;

use ahash::AHashMap;

use crate::effect::Effect;

verus! {

#[verifier::external_type_specification]
#[verifier::external_body]
#[verifier::reject_recursive_types(K)]
#[verifier::reject_recursive_types(V)]
#[verifier::reject_recursive_types(S)]
pub struct ExAHashMap<K, V, S>(AHashMap<K, V, S>);

#[verifier::external_type_specification]
#[verifier::external_body]
pub struct ExRandomState(ahash::RandomState);

/// The entries that a rule map holds, as a map from source to target effect.
pub uninterp spec fn rule_entries(m: AHashMap<Effect, Effect>) -> Map<Effect, Effect>;

/// The map that inserting `pairs` one after another into an empty map gives:
/// a later pair replaces an earlier one with the same source.
pub open spec fn pairs_to_map(pairs: Seq<(Effect, Effect)>) -> Map<Effect, Effect>
    decreases pairs.len(),
{
    if pairs.len() == 0 {
        Map::empty()
    } else {
        pairs_to_map(pairs.drop_last()).insert(pairs.last().0, pairs.last().1)
    }
}

/// Relies on `AHashMap`'s `FromIterator`, which extends an empty std `HashMap`
/// with the pairs, that is inserts them in order.
#[verifier::external_body]
pub(crate) fn map_from_pairs(pairs: Vec<(Effect, Effect)>) -> (r: AHashMap<Effect, Effect>)
    ensures
        rule_entries(r) == pairs_to_map(pairs@),
{
    AHashMap::from_iter(pairs)
}

/// Relies on `AHashMap::get` (std `HashMap::get`): the value stored under the
/// key, if any.
#[verifier::external_body]
pub(crate) fn map_get(m: &AHashMap<Effect, Effect>, e: &Effect) -> (r: Option<Effect>)
    ensures
        r == (if rule_entries(*m).contains_key(*e) {
            Some(rule_entries(*m)[*e])
        } else {
            None
        }),
{
    m.get(e).copied()
}

/// Relies on std `HashMap::iter`, reached through `AHashMap`'s `Deref`: it
/// visits every entry exactly once, in an order that is not specified.
#[verifier::external_body]
pub(crate) fn map_entries(m: &AHashMap<Effect, Effect>) -> (r: Vec<(Effect, Effect)>)
    ensures
        r@.map_values(|p: (Effect, Effect)| p.0).no_duplicates(),
        forall|a: Effect, b: Effect|
            #[trigger] r@.contains((a, b)) <==> (rule_entries(*m).contains_key(a)
                && rule_entries(*m)[a] == b),
{
    m.iter().map(|(a, b)| (*a, *b)).collect()
}

} // verus!
