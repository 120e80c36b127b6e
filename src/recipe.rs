//! Recipes: a base and an ordered sequence of intermediates, and the effects
//! they produce.
pub mod search_algorithms;

use vstd::prelude::*;

use crate::effect::Effect;
use crate::effect_set::{EffectSet, CAPACITY};
use crate::ingredients::{base_seed, Base, Intermediate};
use crate::interaction::{applied, lemma_applied_bounded};

verus! {

/// The effects of a recipe with base `b` and no intermediate yet.
pub open spec fn base_effects(b: Base) -> Set<Effect> {
    match base_seed(b) {
        Some(e) => Set::empty().insert(e),
        None => Set::empty(),
    }
}

/// The effects after each intermediate of `s` is added in order to a mix
/// holding `start`.
pub open spec fn applied_all(start: Set<Effect>, s: Seq<Intermediate>) -> Set<Effect>
    decreases s.len(),
{
    if s.len() == 0 {
        start
    } else {
        applied(applied_all(start, s.drop_last()), s.last())
    }
}

/// The effects of a recipe with base `b` and intermediates `s`, added in
/// order.
pub open spec fn effects_of(b: Base, s: Seq<Intermediate>) -> Set<Effect> {
    applied_all(base_effects(b), s)
}

/// From a mix of at most `CAPACITY` effects, any sequence of additions leaves
/// a finite set of at most `CAPACITY` effects.
pub proof fn lemma_applied_all_bounded(start: Set<Effect>, s: Seq<Intermediate>)
    requires
        start.finite(),
        start.len() <= CAPACITY,
    ensures
        applied_all(start, s).finite(),
        applied_all(start, s).len() <= CAPACITY,
    decreases s.len(),
{
    if s.len() > 0 {
        lemma_applied_all_bounded(start, s.drop_last());
        lemma_applied_bounded(applied_all(start, s.drop_last()), s.last());
    }
}

/// Whatever the base and the intermediates, a recipe carries a finite set of
/// at most `CAPACITY` effects.
pub proof fn lemma_effects_bounded(b: Base, s: Seq<Intermediate>)
    ensures
        effects_of(b, s).finite(),
        effects_of(b, s).len() <= CAPACITY,
{
    match base_seed(b) {
        Some(e) => {
            assert(Set::<Effect>::empty().insert(e).len() == 1);
        },
        None => {},
    }
    lemma_applied_all_bounded(base_effects(b), s);
}

/// The effects of a recipe depend on its base and its ordered intermediates
/// alone: equal recipes carry equal effects.
pub proof fn lemma_effects_deterministic(
    b1: Base,
    s1: Seq<Intermediate>,
    b2: Base,
    s2: Seq<Intermediate>,
)
    requires
        b1 == b2,
        s1 == s2,
    ensures
        effects_of(b1, s1) == effects_of(b2, s2),
{
}

/// A base and the intermediates added to it, in order.
#[derive(Clone, Debug)]
pub struct Recipe {
    base: Base,
    intermediates: Vec<Intermediate>,
}

impl View for Recipe {
    type V = (Base, Seq<Intermediate>);

    closed spec fn view(&self) -> (Base, Seq<Intermediate>) {
        (self.base, self.intermediates@)
    }
}

impl Default for Recipe {
    fn default() -> (r: Recipe)
        ensures
            r@ == (Base::OGKush, Seq::<Intermediate>::empty()),
    {
        Recipe::with_base(Base::OGKush)
    }
}

impl Recipe {
    /// A recipe with base `base` and no intermediate.
    pub fn with_base(base: Base) -> (r: Recipe)
        ensures
            r@ == (base, Seq::<Intermediate>::empty()),
    {
        Recipe { base, intermediates: Vec::new() }
    }

    /// This recipe with `intermediate` added last.
    pub fn add_intermediate(self, intermediate: Intermediate) -> (r: Recipe)
        ensures
            r@ == (self@.0, self@.1.push(intermediate)),
    {
        let mut r = self;
        r.intermediates.push(intermediate);
        r
    }

    /// A separate recipe with the same base and intermediates.
    pub fn duplicate(&self) -> (r: Recipe)
        ensures
            r@ == self@,
    {
        let mut intermediates: Vec<Intermediate> = Vec::new();
        let mut k: usize = 0;
        while k < self.intermediates.len()
            invariant
                k <= self.intermediates.len(),
                intermediates@ == self.intermediates@.take(k as int),
            decreases self.intermediates.len() - k,
        {
            intermediates.push(self.intermediates[k]);
            k = k + 1;
            assert(intermediates@ =~= self.intermediates@.take(k as int));
        }
        assert(intermediates@ =~= self.intermediates@);
        Recipe { base: self.base, intermediates }
    }

    /// The base of this recipe.
    pub fn base(&self) -> (r: Base)
        ensures
            r == self@.0,
    {
        self.base
    }

    /// The intermediates of this recipe, in the order they are added.
    pub fn intermediates(&self) -> (r: &Vec<Intermediate>)
        ensures
            r@ == self@.1,
    {
        &self.intermediates
    }

    /// The effects of this recipe: the base's effect, then each intermediate
    /// applied in order.
    pub fn calculate_effects(&self) -> (r: EffectSet)
        ensures
            r@ == effects_of(self@.0, self@.1),
    {
        let mut set = EffectSet::new();
        if let Some(e) = self.base.effect() {
            set.insert(e);
        }
        assert(set@ =~= base_effects(self.base));
        let mut k: usize = 0;
        while k < self.intermediates.len()
            invariant
                k <= self.intermediates.len(),
                set@ == effects_of(self.base, self.intermediates@.take(k as int)),
            decreases self.intermediates.len() - k,
        {
            self.intermediates[k].apply_to_effect_set(&mut set);
            proof {
                let next = self.intermediates@.take(k + 1);
                assert(next.drop_last() =~= self.intermediates@.take(k as int));
                assert(next.last() == self.intermediates@[k as int]);
            }
            k = k + 1;
        }
        assert(self.intermediates@.take(k as int) =~= self.intermediates@);
        set
    }
}

} // verus!
