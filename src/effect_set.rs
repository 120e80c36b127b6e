use vstd::prelude::*;

use crate::effect::Effect;

verus! {

/// The most effects that a mix can carry at once.
pub const CAPACITY: usize = 8;

/// A set of at most `CAPACITY` distinct effects. Insertion order does not
/// matter; an insertion into a full set is dropped.
#[derive(Debug)]
pub struct EffectSet {
    items: Vec<Effect>,
}

impl View for EffectSet {
    type V = Set<Effect>;

    closed spec fn view(&self) -> Set<Effect> {
        self.items@.to_set()
    }
}

impl EffectSet {
    #[verifier::type_invariant]
    spec fn inv(&self) -> bool {
        &&& self.items@.no_duplicates()
        &&& self.items.len() <= CAPACITY
    }

    /// The set is finite and holds at most `CAPACITY` effects.
    pub fn check_bounded(&self)
        ensures
            self@.finite(),
            self@.len() <= CAPACITY,
    {
        proof {
            use_type_invariant(self);
            self.items@.unique_seq_to_set();
        }
    }

    /// The empty set.
    pub fn new() -> (r: Self)
        ensures
            r@ == Set::<Effect>::empty(),
    {
        let r = EffectSet { items: Vec::new() };
        assert(r@ =~= Set::<Effect>::empty());
        r
    }

    /// The number of effects in the set.
    pub fn len(&self) -> (r: usize)
        ensures
            r == self@.len(),
    {
        proof {
            use_type_invariant(self);
            self.items@.unique_seq_to_set();
        }
        self.items.len()
    }

    /// Whether the set holds no effect.
    pub fn is_empty(&self) -> (r: bool)
        ensures
            r == (self@.len() == 0),
    {
        self.len() == 0
    }

    fn position(&self, e: Effect) -> (r: Option<usize>)
        ensures
            match r {
                Some(k) => k < self.items.len() && self.items@[k as int] == e,
                None => !self.items@.contains(e),
            },
    {
        let mut k: usize = 0;
        while k < self.items.len()
            invariant
                k <= self.items.len(),
                forall|j: int| 0 <= j < k ==> self.items@[j] != e,
            decreases self.items.len() - k,
        {
            if self.items[k] == e {
                return Some(k);
            }
            k = k + 1;
        }
        None
    }

    /// Whether `e` is in the set.
    pub fn contains(&self, e: Effect) -> (r: bool)
        ensures
            r == self@.contains(e),
    {
        self.position(e).is_some()
    }

    /// Adds `e` unless it is already there or the set is full. Returns whether
    /// the set changed.
    pub fn insert(&mut self, e: Effect) -> (r: bool)
        ensures
            r == (!old(self)@.contains(e) && old(self)@.len() < CAPACITY),
            final(self)@ == (if r {
                old(self)@.insert(e)
            } else {
                old(self)@
            }),
    {
        proof {
            use_type_invariant(&*self);
            self.items@.unique_seq_to_set();
        }
        if self.contains(e) || self.items.len() >= CAPACITY {
            return false;
        }
        let ghost before = self.items@;
        let mut items: Vec<Effect> = Vec::new();
        std::mem::swap(&mut self.items, &mut items);
        items.push(e);
        std::mem::swap(&mut self.items, &mut items);
        proof {
            assert(self.items@ == before.push(e));
            assert(self.items@.to_set() =~= before.to_set().insert(e)) by {
                assert forall|x: Effect| self.items@.contains(x) <==> (before.contains(x) || x == e) by {
                    if x == e {
                        assert(self.items@[before.len() as int] == e);
                    }
                    if before.contains(x) {
                        let j = choose|j: int| 0 <= j < before.len() && before[j] == x;
                        assert(self.items@[j] == x);
                    }
                }
            }
        }
        true
    }

    /// Removes `e` if it is there. Returns whether it was.
    pub fn remove(&mut self, e: Effect) -> (r: bool)
        ensures
            r == old(self)@.contains(e),
            final(self)@ == old(self)@.remove(e),
    {
        proof {
            use_type_invariant(&*self);
        }
        match self.position(e) {
            None => {
                assert(self@ =~= self@.remove(e));
                false
            },
            Some(k) => {
                let ghost before = self.items@;
                let mut items: Vec<Effect> = Vec::new();
                std::mem::swap(&mut self.items, &mut items);
                items.remove(k);
                std::mem::swap(&mut self.items, &mut items);
                proof {
                    let after = self.items@;
                    assert(after == before.remove(k as int));
                    assert forall|x: Effect| after.contains(x) <==> (before.contains(x) && x != e) by {
                        if after.contains(x) {
                            let j = choose|j: int| 0 <= j < after.len() && after[j] == x;
                            if j < k {
                                assert(before[j] == x);
                                assert(j != k);
                            } else {
                                assert(before[j + 1] == x);
                                assert(j + 1 != k);
                            }
                        }
                        if before.contains(x) && x != e {
                            let j = choose|j: int| 0 <= j < before.len() && before[j] == x;
                            assert(j != k);
                            if j < k {
                                assert(after[j] == x);
                            } else {
                                assert(after[j - 1] == x);
                            }
                        }
                    }
                    assert(self.items@.to_set() =~= before.to_set().remove(e));
                    assert(before.contains(e)) by {
                        assert(before[k as int] == e);
                    }
                }
                true
            },
        }
    }

    /// A separate set with the same effects.
    pub fn snapshot(&self) -> (r: EffectSet)
        ensures
            r@ == self@,
    {
        proof {
            use_type_invariant(self);
            self.items@.unique_seq_to_set();
        }
        EffectSet { items: self.to_vec() }
    }

    /// Whether every effect of `self` is also in `other`.
    pub fn is_subset(&self, other: &EffectSet) -> (r: bool)
        ensures
            r == self@.subset_of(other@),
    {
        let mut k: usize = 0;
        while k < self.items.len()
            invariant
                k <= self.items.len(),
                forall|j: int| 0 <= j < k ==> other@.contains(#[trigger] self.items@[j]),
            decreases self.items.len() - k,
        {
            if !other.contains(self.items[k]) {
                assert(self@.contains(self.items@[k as int]));
                return false;
            }
            k = k + 1;
        }
        assert forall|x: Effect| self@.contains(x) implies other@.contains(x) by {
            let j = choose|j: int| 0 <= j < self.items.len() && self.items@[j] == x;
        }
        true
    }

    /// The effects of the set, each once, in no particular order.
    pub fn to_vec(&self) -> (r: Vec<Effect>)
        ensures
            r@.to_set() == self@,
            r@.no_duplicates(),
            r@.len() == self@.len(),
    {
        proof {
            use_type_invariant(self);
            self.items@.unique_seq_to_set();
        }
        let mut r: Vec<Effect> = Vec::new();
        let mut k: usize = 0;
        while k < self.items.len()
            invariant
                k <= self.items.len(),
                r@ == self.items@.take(k as int),
            decreases self.items.len() - k,
        {
            r.push(self.items[k]);
            k = k + 1;
            assert(r@ =~= self.items@.take(k as int));
        }
        assert(r@ =~= self.items@);
        r
    }
}

impl PartialEq for EffectSet {
    fn eq(&self, other: &EffectSet) -> (r: bool) {
        self.check_bounded();
        other.check_bounded();
        if self.len() != other.len() {
            return false;
        }
        let r = self.is_subset(other);
        proof {
            if r {
                vstd::set_lib::lemma_subset_equality(self@, other@);
            }
        }
        r
    }
}

impl vstd::std_specs::cmp::PartialEqSpecImpl for EffectSet {
    open spec fn obeys_eq_spec() -> bool {
        true
    }

    open spec fn eq_spec(&self, other: &EffectSet) -> bool {
        self@ == other@
    }
}

impl Eq for EffectSet {
}

} // verus!
