//! Growing additives chosen for a batch.
use vstd::prelude::*;

verus! {

/// Which growing additives a batch uses.
#[derive(Clone, Copy, Debug, Default, PartialEq, Eq, Structural)]
pub struct Additives {
    pub pgr: bool,
    pub speed_grow: bool,
    pub fertilizer: bool,
}

impl Additives {
    /// No additive.
    pub fn new() -> (r: Self)
        ensures
            !r.pgr,
            !r.speed_grow,
            !r.fertilizer,
    {
        Additives { pgr: false, speed_grow: false, fertilizer: false }
    }

    /// These additives with PGR added.
    pub fn pgr(self) -> (r: Self)
        ensures
            r == (Additives { pgr: true, ..self }),
    {
        let mut r = self;
        r.pgr = true;
        r
    }

    /// These additives with Speed Grow added.
    pub fn speed_grow(self) -> (r: Self)
        ensures
            r == (Additives { speed_grow: true, ..self }),
    {
        let mut r = self;
        r.speed_grow = true;
        r
    }

    /// These additives with fertilizer added.
    pub fn fertilizer(self) -> (r: Self)
        ensures
            r == (Additives { fertilizer: true, ..self }),
    {
        let mut r = self;
        r.fertilizer = true;
        r
    }
}

} // verus!
