//! Effect mixing: the interaction engine that turns a base and a sequence of
//! intermediate ingredients into a set of effects, and the two searches over
//! ingredient sequences built on it.

pub mod additives;
pub mod effect;
pub mod effect_set;
pub mod expenses;
pub mod ingredients;
pub mod interaction;
pub mod recipe;
pub mod rules;
