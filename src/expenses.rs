//! The choices that a batch's production cost depends on.
use vstd::prelude::*;

verus! {

/// The quality of the pseudo bought for a meth batch.
#[derive(Clone, Copy, Debug, PartialEq, Eq, Structural, Hash)]
pub enum PseudoQuality {
    Low,
    Medium,
    High,
}

impl PseudoQuality {
    /// The display name of this quality.
    pub fn name(&self) -> (r: String)
        ensures
            r@ == (match *self {
                PseudoQuality::Low => "Low Quality Pseudo",
                PseudoQuality::Medium => "Medium Quality Pseudo",
                PseudoQuality::High => "High Quality Pseudo",
            })@,
    {
        match self {
            PseudoQuality::Low => "Low Quality Pseudo".to_string(),
            PseudoQuality::Medium => "Medium Quality Pseudo".to_string(),
            PseudoQuality::High => "High Quality Pseudo".to_string(),
        }
    }
}

/// The soil that a weed batch is grown in.
#[derive(Clone, Copy, Debug, PartialEq, Eq, Structural, Hash)]
pub enum Soil {
    Normal,
    LongLife,
    ExtraLongLife,
}

impl Soil {
    /// The display name of this soil.
    pub fn name(&self) -> (r: String)
        ensures
            r@ == (match *self {
                Soil::Normal => "Soil",
                Soil::LongLife => "Long-Life Soil",
                Soil::ExtraLongLife => "Extra Long-Life Soil",
            })@,
    {
        match self {
            Soil::Normal => "Soil".to_string(),
            Soil::LongLife => "Long-Life Soil".to_string(),
            Soil::ExtraLongLife => "Extra Long-Life Soil".to_string(),
        }
    }
}

/// A growing additive.
#[derive(Clone, Copy, Debug, PartialEq, Eq, Structural, Hash)]
pub enum Additive {
    PGR,
    SpeedGrow,
    Fertilizer,
}

} // verus!
