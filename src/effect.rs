use vstd::prelude::*;

verus! {

/// A qualitative outcome that a mix can carry.
#[derive(Clone, Copy, Debug, PartialEq, Eq, Structural, Hash)]
pub enum Effect {
    AntiGravity,
    Athletic,
    Balding,
    BrightEyed,
    Calming,
    CalorieDense,
    Cyclopean,
    Disorienting,
    Electrifying,
    Energizing,
    Euphoric,
    Explosive,
    Focused,
    Foggy,
    Gingeritis,
    Glowing,
    Jennerising,
    Laxative,
    LongFaced,
    Munchies,
    Paranoia,
    Refreshing,
    Schizophrenia,
    Sedating,
    SeizureInducing,
    Shrinking,
    Slippery,
    Smelly,
    Sneaky,
    Spicy,
    ThoughtProvoking,
    Toxic,
    TropicThunder,
    Zombifying,
}

/// The effects in catalog order.
pub open spec fn effect_catalog() -> Seq<Effect> {
    seq![
        Effect::AntiGravity,
        Effect::Athletic,
        Effect::Balding,
        Effect::BrightEyed,
        Effect::Calming,
        Effect::CalorieDense,
        Effect::Cyclopean,
        Effect::Disorienting,
        Effect::Electrifying,
        Effect::Energizing,
        Effect::Euphoric,
        Effect::Explosive,
        Effect::Focused,
        Effect::Foggy,
        Effect::Gingeritis,
        Effect::Glowing,
        Effect::Jennerising,
        Effect::Laxative,
        Effect::LongFaced,
        Effect::Munchies,
        Effect::Paranoia,
        Effect::Refreshing,
        Effect::Schizophrenia,
        Effect::Sedating,
        Effect::SeizureInducing,
        Effect::Shrinking,
        Effect::Slippery,
        Effect::Smelly,
        Effect::Sneaky,
        Effect::Spicy,
        Effect::ThoughtProvoking,
        Effect::Toxic,
        Effect::TropicThunder,
        Effect::Zombifying,
    ]
}

impl Effect {
    /// The effects in catalog order.
    pub fn all() -> (r: Vec<Effect>)
        ensures
            r@ == effect_catalog(),
    {
        let r = vec![
            Effect::AntiGravity,
            Effect::Athletic,
            Effect::Balding,
            Effect::BrightEyed,
            Effect::Calming,
            Effect::CalorieDense,
            Effect::Cyclopean,
            Effect::Disorienting,
            Effect::Electrifying,
            Effect::Energizing,
            Effect::Euphoric,
            Effect::Explosive,
            Effect::Focused,
            Effect::Foggy,
            Effect::Gingeritis,
            Effect::Glowing,
            Effect::Jennerising,
            Effect::Laxative,
            Effect::LongFaced,
            Effect::Munchies,
            Effect::Paranoia,
            Effect::Refreshing,
            Effect::Schizophrenia,
            Effect::Sedating,
            Effect::SeizureInducing,
            Effect::Shrinking,
            Effect::Slippery,
            Effect::Smelly,
            Effect::Sneaky,
            Effect::Spicy,
            Effect::ThoughtProvoking,
            Effect::Toxic,
            Effect::TropicThunder,
            Effect::Zombifying,
        ];
        assert(r@ =~= effect_catalog());
        r
    }
}

} // verus!
