use vstd::prelude::*;

use crate::effect::Effect;

verus! {

/// A base substance: the ingredient that every recipe starts from.
#[derive(Clone, Copy, Debug, PartialEq, Eq, Structural, Hash)]
pub enum Base {
    OGKush,
    SourDiesel,
    GreenCrack,
    GranddaddyPurple,
    Meth,
}

/// The bases in catalog order.
pub open spec fn base_catalog() -> Seq<Base> {
    seq![Base::OGKush, Base::SourDiesel, Base::GreenCrack, Base::GranddaddyPurple, Base::Meth]
}

/// The effect that a base brings into a mix, if any.
pub open spec fn base_seed(b: Base) -> Option<Effect> {
    match b {
        Base::OGKush => Some(Effect::Calming),
        Base::SourDiesel => Some(Effect::Refreshing),
        Base::GreenCrack => Some(Effect::Energizing),
        Base::GranddaddyPurple => Some(Effect::Sedating),
        Base::Meth => None,
    }
}

impl Base {
    /// The bases in catalog order.
    pub fn all() -> (r: Vec<Base>)
        ensures
            r@ == base_catalog(),
    {
        vec![Base::OGKush, Base::SourDiesel, Base::GreenCrack, Base::GranddaddyPurple, Base::Meth]
    }

    /// The effect that this base brings into a mix, if any.
    pub fn effect(&self) -> (r: Option<Effect>)
        ensures
            r == base_seed(*self),
    {
        match self {
            Base::OGKush => Some(Effect::Calming),
            Base::SourDiesel => Some(Effect::Refreshing),
            Base::GreenCrack => Some(Effect::Energizing),
            Base::GranddaddyPurple => Some(Effect::Sedating),
            Base::Meth => None,
        }
    }

    /// The display name of this base.
    pub fn name(&self) -> (r: String)
        ensures
            r@ == base_name(*self)@,
    {
        match self {
            Base::OGKush => "OG Kush".to_string(),
            Base::SourDiesel => "Sour Diesel".to_string(),
            Base::GreenCrack => "Green Crack".to_string(),
            Base::GranddaddyPurple => "Granddaddy Purple".to_string(),
            Base::Meth => "Meth".to_string(),
        }
    }
}

/// The display name of a base.
pub open spec fn base_name(b: Base) -> &'static str {
    match b {
        Base::OGKush => "OG Kush",
        Base::SourDiesel => "Sour Diesel",
        Base::GreenCrack => "Green Crack",
        Base::GranddaddyPurple => "Granddaddy Purple",
        Base::Meth => "Meth",
    }
}

/// An additive ingredient, applied to a mix one at a time.
#[derive(Clone, Copy, Debug, PartialEq, Eq, Structural, Hash)]
pub enum Intermediate {
    Addy,
    Banana,
    Battery,
    Chilli,
    Cuke,
    Donut,
    EnergyDrink,
    FluMedicine,
    Gasoline,
    HorseSemen,
    Iodine,
    MegaBean,
    MotorOil,
    MouthWash,
    Paracetamol,
    Viagra,
}

/// The intermediates in catalog order.
pub open spec fn intermediate_catalog() -> Seq<Intermediate> {
    seq![
        Intermediate::Addy,
        Intermediate::Banana,
        Intermediate::Battery,
        Intermediate::Chilli,
        Intermediate::Cuke,
        Intermediate::Donut,
        Intermediate::EnergyDrink,
        Intermediate::FluMedicine,
        Intermediate::Gasoline,
        Intermediate::HorseSemen,
        Intermediate::Iodine,
        Intermediate::MegaBean,
        Intermediate::MotorOil,
        Intermediate::MouthWash,
        Intermediate::Paracetamol,
        Intermediate::Viagra,
    ]
}

/// The effect that an intermediate seeds into a mix.
pub open spec fn intermediate_seed(i: Intermediate) -> Effect {
    match i {
        Intermediate::Addy => Effect::ThoughtProvoking,
        Intermediate::Banana => Effect::Gingeritis,
        Intermediate::Battery => Effect::BrightEyed,
        Intermediate::Chilli => Effect::Spicy,
        Intermediate::Cuke => Effect::Energizing,
        Intermediate::Donut => Effect::CalorieDense,
        Intermediate::EnergyDrink => Effect::Athletic,
        Intermediate::FluMedicine => Effect::Sedating,
        Intermediate::Gasoline => Effect::Toxic,
        Intermediate::HorseSemen => Effect::LongFaced,
        Intermediate::Iodine => Effect::Jennerising,
        Intermediate::MegaBean => Effect::Foggy,
        Intermediate::MotorOil => Effect::Slippery,
        Intermediate::MouthWash => Effect::Balding,
        Intermediate::Paracetamol => Effect::Sneaky,
        Intermediate::Viagra => Effect::TropicThunder,
    }
}

/// The display name of an intermediate.
pub open spec fn intermediate_name(i: Intermediate) -> &'static str {
    match i {
        Intermediate::Addy => "Addy",
        Intermediate::Banana => "Banana",
        Intermediate::Battery => "Battery",
        Intermediate::Chilli => "Chilli",
        Intermediate::Cuke => "Cuke",
        Intermediate::Donut => "Donut",
        Intermediate::EnergyDrink => "Energy Drink",
        Intermediate::FluMedicine => "Flu Medicine",
        Intermediate::Gasoline => "Gasoline",
        Intermediate::HorseSemen => "Horse Semen",
        Intermediate::Iodine => "Iodine",
        Intermediate::MegaBean => "Mega Bean",
        Intermediate::MotorOil => "Motor Oil",
        Intermediate::MouthWash => "Mouth Wash",
        Intermediate::Paracetamol => "Paracetamol",
        Intermediate::Viagra => "Viagra",
    }
}

/// The interaction rules of an intermediate, as (source, target) pairs: when
/// the intermediate is added, a source effect of the mix turns into its target.
pub open spec fn interaction_table(i: Intermediate) -> Seq<(Effect, Effect)> {
    match i {
        Intermediate::Addy => seq![
            (Effect::Explosive, Effect::Euphoric),
            (Effect::Foggy, Effect::Energizing),
            (Effect::Glowing, Effect::Refreshing),
            (Effect::LongFaced, Effect::Electrifying),
            (Effect::Sedating, Effect::Gingeritis),
        ],
        Intermediate::Banana => seq![
            (Effect::Calming, Effect::Sneaky),
            (Effect::Cyclopean, Effect::Energizing),
            (Effect::Disorienting, Effect::Focused),
            (Effect::Energizing, Effect::ThoughtProvoking),
            (Effect::Focused, Effect::SeizureInducing),
            (Effect::LongFaced, Effect::Refreshing),
            (Effect::Paranoia, Effect::Jennerising),
            (Effect::Smelly, Effect::AntiGravity),
            (Effect::Toxic, Effect::Smelly),
        ],
        Intermediate::Battery => seq![
            (Effect::Cyclopean, Effect::Glowing),
            (Effect::Electrifying, Effect::Euphoric),
            (Effect::Euphoric, Effect::Zombifying),
            (Effect::Laxative, Effect::CalorieDense),
            (Effect::Munchies, Effect::TropicThunder),
            (Effect::Shrinking, Effect::Munchies),
        ],
        Intermediate::Chilli => seq![
            (Effect::AntiGravity, Effect::TropicThunder),
            (Effect::Athletic, Effect::Euphoric),
            (Effect::Laxative, Effect::LongFaced),
            (Effect::Munchies, Effect::Toxic),
            (Effect::Shrinking, Effect::Refreshing),
            (Effect::Sneaky, Effect::BrightEyed),
        ],
        Intermediate::Cuke => seq![
            (Effect::Euphoric, Effect::Laxative),
            (Effect::Foggy, Effect::Cyclopean),
            (Effect::Gingeritis, Effect::ThoughtProvoking),
            (Effect::Munchies, Effect::Athletic),
            (Effect::Slippery, Effect::Munchies),
            (Effect::Sneaky, Effect::Paranoia),
            (Effect::Toxic, Effect::Euphoric),
        ],
        Intermediate::Donut => seq![
            (Effect::AntiGravity, Effect::Slippery),
            (Effect::Balding, Effect::Sneaky),
            (Effect::CalorieDense, Effect::Explosive),
            (Effect::Focused, Effect::Euphoric),
            (Effect::Jennerising, Effect::Gingeritis),
            (Effect::Munchies, Effect::Calming),
            (Effect::Shrinking, Effect::Energizing),
        ],
        Intermediate::EnergyDrink => seq![
            (Effect::Disorienting, Effect::Electrifying),
            (Effect::Euphoric, Effect::Energizing),
            (Effect::Focused, Effect::Shrinking),
            (Effect::Foggy, Effect::Laxative),
            (Effect::Glowing, Effect::Disorienting),
            (Effect::Schizophrenia, Effect::Balding),
            (Effect::Sedating, Effect::Munchies),
            (Effect::Spicy, Effect::Euphoric),
            (Effect::TropicThunder, Effect::Sneaky),
        ],
        Intermediate::FluMedicine => seq![
            (Effect::Athletic, Effect::Munchies),
            (Effect::Calming, Effect::BrightEyed),
            (Effect::Cyclopean, Effect::Foggy),
            (Effect::Electrifying, Effect::Refreshing),
            (Effect::Euphoric, Effect::Toxic),
            (Effect::Focused, Effect::Calming),
            (Effect::Laxative, Effect::Euphoric),
            (Effect::Munchies, Effect::Slippery),
            (Effect::Shrinking, Effect::Paranoia),
            (Effect::ThoughtProvoking, Effect::Gingeritis),
        ],
        Intermediate::Gasoline => seq![
            (Effect::Disorienting, Effect::Glowing),
            (Effect::Electrifying, Effect::Disorienting),
            (Effect::Energizing, Effect::Euphoric),
            (Effect::Euphoric, Effect::Spicy),
            (Effect::Gingeritis, Effect::Smelly),
            (Effect::Jennerising, Effect::Sneaky),
            (Effect::Laxative, Effect::Foggy),
            (Effect::Munchies, Effect::Sedating),
            (Effect::Paranoia, Effect::Calming),
            (Effect::Shrinking, Effect::Focused),
            (Effect::Sneaky, Effect::TropicThunder),
        ],
        Intermediate::HorseSemen => seq![
            (Effect::AntiGravity, Effect::Calming),
            (Effect::Gingeritis, Effect::Refreshing),
            (Effect::SeizureInducing, Effect::Energizing),
            (Effect::ThoughtProvoking, Effect::Electrifying),
        ],
        Intermediate::Iodine => seq![
            (Effect::Calming, Effect::Balding),
            (Effect::CalorieDense, Effect::Gingeritis),
            (Effect::Euphoric, Effect::SeizureInducing),
            (Effect::Foggy, Effect::Paranoia),
            (Effect::Refreshing, Effect::ThoughtProvoking),
            (Effect::Toxic, Effect::Sneaky),
        ],
        Intermediate::MegaBean => seq![
            (Effect::Athletic, Effect::Laxative),
            (Effect::Calming, Effect::Glowing),
            (Effect::Energizing, Effect::Cyclopean),
            (Effect::Focused, Effect::Disorienting),
            (Effect::Jennerising, Effect::Paranoia),
            (Effect::SeizureInducing, Effect::Focused),
            (Effect::Shrinking, Effect::Electrifying),
            (Effect::Slippery, Effect::Toxic),
            (Effect::Sneaky, Effect::Calming),
            (Effect::ThoughtProvoking, Effect::Energizing),
        ],
        Intermediate::MotorOil => seq![
            (Effect::Energizing, Effect::Munchies),
            (Effect::Euphoric, Effect::Sedating),
            (Effect::Foggy, Effect::Toxic),
            (Effect::Munchies, Effect::Schizophrenia),
            (Effect::Paranoia, Effect::AntiGravity),
        ],
        Intermediate::MouthWash => seq![
            (Effect::Calming, Effect::AntiGravity),
            (Effect::CalorieDense, Effect::Sneaky),
            (Effect::Explosive, Effect::Sedating),
            (Effect::Focused, Effect::Jennerising),
        ],
        Intermediate::Paracetamol => seq![
            (Effect::Calming, Effect::Slippery),
            (Effect::Electrifying, Effect::Athletic),
            (Effect::Energizing, Effect::Paranoia),
            (Effect::Focused, Effect::Gingeritis),
            (Effect::Foggy, Effect::Calming),
            (Effect::Glowing, Effect::Toxic),
            (Effect::Munchies, Effect::AntiGravity),
            (Effect::Paranoia, Effect::Balding),
            (Effect::Spicy, Effect::BrightEyed),
            (Effect::Toxic, Effect::TropicThunder),
        ],
        Intermediate::Viagra => seq![
            (Effect::Athletic, Effect::Sneaky),
            (Effect::Disorienting, Effect::Toxic),
            (Effect::Euphoric, Effect::BrightEyed),
            (Effect::Laxative, Effect::Calming),
            (Effect::Shrinking, Effect::Gingeritis),
        ],
    }
}

/// The position of a base in the catalog.
pub open spec fn base_rank(b: Base) -> int {
    match b {
        Base::OGKush => 0,
        Base::SourDiesel => 1,
        Base::GreenCrack => 2,
        Base::GranddaddyPurple => 3,
        Base::Meth => 4,
    }
}

/// The position of an intermediate in the catalog.
pub open spec fn intermediate_rank(i: Intermediate) -> int {
    match i {
        Intermediate::Addy => 0,
        Intermediate::Banana => 1,
        Intermediate::Battery => 2,
        Intermediate::Chilli => 3,
        Intermediate::Cuke => 4,
        Intermediate::Donut => 5,
        Intermediate::EnergyDrink => 6,
        Intermediate::FluMedicine => 7,
        Intermediate::Gasoline => 8,
        Intermediate::HorseSemen => 9,
        Intermediate::Iodine => 10,
        Intermediate::MegaBean => 11,
        Intermediate::MotorOil => 12,
        Intermediate::MouthWash => 13,
        Intermediate::Paracetamol => 14,
        Intermediate::Viagra => 15,
    }
}

/// Each base stands in the catalog at its rank.
pub proof fn lemma_base_rank(b: Base)
    ensures
        0 <= base_rank(b) < base_catalog().len(),
        base_catalog()[base_rank(b)] == b,
{
}

/// Each intermediate stands in the catalog at its rank.
pub proof fn lemma_intermediate_rank(i: Intermediate)
    ensures
        0 <= intermediate_rank(i) < intermediate_catalog().len(),
        intermediate_catalog()[intermediate_rank(i)] == i,
{
}

impl Intermediate {
    /// The intermediates in catalog order.
    pub fn all() -> (r: Vec<Intermediate>)
        ensures
            r@ == intermediate_catalog(),
    {
        let r = vec![
            Intermediate::Addy,
            Intermediate::Banana,
            Intermediate::Battery,
            Intermediate::Chilli,
            Intermediate::Cuke,
            Intermediate::Donut,
            Intermediate::EnergyDrink,
            Intermediate::FluMedicine,
            Intermediate::Gasoline,
            Intermediate::HorseSemen,
            Intermediate::Iodine,
            Intermediate::MegaBean,
            Intermediate::MotorOil,
            Intermediate::MouthWash,
            Intermediate::Paracetamol,
            Intermediate::Viagra,
        ];
        assert(r@ =~= intermediate_catalog());
        r
    }

    /// The effect that this intermediate seeds into a mix.
    pub fn effect(&self) -> (r: Effect)
        ensures
            r == intermediate_seed(*self),
    {
        match self {
            Intermediate::Addy => Effect::ThoughtProvoking,
            Intermediate::Banana => Effect::Gingeritis,
            Intermediate::Battery => Effect::BrightEyed,
            Intermediate::Chilli => Effect::Spicy,
            Intermediate::Cuke => Effect::Energizing,
            Intermediate::Donut => Effect::CalorieDense,
            Intermediate::EnergyDrink => Effect::Athletic,
            Intermediate::FluMedicine => Effect::Sedating,
            Intermediate::Gasoline => Effect::Toxic,
            Intermediate::HorseSemen => Effect::LongFaced,
            Intermediate::Iodine => Effect::Jennerising,
            Intermediate::MegaBean => Effect::Foggy,
            Intermediate::MotorOil => Effect::Slippery,
            Intermediate::MouthWash => Effect::Balding,
            Intermediate::Paracetamol => Effect::Sneaky,
            Intermediate::Viagra => Effect::TropicThunder,
        }
    }

    /// The display name of this intermediate.
    pub fn name(&self) -> (r: String)
        ensures
            r@ == intermediate_name(*self)@,
    {
        match self {
            Intermediate::Addy => "Addy".to_string(),
            Intermediate::Banana => "Banana".to_string(),
            Intermediate::Battery => "Battery".to_string(),
            Intermediate::Chilli => "Chilli".to_string(),
            Intermediate::Cuke => "Cuke".to_string(),
            Intermediate::Donut => "Donut".to_string(),
            Intermediate::EnergyDrink => "Energy Drink".to_string(),
            Intermediate::FluMedicine => "Flu Medicine".to_string(),
            Intermediate::Gasoline => "Gasoline".to_string(),
            Intermediate::HorseSemen => "Horse Semen".to_string(),
            Intermediate::Iodine => "Iodine".to_string(),
            Intermediate::MegaBean => "Mega Bean".to_string(),
            Intermediate::MotorOil => "Motor Oil".to_string(),
            Intermediate::MouthWash => "Mouth Wash".to_string(),
            Intermediate::Paracetamol => "Paracetamol".to_string(),
            Intermediate::Viagra => "Viagra".to_string(),
        }
    }

    /// The interaction rules of this intermediate as a list of pairs.
    pub fn interaction_pairs(&self) -> (r: Vec<(Effect, Effect)>)
        ensures
            r@ == interaction_table(*self),
    {
        let r = match self {
            Intermediate::Addy => vec![
                (Effect::Explosive, Effect::Euphoric),
                (Effect::Foggy, Effect::Energizing),
                (Effect::Glowing, Effect::Refreshing),
                (Effect::LongFaced, Effect::Electrifying),
                (Effect::Sedating, Effect::Gingeritis),
            ],
            Intermediate::Banana => vec![
                (Effect::Calming, Effect::Sneaky),
                (Effect::Cyclopean, Effect::Energizing),
                (Effect::Disorienting, Effect::Focused),
                (Effect::Energizing, Effect::ThoughtProvoking),
                (Effect::Focused, Effect::SeizureInducing),
                (Effect::LongFaced, Effect::Refreshing),
                (Effect::Paranoia, Effect::Jennerising),
                (Effect::Smelly, Effect::AntiGravity),
                (Effect::Toxic, Effect::Smelly),
            ],
            Intermediate::Battery => vec![
                (Effect::Cyclopean, Effect::Glowing),
                (Effect::Electrifying, Effect::Euphoric),
                (Effect::Euphoric, Effect::Zombifying),
                (Effect::Laxative, Effect::CalorieDense),
                (Effect::Munchies, Effect::TropicThunder),
                (Effect::Shrinking, Effect::Munchies),
            ],
            Intermediate::Chilli => vec![
                (Effect::AntiGravity, Effect::TropicThunder),
                (Effect::Athletic, Effect::Euphoric),
                (Effect::Laxative, Effect::LongFaced),
                (Effect::Munchies, Effect::Toxic),
                (Effect::Shrinking, Effect::Refreshing),
                (Effect::Sneaky, Effect::BrightEyed),
            ],
            Intermediate::Cuke => vec![
                (Effect::Euphoric, Effect::Laxative),
                (Effect::Foggy, Effect::Cyclopean),
                (Effect::Gingeritis, Effect::ThoughtProvoking),
                (Effect::Munchies, Effect::Athletic),
                (Effect::Slippery, Effect::Munchies),
                (Effect::Sneaky, Effect::Paranoia),
                (Effect::Toxic, Effect::Euphoric),
            ],
            Intermediate::Donut => vec![
                (Effect::AntiGravity, Effect::Slippery),
                (Effect::Balding, Effect::Sneaky),
                (Effect::CalorieDense, Effect::Explosive),
                (Effect::Focused, Effect::Euphoric),
                (Effect::Jennerising, Effect::Gingeritis),
                (Effect::Munchies, Effect::Calming),
                (Effect::Shrinking, Effect::Energizing),
            ],
            Intermediate::EnergyDrink => vec![
                (Effect::Disorienting, Effect::Electrifying),
                (Effect::Euphoric, Effect::Energizing),
                (Effect::Focused, Effect::Shrinking),
                (Effect::Foggy, Effect::Laxative),
                (Effect::Glowing, Effect::Disorienting),
                (Effect::Schizophrenia, Effect::Balding),
                (Effect::Sedating, Effect::Munchies),
                (Effect::Spicy, Effect::Euphoric),
                (Effect::TropicThunder, Effect::Sneaky),
            ],
            Intermediate::FluMedicine => vec![
                (Effect::Athletic, Effect::Munchies),
                (Effect::Calming, Effect::BrightEyed),
                (Effect::Cyclopean, Effect::Foggy),
                (Effect::Electrifying, Effect::Refreshing),
                (Effect::Euphoric, Effect::Toxic),
                (Effect::Focused, Effect::Calming),
                (Effect::Laxative, Effect::Euphoric),
                (Effect::Munchies, Effect::Slippery),
                (Effect::Shrinking, Effect::Paranoia),
                (Effect::ThoughtProvoking, Effect::Gingeritis),
            ],
            Intermediate::Gasoline => vec![
                (Effect::Disorienting, Effect::Glowing),
                (Effect::Electrifying, Effect::Disorienting),
                (Effect::Energizing, Effect::Euphoric),
                (Effect::Euphoric, Effect::Spicy),
                (Effect::Gingeritis, Effect::Smelly),
                (Effect::Jennerising, Effect::Sneaky),
                (Effect::Laxative, Effect::Foggy),
                (Effect::Munchies, Effect::Sedating),
                (Effect::Paranoia, Effect::Calming),
                (Effect::Shrinking, Effect::Focused),
                (Effect::Sneaky, Effect::TropicThunder),
            ],
            Intermediate::HorseSemen => vec![
                (Effect::AntiGravity, Effect::Calming),
                (Effect::Gingeritis, Effect::Refreshing),
                (Effect::SeizureInducing, Effect::Energizing),
                (Effect::ThoughtProvoking, Effect::Electrifying),
            ],
            Intermediate::Iodine => vec![
                (Effect::Calming, Effect::Balding),
                (Effect::CalorieDense, Effect::Gingeritis),
                (Effect::Euphoric, Effect::SeizureInducing),
                (Effect::Foggy, Effect::Paranoia),
                (Effect::Refreshing, Effect::ThoughtProvoking),
                (Effect::Toxic, Effect::Sneaky),
            ],
            Intermediate::MegaBean => vec![
                (Effect::Athletic, Effect::Laxative),
                (Effect::Calming, Effect::Glowing),
                (Effect::Energizing, Effect::Cyclopean),
                (Effect::Focused, Effect::Disorienting),
                (Effect::Jennerising, Effect::Paranoia),
                (Effect::SeizureInducing, Effect::Focused),
                (Effect::Shrinking, Effect::Electrifying),
                (Effect::Slippery, Effect::Toxic),
                (Effect::Sneaky, Effect::Calming),
                (Effect::ThoughtProvoking, Effect::Energizing),
            ],
            Intermediate::MotorOil => vec![
                (Effect::Energizing, Effect::Munchies),
                (Effect::Euphoric, Effect::Sedating),
                (Effect::Foggy, Effect::Toxic),
                (Effect::Munchies, Effect::Schizophrenia),
                (Effect::Paranoia, Effect::AntiGravity),
            ],
            Intermediate::MouthWash => vec![
                (Effect::Calming, Effect::AntiGravity),
                (Effect::CalorieDense, Effect::Sneaky),
                (Effect::Explosive, Effect::Sedating),
                (Effect::Focused, Effect::Jennerising),
            ],
            Intermediate::Paracetamol => vec![
                (Effect::Calming, Effect::Slippery),
                (Effect::Electrifying, Effect::Athletic),
                (Effect::Energizing, Effect::Paranoia),
                (Effect::Focused, Effect::Gingeritis),
                (Effect::Foggy, Effect::Calming),
                (Effect::Glowing, Effect::Toxic),
                (Effect::Munchies, Effect::AntiGravity),
                (Effect::Paranoia, Effect::Balding),
                (Effect::Spicy, Effect::BrightEyed),
                (Effect::Toxic, Effect::TropicThunder),
            ],
            Intermediate::Viagra => vec![
                (Effect::Athletic, Effect::Sneaky),
                (Effect::Disorienting, Effect::Toxic),
                (Effect::Euphoric, Effect::BrightEyed),
                (Effect::Laxative, Effect::Calming),
                (Effect::Shrinking, Effect::Gingeritis),
            ],
        };
        assert(r@ =~= interaction_table(*self));
        r
    }
}

} // verus!
