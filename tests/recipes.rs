use mixcalc::additives::Additives;
use mixcalc::effect::Effect;
use mixcalc::effect_set::{EffectSet, CAPACITY};
use mixcalc::expenses::{PseudoQuality, Soil};
use mixcalc::ingredients::{Base, Intermediate};
use mixcalc::recipe::Recipe;

fn set_of(effects: &[Effect]) -> EffectSet {
    let mut s = EffectSet::new();
    for e in effects {
        s.insert(*e);
    }
    s
}

#[test]
fn calculate_effects_test() {
    let donut = Recipe::with_base(Base::GreenCrack)
        .add_intermediate(Intermediate::Paracetamol)
        .add_intermediate(Intermediate::Donut)
        .add_intermediate(Intermediate::Cuke)
        .add_intermediate(Intermediate::Banana);
    assert_eq!(
        donut.calculate_effects(),
        set_of(&[
            Effect::CalorieDense,
            Effect::Gingeritis,
            Effect::Jennerising,
            Effect::Sneaky,
            Effect::ThoughtProvoking,
        ])
    )
}

#[test]
fn calculate_effects_is_repeatable() {
    let r = Recipe::with_base(Base::OGKush)
        .add_intermediate(Intermediate::Paracetamol)
        .add_intermediate(Intermediate::Cuke)
        .add_intermediate(Intermediate::Donut)
        .add_intermediate(Intermediate::Banana);
    let again = r.duplicate();
    assert_eq!(r.calculate_effects(), r.calculate_effects());
    assert_eq!(r.calculate_effects(), again.calculate_effects());
    assert_eq!(
        r.calculate_effects(),
        set_of(&[
            Effect::CalorieDense,
            Effect::Gingeritis,
            Effect::Jennerising,
            Effect::Sneaky,
            Effect::ThoughtProvoking,
        ])
    );
}

#[test]
fn order_of_intermediates_matters() {
    let a = Recipe::with_base(Base::OGKush)
        .add_intermediate(Intermediate::Addy)
        .add_intermediate(Intermediate::FluMedicine);
    let b = Recipe::with_base(Base::OGKush)
        .add_intermediate(Intermediate::FluMedicine)
        .add_intermediate(Intermediate::Addy);
    assert_eq!(
        a.calculate_effects(),
        set_of(&[Effect::BrightEyed, Effect::Gingeritis, Effect::Sedating])
    );
    assert_eq!(
        b.calculate_effects(),
        set_of(&[Effect::BrightEyed, Effect::Gingeritis, Effect::ThoughtProvoking])
    );
    assert_ne!(a.calculate_effects(), b.calculate_effects());
}

#[test]
fn base_alone_gives_its_seed() {
    assert_eq!(
        Recipe::with_base(Base::OGKush).calculate_effects(),
        set_of(&[Effect::Calming])
    );
    assert!(Recipe::with_base(Base::Meth).calculate_effects().is_empty());
    assert_eq!(
        Recipe::with_base(Base::Meth)
            .add_intermediate(Intermediate::Cuke)
            .calculate_effects(),
        set_of(&[Effect::Energizing])
    );
}

#[test]
fn full_mix_drops_the_seed() {
    let mut r = Recipe::with_base(Base::OGKush);
    for i in [
        Intermediate::Cuke,
        Intermediate::Battery,
        Intermediate::Gasoline,
        Intermediate::Chilli,
        Intermediate::Viagra,
        Intermediate::Paracetamol,
        Intermediate::Viagra,
        Intermediate::MotorOil,
        Intermediate::EnergyDrink,
    ] {
        r = r.add_intermediate(i);
    }
    let full = set_of(&[
        Effect::Athletic,
        Effect::BrightEyed,
        Effect::Euphoric,
        Effect::Munchies,
        Effect::Slippery,
        Effect::Sneaky,
        Effect::Toxic,
        Effect::TropicThunder,
    ]);
    assert_eq!(r.calculate_effects(), full);
    assert_eq!(r.calculate_effects().len(), CAPACITY);
    let more = r.add_intermediate(Intermediate::Addy).calculate_effects();
    assert_eq!(more, full);
    assert!(!more.contains(Effect::ThoughtProvoking));
}

#[test]
fn every_recipe_stays_within_capacity() {
    for b in Base::all() {
        for i in Intermediate::all() {
            for j in Intermediate::all() {
                let r = Recipe::with_base(b).add_intermediate(i).add_intermediate(j);
                assert!(r.calculate_effects().len() <= CAPACITY);
            }
        }
    }
}

#[test]
fn rules_read_the_mix_before_the_addition() {
    let mut s = set_of(&[Effect::Disorienting]);
    Intermediate::Banana.apply_to_effect_set(&mut s);
    assert_eq!(s, set_of(&[Effect::Focused, Effect::Gingeritis]));

    let mut t = set_of(&[Effect::Calming, Effect::Sneaky]);
    Intermediate::Banana.apply_to_effect_set(&mut t);
    assert_eq!(
        t,
        set_of(&[Effect::Calming, Effect::Gingeritis, Effect::Sneaky])
    );
}

#[test]
fn interaction_tables() {
    let addy = Intermediate::Addy.interactions_hardcoded();
    assert_eq!(addy.len(), 5);
    assert_eq!(addy.get(&Effect::Explosive), Some(&Effect::Euphoric));
    assert_eq!(addy.get(&Effect::Sedating), Some(&Effect::Gingeritis));
    assert_eq!(addy.get(&Effect::Calming), None);
    assert_eq!(Intermediate::Gasoline.interactions_hardcoded().len(), 11);
    assert_eq!(
        Intermediate::Viagra.interaction(&Effect::Athletic),
        Some(Effect::Sneaky)
    );
    assert_eq!(Intermediate::Viagra.interaction(&Effect::Calming), None);
    assert_eq!(Intermediate::Viagra.interaction_pairs().len(), 5);
}

#[test]
fn seeds_and_names() {
    assert_eq!(Intermediate::Cuke.effect(), Effect::Energizing);
    assert_eq!(Intermediate::Viagra.effect(), Effect::TropicThunder);
    assert_eq!(Base::GreenCrack.effect(), Some(Effect::Energizing));
    assert_eq!(Base::Meth.effect(), None);
    assert_eq!(Intermediate::MegaBean.name(), "Mega Bean");
    assert_eq!(Intermediate::Addy.name(), "Addy");
    assert_eq!(Base::OGKush.name(), "OG Kush");
    assert_eq!(PseudoQuality::High.name(), "High Quality Pseudo");
    assert_eq!(Soil::LongLife.name(), "Long-Life Soil");
    assert_eq!(Base::all().len(), 5);
    assert_eq!(Intermediate::all().len(), 16);
    assert_eq!(Intermediate::all()[0], Intermediate::Addy);
    assert_eq!(Base::all()[4], Base::Meth);
}

#[test]
fn recipe_accessors() {
    let r = Recipe::with_base(Base::SourDiesel)
        .add_intermediate(Intermediate::Iodine)
        .add_intermediate(Intermediate::Iodine);
    assert_eq!(r.base(), Base::SourDiesel);
    assert_eq!(
        r.intermediates(),
        &vec![Intermediate::Iodine, Intermediate::Iodine]
    );
    let d = Recipe::default();
    assert_eq!(d.base(), Base::OGKush);
    assert!(d.intermediates().is_empty());
}

#[test]
fn effect_set_operations() {
    let mut s = EffectSet::new();
    assert!(s.is_empty());
    assert!(s.insert(Effect::Toxic));
    assert!(!s.insert(Effect::Toxic));
    assert_eq!(s.len(), 1);
    assert!(s.contains(Effect::Toxic));
    assert!(!s.remove(Effect::Spicy));
    assert!(s.remove(Effect::Toxic));
    assert!(s.is_empty());
    let big = set_of(&[
        Effect::AntiGravity,
        Effect::Athletic,
        Effect::Balding,
        Effect::BrightEyed,
        Effect::Calming,
        Effect::CalorieDense,
        Effect::Cyclopean,
        Effect::Disorienting,
    ]);
    let mut full = big.snapshot();
    assert!(!full.insert(Effect::Zombifying));
    assert_eq!(full.len(), 8);
    assert_eq!(full, big);
    assert!(set_of(&[Effect::Calming, Effect::Balding]).is_subset(&big));
    assert!(!set_of(&[Effect::Calming, Effect::Zombifying]).is_subset(&big));
    assert_eq!(
        set_of(&[Effect::Calming, Effect::Balding]),
        set_of(&[Effect::Balding, Effect::Calming])
    );
    assert_eq!(big.to_vec().len(), 8);
}

#[test]
fn additives_builders() {
    let a = Additives::new();
    assert!(!a.pgr && !a.speed_grow && !a.fertilizer);
    let b = a.pgr().fertilizer();
    assert!(b.pgr && !b.speed_grow && b.fertilizer);
    assert!(Additives::new().speed_grow().speed_grow);
    assert_eq!(Additives::new(), Additives::default());
}
