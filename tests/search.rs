use mixcalc::effect::Effect;
use mixcalc::ingredients::{Base, Intermediate};
use mixcalc::recipe::Recipe;
use mixcalc::recipe::search_algorithms::{
    search_for_recipe_find_dfs, search_for_recipe_find_iddfs, search_for_recipe_max_dfs,
};

fn effect_count(r: &Recipe) -> i64 {
    r.calculate_effects().len() as i64
}

fn has_all(r: &Recipe, targets: &[Effect]) -> bool {
    let e = r.calculate_effects();
    targets.iter().all(|t| e.contains(*t))
}

#[test]
fn max_search_at_depth_zero_returns_root() {
    let root = Recipe::with_base(Base::GreenCrack)
        .add_intermediate(Intermediate::Donut)
        .add_intermediate(Intermediate::Cuke);
    let r = search_for_recipe_max_dfs(root.duplicate(), effect_count, 0);
    assert_eq!(r.base(), root.base());
    assert_eq!(r.intermediates(), root.intermediates());
    let r = search_for_recipe_max_dfs(root.duplicate(), |_r: &Recipe| -5, -3);
    assert_eq!(r.intermediates(), root.intermediates());
}

#[test]
fn max_search_finds_the_greatest_key() {
    let r = search_for_recipe_max_dfs(Recipe::with_base(Base::Meth), effect_count, 2);
    assert_eq!(r.base(), Base::Meth);
    assert!(r.intermediates().len() <= 2);
    let mut best = 0;
    for i in Intermediate::all() {
        for j in Intermediate::all() {
            let c = Recipe::with_base(Base::Meth).add_intermediate(i).add_intermediate(j);
            best = best.max(effect_count(&c));
        }
    }
    assert_eq!(best, 2);
    assert_eq!(effect_count(&r), best);
}

#[test]
fn max_search_prefers_root_on_ties() {
    let r = search_for_recipe_max_dfs(Recipe::with_base(Base::OGKush), |_r: &Recipe| 1, 2);
    assert_eq!(r.base(), Base::OGKush);
    assert!(r.intermediates().is_empty());
}

#[test]
fn max_search_prefers_catalog_order_on_ties() {
    let r = search_for_recipe_max_dfs(
        Recipe::with_base(Base::Meth),
        |r: &Recipe| r.intermediates().len() as i64,
        1,
    );
    assert_eq!(r.intermediates(), &vec![Intermediate::Addy]);
}

#[test]
fn find_dfs_returns_a_satisfying_recipe() {
    let root = Recipe::with_base(Base::OGKush);
    let targets = [Effect::Sneaky, Effect::AntiGravity];
    let r = search_for_recipe_find_dfs(root, |r: &Recipe| has_all(r, &targets), 2).unwrap();
    assert_eq!(r.base(), Base::OGKush);
    assert!(r.intermediates().len() <= 2);
    assert!(has_all(&r, &targets));
    let none = search_for_recipe_find_dfs(
        Recipe::with_base(Base::OGKush),
        |r: &Recipe| has_all(r, &targets),
        1,
    );
    assert!(none.is_none());
}

#[test]
fn iddfs_returns_none_when_nothing_matches() {
    for depth in 0..3 {
        assert!(search_for_recipe_find_iddfs(|_r: &Recipe| false, depth).is_none());
    }
    assert!(search_for_recipe_find_iddfs(|_r: &Recipe| true, -1).is_none());
}

#[test]
fn iddfs_returns_the_shortest_match() {
    let targets = [Effect::Sneaky, Effect::Paranoia];
    let r = search_for_recipe_find_iddfs(|r: &Recipe| has_all(r, &targets), 3).unwrap();
    assert_eq!(r.base(), Base::GreenCrack);
    assert_eq!(r.intermediates(), &vec![Intermediate::Paracetamol]);

    let zombie = [Effect::Zombifying];
    let r = search_for_recipe_find_iddfs(|r: &Recipe| has_all(r, &zombie), 3).unwrap();
    assert_eq!(r.base(), Base::GreenCrack);
    assert_eq!(
        r.intermediates(),
        &vec![Intermediate::Gasoline, Intermediate::Battery]
    );
}

#[test]
fn iddfs_prefers_earlier_bases() {
    let targets = [Effect::Sneaky, Effect::AntiGravity];
    let r = search_for_recipe_find_iddfs(|r: &Recipe| has_all(r, &targets), 3).unwrap();
    assert_eq!(r.base(), Base::OGKush);
    assert_eq!(r.intermediates().len(), 2);
    assert!(has_all(&r, &targets));

    let r = search_for_recipe_find_iddfs(|r: &Recipe| has_all(r, &[Effect::Calming]), 3).unwrap();
    assert_eq!(r.base(), Base::OGKush);
    assert!(r.intermediates().is_empty());
}
