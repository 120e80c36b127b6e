//! Brute-force searches over recipes: each step of the tree adds one more
//! intermediate.
use vstd::prelude::*;

use rayon::iter::{IndexedParallelIterator, IntoParallelRefIterator, ParallelIterator};

use crate::ingredients::{
    base_catalog, base_rank, intermediate_catalog, intermediate_rank, lemma_base_rank,
    lemma_intermediate_rank, Base, Intermediate,
};
use crate::recipe::Recipe;

verus! {

/// Whether recipe `m` is `root` followed by at most `depth` more
/// intermediates (`root` alone where `depth` is zero or less).
pub open spec fn within(root: (Base, Seq<Intermediate>), depth: int, m: (Base, Seq<Intermediate>)) -> bool {
    &&& m.0 == root.0
    &&& root.1.len() <= m.1.len()
    &&& m.1.len() <= root.1.len() + (if depth > 0 {
        depth
    } else {
        0
    })
    &&& m.1.subrange(0, root.1.len() as int) == root.1
}

/// `root` with intermediate `i` added last.
pub open spec fn extended(root: (Base, Seq<Intermediate>), i: Intermediate) -> (Base, Seq<Intermediate>) {
    (root.0, root.1.push(i))
}

/// A key that can be called on every recipe and gives one value for each
/// base and sequence of intermediates.
pub open spec fn key_is_pure<F: Fn(&Recipe) -> i64>(f: F) -> bool {
    &&& forall|r: Recipe| #[trigger] f.requires((&r,))
    &&& forall|x: Recipe, y: Recipe, a: i64, b: i64|
        x@ == y@ && #[trigger] f.ensures((&x,), a) && #[trigger] f.ensures((&y,), b) ==> a == b
}

/// A predicate that can be called on every recipe and gives one answer for
/// each base and sequence of intermediates.
pub open spec fn predicate_is_pure<F: Fn(&Recipe) -> bool>(f: F) -> bool {
    &&& forall|r: Recipe| #[trigger] f.requires((&r,))
    &&& forall|x: Recipe, y: Recipe, a: bool, b: bool|
        x@ == y@ && #[trigger] f.ensures((&x,), a) && #[trigger] f.ensures((&y,), b) ==> a == b
}

/// Whether `r` lies within `depth` of `root` and no recipe there has a
/// greater key.
pub open spec fn is_best<F: Fn(&Recipe) -> i64>(
    f: F,
    root: (Base, Seq<Intermediate>),
    depth: int,
    r: Recipe,
) -> bool {
    &&& within(root, depth, r@)
    &&& exists|kr: i64| #[trigger] f.ensures((&r,), kr)
    &&& forall|x: Recipe, k: i64, kr: i64|
        within(root, depth, x@) && #[trigger] f.ensures((&x,), k) && #[trigger] f.ensures((&r,), kr)
            ==> k <= kr
}

/// Whether `r` is `root` unless its key is strictly greater than the key of
/// `root`.
pub open spec fn keeps_root_on_ties<F: Fn(&Recipe) -> i64>(f: F, root: Recipe, r: Recipe) -> bool {
    forall|k0: i64, kr: i64|
        #[trigger] f.ensures((&root,), k0) && #[trigger] f.ensures((&r,), kr) && r@ != root@ ==> k0 < kr
}

proof fn lemma_within_root(root: (Base, Seq<Intermediate>), depth: int, x: (Base, Seq<Intermediate>))
    ensures
        within(root, depth, root),
        within(root, depth, x) && x.1.len() == root.1.len() ==> x == root,
{
    assert(root.1.subrange(0, root.1.len() as int) =~= root.1);
    if within(root, depth, x) && x.1.len() == root.1.len() {
        assert(x.1 =~= x.1.subrange(0, root.1.len() as int));
    }
}

proof fn lemma_within_child(root: (Base, Seq<Intermediate>), depth: int, x: (Base, Seq<Intermediate>))
    requires
        depth > 0,
        within(root, depth, x),
        x.1.len() > root.1.len(),
    ensures
        within(extended(root, x.1[root.1.len() as int]), depth - 1, x),
{
    let i = x.1[root.1.len() as int];
    assert(x.1.subrange(0, root.1.len() + 1int) =~= root.1.push(i)) by {
        assert(x.1.subrange(0, root.1.len() as int) == root.1);
    }
}

proof fn lemma_child_within(root: (Base, Seq<Intermediate>), depth: int, i: Intermediate, x: (Base, Seq<Intermediate>))
    requires
        depth > 0,
        within(extended(root, i), depth - 1, x),
    ensures
        within(root, depth, x),
        x.1.len() > root.1.len(),
        x.1[root.1.len() as int] == i,
{
    let c = root.1.push(i);
    assert(x.1.subrange(0, c.len() as int)[root.1.len() as int] == i);
    assert(x.1.subrange(0, root.1.len() as int) =~= c.subrange(0, root.1.len() as int));
    assert(c.subrange(0, root.1.len() as int) =~= root.1);
}

/// Whether the results `r` are, branch by branch, best below `root` with
/// each intermediate of `items` added.
pub open spec fn best_per_branch<F: Fn(&Recipe) -> i64>(
    f: F,
    root: (Base, Seq<Intermediate>),
    items: Seq<Intermediate>,
    depth: int,
    r: Seq<Recipe>,
) -> bool {
    &&& r.len() == items.len()
    &&& forall|k: int| 0 <= k < items.len() ==> is_best(f, extended(root, items[k]), depth, #[trigger] r[k])
}

/// The best recipe below `root` with `i` added, within `depth` more
/// intermediates.
fn best_below<F: Fn(&Recipe) -> i64>(root: &Recipe, i: Intermediate, f: &F, depth: i8) -> (r: Recipe)
    requires
        key_is_pure(*f),
    ensures
        is_best(*f, extended(root@, i), depth as int, r),
{
    search_sequential_max(root.duplicate().add_intermediate(i), f, depth)
}

/// Relies on rayon's indexed `par_iter().map(..).collect_into_vec(..)`: one
/// result for each item, in the order of the items, each what `best_below`
/// returns for it.
#[verifier::external_body]
fn par_best_below<F: Fn(&Recipe) -> i64 + Sync>(
    root: &Recipe,
    items: &Vec<Intermediate>,
    f: &F,
    depth: i8,
) -> (r: Vec<Recipe>)
    requires
        key_is_pure(*f),
    ensures
        best_per_branch(*f, root@, items@, depth as int, r@),
{
    let mut out: Vec<Recipe> = Vec::new();
    items.par_iter().map(|i| best_below(root, *i, f, depth)).collect_into_vec(&mut out);
    out
}

/// The best recipe of each branch below `root`, in catalog order, one after
/// another.
fn best_per_branch_sequential<F: Fn(&Recipe) -> i64>(root: &Recipe, f: &F, depth: i8) -> (r: Vec<Recipe>)
    requires
        key_is_pure(*f),
        depth > 0,
    ensures
        best_per_branch(*f, root@, intermediate_catalog(), depth - 1, r@),
    decreases depth, 1int,
{
    let items = Intermediate::all();
    let mut r: Vec<Recipe> = Vec::new();
    let mut k: usize = 0;
    while k < items.len()
        invariant
            key_is_pure(*f),
            depth > 0,
            items@ == intermediate_catalog(),
            k <= items.len(),
            r.len() == k,
            forall|j: int| 0 <= j < k ==> is_best(*f, extended(root@, items@[j]), depth - 1, #[trigger] r@[j]),
        decreases items.len() - k,
    {
        let c = search_sequential_max(root.duplicate().add_intermediate(items[k]), f, depth - 1);
        r.push(c);
        k = k + 1;
    }
    r
}

/// Of `root` and the best recipe of each branch below it, the one with the
/// greatest key: `root` where it ties, else the first branch in catalog order.
fn pick_best<F: Fn(&Recipe) -> i64>(root: Recipe, f: &F, depth: i8, branches: Vec<Recipe>) -> (r: Recipe)
    requires
        key_is_pure(*f),
        depth > 0,
        best_per_branch(*f, root@, intermediate_catalog(), depth - 1, branches@),
    ensures
        is_best(*f, root@, depth as int, r),
        keeps_root_on_ties(*f, root, r),
{
    let root_key = f(&root);
    let mut best_key = root_key;
    let mut best_index: Option<usize> = None;
    proof {
        lemma_within_root(root@, depth as int, root@);
        assert forall|x: Recipe, kx: i64|
            within(root@, depth as int, x@) && x@.1.len() == root@.1.len() && #[trigger] f.ensures(
                (&x,),
                kx,
            ) implies kx <= best_key by {
            lemma_within_root(root@, depth as int, x@);
        }
    }
    let mut k: usize = 0;
    while k < branches.len()
        invariant
            key_is_pure(*f),
            depth > 0,
            best_per_branch(*f, root@, intermediate_catalog(), depth - 1, branches@),
            k <= branches.len(),
            f.ensures((&root,), root_key),
            match best_index {
                None => best_key == root_key,
                Some(j) => j < branches.len() && f.ensures((&branches@[j as int],), best_key)
                    && root_key < best_key,
            },
            forall|x: Recipe, kx: i64|
                within(root@, depth as int, x@) && (x@.1.len() == root@.1.len() || intermediate_rank(
                    x@.1[root@.1.len() as int],
                ) < k) && #[trigger] f.ensures((&x,), kx) ==> kx <= best_key,
        decreases branches.len() - k,
    {
        let ck = f(&branches[k]);
        proof {
            let c = branches@[k as int];
            assert(is_best(*f, extended(root@, intermediate_catalog()[k as int]), depth - 1, c));
            assert forall|x: Recipe, kx: i64|
                within(root@, depth as int, x@) && x@.1.len() > root@.1.len() && intermediate_rank(
                    x@.1[root@.1.len() as int],
                ) == k && #[trigger] f.ensures((&x,), kx) implies kx <= ck by {
                let i = x@.1[root@.1.len() as int];
                lemma_intermediate_rank(i);
                lemma_within_child(root@, depth as int, x@);
            }
        }
        if ck > best_key {
            best_key = ck;
            best_index = Some(k);
        }
        k = k + 1;
    }
    match best_index {
        None => {
            proof {
                assert forall|x: Recipe, kx: i64, kr: i64|
                    within(root@, depth as int, x@) && #[trigger] f.ensures((&x,), kx)
                        && #[trigger] f.ensures((&root,), kr) implies kx <= kr by {
                    if x@.1.len() > root@.1.len() {
                        lemma_intermediate_rank(x@.1[root@.1.len() as int]);
                    }
                }
            }
            root
        },
        Some(j) => {
            let ghost c = branches@[j as int];
            let mut branches = branches;
            let best = branches.swap_remove(j);
            proof {
                assert(is_best(*f, extended(root@, intermediate_catalog()[j as int]), depth - 1, c));
                lemma_child_within(root@, depth as int, intermediate_catalog()[j as int], c@);
                assert(f.ensures((&best,), best_key));
                assert forall|x: Recipe, kx: i64, kr: i64|
                    within(root@, depth as int, x@) && #[trigger] f.ensures((&x,), kx)
                        && #[trigger] f.ensures((&best,), kr) implies kx <= kr by {
                    if x@.1.len() > root@.1.len() {
                        lemma_intermediate_rank(x@.1[root@.1.len() as int]);
                    }
                }
            }
            best
        },
    }
}

/// The sequential form of `search_for_recipe_max_dfs`.
fn search_sequential_max<F: Fn(&Recipe) -> i64>(root: Recipe, f: &F, depth: i8) -> (r: Recipe)
    requires
        key_is_pure(*f),
    ensures
        is_best(*f, root@, depth as int, r),
        keeps_root_on_ties(*f, root, r),
        depth <= 0 ==> r@ == root@,
    decreases depth, 2int,
{
    if depth <= 0 {
        let k = f(&root);
        proof {
            lemma_within_root(root@, depth as int, root@);
            assert(f.ensures((&root,), k));
            assert forall|x: Recipe, kx: i64, kr: i64|
                within(root@, depth as int, x@) && #[trigger] f.ensures((&x,), kx) && #[trigger] f.ensures(
                    (&root,),
                    kr,
                ) implies kx <= kr by {
                lemma_within_root(root@, depth as int, x@);
            }
        }
        return root;
    }
    let branches = best_per_branch_sequential(&root, f, depth);
    pick_best(root, f, depth, branches)
}

/// Searches every recipe that extends `root` by at most `depth`
/// intermediates and returns one whose key is the greatest. The branches
/// below `root` are searched in parallel. Where keys tie, `root` is preferred,
/// then the branch of the intermediate that comes first in the catalog.
pub fn search_for_recipe_max_dfs<F: Fn(&Recipe) -> i64 + Sync>(root: Recipe, f: F, depth: i8) -> (r: Recipe)
    requires
        key_is_pure(f),
    ensures
        is_best(f, root@, depth as int, r),
        keeps_root_on_ties(f, root, r),
        depth <= 0 ==> r@ == root@,
{
    if depth <= 0 {
        return search_sequential_max(root, &f, depth);
    }
    let items = Intermediate::all();
    let branches = par_best_below(&root, &items, &f, depth - 1);
    pick_best(root, &f, depth, branches)
}

/// What a satisfiability search below `root` may return: a recipe within
/// `depth` of `root` that satisfies `f`, or nothing when none there does.
pub open spec fn is_found<F: Fn(&Recipe) -> bool>(
    f: F,
    root: (Base, Seq<Intermediate>),
    depth: int,
    r: Option<Recipe>,
) -> bool {
    match r {
        Some(x) => within(root, depth, x@) && f.ensures((&x,), true),
        None => forall|x: Recipe, b: bool|
            within(root, depth, x@) && #[trigger] f.ensures((&x,), b) ==> !b,
    }
}

/// Like `is_found`, for the recipes strictly below `root` only.
pub open spec fn is_found_below<F: Fn(&Recipe) -> bool>(
    f: F,
    root: (Base, Seq<Intermediate>),
    depth: int,
    r: Option<Recipe>,
) -> bool {
    match r {
        Some(x) => within(root, depth, x@) && x@.1.len() > root.1.len() && f.ensures((&x,), true),
        None => forall|x: Recipe, b: bool|
            within(root, depth, x@) && x@.1.len() > root.1.len() && #[trigger] f.ensures((&x,), b)
                ==> !b,
    }
}

/// A satisfying recipe below `root` with `i` added, within `depth` more
/// intermediates, if there is one.
fn find_below<F: Fn(&Recipe) -> bool>(root: &Recipe, i: Intermediate, f: &F, depth: i8) -> (r: Option<Recipe>)
    requires
        predicate_is_pure(*f),
    ensures
        is_found(*f, extended(root@, i), depth as int, r),
    decreases depth, 3int,
{
    search_sequential_find(root.duplicate().add_intermediate(i), f, depth)
}

/// Relies on rayon's `find_map_any`: some non-`None` result of the map when
/// there is one, in no specified order, and `None` when every result is
/// `None`. Each result is what `find_below` returns for its item.
#[verifier::external_body]
fn par_find_below<F: Fn(&Recipe) -> bool + Sync>(
    root: &Recipe,
    items: &Vec<Intermediate>,
    f: &F,
    depth: i8,
) -> (r: Option<Recipe>)
    requires
        predicate_is_pure(*f),
    ensures
        match r {
            Some(x) => exists|k: int|
                0 <= k < items.len() && is_found(*f, extended(root@, #[trigger] items@[k]), depth as int, Some(x)),
            None => forall|k: int|
                0 <= k < items.len() ==> is_found(*f, extended(root@, #[trigger] items@[k]), depth as int, None),
        },
{
    items.par_iter().find_map_any(|i| find_below(root, *i, f, depth))
}

proof fn lemma_found_below<F: Fn(&Recipe) -> bool>(
    f: F,
    root: (Base, Seq<Intermediate>),
    depth: int,
    r: Option<Recipe>,
)
    requires
        depth > 0,
        match r {
            Some(x) => exists|k: int|
                0 <= k < intermediate_catalog().len() && is_found(
                    f,
                    extended(root, #[trigger] intermediate_catalog()[k]),
                    depth - 1,
                    Some(x),
                ),
            None => forall|k: int|
                0 <= k < intermediate_catalog().len() ==> is_found(
                    f,
                    extended(root, #[trigger] intermediate_catalog()[k]),
                    depth - 1,
                    None,
                ),
        },
    ensures
        is_found_below(f, root, depth, r),
{
    match r {
        Some(x) => {
            let k = choose|k: int|
                0 <= k < intermediate_catalog().len() && is_found(
                    f,
                    extended(root, #[trigger] intermediate_catalog()[k]),
                    depth - 1,
                    Some(x),
                );
            lemma_child_within(root, depth, intermediate_catalog()[k], x@);
        },
        None => {
            assert forall|x: Recipe, b: bool|
                within(root, depth, x@) && x@.1.len() > root.1.len() && #[trigger] f.ensures((&x,), b)
                    implies !b by {
                let i = x@.1[root.1.len() as int];
                lemma_intermediate_rank(i);
                lemma_within_child(root, depth, x@);
                assert(is_found(f, extended(root, intermediate_catalog()[intermediate_rank(i)]), depth - 1, None));
            }
        },
    }
}

/// The first satisfying recipe, in catalog order of the branches, below
/// `root`, searched one branch after another.
fn find_below_sequential<F: Fn(&Recipe) -> bool>(root: &Recipe, f: &F, depth: i8) -> (r: Option<Recipe>)
    requires
        predicate_is_pure(*f),
        depth > 0,
    ensures
        is_found_below(*f, root@, depth as int, r),
    decreases depth, 1int,
{
    let items = Intermediate::all();
    let mut k: usize = 0;
    while k < items.len()
        invariant
            predicate_is_pure(*f),
            depth > 0,
            items@ == intermediate_catalog(),
            k <= items.len(),
            forall|j: int| 0 <= j < k ==> is_found(*f, extended(root@, #[trigger] items@[j]), depth - 1, None),
        decreases items.len() - k,
    {
        let found = find_below(root, items[k], f, depth - 1);
        if found.is_some() {
            proof {
                lemma_found_below(*f, root@, depth as int, found);
            }
            return found;
        }
        k = k + 1;
    }
    proof {
        lemma_found_below(*f, root@, depth as int, None);
    }
    None
}

/// The result of a satisfiability search of `root` at `depth`, given what the
/// search below `root` found: that, or else `root` itself when it satisfies
/// `f`.
fn found_or_root<F: Fn(&Recipe) -> bool>(root: Recipe, f: &F, depth: i8, below: Option<Recipe>) -> (r: Option<Recipe>)
    requires
        predicate_is_pure(*f),
        depth > 0,
        is_found_below(*f, root@, depth as int, below),
    ensures
        is_found(*f, root@, depth as int, r),
{
    proof {
        lemma_within_root(root@, depth as int, root@);
    }
    match below {
        Some(x) => Some(x),
        None => {
            let b = f(&root);
            proof {
                assert forall|x: Recipe, bx: bool|
                    within(root@, depth as int, x@) && #[trigger] f.ensures((&x,), bx) && !b implies !bx by {
                    lemma_within_root(root@, depth as int, x@);
                }
            }
            if b {
                Some(root)
            } else {
                None
            }
        },
    }
}

/// The sequential form of `search_for_recipe_find_dfs`.
fn search_sequential_find<F: Fn(&Recipe) -> bool>(root: Recipe, f: &F, depth: i8) -> (r: Option<Recipe>)
    requires
        predicate_is_pure(*f),
    ensures
        is_found(*f, root@, depth as int, r),
    decreases depth, 2int,
{
    if depth <= 0 {
        let b = f(&root);
        proof {
            lemma_within_root(root@, depth as int, root@);
            assert forall|x: Recipe, bx: bool|
                within(root@, depth as int, x@) && #[trigger] f.ensures((&x,), bx) && !b implies !bx by {
                lemma_within_root(root@, depth as int, x@);
            }
        }
        return if b {
            Some(root)
        } else {
            None
        };
    }
    let below = find_below_sequential(&root, f, depth);
    found_or_root(root, f, depth, below)
}

fn search_find<F: Fn(&Recipe) -> bool + Sync>(root: Recipe, f: &F, depth: i8) -> (r: Option<Recipe>)
    requires
        predicate_is_pure(*f),
    ensures
        is_found(*f, root@, depth as int, r),
{
    if depth <= 0 {
        return search_sequential_find(root, f, depth);
    }
    let items = Intermediate::all();
    let below = par_find_below(&root, &items, f, depth - 1);
    proof {
        lemma_found_below(*f, root@, depth as int, below);
    }
    found_or_root(root, f, depth, below)
}

/// Searches the recipes that extend `root` by at most `depth` intermediates
/// for one that satisfies `f`, and returns one if there is one. The branches
/// below `root` are searched in parallel, and any satisfying recipe that one
/// of them finds may be the one returned.
pub fn search_for_recipe_find_dfs<F: Fn(&Recipe) -> bool + Sync>(root: Recipe, f: F, depth: i8) -> (r: Option<Recipe>)
    requires
        predicate_is_pure(f),
    ensures
        is_found(f, root@, depth as int, r),
{
    search_find(root, &f, depth)
}

/// Searches every base, with at most `depth` intermediates, for a recipe that
/// satisfies `f`. Shorter recipes come first: for each length from zero up,
/// the bases are tried in catalog order. Returns a satisfying recipe of the
/// least length and, at that length, of the first base that has one; `None`
/// when no recipe of at most `depth` intermediates satisfies `f`.
pub fn search_for_recipe_find_iddfs<F: Fn(&Recipe) -> bool + Sync>(f: F, depth: i8) -> (r: Option<Recipe>)
    requires
        predicate_is_pure(f),
    ensures
        match r {
            Some(x) => {
                &&& x@.1.len() <= depth
                &&& f.ensures((&x,), true)
                &&& forall|y: Recipe, b: bool|
                    y@.1.len() < x@.1.len() && #[trigger] f.ensures((&y,), b) ==> !b
                &&& forall|y: Recipe, b: bool|
                    y@.1.len() == x@.1.len() && base_rank(y@.0) < base_rank(x@.0) && #[trigger] f.ensures(
                        (&y,),
                        b,
                    ) ==> !b
            },
            None => forall|y: Recipe, b: bool| y@.1.len() <= depth && #[trigger] f.ensures((&y,), b) ==> !b,
        },
{
    let bases = Base::all();
    let limit: i16 = depth as i16 + 1;
    let mut d: i16 = 0;
    while d < limit
        invariant
            predicate_is_pure(f),
            bases@ == base_catalog(),
            limit == depth + 1,
            0 <= d,
            d <= limit || limit < 0,
            forall|y: Recipe, b: bool| y@.1.len() < d && #[trigger] f.ensures((&y,), b) ==> !b,
        decreases limit - d,
    {
        let mut k: usize = 0;
        while k < bases.len()
            invariant
                predicate_is_pure(f),
                bases@ == base_catalog(),
                0 <= d <= depth,
                k <= bases.len(),
                forall|y: Recipe, b: bool| y@.1.len() < d && #[trigger] f.ensures((&y,), b) ==> !b,
                forall|y: Recipe, b: bool|
                    y@.1.len() == d && base_rank(y@.0) < k && #[trigger] f.ensures((&y,), b) ==> !b,
            decreases bases.len() - k,
        {
            let root = Recipe::with_base(bases[k]);
            let found = search_find(root, &f, d as i8);
            proof {
                assert forall|y: Recipe, b: bool|
                    y@.1.len() <= d && y@.0 == bases@[k as int] && #[trigger] f.ensures((&y,), b) && found is None
                        implies !b by {
                    assert(y@.1.subrange(0, 0) =~= Seq::<Intermediate>::empty());
                    assert(within(root@, d as int, y@));
                }
            }
            match found {
                Some(x) => {
                    proof {
                        if x@.1.len() < d {
                            assert(f.ensures((&x,), true));
                        }
                        assert forall|y: Recipe, b: bool|
                            y@.1.len() == x@.1.len() && base_rank(y@.0) < base_rank(x@.0) && #[trigger] f.ensures(
                                (&y,),
                                b,
                            ) implies !b by {
                            lemma_base_rank(y@.0);
                        }
                    }
                    return Some(x);
                },
                None => {
                    proof {
                        assert forall|y: Recipe, b: bool|
                            y@.1.len() == d && base_rank(y@.0) < k + 1 && #[trigger] f.ensures((&y,), b)
                                implies !b by {
                            lemma_base_rank(y@.0);
                        }
                    }
                },
            }
            k = k + 1;
        }
        proof {
            assert forall|y: Recipe, b: bool| y@.1.len() < d + 1 && #[trigger] f.ensures((&y,), b) implies !b by {
                lemma_base_rank(y@.0);
            }
        }
        d = d + 1;
    }
    None
}

} // verus!
