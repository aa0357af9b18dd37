//! The order of check-group categories (Required, then Optional by reason, then Advisory)
//! and the stable sort of groups by it.
use vstd::prelude::*;

use crate::helpers::{CategoryView, CheckGroupCategory};

verus! {

/// Lexicographic order on character sequences (the order of `String`s: UTF-8 preserves it).
pub open spec fn seq_lt(a: Seq<char>, b: Seq<char>) -> bool
    decreases a.len(),
{
    if a.len() == 0 {
        b.len() > 0
    } else if b.len() == 0 {
        false
    } else if a[0] != b[0] {
        a[0] < b[0]
    } else {
        seq_lt(a.drop_first(), b.drop_first())
    }
}

/// The rank of a category: Required before Optional before Advisory.
pub open spec fn rank(c: CategoryView) -> int {
    match c {
        CategoryView::Required => 0,
        CategoryView::Optional(_) => 1,
        CategoryView::Advisory => 2,
    }
}

/// `a <= b` in the category order (the order `derive(Ord)` gives `CheckGroupCategory`).
pub open spec fn cat_le(a: CategoryView, b: CategoryView) -> bool {
    if rank(a) != rank(b) {
        rank(a) < rank(b)
    } else {
        match (a, b) {
            (CategoryView::Optional(x), CategoryView::Optional(y)) => !seq_lt(y, x),
            _ => true,
        }
    }
}

/// No sequence comes before itself.
proof fn lemma_seq_lt_irreflexive(a: Seq<char>)
    ensures
        !seq_lt(a, a),
    decreases a.len(),
{
    if a.len() > 0 {
        lemma_seq_lt_irreflexive(a.drop_first());
    }
}

/// The lexicographic order is transitive.
proof fn lemma_seq_lt_transitive(a: Seq<char>, b: Seq<char>, c: Seq<char>)
    requires
        seq_lt(a, b),
        seq_lt(b, c),
    ensures
        seq_lt(a, c),
    decreases a.len(),
{
    if a.len() > 0 && b.len() > 0 && c.len() > 0 && a[0] == b[0] && b[0] == c[0] {
        lemma_seq_lt_transitive(a.drop_first(), b.drop_first(), c.drop_first());
    }
}

/// Of two sequences, at most one comes before the other.
proof fn lemma_seq_lt_asymmetric(a: Seq<char>, b: Seq<char>)
    ensures
        !(seq_lt(a, b) && seq_lt(b, a)),
{
    if seq_lt(a, b) && seq_lt(b, a) {
        lemma_seq_lt_transitive(a, b, a);
        lemma_seq_lt_irreflexive(a);
    }
}

/// Of two different sequences, one comes before the other.
proof fn lemma_seq_lt_total(a: Seq<char>, b: Seq<char>)
    ensures
        a == b || seq_lt(a, b) || seq_lt(b, a),
    decreases a.len(),
{
    if a.len() > 0 && b.len() > 0 {
        if a[0] == b[0] {
            lemma_seq_lt_total(a.drop_first(), b.drop_first());
            if a.drop_first() == b.drop_first() {
                assert(a =~= seq![a[0]] + a.drop_first());
                assert(b =~= seq![b[0]] + b.drop_first());
            }
        }
    } else if a.len() == 0 && b.len() == 0 {
        assert(a =~= b);
    }
}

/// The category order is a total preorder: reflexive, transitive and total.
pub proof fn law_category_order_total_preorder(a: CategoryView, b: CategoryView, c: CategoryView)
    ensures
        cat_le(a, a),
        cat_le(a, b) && cat_le(b, c) ==> cat_le(a, c),
        cat_le(a, b) || cat_le(b, a),
{
    if let CategoryView::Optional(x) = a {
        lemma_seq_lt_irreflexive(x);
        if let CategoryView::Optional(y) = b {
            lemma_seq_lt_total(x, y);
            lemma_seq_lt_asymmetric(x, y);
            if let CategoryView::Optional(z) = c {
                if cat_le(a, b) && cat_le(b, c) {
                    lemma_seq_lt_total(x, z);
                    lemma_seq_lt_total(y, z);
                    if seq_lt(z, x) {
                        if seq_lt(z, y) {
                        } else if y == z {
                        } else {
                            lemma_seq_lt_transitive(y, z, x);
                        }
                    }
                }
            }
        }
    }
}

/// Whether `a` comes before `b` lexicographically.
pub fn seq_lt_exec(a: &Vec<char>, b: &Vec<char>) -> (r: bool)
    ensures
        r == seq_lt(a@, b@),
{
    let mut i: usize = 0;
    assert(a@.skip(0) =~= a@);
    assert(b@.skip(0) =~= b@);
    while i < a.len() && i < b.len() && a[i] == b[i]
        invariant
            i <= a.len(),
            i <= b.len(),
            seq_lt(a@, b@) == seq_lt(a@.skip(i as int), b@.skip(i as int)),
        decreases a.len() - i,
    {
        assert(a@.skip(i as int).drop_first() =~= a@.skip(i + 1));
        assert(b@.skip(i as int).drop_first() =~= b@.skip(i + 1));
        i = i + 1;
    }
    if i == a.len() {
        i < b.len()
    } else if i == b.len() {
        false
    } else {
        a[i] < b[i]
    }
}

/// Whether `a <= b` in the category order.
pub fn cat_le_exec(a: &CheckGroupCategory, b: &CheckGroupCategory) -> (r: bool)
    ensures
        r == cat_le(a@, b@),
{
    match (a, b) {
        (CheckGroupCategory::Required, _) => true,
        (CheckGroupCategory::Optional(_), CheckGroupCategory::Required) => false,
        (CheckGroupCategory::Optional(x), CheckGroupCategory::Optional(y)) => {
            let xs = crate::text::chars_of(x.as_str());
            let ys = crate::text::chars_of(y.as_str());
            !seq_lt_exec(&ys, &xs)
        },
        (CheckGroupCategory::Optional(_), CheckGroupCategory::Advisory) => true,
        (CheckGroupCategory::Advisory, CheckGroupCategory::Advisory) => true,
        (CheckGroupCategory::Advisory, _) => false,
    }
}

/// Where a new entry of category `k` goes in `order` (positions into `keys`): before the first
/// entry whose category comes strictly after `k`.
pub open spec fn insert_pos(order: Seq<int>, keys: Seq<CategoryView>, k: CategoryView) -> int
    decreases order.len(),
{
    if order.len() == 0 {
        0
    } else if !cat_le(keys[order[0]], k) {
        0
    } else {
        1 + insert_pos(order.drop_first(), keys, k)
    }
}

/// The positions of `keys` in stably sorted order: each entry is inserted after every earlier
/// entry whose category does not come after its own.
pub open spec fn stable_order(keys: Seq<CategoryView>) -> Seq<int>
    decreases keys.len(),
{
    if keys.len() == 0 {
        Seq::empty()
    } else {
        let prev = stable_order(keys.drop_last());
        let last = keys.len() - 1;
        prev.insert(insert_pos(prev, keys, keys[last]), last)
    }
}

/// The views of a sequence of categories.
pub open spec fn category_views(cs: Seq<CheckGroupCategory>) -> Seq<CategoryView> {
    cs.map_values(|c: CheckGroupCategory| c@)
}

proof fn lemma_insert_pos_bounds(order: Seq<int>, keys: Seq<CategoryView>, k: CategoryView)
    ensures
        0 <= insert_pos(order, keys, k) <= order.len(),
        forall|j: int|
            0 <= j < insert_pos(order, keys, k) ==> cat_le(#[trigger] keys[order[j]], k),
        insert_pos(order, keys, k) < order.len() ==> !cat_le(
            keys[order[insert_pos(order, keys, k)]],
            k,
        ),
    decreases order.len(),
{
    if order.len() > 0 && cat_le(keys[order[0]], k) {
        lemma_insert_pos_bounds(order.drop_first(), keys, k);
        assert forall|j: int|
            0 <= j < insert_pos(order, keys, k) implies cat_le(#[trigger] keys[order[j]], k) by {
            if j > 0 {
                assert(order[j] == order.drop_first()[j - 1]);
            }
        }
    }
}

proof fn lemma_insert_pos_unique(order: Seq<int>, keys: Seq<CategoryView>, k: CategoryView, p: int)
    requires
        0 <= p <= order.len(),
        forall|j: int| 0 <= j < p ==> cat_le(#[trigger] keys[order[j]], k),
        p < order.len() ==> !cat_le(keys[order[p]], k),
    ensures
        insert_pos(order, keys, k) == p,
    decreases order.len(),
{
    if order.len() > 0 && p > 0 {
        assert(cat_le(keys[order[0]], k));
        assert forall|j: int| 0 <= j < p - 1 implies cat_le(
            #[trigger] keys[order.drop_first()[j]],
            k,
        ) by {
            assert(order.drop_first()[j] == order[j + 1]);
        }
        lemma_insert_pos_unique(order.drop_first(), keys, k, p - 1);
    }
}

/// The order in which groups of categories `cats` run: sorted by category, groups of equal
/// categories keeping their relative order.
pub fn sort_by_category(cats: &Vec<CheckGroupCategory>) -> (r: Vec<usize>)
    ensures
        r@.map_values(|i: usize| i as int) == stable_order(category_views(cats@)),
{
    let ghost keys = category_views(cats@);
    let mut order: Vec<usize> = Vec::new();
    let mut n: usize = 0;
    assert(keys.take(0) =~= Seq::<CategoryView>::empty());
    assert(order@.map_values(|i: usize| i as int) =~= Seq::<int>::empty());
    while n < cats.len()
        invariant
            n <= cats.len(),
            keys == category_views(cats@),
            order@.map_values(|i: usize| i as int) == stable_order(keys.take(n as int)),
            forall|j: int| 0 <= j < order.len() ==> #[trigger] order@[j] < n,
            order.len() == n,
        decreases cats.len() - n,
    {
        let ghost prev = order@.map_values(|i: usize| i as int);
        let ghost kn = keys.take(n + 1);
        assert(kn.drop_last() =~= keys.take(n as int));
        assert(kn[n as int] == cats@[n as int]@);
        assert forall|j: int| 0 <= j < prev.len() implies #[trigger] kn[prev[j]] == keys[prev[j]] by {
            assert(prev[j] == order@[j] as int);
        }
        let mut p: usize = 0;
        while p < order.len() && cat_le_exec(&cats[order[p]], &cats[n])
            invariant
                p <= order.len(),
                order.len() == n,
                n < cats.len(),
                keys == category_views(cats@),
                prev == order@.map_values(|i: usize| i as int),
                forall|j: int| 0 <= j < order.len() ==> #[trigger] order@[j] < n,
                forall|j: int| 0 <= j < p ==> cat_le(#[trigger] keys[prev[j]], keys[n as int]),
            decreases order.len() - p,
        {
            assert(prev[p as int] == order@[p as int] as int);
            p = p + 1;
        }
        proof {
            if p < order.len() {
                assert(prev[p as int] == order@[p as int] as int);
            }
            assert forall|j: int| 0 <= j < p implies cat_le(#[trigger] kn[prev[j]], kn[n as int]) by {
                assert(kn[prev[j]] == keys[prev[j]]);
            }
            lemma_insert_pos_unique(prev, kn, kn[n as int], p as int);
        }
        order.insert(p, n);
        proof {
            assert(order@.map_values(|i: usize| i as int) =~= prev.insert(p as int, n as int));
        }
        n = n + 1;
    }
    assert(keys.take(cats.len() as int) =~= keys);
    order
}

/// Whether `order` lists each position of `0..n` exactly once.
pub open spec fn is_permutation(order: Seq<int>, n: int) -> bool {
    &&& order.len() == n
    &&& forall|j: int| 0 <= j < order.len() ==> 0 <= #[trigger] order[j] < n
    &&& forall|i: int, j: int| 0 <= i < j < order.len() ==> order[i] != order[j]
}

/// Whether `order` is sorted by category, and entries of equal category keep their relative
/// order.
pub open spec fn is_stably_sorted(order: Seq<int>, keys: Seq<CategoryView>) -> bool {
    forall|i: int, j: int|
        0 <= i < j < order.len() ==> cat_le(keys[order[i]], keys[order[j]]) && (cat_le(
            keys[order[j]],
            keys[order[i]],
        ) ==> order[i] < order[j])
}

/// The run order of groups holds every group once, sorted by category: Required groups first,
/// then Optional ones (by reason), then Advisory ones; groups of equal category keep the order
/// in which they were listed.
pub proof fn law_stable_order_sorts(keys: Seq<CategoryView>)
    ensures
        is_permutation(stable_order(keys), keys.len() as int),
        is_stably_sorted(stable_order(keys), keys),
    decreases keys.len(),
{
    if keys.len() > 0 {
        let pk = keys.drop_last();
        law_stable_order_sorts(pk);
        let prev = stable_order(pk);
        let last = keys.len() - 1;
        let k = keys[last];
        let p = insert_pos(prev, keys, k);
        lemma_insert_pos_bounds(prev, keys, k);
        let order = stable_order(keys);
        assert(order == prev.insert(p, last));
        assert forall|j: int| 0 <= j < prev.len() implies #[trigger] keys[prev[j]] == pk[prev[j]] by {
        }
        // every earlier entry is a position of the prefix
        assert forall|i: int, j: int| 0 <= i < j < order.len() implies order[i] != order[j] by {
            if i == p {
                assert(order[j] == prev[j - 1]);
            } else if j == p {
                assert(order[i] == prev[i]);
            } else {
                let pi = if i < p { i } else { i - 1 };
                let pj = if j < p { j } else { j - 1 };
                assert(order[i] == prev[pi]);
                assert(order[j] == prev[pj]);
            }
        }
        assert forall|j: int| 0 <= j < order.len() implies 0 <= #[trigger] order[j] < keys.len() by {
            if j < p {
                assert(order[j] == prev[j]);
            } else if j > p {
                assert(order[j] == prev[j - 1]);
            }
        }
        assert forall|j: int| 0 <= j < prev.len() implies #[trigger] prev[j] < last by {}
        assert forall|i: int, j: int| 0 <= i < j < order.len() implies cat_le(
            keys[order[i]],
            keys[order[j]],
        ) && (cat_le(keys[order[j]], keys[order[i]]) ==> order[i] < order[j]) by {
            if i == p {
                let pj = j - 1;
                assert(order[j] == prev[pj]);
                assert(order[i] == last);
                let a = keys[prev[p]];
                let b = keys[prev[pj]];
                assert(!cat_le(a, k));
                law_category_order_total_preorder(a, k, b);
                law_category_order_total_preorder(k, a, b);
                law_category_order_total_preorder(a, b, k);
                if pj > p {
                    assert(cat_le(pk[prev[p]], pk[prev[pj]]));
                }
                assert(cat_le(a, b));
                assert(cat_le(k, b));
                assert(!cat_le(b, k));
            } else if j == p {
                assert(order[i] == prev[i]);
                assert(order[j] == last);
                assert(cat_le(keys[prev[i]], k));
                assert(prev[i] < last);
            } else {
                let pi = if i < p { i } else { i - 1 };
                let pj = if j < p { j } else { j - 1 };
                assert(order[i] == prev[pi]);
                assert(order[j] == prev[pj]);
                assert(pi < pj);
                assert(cat_le(pk[prev[pi]], pk[prev[pj]]));
            }
        }
    }
}

} // verus!
