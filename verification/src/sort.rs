//! Stable sorting by keys: each list element gets a key (a sequence of
//! integers compared lexicographically); the sorted order puts element `i`
//! at the position counting the elements whose key comes strictly before
//! its key, plus the elements before it with an equal key.
use vstd::prelude::*;
use vstd::set_lib::{lemma_int_range, lemma_map_size, lemma_subset_equality, set_int_range};

verus! {

/// The view of a key.
pub open spec fn key_view(k: Vec<i128>) -> Seq<int> {
    k@.map_values(|x: i128| x as int)
}

/// Lexicographic order on keys: `a` comes strictly before `b`.
pub open spec fn lex_lt(a: Seq<int>, b: Seq<int>) -> bool
    decreases a.len(),
{
    if a.len() == 0 {
        b.len() > 0
    } else if b.len() == 0 {
        false
    } else if a[0] < b[0] {
        true
    } else if a[0] > b[0] {
        false
    } else {
        lex_lt(a.drop_first(), b.drop_first())
    }
}

pub proof fn lemma_lex_irreflexive(a: Seq<int>)
    ensures
        !lex_lt(a, a),
    decreases a.len(),
{
    if a.len() > 0 {
        lemma_lex_irreflexive(a.drop_first());
    }
}

pub proof fn lemma_lex_transitive(a: Seq<int>, b: Seq<int>, c: Seq<int>)
    requires
        lex_lt(a, b),
        lex_lt(b, c),
    ensures
        lex_lt(a, c),
    decreases a.len(),
{
    if a.len() > 0 && b.len() > 0 && c.len() > 0 && a[0] == b[0] && b[0] == c[0] {
        lemma_lex_transitive(a.drop_first(), b.drop_first(), c.drop_first());
    }
}

pub proof fn lemma_lex_total(a: Seq<int>, b: Seq<int>)
    ensures
        a =~= b || lex_lt(a, b) || lex_lt(b, a),
    decreases a.len(),
{
    if a.len() > 0 && b.len() > 0 && a[0] == b[0] {
        lemma_lex_total(a.drop_first(), b.drop_first());
        if a.drop_first() =~= b.drop_first() {
            assert(a =~= b) by {
                assert forall|k: int| 0 <= k < a.len() implies a[k] == b[k] by {
                    if k > 0 {
                        assert(a[k] == a.drop_first()[k - 1]);
                    }
                }
            }
        }
    }
}

pub proof fn lemma_lex_asymmetric(a: Seq<int>, b: Seq<int>)
    requires
        lex_lt(a, b),
    ensures
        !lex_lt(b, a),
{
    if lex_lt(b, a) {
        lemma_lex_transitive(a, b, a);
        lemma_lex_irreflexive(a);
    }
}

/// Key `a` comes strictly before key `b` in the chosen direction.
pub open spec fn key_before(a: Seq<int>, b: Seq<int>, desc: bool) -> bool {
    if desc {
        lex_lt(b, a)
    } else {
        lex_lt(a, b)
    }
}

/// Element `j` goes before element `i` in a stable sort.
pub open spec fn precedes(keys: Seq<Seq<int>>, desc: bool, j: int, i: int) -> bool {
    key_before(keys[j], keys[i], desc) || (j < i && keys[j] == keys[i])
}

/// How many of the elements `0..m` go before element `i`.
pub open spec fn count_preceding(keys: Seq<Seq<int>>, desc: bool, i: int, m: int) -> nat
    decreases m,
{
    if m <= 0 {
        0
    } else {
        count_preceding(keys, desc, i, m - 1) + if precedes(keys, desc, m - 1, i) {
            1nat
        } else {
            0nat
        }
    }
}

/// The position of element `i` in the stable sort of `keys`.
pub open spec fn sort_rank(keys: Seq<Seq<int>>, desc: bool, i: int) -> nat {
    count_preceding(keys, desc, i, keys.len() as int)
}

proof fn lemma_precedes_irreflexive(keys: Seq<Seq<int>>, desc: bool, i: int)
    ensures
        !precedes(keys, desc, i, i),
{
    lemma_lex_irreflexive(keys[i]);
}

proof fn lemma_precedes_transitive(keys: Seq<Seq<int>>, desc: bool, a: int, b: int, c: int)
    requires
        precedes(keys, desc, a, b),
        precedes(keys, desc, b, c),
    ensures
        precedes(keys, desc, a, c),
{
    if key_before(keys[a], keys[b], desc) && key_before(keys[b], keys[c], desc) {
        if desc {
            lemma_lex_transitive(keys[c], keys[b], keys[a]);
        } else {
            lemma_lex_transitive(keys[a], keys[b], keys[c]);
        }
    }
}

proof fn lemma_precedes_total(keys: Seq<Seq<int>>, desc: bool, i: int, j: int)
    requires
        i != j,
    ensures
        precedes(keys, desc, i, j) || precedes(keys, desc, j, i),
{
    lemma_lex_total(keys[i], keys[j]);
}

proof fn lemma_count_bound(keys: Seq<Seq<int>>, desc: bool, i: int, m: int)
    requires
        0 <= i < m,
    ensures
        count_preceding(keys, desc, i, m) <= m - 1,
    decreases m,
{
    lemma_precedes_irreflexive(keys, desc, i);
    if m - 1 > i {
        lemma_count_bound(keys, desc, i, m - 1);
    } else {
        lemma_count_le(keys, desc, i, m - 1);
    }
}

proof fn lemma_count_le(keys: Seq<Seq<int>>, desc: bool, i: int, m: int)
    ensures
        count_preceding(keys, desc, i, m) <= if m < 0 {
            0
        } else {
            m
        },
    decreases m,
{
    if m > 0 {
        lemma_count_le(keys, desc, i, m - 1);
    }
}

/// Elements before `a` are before `b` when `a` is before `b`; and `a`
/// itself counts for `b` but not for `a`.
proof fn lemma_count_strict(keys: Seq<Seq<int>>, desc: bool, a: int, b: int, m: int)
    requires
        precedes(keys, desc, a, b),
        0 <= m,
        0 <= a,
    ensures
        count_preceding(keys, desc, a, m) <= count_preceding(keys, desc, b, m),
        a < m ==> count_preceding(keys, desc, a, m) < count_preceding(keys, desc, b, m),
    decreases m,
{
    lemma_precedes_irreflexive(keys, desc, a);
    if m > 0 {
        lemma_count_strict(keys, desc, a, b, m - 1);
        if precedes(keys, desc, m - 1, a) {
            lemma_precedes_transitive(keys, desc, m - 1, a, b);
        }
        if m - 1 == a {
            assert(!precedes(keys, desc, a, a));
            assert(precedes(keys, desc, m - 1, b));
        }
    }
}

/// Ranks are distinct positions within the list.
pub proof fn lemma_rank_injective(keys: Seq<Seq<int>>, desc: bool, i: int, j: int)
    requires
        0 <= i < keys.len(),
        0 <= j < keys.len(),
        i != j,
    ensures
        sort_rank(keys, desc, i) != sort_rank(keys, desc, j),
        sort_rank(keys, desc, i) < keys.len(),
{
    lemma_count_bound(keys, desc, i, keys.len() as int);
    lemma_precedes_total(keys, desc, i, j);
    if precedes(keys, desc, i, j) {
        lemma_count_strict(keys, desc, i, j, keys.len() as int);
    } else {
        lemma_count_strict(keys, desc, j, i, keys.len() as int);
    }
}

/// Every position of the list is the rank of some element.
pub proof fn lemma_rank_onto(keys: Seq<Seq<int>>, desc: bool, k: int)
    requires
        0 <= k < keys.len(),
    ensures
        exists|i: int| 0 <= i < keys.len() && sort_rank(keys, desc, i) == k,
{
    let n = keys.len() as int;
    let x = set_int_range(0, n);
    let f = |i: int| sort_rank(keys, desc, i) as int;
    lemma_int_range(0, n);
    assert forall|a: int, b: int| x.contains(a) && x.contains(b) && #[trigger] f(a) == #[trigger] f(
        b,
    ) implies a == b by {
        if a != b {
            lemma_rank_injective(keys, desc, a, b);
        }
    }
    assert(vstd::relations::injective_on(f, x));
    let y = x.map(f);
    lemma_map_size(x, y, f);
    assert(y.subset_of(x)) by {
        assert forall|v: int| y.contains(v) implies x.contains(v) by {
            let i = choose|i: int| x.contains(i) && f(i) == v;
            if i != (if i == 0 {
                1int
            } else {
                0int
            }) && n > 1 {
                lemma_rank_injective(keys, desc, i, if i == 0 {
                    1int
                } else {
                    0int
                });
            } else {
                lemma_count_bound(keys, desc, i, n);
            }
        }
    }
    lemma_subset_equality(y, x);
    assert(x.contains(k));
    assert(y.contains(k));
}

/// Whether key `a` comes strictly before key `b` lexicographically.
pub fn key_less(a: &Vec<i128>, b: &Vec<i128>) -> (r: bool)
    ensures
        r == lex_lt(key_view(*a), key_view(*b)),
{
    let ghost av = key_view(*a);
    let ghost bv = key_view(*b);
    let mut i: usize = 0;
    proof {
        assert(av.skip(0) =~= av);
        assert(bv.skip(0) =~= bv);
    }
    while i < a.len() && i < b.len() && a[i] == b[i]
        invariant
            i <= a.len(),
            i <= b.len(),
            av == key_view(*a),
            bv == key_view(*b),
            lex_lt(av, bv) == lex_lt(av.skip(i as int), bv.skip(i as int)),
        decreases a.len() - i,
    {
        proof {
            assert(av.skip(i as int).drop_first() =~= av.skip(i + 1));
            assert(bv.skip(i as int).drop_first() =~= bv.skip(i + 1));
        }
        i = i + 1;
    }
    proof {
        assert(av.skip(0) =~= av);
        assert(bv.skip(0) =~= bv);
    }
    if i == a.len() {
        i < b.len()
    } else if i == b.len() {
        false
    } else {
        proof {
            assert(av.skip(i as int)[0] == a@[i as int] as int);
            assert(bv.skip(i as int)[0] == b@[i as int] as int);
        }
        a[i] < b[i]
    }
}

/// Whether two keys are equal.
pub fn key_equal(a: &Vec<i128>, b: &Vec<i128>) -> (r: bool)
    ensures
        r == (key_view(*a) == key_view(*b)),
{
    if a.len() != b.len() {
        proof {
            assert(key_view(*a).len() != key_view(*b).len());
        }
        return false;
    }
    let mut i: usize = 0;
    while i < a.len()
        invariant
            a.len() == b.len(),
            i <= a.len(),
            forall|k: int| 0 <= k < i ==> a@[k] == b@[k],
        decreases a.len() - i,
    {
        if a[i] != b[i] {
            proof {
                assert(key_view(*a)[i as int] != key_view(*b)[i as int]);
            }
            return false;
        }
        i = i + 1;
    }
    proof {
        assert(key_view(*a) =~= key_view(*b));
    }
    true
}

/// The views of a list of keys.
pub open spec fn keys_view(keys: Seq<Vec<i128>>) -> Seq<Seq<int>> {
    keys.map_values(|k: Vec<i128>| key_view(k))
}

fn rank_of(keys: &Vec<Vec<i128>>, desc: bool, i: usize) -> (r: usize)
    requires
        i < keys.len(),
    ensures
        r == sort_rank(keys_view(keys@), desc, i as int),
{
    let ghost kv = keys_view(keys@);
    let mut count: usize = 0;
    let mut j: usize = 0;
    while j < keys.len()
        invariant
            i < keys.len(),
            j <= keys.len(),
            kv == keys_view(keys@),
            count == count_preceding(kv, desc, i as int, j as int),
            count <= j,
        decreases keys.len() - j,
    {
        let before = if desc {
            key_less(&keys[i], &keys[j])
        } else {
            key_less(&keys[j], &keys[i])
        };
        if before || (j < i && key_equal(&keys[j], &keys[i])) {
            count = count + 1;
        }
        j = j + 1;
    }
    count
}

/// The stable sort of a list by keys, as positions: position
/// `sort_rank(keys, desc, i)` holds `i`. With `desc`, greater keys come first.
pub fn stable_order(keys: &Vec<Vec<i128>>, desc: bool) -> (order: Vec<usize>)
    ensures
        order@.len() == keys@.len(),
        forall|i: int|
            0 <= i < keys@.len() ==> order@[sort_rank(keys_view(keys@), desc, i) as int] == i,
        forall|k: int| 0 <= k < keys@.len() ==> order@[k] < keys@.len(),
{
    let n = keys.len();
    let ghost kv = keys_view(keys@);
    let mut order: Vec<usize> = Vec::new();
    let mut z: usize = 0;
    while z < n
        invariant
            z <= n,
            order@.len() == z,
            forall|k: int| 0 <= k < z ==> order@[k] == 0,
        decreases n - z,
    {
        order.push(0);
        z = z + 1;
    }
    let mut i: usize = 0;
    while i < n
        invariant
            n == keys.len(),
            kv == keys_view(keys@),
            i <= n,
            order@.len() == n,
            forall|a: int| 0 <= a < i ==> order@[sort_rank(kv, desc, a) as int] == a,
            forall|k: int| 0 <= k < n ==> order@[k] < n || order@[k] == 0,
        decreases n - i,
    {
        let r = rank_of(keys, desc, i);
        proof {
            lemma_count_bound(kv, desc, i as int, n as int);
            assert forall|a: int| 0 <= a < i implies sort_rank(kv, desc, a) != r && sort_rank(kv, desc, a) < n by {
                lemma_rank_injective(kv, desc, a, i as int);
            }
        }
        let ghost before = order@;
        order.set(r, i);
        proof {
            assert forall|a: int| 0 <= a <= i implies order@[sort_rank(kv, desc, a) as int] == a by {
                if a < i {
                    assert(order@[sort_rank(kv, desc, a) as int] == before[sort_rank(kv, desc, a) as int]);
                }
            }
        }
        i = i + 1;
    }
    proof {
        assert forall|k: int| 0 <= k < n implies order@[k] < n by {
            lemma_rank_onto(kv, desc, k);
            let a = choose|a: int| 0 <= a < n && sort_rank(kv, desc, a) == k;
        }
    }
    order
}


/// `items` rearranged by the stable sort on `keys`.
pub open spec fn permuted<T>(items: Seq<T>, keys: Seq<Seq<int>>, desc: bool) -> Seq<T> {
    Seq::new(
        items.len(),
        |k: int| items[choose|i: int| 0 <= i < items.len() && sort_rank(keys, desc, i) == k],
    )
}

/// The element that `stable_order` puts at position `q` is the element
/// whose rank is `q`.
pub proof fn lemma_order_at(keys: Seq<Seq<int>>, desc: bool, order: Seq<usize>, q: int)
    requires
        order.len() == keys.len(),
        forall|i: int| 0 <= i < keys.len() ==> order[sort_rank(keys, desc, i) as int] == i,
        forall|k: int| 0 <= k < keys.len() ==> order[k] < keys.len(),
        0 <= q < keys.len(),
    ensures
        order[q] as int == choose|i: int| 0 <= i < keys.len() && sort_rank(keys, desc, i) == q,
{
    lemma_rank_onto(keys, desc, q);
    let c = choose|i: int| 0 <= i < keys.len() && sort_rank(keys, desc, i) == q;
    assert(order[sort_rank(keys, desc, c) as int] == c);
}

/// Sorting keeps every element: the element at `i` appears in the sorted
/// list, at the position of its rank.
pub proof fn lemma_permuted_contains<T>(items: Seq<T>, keys: Seq<Seq<int>>, desc: bool, i: int)
    requires
        keys.len() == items.len(),
        0 <= i < items.len(),
    ensures
        permuted(items, keys, desc).contains(items[i]),
{
    lemma_count_bound(keys, desc, i, keys.len() as int);
    let k = sort_rank(keys, desc, i) as int;
    assert(0 <= i < items.len() && sort_rank(keys, desc, i) == k);
    let c = choose|j: int| 0 <= j < items.len() && sort_rank(keys, desc, j) == k;
    if c != i {
        lemma_rank_injective(keys, desc, c, i);
    }
    assert(permuted(items, keys, desc)[k] == items[i]);
}

} // verus!
