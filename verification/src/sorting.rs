//! Ordering by integer keys compared lexicographically, and a stable sort
//! by such keys. Each sort order of the lists is written as a key, so that
//! one verified sort serves them all.
use vstd::prelude::*;

verus! {

/// Whether key `a` comes before key `b`: at the first place where they
/// differ, `a` holds the smaller number, or `a` ends there first.
pub open spec fn key_lt(a: Seq<int>, b: Seq<int>) -> bool
    decreases a.len(),
{
    if a.len() == 0 {
        b.len() > 0
    } else if b.len() == 0 {
        false
    } else if a[0] < b[0] {
        true
    } else if a[0] > b[0] {
        false
    } else {
        key_lt(a.drop_first(), b.drop_first())
    }
}

/// The integers of a key.
pub open spec fn key_view(k: Seq<i128>) -> Seq<int> {
    k.map_values(|x: i128| x as int)
}

/// The integers of each key.
pub open spec fn keys_view(keys: Seq<Vec<i128>>) -> Seq<Seq<int>> {
    keys.map_values(|k: Vec<i128>| key_view(k@))
}

/// The items at the given positions, in the order of the positions.
pub open spec fn pick(items: Seq<usize>, positions: Seq<usize>) -> Seq<usize> {
    Seq::new(positions.len(), |k: int| items[positions[k] as int])
}

/// Whether the item at position `x` is placed before the item at position
/// `y`: its key comes first, or the keys are equal and it came first.
pub open spec fn ranked_before(keys: Seq<Seq<int>>, x: int, y: int) -> bool {
    key_lt(keys[x], keys[y]) || (keys[x] == keys[y] && x < y)
}

/// Whether position `x` is listed in `order`.
pub open spec fn lists_position(order: Seq<usize>, x: int) -> bool {
    exists|i: int| 0 <= i < order.len() && #[trigger] order[i] == x
}

/// `order` lists each position below `n` once, ranked by key and then by
/// position.
pub open spec fn sorted_positions(keys: Seq<Seq<int>>, order: Seq<usize>, n: nat) -> bool {
    &&& order.len() == n
    &&& forall|i: int| 0 <= i < n ==> #[trigger] order[i] < n
    &&& forall|x: int| 0 <= x < n ==> #[trigger] lists_position(order, x)
    &&& forall|i: int, j: int|
        0 <= i < j < n ==> ranked_before(keys, #[trigger] order[i] as int, #[trigger] order[j] as int)
}

/// The first place at or after `p` in `order` whose item's key comes after
/// the key of item `x`, or the end of `order`.
pub open spec fn first_after(keys: Seq<Seq<int>>, order: Seq<usize>, x: int, p: int) -> int
    decreases order.len() - p,
{
    if p < 0 || p >= order.len() {
        order.len() as int
    } else if key_lt(keys[x], keys[order[p] as int]) {
        p
    } else {
        first_after(keys, order, x, p + 1)
    }
}

/// The positions `0..n` as a stable insertion sort by key arranges them:
/// each position in turn goes before the first one already placed whose key
/// comes after its own.
pub open spec fn stable_order_spec(keys: Seq<Seq<int>>, n: nat) -> Seq<usize>
    decreases n,
{
    if n == 0 {
        Seq::empty()
    } else {
        let placed = stable_order_spec(keys, (n - 1) as nat);
        placed.insert(first_after(keys, placed, n - 1, 0), (n - 1) as usize)
    }
}

pub proof fn lemma_first_after_bounds(keys: Seq<Seq<int>>, order: Seq<usize>, x: int, p: int)
    requires
        0 <= p <= order.len(),
    ensures
        p <= first_after(keys, order, x, p) <= order.len(),
        forall|q: int|
            p <= q < first_after(keys, order, x, p) ==> !key_lt(keys[x], #[trigger] keys[order[q] as int]),
        first_after(keys, order, x, p) < order.len() ==> key_lt(
            keys[x],
            keys[order[first_after(keys, order, x, p)] as int],
        ),
    decreases order.len() - p,
{
    if p < order.len() && !key_lt(keys[x], keys[order[p] as int]) {
        lemma_first_after_bounds(keys, order, x, p + 1);
    }
}

/// The stable insertion sort lists each position once, ranked by key and
/// then by position.
pub proof fn lemma_stable_order_sorted(keys: Seq<Seq<int>>, n: nat)
    requires
        n <= keys.len(),
        n <= usize::MAX,
    ensures
        sorted_positions(keys, stable_order_spec(keys, n), n),
    decreases n,
{
    if n > 0 {
        lemma_stable_order_sorted(keys, (n - 1) as nat);
        let placed = stable_order_spec(keys, (n - 1) as nat);
        lemma_first_after_bounds(keys, placed, n - 1, 0);
        lemma_insert_keeps_sorted(keys, placed, (n - 1) as nat, first_after(keys, placed, n - 1, 0));
    }
}

/// Where two keys agree before place `i` and `a` is smaller there, `a`
/// comes first.
pub proof fn lemma_key_lt_at(a: Seq<int>, b: Seq<int>, i: int)
    requires
        0 <= i < a.len(),
        i < b.len(),
        forall|j: int| 0 <= j < i ==> a[j] == b[j],
        a[i] < b[i],
    ensures
        key_lt(a, b),
    decreases i,
{
    if i > 0 {
        assert(a[0] == b[0]);
        lemma_key_lt_at(a.drop_first(), b.drop_first(), i - 1);
    }
}

pub proof fn lemma_key_lt_irreflexive(a: Seq<int>)
    ensures
        !key_lt(a, a),
    decreases a.len(),
{
    if a.len() > 0 {
        lemma_key_lt_irreflexive(a.drop_first());
    }
}

pub proof fn lemma_key_lt_asymmetric(a: Seq<int>, b: Seq<int>)
    ensures
        key_lt(a, b) ==> !key_lt(b, a),
    decreases a.len(),
{
    if a.len() > 0 && b.len() > 0 && a[0] == b[0] {
        lemma_key_lt_asymmetric(a.drop_first(), b.drop_first());
    }
}

pub proof fn lemma_key_lt_total(a: Seq<int>, b: Seq<int>)
    ensures
        a != b ==> key_lt(a, b) || key_lt(b, a),
    decreases a.len(),
{
    if a.len() > 0 && b.len() > 0 && a[0] == b[0] {
        lemma_key_lt_total(a.drop_first(), b.drop_first());
        if a.drop_first() == b.drop_first() {
            assert(a =~= seq![a[0]] + a.drop_first());
            assert(b =~= seq![b[0]] + b.drop_first());
        }
    } else if a.len() == 0 && b.len() == 0 {
        assert(a =~= b);
    }
}

pub proof fn lemma_key_lt_transitive(a: Seq<int>, b: Seq<int>, c: Seq<int>)
    requires
        key_lt(a, b),
        key_lt(b, c),
    ensures
        key_lt(a, c),
    decreases a.len(),
{
    if a.len() > 0 && b.len() > 0 && c.len() > 0 && a[0] == b[0] && b[0] == c[0] {
        lemma_key_lt_transitive(a.drop_first(), b.drop_first(), c.drop_first());
    }
}

/// Whether key `a` comes before key `b`.
pub fn key_less(a: &[i128], b: &[i128]) -> (r: bool)
    ensures
        r == key_lt(key_view(a@), key_view(b@)),
{
    let mut i: usize = 0;
    assert(key_view(a@).skip(0) =~= key_view(a@));
    assert(key_view(b@).skip(0) =~= key_view(b@));
    while i < a.len() && i < b.len() && a[i] == b[i]
        invariant
            i <= a.len(),
            i <= b.len(),
            key_lt(key_view(a@), key_view(b@)) == key_lt(
                key_view(a@).skip(i as int),
                key_view(b@).skip(i as int),
            ),
        decreases a.len() - i,
    {
        assert(key_view(a@).skip(i as int).drop_first() =~= key_view(a@).skip(i + 1));
        assert(key_view(b@).skip(i as int).drop_first() =~= key_view(b@).skip(i + 1));
        i += 1;
    }
    assert(key_view(a@).skip(i as int).len() == a.len() - i);
    assert(key_view(b@).skip(i as int).len() == b.len() - i);
    if i < a.len() && i < b.len() {
        assert(key_view(a@).skip(i as int)[0] == a@[i as int] as int);
        assert(key_view(b@).skip(i as int)[0] == b@[i as int] as int);
    }
    if i == a.len() {
        i < b.len()
    } else if i == b.len() {
        false
    } else {
        a[i] < b[i]
    }
}

/// The positions `0..keys.len()` in the order of their keys, positions with
/// equal keys in their own order: the order a stable sort by these keys
/// gives.
pub fn stable_order(keys: &Vec<Vec<i128>>) -> (r: Vec<usize>)
    ensures
        r@ == stable_order_spec(keys_view(keys@), keys.len() as nat),
        sorted_positions(keys_view(keys@), r@, keys.len() as nat),
{
    let ghost kv = keys_view(keys@);
    let mut order: Vec<usize> = Vec::new();
    let mut n: usize = 0;
    while n < keys.len()
        invariant
            kv == keys_view(keys@),
            kv.len() == keys.len(),
            n <= keys.len(),
            order@ == stable_order_spec(kv, n as nat),
            order@.len() == n,
        decreases keys.len() - n,
    {
        proof {
            lemma_stable_order_sorted(kv, n as nat);
        }
        let new_key = keys[n].as_slice();
        assert(kv[n as int] == key_view(new_key@));
        let mut p: usize = 0;
        while p < order.len() && !key_less(new_key, keys[order[p]].as_slice())
            invariant
                kv == keys_view(keys@),
                kv.len() == keys.len(),
                n < keys.len(),
                p <= order.len(),
                order@.len() == n,
                kv[n as int] == key_view(new_key@),
                sorted_positions(kv, order@, n as nat),
                first_after(kv, order@, n as int, 0) == first_after(kv, order@, n as int, p as int),
            decreases order.len() - p,
        {
            assert(kv[order@[p as int] as int] == key_view(keys@[order@[p as int] as int]@));
            p += 1;
        }
        if p < order.len() {
            assert(kv[order@[p as int] as int] == key_view(keys@[order@[p as int] as int]@));
        }
        order.insert(p, n);
        n += 1;
    }
    proof {
        lemma_stable_order_sorted(kv, n as nat);
    }
    order
}

proof fn lemma_insert_keeps_sorted(kv: Seq<Seq<int>>, order: Seq<usize>, n: nat, p: int)
    requires
        n < kv.len(),
        n < usize::MAX,
        sorted_positions(kv, order, n),
        0 <= p <= n,
        forall|q: int| 0 <= q < p ==> !key_lt(kv[n as int], #[trigger] kv[order[q] as int]),
        p < n ==> key_lt(kv[n as int], kv[order[p] as int]),
    ensures
        sorted_positions(kv, order.insert(p, n as usize), n + 1),
{
    let o2 = order.insert(p, n as usize);
    assert forall|i: int| 0 <= i < n + 1 implies #[trigger] o2[i] < n + 1 by {
        if i < p {
            assert(o2[i] == order[i]);
        } else if i > p {
            assert(o2[i] == order[i - 1]);
        }
    }
    assert forall|x: int| 0 <= x < n + 1 implies #[trigger] lists_position(o2, x) by {
        if x == n {
            assert(o2[p] == n);
        } else {
            assert(lists_position(order, x));
            let i = choose|i: int| 0 <= i < order.len() && #[trigger] order[i] == x;
            if i < p {
                assert(o2[i] == x);
            } else {
                assert(o2[i + 1] == x);
            }
        }
    }
    assert forall|i: int, j: int| 0 <= i < j < n + 1 implies ranked_before(
        kv,
        #[trigger] o2[i] as int,
        #[trigger] o2[j] as int,
    ) by {
        let kn = kv[n as int];
        if i < p && j < p {
            assert(o2[i] == order[i] && o2[j] == order[j]);
        } else if i < p && j == p {
            let oi = order[i] as int;
            assert(o2[i] == order[i] && o2[j] == n);
            assert(!key_lt(kn, kv[oi]));
            lemma_key_lt_total(kn, kv[oi]);
        } else if i < p && j > p {
            assert(o2[i] == order[i] && o2[j] == order[j - 1]);
        } else if i == p {
            assert(o2[i] == n && o2[j] == order[j - 1]);
            let oj = order[j - 1] as int;
            let op = order[p] as int;
            if j - 1 > p {
                assert(ranked_before(kv, order[p] as int, order[j - 1] as int));
                if key_lt(kv[op], kv[oj]) {
                    lemma_key_lt_transitive(kn, kv[op], kv[oj]);
                }
            }
        } else {
            assert(o2[i] == order[i - 1] && o2[j] == order[j - 1]);
        }
    }
}

} // verus!
