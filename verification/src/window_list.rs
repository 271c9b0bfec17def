//! The order in which the windows on offer for recording are listed: by
//! their application's icon path, then by title, as strings compare.
use vstd::prelude::*;

use crate::text::str_to_chars;

verus! {

// ----------------------------------------------------------------------------
// Order of strings
// ----------------------------------------------------------------------------

/// `a` comes before `b` in lexicographic order of characters, which for
/// UTF-8 text is the order in which Rust compares strings.
pub open spec fn str_lt(a: Seq<char>, b: Seq<char>) -> bool
    decreases a.len(),
{
    if a.len() == 0 {
        b.len() > 0
    } else if b.len() == 0 {
        false
    } else if a[0] < b[0] {
        true
    } else if a[0] == b[0] {
        str_lt(a.drop_first(), b.drop_first())
    } else {
        false
    }
}

proof fn lemma_str_lt_irreflexive(a: Seq<char>)
    ensures
        !str_lt(a, a),
    decreases a.len(),
{
    if a.len() > 0 {
        lemma_str_lt_irreflexive(a.drop_first());
    }
}

proof fn lemma_str_lt_transitive(a: Seq<char>, b: Seq<char>, c: Seq<char>)
    requires
        str_lt(a, b),
        str_lt(b, c),
    ensures
        str_lt(a, c),
    decreases a.len(),
{
    if a.len() > 0 && b.len() > 0 && c.len() > 0 && a[0] == b[0] && b[0] == c[0] {
        lemma_str_lt_transitive(a.drop_first(), b.drop_first(), c.drop_first());
    }
}

proof fn lemma_str_lt_total(a: Seq<char>, b: Seq<char>)
    ensures
        str_lt(a, b) || a == b || str_lt(b, a),
    decreases a.len(),
{
    if a.len() > 0 && b.len() > 0 && a[0] == b[0] {
        lemma_str_lt_total(a.drop_first(), b.drop_first());
        if a.drop_first() == b.drop_first() {
            assert(a =~= seq![a[0]] + a.drop_first());
            assert(b =~= seq![b[0]] + b.drop_first());
        }
    } else if a.len() == 0 && b.len() == 0 {
        assert(a =~= b);
    }
}

/// Compares two strings character by character.
fn str_less(a: &str, b: &str) -> (r: bool)
    ensures
        r == str_lt(a@, b@),
{
    let va = str_to_chars(a);
    let vb = str_to_chars(b);
    let mut i: usize = 0;
    assert(a@.skip(0) =~= a@ && b@.skip(0) =~= b@);
    while i < va.len() && i < vb.len()
        invariant
            i <= va.len(),
            i <= vb.len(),
            va@ == a@,
            vb@ == b@,
            str_lt(a@, b@) == str_lt(a@.skip(i as int), b@.skip(i as int)),
        decreases va.len() - i,
    {
        let ghost sa = a@.skip(i as int);
        let ghost sb = b@.skip(i as int);
        assert(sa[0] == va@[i as int] && sb[0] == vb@[i as int]);
        if va[i] < vb[i] {
            return true;
        }
        if va[i] != vb[i] {
            return false;
        }
        assert(sa.drop_first() =~= a@.skip(i + 1));
        assert(sb.drop_first() =~= b@.skip(i + 1));
        i = i + 1;
    }
    proof {
        let sa = a@.skip(i as int);
        let sb = b@.skip(i as int);
        assert(sa.len() == 0 || sb.len() == 0);
    }
    i == va.len() && i < vb.len()
}

// ----------------------------------------------------------------------------
// Order of windows
// ----------------------------------------------------------------------------

/// What windows are listed by: the path of their application's icon, when
/// there is one, and their title.
#[derive(Debug, Clone)]
pub struct WindowSortKey {
    pub app_icon_path: Option<String>,
    pub title: String,
}

/// A key as plain text.
pub open spec fn key_view(k: WindowSortKey) -> (Option<Seq<char>>, Seq<char>) {
    (
        match k.app_icon_path {
            Some(p) => Some(p@),
            None => None,
        },
        k.title@,
    )
}

/// Order of optional strings: no string comes first.
pub open spec fn opt_lt(a: Option<Seq<char>>, b: Option<Seq<char>>) -> bool {
    match (a, b) {
        (None, Some(_)) => true,
        (Some(x), Some(y)) => str_lt(x, y),
        _ => false,
    }
}

/// Order of keys: by icon path, then by title.
pub open spec fn key_lt(a: (Option<Seq<char>>, Seq<char>), b: (Option<Seq<char>>, Seq<char>)) -> bool {
    opt_lt(a.0, b.0) || (a.0 == b.0 && str_lt(a.1, b.1))
}

proof fn lemma_key_lt_irreflexive(a: (Option<Seq<char>>, Seq<char>))
    ensures
        !key_lt(a, a),
{
    lemma_str_lt_irreflexive(a.1);
    if let Some(x) = a.0 {
        lemma_str_lt_irreflexive(x);
    }
}

proof fn lemma_key_lt_transitive(
    a: (Option<Seq<char>>, Seq<char>),
    b: (Option<Seq<char>>, Seq<char>),
    c: (Option<Seq<char>>, Seq<char>),
)
    requires
        key_lt(a, b),
        key_lt(b, c),
    ensures
        key_lt(a, c),
{
    match (a.0, b.0, c.0) {
        (Some(x), Some(y), Some(z)) => {
            if str_lt(x, y) && str_lt(y, z) {
                lemma_str_lt_transitive(x, y, z);
            }
        },
        _ => {},
    }
    if a.0 == b.0 && b.0 == c.0 && str_lt(a.1, b.1) && str_lt(b.1, c.1) {
        lemma_str_lt_transitive(a.1, b.1, c.1);
    }
}

proof fn lemma_key_lt_total(a: (Option<Seq<char>>, Seq<char>), b: (Option<Seq<char>>, Seq<char>))
    ensures
        key_lt(a, b) || a == b || key_lt(b, a),
{
    lemma_str_lt_total(a.1, b.1);
    match (a.0, b.0) {
        (Some(x), Some(y)) => lemma_str_lt_total(x, y),
        _ => {},
    }
}

fn key_less(a: &WindowSortKey, b: &WindowSortKey) -> (r: bool)
    ensures
        r == key_lt(key_view(*a), key_view(*b)),
{
    match (&a.app_icon_path, &b.app_icon_path) {
        (None, Some(_)) => true,
        (Some(_), None) => false,
        (Some(x), Some(y)) => {
            if str_less(x.as_str(), y.as_str()) {
                true
            } else if str_less(y.as_str(), x.as_str()) {
                false
            } else {
                proof {
                    lemma_str_lt_total(x@, y@);
                }
                str_less(a.title.as_str(), b.title.as_str())
            }
        },
        (None, None) => str_less(a.title.as_str(), b.title.as_str()),
    }
}

/// `order` lists each position of `keys` once.
pub open spec fn is_permutation(order: Seq<usize>, n: nat) -> bool {
    &&& order.len() == n
    &&& forall|i: int| 0 <= i < order.len() ==> #[trigger] order[i] < n
    &&& forall|i: int, j: int| 0 <= i < j < order.len() ==> order[i] != order[j]
}

/// Along `order` the keys never go down, and windows with equal keys keep
/// the order in which they were found.
pub open spec fn sorted_stably(keys: Seq<WindowSortKey>, order: Seq<usize>) -> bool {
    &&& forall|i: int, j: int|
        0 <= i < j < order.len() ==> !key_lt(key_view(keys[order[j] as int]), key_view(keys[order[i] as int]))
    &&& forall|i: int, j: int|
        0 <= i < j < order.len() && key_view(keys[order[i] as int]) == key_view(keys[order[j] as int])
            ==> order[i] < order[j]
}

/// The order in which windows are listed: positions into `keys`, sorted by
/// key, windows with equal keys in the order they were found.
pub fn window_display_order(keys: &Vec<WindowSortKey>) -> (order: Vec<usize>)
    ensures
        is_permutation(order@, keys.len() as nat),
        sorted_stably(keys@, order@),
{
    let mut order: Vec<usize> = Vec::new();
    let mut k: usize = 0;
    while k < keys.len()
        invariant
            k <= keys.len(),
            is_permutation(order@, k as nat),
            sorted_stably(keys@, order@),
        decreases keys.len() - k,
    {
        let ghost kk = key_view(keys@[k as int]);
        let mut p: usize = 0;
        while p < order.len() && !key_less(&keys[k], &keys[order[p]])
            invariant
                p <= order.len(),
                is_permutation(order@, k as nat),
                k < keys.len(),
                kk == key_view(keys@[k as int]),
                forall|i: int| 0 <= i < p ==> !key_lt(kk, #[trigger] key_view(keys@[order@[i] as int])),
            decreases order.len() - p,
        {
            p = p + 1;
        }
        let ghost old_order = order@;
        proof {
            assert forall|j: int| p <= j < old_order.len() implies key_lt(
                kk,
                #[trigger] key_view(keys@[old_order[j] as int]),
            ) by {
                let kp = key_view(keys@[old_order[p as int] as int]);
                let kj = key_view(keys@[old_order[j] as int]);
                assert(key_lt(kk, kp));
                if j > p {
                    assert(!key_lt(kj, kp));
                    lemma_key_lt_total(kp, kj);
                    if key_lt(kp, kj) {
                        lemma_key_lt_transitive(kk, kp, kj);
                    }
                }
            }
        }
        order.insert(p, k);
        proof {
            let n = order@;
            assert(n =~= old_order.take(p as int).push(k) + old_order.skip(p as int));
            assert forall|i: int| 0 <= i < n.len() implies #[trigger] n[i] < k + 1 by {
                if i < p {
                    assert(n[i] == old_order[i]);
                } else if i > p {
                    assert(n[i] == old_order[i - 1]);
                }
            }
            assert forall|i: int, j: int| 0 <= i < j < n.len() implies n[i] != n[j] by {
                if i < p && j < p {
                    assert(n[i] == old_order[i] && n[j] == old_order[j]);
                } else if i < p && j == p {
                    assert(n[i] == old_order[i]);
                } else if i < p && j > p {
                    assert(n[i] == old_order[i] && n[j] == old_order[j - 1]);
                } else if i == p {
                    assert(n[j] == old_order[j - 1]);
                } else {
                    assert(n[i] == old_order[i - 1] && n[j] == old_order[j - 1]);
                }
            }
            assert forall|i: int, j: int| 0 <= i < j < n.len() implies !key_lt(
                key_view(keys@[n[j] as int]),
                key_view(keys@[n[i] as int]),
            ) by {
                if i < p && j < p {
                    assert(n[i] == old_order[i] && n[j] == old_order[j]);
                } else if i < p && j == p {
                    assert(n[i] == old_order[i]);
                } else if i < p && j > p {
                    assert(n[i] == old_order[i] && n[j] == old_order[j - 1]);
                } else if i == p {
                    assert(n[j] == old_order[j - 1]);
                    let kj = key_view(keys@[old_order[j - 1] as int]);
                    assert(key_lt(kk, kj));
                    if key_lt(kj, kk) {
                        lemma_key_lt_transitive(kk, kj, kk);
                        lemma_key_lt_irreflexive(kk);
                    }
                } else {
                    assert(n[i] == old_order[i - 1] && n[j] == old_order[j - 1]);
                }
            }
            assert forall|i: int, j: int|
                0 <= i < j < n.len() && key_view(keys@[n[i] as int]) == key_view(keys@[n[j] as int])
                implies n[i] < n[j] by {
                if i < p && j < p {
                    assert(n[i] == old_order[i] && n[j] == old_order[j]);
                } else if i < p && j == p {
                    assert(n[i] == old_order[i]);
                } else if i < p && j > p {
                    assert(n[i] == old_order[i] && n[j] == old_order[j - 1]);
                } else if i == p {
                    assert(n[j] == old_order[j - 1]);
                    let kj = key_view(keys@[old_order[j - 1] as int]);
                    assert(key_lt(kk, kj));
                    lemma_key_lt_irreflexive(kk);
                } else {
                    assert(n[i] == old_order[i - 1] && n[j] == old_order[j - 1]);
                }
            }
        }
        k = k + 1;
    }
    order
}

// ----------------------------------------------------------------------------
// The order is determined by the keys
// ----------------------------------------------------------------------------

/// Position `x` is listed before position `y`: by key, and by position
/// among equal keys.
pub open spec fn listed_before(keys: Seq<WindowSortKey>, x: usize, y: usize) -> bool {
    let kx = key_view(keys[x as int]);
    let ky = key_view(keys[y as int]);
    key_lt(kx, ky) || (kx == ky && x < y)
}

proof fn lemma_listed_before_transitive(keys: Seq<WindowSortKey>, x: usize, y: usize, z: usize)
    requires
        listed_before(keys, x, y),
        listed_before(keys, y, z),
    ensures
        listed_before(keys, x, z),
{
    let kx = key_view(keys[x as int]);
    let ky = key_view(keys[y as int]);
    let kz = key_view(keys[z as int]);
    if key_lt(kx, ky) && key_lt(ky, kz) {
        lemma_key_lt_transitive(kx, ky, kz);
    }
}

proof fn lemma_listed_before_irreflexive(keys: Seq<WindowSortKey>, x: usize)
    ensures
        !listed_before(keys, x, x),
{
    lemma_key_lt_irreflexive(key_view(keys[x as int]));
}

/// Along a sorted, stable permutation every position is listed before the
/// ones after it.
proof fn lemma_sorted_is_increasing(keys: Seq<WindowSortKey>, order: Seq<usize>)
    requires
        is_permutation(order, keys.len()),
        sorted_stably(keys, order),
    ensures
        forall|i: int, j: int| 0 <= i < j < order.len() ==> listed_before(keys, #[trigger] order[i], #[trigger] order[j]),
{
    assert forall|i: int, j: int| 0 <= i < j < order.len() implies listed_before(keys, #[trigger] order[i], #[trigger] order[j]) by {
        lemma_key_lt_total(key_view(keys[order[i] as int]), key_view(keys[order[j] as int]));
    }
}

/// Two sequences of positions that both increase in listing order and hold
/// the same positions are the same sequence.
proof fn lemma_increasing_unique(keys: Seq<WindowSortKey>, a: Seq<usize>, b: Seq<usize>)
    requires
        forall|i: int, j: int| 0 <= i < j < a.len() ==> listed_before(keys, #[trigger] a[i], #[trigger] a[j]),
        forall|i: int, j: int| 0 <= i < j < b.len() ==> listed_before(keys, #[trigger] b[i], #[trigger] b[j]),
        forall|x: usize| a.contains(x) <==> b.contains(x),
    ensures
        a == b,
    decreases a.len(),
{
    if a.len() == 0 {
        if b.len() > 0 {
            assert(b.contains(b[0]));
        }
        assert(a =~= b);
    } else {
        assert(a.contains(a[0]));
        assert(b.contains(a[0]));
        let q = choose|q: int| 0 <= q < b.len() && b[q] == a[0];
        assert(b.contains(b[0]));
        let r = choose|r: int| 0 <= r < a.len() && a[r] == b[0];
        if q > 0 {
            assert(listed_before(keys, b[0], b[q]));
            if r > 0 {
                assert(listed_before(keys, a[0], a[r]));
                lemma_listed_before_transitive(keys, a[0], b[0], a[0]);
                lemma_listed_before_irreflexive(keys, a[0]);
            } else {
                lemma_listed_before_irreflexive(keys, a[0]);
            }
        }
        assert(b[0] == a[0]);
        let ta = a.drop_first();
        let tb = b.drop_first();
        assert forall|x: usize| ta.contains(x) <==> tb.contains(x) by {
            if ta.contains(x) {
                let i = choose|i: int| 0 <= i < ta.len() && ta[i] == x;
                assert(a[i + 1] == x);
                assert(listed_before(keys, a[0], a[i + 1]));
                if x == a[0] {
                    lemma_listed_before_irreflexive(keys, x);
                }
                assert(a.contains(x));
                assert(b.contains(x));
                let k = choose|k: int| 0 <= k < b.len() && b[k] == x;
                assert(k != 0);
                assert(tb[k - 1] == x);
            }
            if tb.contains(x) {
                let i = choose|i: int| 0 <= i < tb.len() && tb[i] == x;
                assert(b[i + 1] == x);
                assert(listed_before(keys, b[0], b[i + 1]));
                if x == b[0] {
                    lemma_listed_before_irreflexive(keys, x);
                }
                assert(b.contains(x));
                assert(a.contains(x));
                let k = choose|k: int| 0 <= k < a.len() && a[k] == x;
                assert(k != 0);
                assert(ta[k - 1] == x);
            }
        }
        assert forall|i: int, j: int| 0 <= i < j < ta.len() implies listed_before(keys, #[trigger] ta[i], #[trigger] ta[j]) by {
            assert(ta[i] == a[i + 1] && ta[j] == a[j + 1]);
        }
        assert forall|i: int, j: int| 0 <= i < j < tb.len() implies listed_before(keys, #[trigger] tb[i], #[trigger] tb[j]) by {
            assert(tb[i] == b[i + 1] && tb[j] == b[j + 1]);
        }
        lemma_increasing_unique(keys, ta, tb);
        assert(a =~= seq![a[0]] + ta);
        assert(b =~= seq![b[0]] + tb);
    }
}

/// The listing order is determined by the keys: two orders that both list
/// every window once, sorted by key and stable among equal keys, are the
/// same order.
pub proof fn law_window_order_is_determined(keys: Seq<WindowSortKey>, a: Seq<usize>, b: Seq<usize>)
    requires
        is_permutation(a, keys.len()),
        sorted_stably(keys, a),
        is_permutation(b, keys.len()),
        sorted_stably(keys, b),
    ensures
        a == b,
{
    lemma_sorted_is_increasing(keys, a);
    lemma_sorted_is_increasing(keys, b);
    assert forall|x: usize| a.contains(x) <==> b.contains(x) by {
        if a.contains(x) || b.contains(x) {
            assert((x as int) < keys.len());
            lemma_permutation_covers(a, keys.len(), x);
            lemma_permutation_covers(b, keys.len(), x);
        }
    }
    lemma_increasing_unique(keys, a, b);
}

/// A permutation of `n` positions holds every position below `n`.
proof fn lemma_permutation_covers(order: Seq<usize>, n: nat, x: usize)
    requires
        is_permutation(order, n),
        (x as int) < n,
    ensures
        order.contains(x),
{
    if !order.contains(x) {
        let ints = order.map_values(|u: usize| u as int);
        assert forall|i: int, j: int| 0 <= i < ints.len() && 0 <= j < ints.len() && i != j implies ints[i] != ints[j] by {
            if i < j {
                assert(order[i] != order[j]);
            } else {
                assert(order[j] != order[i]);
            }
        }
        ints.unique_seq_to_set();
        let s = ints.to_set();
        let range = vstd::set_lib::set_int_range(0, n as int);
        vstd::set_lib::lemma_int_range(0, n as int);
        let rest = range.remove(x as int);
        assert forall|y: int| s.contains(y) implies rest.contains(y) by {
            let i = choose|i: int| 0 <= i < ints.len() && ints[i] == y;
            assert(order[i] < n);
            if y == x as int {
                assert(order[i] == x);
                assert(order.contains(x));
            }
        }
        vstd::set_lib::lemma_len_subset(s, rest);
        assert(range.contains(x as int));
    }
}

} // verus!
