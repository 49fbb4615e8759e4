//! Stable orderings.
//!
//! Whatever is put in order here is put in order by a key: a sequence of
//! numbers, compared from the front. A text is the sequence of its
//! characters' numbers, so that texts come in the order of their code points.

use crate::text::chars_of;
use vstd::prelude::*;
use vstd::string::*;

verus! {

/// Does the key `a` come before the key `b`?
pub open spec fn key_lt(a: Seq<u64>, b: Seq<u64>) -> bool
    decreases a.len(),
{
    if b.len() == 0 {
        false
    } else if a.len() == 0 {
        true
    } else if a[0] != b[0] {
        a[0] < b[0]
    } else {
        key_lt(a.drop_first(), b.drop_first())
    }
}

/// No key comes before itself.
pub proof fn lemma_key_irreflexive(a: Seq<u64>)
    ensures
        !key_lt(a, a),
    decreases a.len(),
{
    if a.len() > 0 {
        lemma_key_irreflexive(a.drop_first());
    }
}

/// Coming before is transitive.
pub proof fn lemma_key_transitive(a: Seq<u64>, b: Seq<u64>, c: Seq<u64>)
    requires
        key_lt(a, b),
        key_lt(b, c),
    ensures
        key_lt(a, c),
    decreases a.len(),
{
    if a.len() > 0 && a[0] == b[0] && b[0] == c[0] {
        lemma_key_transitive(a.drop_first(), b.drop_first(), c.drop_first());
    }
}

/// Of two different keys one comes before the other.
pub proof fn lemma_key_total(a: Seq<u64>, b: Seq<u64>)
    ensures
        key_lt(a, b) || key_lt(b, a) || a == b,
    decreases a.len(),
{
    if a.len() > 0 && b.len() > 0 {
        if a[0] == b[0] {
            lemma_key_total(a.drop_first(), b.drop_first());
            if a.drop_first() == b.drop_first() {
                assert(a =~= seq![a[0]] + a.drop_first());
                assert(b =~= seq![b[0]] + b.drop_first());
            }
        }
    } else if a.len() == 0 && b.len() == 0 {
        assert(a =~= b);
    }
}

/// Does the key `a` come before the key `b`?
pub fn key_less(a: &Vec<u64>, b: &Vec<u64>) -> (r: bool)
    ensures
        r == key_lt(a@, b@),
{
    let mut i: usize = 0;
    assert(a@.skip(0) == a@ && b@.skip(0) == b@);
    loop
        invariant
            i <= a@.len(),
            i <= b@.len(),
            key_lt(a@, b@) == key_lt(a@.skip(i as int), b@.skip(i as int)),
        decreases a@.len() - i,
    {
        if i >= b.len() {
            return false;
        }
        if i >= a.len() {
            return true;
        }
        if a[i] != b[i] {
            return a[i] < b[i];
        }
        assert(a@.skip(i as int).drop_first() == a@.skip(i + 1));
        assert(b@.skip(i as int).drop_first() == b@.skip(i + 1));
        i = i + 1;
    }
}

/// The key of a text: the numbers of its characters.
pub open spec fn text_key(s: Seq<char>) -> Seq<u64> {
    s.map_values(|c: char| c as u64)
}

/// The key of a text.
pub fn key_of_text(s: &str) -> (r: Vec<u64>)
    ensures
        r@ == text_key(s@),
{
    let v = chars_of(s);
    let mut out: Vec<u64> = Vec::new();
    let mut i: usize = 0;
    while i < v.len()
        invariant
            i <= v@.len(),
            v@ == s@,
            out@ == text_key(s@.take(i as int)),
        decreases v@.len() - i,
    {
        out.push(v[i] as u64);
        i = i + 1;
        assert(text_key(s@.take(i as int)) == text_key(s@.take(i - 1)).push(s@[i - 1] as u64));
    }
    assert(s@.take(s@.len() as int) == s@);
    out
}

/// The views of a sequence of keys.
pub open spec fn keys_view(keys: Seq<Vec<u64>>) -> Seq<Seq<u64>> {
    keys.map_values(|k: Vec<u64>| k@)
}

/// Does place `a` come before place `b`: by a smaller key, or with the same
/// key by an earlier place?
pub open spec fn comes_before(keys: Seq<Seq<u64>>, a: int, b: int) -> bool {
    key_lt(keys[a], keys[b]) || (keys[a] == keys[b] && a < b)
}

/// Is `order` the stable order of `keys`: every place once, smaller keys
/// first, equal keys as they stood?
pub open spec fn is_stable_order(keys: Seq<Seq<u64>>, order: Seq<usize>) -> bool {
    &&& order.len() == keys.len()
    &&& forall|i: int| 0 <= i < order.len() ==> #[trigger] order[i] < keys.len()
    &&& forall|i: int, j: int|
        0 <= i < j < order.len() ==> comes_before(
            keys,
            #[trigger] order[i] as int,
            #[trigger] order[j] as int,
        )
    &&& forall|k: usize| k < keys.len() ==> #[trigger] order.contains(k)
}

/// Coming before is transitive on places too.
pub proof fn lemma_before_transitive(keys: Seq<Seq<u64>>, a: int, b: int, c: int)
    requires
        comes_before(keys, a, b),
        comes_before(keys, b, c),
    ensures
        comes_before(keys, a, c),
{
    if key_lt(keys[a], keys[b]) && key_lt(keys[b], keys[c]) {
        lemma_key_transitive(keys[a], keys[b], keys[c]);
    }
}

/// Of two places only one comes before the other.
pub proof fn lemma_before_asymmetric(keys: Seq<Seq<u64>>, a: int, b: int)
    requires
        comes_before(keys, a, b),
    ensures
        !comes_before(keys, b, a),
{
    if key_lt(keys[a], keys[b]) && key_lt(keys[b], keys[a]) {
        lemma_key_transitive(keys[a], keys[b], keys[a]);
    }
    lemma_key_irreflexive(keys[a]);
    lemma_key_irreflexive(keys[b]);
}

/// The stable order of the keys.
pub fn stable_order(keys: &Vec<Vec<u64>>) -> (r: Vec<usize>)
    ensures
        is_stable_order(keys_view(keys@), r@),
{
    let ghost all = keys_view(keys@);
    let mut order: Vec<usize> = Vec::new();
    let mut i: usize = 0;
    while i < keys.len()
        invariant
            all == keys_view(keys@),
            i <= keys@.len(),
            order@.len() == i,
            forall|a: int| 0 <= a < order@.len() ==> #[trigger] order@[a] < i,
            forall|a: int, b: int|
                0 <= a < b < order@.len() ==> comes_before(
                    all,
                    #[trigger] order@[a] as int,
                    #[trigger] order@[b] as int,
                ),
            forall|k: usize| k < i ==> #[trigger] order@.contains(k),
        decreases keys@.len() - i,
    {
        let mut p: usize = i;
        while p > 0 && key_less(&keys[i], &keys[order[p - 1]])
            invariant
                all == keys_view(keys@),
                i < keys@.len(),
                order@.len() == i,
                p <= i,
                forall|a: int| 0 <= a < order@.len() ==> #[trigger] order@[a] < i,
                forall|a: int|
                    p <= a < order@.len() ==> comes_before(
                        all,
                        i as int,
                        #[trigger] order@[a] as int,
                    ),
            decreases p,
        {
            p = p - 1;
        }
        let ghost before = order@;
        proof {
            assert forall|a: int| 0 <= a < p implies comes_before(
                all,
                #[trigger] before[a] as int,
                i as int,
            ) by {
                let last = before[p - 1] as int;
                lemma_key_total(all[last], all[i as int]);
                assert(comes_before(all, last, i as int));
                if a < p - 1 {
                    lemma_before_transitive(all, before[a] as int, last, i as int);
                }
            }
        }
        order.insert(p, i);
        proof {
            let now = order@;
            assert(now == before.insert(p as int, i));
            assert forall|a: int, b: int| 0 <= a < b < now.len() implies comes_before(
                all,
                #[trigger] now[a] as int,
                #[trigger] now[b] as int,
            ) by {
                let x = if a < p {
                    a
                } else {
                    a - 1
                };
                let y = if b < p {
                    b
                } else {
                    b - 1
                };
                if a == p {
                    assert(now[b] == before[b - 1]);
                } else if b == p {
                    assert(now[a] == before[a]);
                } else {
                    assert(now[a] == before[x] && now[b] == before[y]);
                }
            }
            assert forall|k: usize| k < i + 1 implies #[trigger] now.contains(k) by {
                if k == i {
                    assert(now[p as int] == i);
                } else {
                    assert(before.contains(k));
                    let at = choose|at: int| 0 <= at < before.len() && before[at] == k;
                    if at < p {
                        assert(now[at] == k);
                    } else {
                        assert(now[at + 1] == k);
                    }
                }
            }
        }
        i = i + 1;
    }
    order
}

/// There is only one stable order of given keys.
pub proof fn law_stable_order_is_unique(keys: Seq<Seq<u64>>, a: Seq<usize>, b: Seq<usize>)
    requires
        is_stable_order(keys, a),
        is_stable_order(keys, b),
    ensures
        a == b,
{
    assert forall|n: int| 0 <= n <= a.len() implies #[trigger] a.take(n) == b.take(n) by {
        lemma_same_prefix(keys, a, b, n);
    }
    assert(a.take(a.len() as int) == a);
    assert(b.take(b.len() as int) == b);
}

proof fn lemma_same_prefix(keys: Seq<Seq<u64>>, a: Seq<usize>, b: Seq<usize>, n: int)
    requires
        is_stable_order(keys, a),
        is_stable_order(keys, b),
        0 <= n <= a.len(),
    ensures
        a.take(n) == b.take(n),
    decreases n,
{
    if n > 0 {
        let m = n - 1;
        lemma_same_prefix(keys, a, b, m);
        assert forall|k: int| 0 <= k < m implies a[k] == b[k] by {
            assert(a.take(m)[k] == b.take(m)[k]);
        }
        if a[m] != b[m] {
            lemma_later(keys, a, b, m);
            lemma_later(keys, b, a, m);
            lemma_before_asymmetric(keys, a[m] as int, b[m] as int);
        }
        assert(a.take(n) =~= b.take(n));
    }
}

/// Where two orders agree up to `m` and differ there, what `a` has at `m`
/// stands later in `b`.
proof fn lemma_later(keys: Seq<Seq<u64>>, a: Seq<usize>, b: Seq<usize>, m: int)
    requires
        is_stable_order(keys, a),
        is_stable_order(keys, b),
        0 <= m < a.len(),
        forall|k: int| 0 <= k < m ==> a[k] == b[k],
        a[m] != b[m],
    ensures
        comes_before(keys, b[m] as int, a[m] as int),
{
    let x = a[m];
    assert(b.contains(x));
    let at = choose|at: int| 0 <= at < b.len() && b[at] == x;
    if at < m {
        assert(a[at] == x);
        assert(comes_before(keys, a[at] as int, a[m] as int));
        lemma_key_irreflexive(keys[x as int]);
    }
    assert(at > m);
    assert(comes_before(keys, b[m] as int, b[at] as int));
}

/// A character is known by its number.
proof fn lemma_char_number(x: char, y: char)
    requires
        x as u64 == y as u64,
    ensures
        x == y,
{
}

/// Different texts have different keys.
pub proof fn lemma_text_key_injective(a: Seq<char>, b: Seq<char>)
    requires
        text_key(a) == text_key(b),
    ensures
        a == b,
{
    assert(a.len() == text_key(a).len());
    assert(b.len() == text_key(b).len());
    assert forall|i: int| 0 <= i < a.len() implies a[i] == b[i] by {
        assert(text_key(a)[i] == a[i] as u64);
        assert(text_key(b)[i] == b[i] as u64);
        lemma_char_number(a[i], b[i]);
    }
    assert(a =~= b);
}

/// The key by which texts come in descending order, and nothing last.
pub open spec fn latest_key(t: Option<Seq<char>>) -> Seq<u64> {
    match t {
        Some(s) => seq![0u64] + text_key(s).map_values(|c: u64| (u64::MAX - 1 - c) as u64).push(
            u64::MAX,
        ),
        None => seq![1u64],
    }
}

/// The key by which texts come in descending order, and nothing last.
pub fn key_of_latest(t: &Option<String>) -> (r: Vec<u64>)
    ensures
        r@ == latest_key(crate::text::opt_view(*t)),
{
    let mut out: Vec<u64> = Vec::new();
    match t {
        None => {
            out.push(1);
            assert(out@ =~= latest_key(None));
        },
        Some(s) => {
            let v = chars_of(s);
            out.push(0);
            let ghost keys = text_key(s@).map_values(|c: u64| (u64::MAX - 1 - c) as u64);
            let mut i: usize = 0;
            while i < v.len()
                invariant
                    v@ == s@,
                    i <= v@.len(),
                    keys == text_key(s@).map_values(|c: u64| (u64::MAX - 1 - c) as u64),
                    out@ =~= seq![0u64] + keys.take(i as int),
                decreases v@.len() - i,
            {
                let letter: char = v[i];
                let c: u64 = letter as u64;
                proof {
                    lemma_small(letter);
                }
                out.push(u64::MAX - 1 - c);
                assert(keys[i as int] == (u64::MAX - 1 - c) as u64);
                i = i + 1;
            }
            out.push(u64::MAX);
            assert(out@ =~= latest_key(Some(s@)));
        },
    }
    out
}

/// Does the text `a` come before the text `b`?
pub open spec fn text_lt(a: Seq<char>, b: Seq<char>) -> bool {
    key_lt(text_key(a), text_key(b))
}

proof fn lemma_small(c: char)
    ensures
        0 <= c as u64 <= 0x10_ffff,
        c as u64 as int == c as int,
{
}

spec fn flipped(s: Seq<char>) -> Seq<u64> {
    text_key(s).map_values(|c: u64| (u64::MAX - 1 - c) as u64).push(u64::MAX)
}

proof fn lemma_flipped(a: Seq<char>, b: Seq<char>)
    ensures
        key_lt(flipped(a), flipped(b)) <==> text_lt(b, a),
    decreases a.len(),
{
    reveal_with_fuel(key_lt, 2);
    let fa = flipped(a);
    let fb = flipped(b);
    let ka = text_key(a);
    let kb = text_key(b);
    if a.len() > 0 && b.len() > 0 {
        lemma_small(a[0]);
        lemma_small(b[0]);
        assert(ka[0] == a[0] as u64 && kb[0] == b[0] as u64);
        assert(fa[0] == (u64::MAX - 1 - ka[0]) as u64);
        assert(fb[0] == (u64::MAX - 1 - kb[0]) as u64);
        assert(ka.drop_first() =~= text_key(a.drop_first()));
        assert(kb.drop_first() =~= text_key(b.drop_first()));
        assert(fa.drop_first() =~= flipped(a.drop_first()));
        assert(fb.drop_first() =~= flipped(b.drop_first()));
        lemma_flipped(a.drop_first(), b.drop_first());
    } else if a.len() == 0 && b.len() == 0 {
        assert(fa.drop_first().len() == 0);
    } else if a.len() == 0 {
        lemma_small(b[0]);
        assert(kb[0] == b[0] as u64);
        assert(fb[0] == (u64::MAX - 1 - kb[0]) as u64);
        assert(fa[0] == u64::MAX);
    } else {
        lemma_small(a[0]);
        assert(ka[0] == a[0] as u64);
        assert(fa[0] == (u64::MAX - 1 - ka[0]) as u64);
        assert(fb[0] == u64::MAX);
    }
}

/// By these keys the later text comes first, and what has no text comes last.
pub proof fn lemma_latest_key(a: Option<Seq<char>>, b: Option<Seq<char>>)
    ensures
        key_lt(latest_key(a), latest_key(b)) <==> (match (a, b) {
            (Some(x), Some(y)) => text_lt(y, x),
            (Some(_), None) => true,
            _ => false,
        }),
{
    reveal_with_fuel(key_lt, 2);
    let ka = latest_key(a);
    let kb = latest_key(b);
    match (a, b) {
        (Some(x), Some(y)) => {
            assert(ka.drop_first() =~= flipped(x));
            assert(kb.drop_first() =~= flipped(y));
            lemma_flipped(x, y);
        },
        (None, None) => {
            assert(ka.drop_first().len() == 0);
        },
        _ => {},
    }
}

/// Texts come in the order of their code points: of two texts that differ first at
/// some place the one with the smaller character there comes first, and a text comes
/// before every longer one that begins with it.
pub proof fn law_texts_are_ordered_by_code_points(a: Seq<char>, b: Seq<char>, n: int)
    requires
        0 <= n <= a.len(),
        0 <= n <= b.len(),
        a.take(n) == b.take(n),
    ensures
        n == a.len() && n < b.len() ==> text_lt(a, b) && !text_lt(b, a),
        n < a.len() && n < b.len() && (a[n] as int) < (b[n] as int) ==> text_lt(a, b) && !text_lt(
            b,
            a,
        ),
        n == a.len() && n == b.len() ==> !text_lt(a, b),
    decreases n,
{
    let ka = text_key(a);
    let kb = text_key(b);
    assert(ka.len() == a.len() && kb.len() == b.len());
    if n > 0 {
        assert(a.take(n)[0] == a[0] && b.take(n)[0] == b[0]);
        assert(ka[0] == a[0] as u64 && kb[0] == b[0] as u64);
        let (x, y) = (a.drop_first(), b.drop_first());
        assert(x.take(n - 1) =~= a.take(n).drop_first());
        assert(y.take(n - 1) =~= b.take(n).drop_first());
        law_texts_are_ordered_by_code_points(x, y, n - 1);
        assert(ka.drop_first() =~= text_key(x));
        assert(kb.drop_first() =~= text_key(y));
        if n < a.len() && n < b.len() {
            assert(x[n - 1] == a[n] && y[n - 1] == b[n]);
        }
    } else if a.len() > 0 && b.len() > 0 {
        lemma_small(a[0]);
        lemma_small(b[0]);
        assert(ka[0] == a[0] as u64 && kb[0] == b[0] as u64);
    }
}

} // verus!
