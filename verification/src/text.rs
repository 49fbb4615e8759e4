//! Text as sequences of characters.
//!
//! Every operation here is stated over `Seq<char>`, the view of `str` and
//! `String`, so that the rest of the library can speak of texts without
//! speaking of their encoding.

use vstd::prelude::*;
use vstd::string::*;

verus! {

/// `String::push` appends one character to the end of the text.
pub assume_specification[ String::push ](s: &mut String, c: char)
    ensures
        final(s)@ == old(s)@.push(c),
;

/// The characters with the Unicode `White_Space` property.
pub open spec fn is_space(c: char) -> bool {
    ||| '\u{9}' <= c <= '\u{d}'
    ||| c == ' ' || c == '\u{85}' || c == '\u{a0}' || c == '\u{1680}'
    ||| '\u{2000}' <= c <= '\u{200a}'
    ||| c == '\u{2028}' || c == '\u{2029}' || c == '\u{202f}' || c == '\u{205f}' || c == '\u{3000}'
}

/// Is `c` white space?
pub fn char_is_space(c: char) -> (r: bool)
    ensures
        r == is_space(c),
{
    ('\u{9}' <= c && c <= '\u{d}') || c == ' ' || c == '\u{85}' || c == '\u{a0}' || c == '\u{1680}'
        || ('\u{2000}' <= c && c <= '\u{200a}') || c == '\u{2028}' || c == '\u{2029}' || c
        == '\u{202f}' || c == '\u{205f}' || c == '\u{3000}'
}

/// The ASCII lower-case form of one character.
pub open spec fn lower_char(c: char) -> char {
    if 'A' <= c <= 'Z' {
        (c as u32 + 32) as char
    } else {
        c
    }
}

/// A text with its ASCII letters in lower case.
pub open spec fn ascii_lower(s: Seq<char>) -> Seq<char> {
    s.map_values(|c: char| lower_char(c))
}

/// The characters of `s`, one by one.
pub fn chars_of(s: &str) -> (r: Vec<char>)
    ensures
        r@ == s@,
{
    let mut out: Vec<char> = Vec::new();
    for c in it: s.chars()
        invariant
            out@ == it.seq().take(it.index()),
            it.seq() == s@,
    {
        out.push(c);
        assert(it.seq().take(it.index() + 1) == it.seq().take(it.index()).push(c));
    }
    assert(s@.take(s@.len() as int) == s@);
    out
}

/// The text made of the characters of `v` from `from` up to `to`.
pub fn text_of(v: &Vec<char>, from: usize, to: usize) -> (r: String)
    requires
        from <= to <= v@.len(),
    ensures
        r@ == v@.subrange(from as int, to as int),
{
    let mut out = String::new();
    let mut i: usize = from;
    while i < to
        invariant
            from <= i <= to <= v@.len(),
            out@ == v@.subrange(from as int, i as int),
        decreases to - i,
    {
        out.push(v[i]);
        i = i + 1;
        assert(v@.subrange(from as int, i as int) == v@.subrange(from as int, i - 1).push(v@[i - 1]));
    }
    out
}

/// The ASCII lower-case form of one character.
pub fn to_lower_char(c: char) -> (r: char)
    ensures
        r == lower_char(c),
{
    if 'A' <= c && c <= 'Z' {
        (c as u8 + 32) as char
    } else {
        c
    }
}

/// The text with its ASCII letters in lower case.
pub fn lower(s: &str) -> (r: String)
    ensures
        r@ == ascii_lower(s@),
{
    let v = chars_of(s);
    let mut out = String::new();
    let mut i: usize = 0;
    while i < v.len()
        invariant
            i <= v@.len(),
            v@ == s@,
            out@ == ascii_lower(s@.take(i as int)),
        decreases v@.len() - i,
    {
        out.push(to_lower_char(v[i]));
        i = i + 1;
        assert(s@.take(i as int) == s@.take(i - 1).push(s@[i - 1]));
        assert(ascii_lower(s@.take(i as int)) == ascii_lower(s@.take(i - 1)).push(lower_char(s@[i - 1])));
    }
    assert(s@.take(s@.len() as int) == s@);
    out
}

/// Are two texts the same characters?
pub fn same(a: &str, b: &str) -> (r: bool)
    ensures
        r == (a@ == b@),
{
    let x = chars_of(a);
    let y = chars_of(b);
    if x.len() != y.len() {
        return false;
    }
    let mut i: usize = 0;
    while i < x.len()
        invariant
            i <= x@.len(),
            x@.len() == y@.len(),
            x@ == a@,
            y@ == b@,
            forall|k: int| 0 <= k < i ==> x@[k] == y@[k],
        decreases x@.len() - i,
    {
        if x[i] != y[i] {
            return false;
        }
        i = i + 1;
    }
    assert(a@ == b@);
    true
}

/// Are two texts the same up to the case of ASCII letters?
pub fn same_ignoring_case(a: &str, b: &str) -> (r: bool)
    ensures
        r == (ascii_lower(a@) == ascii_lower(b@)),
{
    same(&lower(a), &lower(b))
}

/// Does `p` stand in `s` at position `i`?
pub open spec fn occurs_at(s: Seq<char>, p: Seq<char>, i: int) -> bool {
    &&& 0 <= i
    &&& i + p.len() <= s.len()
    &&& s.subrange(i, i + p.len()) == p
}

/// Does `p` stand anywhere in `s`?
pub open spec fn occurs(s: Seq<char>, p: Seq<char>) -> bool {
    exists|i: int| occurs_at(s, p, i)
}

/// The first position, at or after `from`, at which `p` stands in `s`.
pub open spec fn find_from(s: Seq<char>, p: Seq<char>, from: int) -> Option<int>
    decreases s.len() + 1 - from,
{
    if from < 0 || from + p.len() > s.len() {
        None
    } else if occurs_at(s, p, from) {
        Some(from)
    } else {
        find_from(s, p, from + 1)
    }
}

/// `find_from` finds the first occurrence, and fails only where there is none.
pub proof fn lemma_find_from(s: Seq<char>, p: Seq<char>, from: int)
    requires
        0 <= from,
    ensures
        match find_from(s, p, from) {
            Some(i) => occurs_at(s, p, i) && from <= i && (forall|j: int|
                from <= j < i ==> !occurs_at(s, p, j)),
            None => forall|j: int| from <= j ==> !occurs_at(s, p, j),
        },
    decreases s.len() + 1 - from,
{
    if from + p.len() <= s.len() && !occurs_at(s, p, from) {
        lemma_find_from(s, p, from + 1);
    }
}

/// Does `p` stand in `v` at position `i`?
pub fn stands_at(v: &Vec<char>, p: &Vec<char>, i: usize) -> (r: bool)
    ensures
        r == occurs_at(v@, p@, i as int),
{
    if i > v.len() || p.len() > v.len() - i {
        return false;
    }
    let total: usize = v.len();
    let mut k: usize = 0;
    while k < p.len()
        invariant
            i + p@.len() <= v@.len(),
            v@.len() == total,
            k <= p@.len(),
            forall|m: int| 0 <= m < k ==> v@[i + m] == p@[m],
        decreases p@.len() - k,
    {
        if v[i + k] != p[k] {
            proof {
                if occurs_at(v@, p@, i as int) {
                    assert(v@.subrange(i as int, i + p@.len())[k as int] == p@[k as int]);
                }
            }
            return false;
        }
        k = k + 1;
    }
    assert(v@.subrange(i as int, i + p@.len()) == p@);
    true
}

/// The first position, at or after `from`, at which `p` stands in `v`.
pub fn find_chars(v: &Vec<char>, p: &Vec<char>, from: usize) -> (r: Option<usize>)
    ensures
        match r {
            Some(i) => find_from(v@, p@, from as int) == Some(i as int),
            None => find_from(v@, p@, from as int) is None,
        },
{
    let mut i: usize = from;
    loop
        invariant
            from <= i,
            i <= v@.len() || i == from,
            find_from(v@, p@, from as int) == find_from(v@, p@, i as int),
        decreases v@.len() + 1 - i,
    {
        if i > v.len() || p.len() > v.len() - i {
            return None;
        }
        if stands_at(v, p, i) {
            return Some(i);
        }
        proof {
            if i == v@.len() {
                assert(v@.subrange(i as int, i as int) == p@);
            }
        }
        i = i + 1;
    }
}

/// Does `p` stand anywhere in `s`?
pub fn contains(s: &str, p: &str) -> (r: bool)
    ensures
        r == occurs(s@, p@),
{
    let v = chars_of(s);
    let q = chars_of(p);
    proof {
        lemma_find_from(s@, p@, 0);
    }
    match find_chars(&v, &q, 0) {
        Some(i) => {
            assert(occurs_at(s@, p@, i as int));
            true
        },
        None => {
            assert forall|j: int| !occurs_at(s@, p@, j) by {
                if j >= 0 {
                }
            }
            false
        },
    }
}

/// Does `s` begin with `p`?
pub fn starts_with(s: &str, p: &str) -> (r: bool)
    ensures
        r == p@.is_prefix_of(s@),
{
    let v = chars_of(s);
    let q = chars_of(p);
    stands_at(&v, &q, 0)
}

/// Does `s` end with `p`?
pub fn ends_with(s: &str, p: &str) -> (r: bool)
    ensures
        r == p@.is_suffix_of(s@),
{
    let v = chars_of(s);
    let q = chars_of(p);
    if q.len() > v.len() {
        return false;
    }
    stands_at(&v, &q, v.len() - q.len())
}

/// What follows the prefix `p` in `s`, where `s` begins with it.
pub open spec fn after_prefix(s: Seq<char>, p: Seq<char>) -> Option<Seq<char>> {
    if p.is_prefix_of(s) {
        Some(s.skip(p.len() as int))
    } else {
        None
    }
}

/// An optional text as its view.
pub open spec fn opt_view(o: Option<String>) -> Option<Seq<char>> {
    match o {
        Some(s) => Some(s@),
        None => None,
    }
}

/// What follows the prefix `p` in `s`, where `s` begins with it.
pub fn strip_prefix(s: &str, p: &str) -> (r: Option<String>)
    ensures
        opt_view(r) == after_prefix(s@, p@),
{
    let v = chars_of(s);
    let q = chars_of(p);
    if stands_at(&v, &q, 0) {
        let rest = text_of(&v, q.len(), v.len());
        assert(rest@ == s@.skip(p@.len() as int));
        Some(rest)
    } else {
        None
    }
}

/// What precedes the suffix `p` in `s`, where `s` ends with it; else all of `s`.
pub open spec fn without_suffix(s: Seq<char>, p: Seq<char>) -> Seq<char> {
    if p.is_suffix_of(s) {
        s.take(s.len() - p.len())
    } else {
        s
    }
}

/// What precedes the suffix `p` in `s`, where `s` ends with it; else all of `s`.
pub fn drop_suffix(s: &str, p: &str) -> (r: String)
    ensures
        r@ == without_suffix(s@, p@),
{
    let v = chars_of(s);
    let q = chars_of(p);
    if q.len() <= v.len() && stands_at(&v, &q, v.len() - q.len()) {
        let r = text_of(&v, 0, v.len() - q.len());
        assert(r@ == s@.take(s@.len() - p@.len()));
        r
    } else {
        s.to_owned()
    }
}

/// The first position at or after `from` whose character is one of `stops`,
/// or the length of `s` where there is none.
pub open spec fn first_of(s: Seq<char>, stops: Seq<char>, from: int) -> int
    decreases s.len() - from,
{
    if from >= s.len() || from < 0 {
        s.len() as int
    } else if stops.contains(s[from]) {
        from
    } else {
        first_of(s, stops, from + 1)
    }
}

/// The part of `s` before the first character that is one of `stops`.
pub open spec fn before_any(s: Seq<char>, stops: Seq<char>) -> Seq<char> {
    s.take(first_of(s, stops, 0))
}

/// `first_of` stops at the first such character and passes over none.
pub proof fn lemma_first_of(s: Seq<char>, stops: Seq<char>, from: int)
    requires
        0 <= from <= s.len(),
    ensures
        from <= first_of(s, stops, from) <= s.len(),
        forall|k: int|
            from <= k < first_of(s, stops, from) ==> !stops.contains(#[trigger] s[k]),
        first_of(s, stops, from) < s.len() ==> stops.contains(s[first_of(s, stops, from)]),
    decreases s.len() - from,
{
    if from < s.len() && !stops.contains(s[from]) {
        lemma_first_of(s, stops, from + 1);
    }
}

/// Is `c` one of `stops`?
pub fn is_one_of(c: char, stops: &Vec<char>) -> (r: bool)
    ensures
        r == stops@.contains(c),
{
    let mut i: usize = 0;
    while i < stops.len()
        invariant
            i <= stops@.len(),
            forall|k: int| 0 <= k < i ==> stops@[k] != c,
        decreases stops@.len() - i,
    {
        if stops[i] == c {
            assert(stops@[i as int] == c);
            return true;
        }
        i = i + 1;
    }
    false
}

/// The first position at or after `from` whose character is one of `stops`.
pub fn position_of(v: &Vec<char>, stops: &Vec<char>, from: usize) -> (r: usize)
    requires
        from <= v@.len(),
    ensures
        r == first_of(v@, stops@, from as int),
        from <= r <= v@.len(),
{
    let mut i: usize = from;
    while i < v.len()
        invariant
            from <= i <= v@.len(),
            first_of(v@, stops@, from as int) == first_of(v@, stops@, i as int),
        decreases v@.len() - i,
    {
        if is_one_of(v[i], stops) {
            return i;
        }
        i = i + 1;
    }
    i
}

/// The part of `s` before the first character that is one of `stops`.
pub fn cut_before(s: &str, stops: &Vec<char>) -> (r: String)
    ensures
        r@ == before_any(s@, stops@),
{
    let v = chars_of(s);
    let n = position_of(&v, stops, 0);
    let r = text_of(&v, 0, n);
    assert(r@ == s@.take(n as int));
    r
}

/// The part of `s` behind the last `c`; all of it where there is none.
pub open spec fn after_last(s: Seq<char>, c: char) -> Seq<char>
    decreases s.len(),
{
    if s.len() == 0 || s.last() == c {
        Seq::empty()
    } else {
        after_last(s.drop_last(), c).push(s.last())
    }
}

/// The part of `s` behind the last `c`; all of it where there is none.
pub fn cut_after_last(s: &str, c: char) -> (r: String)
    ensures
        r@ == after_last(s@, c),
{
    let v = chars_of(s);
    let mut from: usize = v.len();
    let ghost all = s@;
    assert(all.take(all.len() as int) == all);
    while from > 0 && v[from - 1] != c
        invariant
            v@ == all,
            from <= all.len(),
            after_last(all, c) == after_last(all.take(from as int), c) + all.skip(from as int),
        decreases from,
    {
        let ghost head = all.take(from as int);
        from = from - 1;
        proof {
            assert(head.drop_last() == all.take(from as int));
            assert(after_last(head, c) == after_last(head.drop_last(), c).push(head.last()));
            assert(after_last(all.take(from as int), c).push(all[from as int]) + all.skip(from + 1)
                =~= after_last(all.take(from as int), c) + all.skip(from as int));
        }
    }
    assert(after_last(all.take(from as int), c) == Seq::<char>::empty());
    let r = text_of(&v, from, v.len());
    assert(r@ =~= all.skip(from as int));
    r
}

/// The first `n` characters of `s`, or all of it where it is shorter.
pub open spec fn clipped(s: Seq<char>, n: int) -> Seq<char> {
    if s.len() <= n {
        s
    } else {
        s.take(n)
    }
}

/// The first `n` characters of `s`, or all of it where it is shorter.
pub fn truncate(s: &str, n: usize) -> (r: String)
    ensures
        r@ == clipped(s@, n as int),
{
    let v = chars_of(s);
    if v.len() <= n {
        s.to_owned()
    } else {
        let r = text_of(&v, 0, n);
        assert(r@ == s@.take(n as int));
        r
    }
}

/// `s` without its trailing white space.
pub open spec fn trimmed_end(s: Seq<char>) -> Seq<char>
    decreases s.len(),
{
    if s.len() > 0 && is_space(s.last()) {
        trimmed_end(s.drop_last())
    } else {
        s
    }
}

/// `s` without its leading white space.
pub open spec fn trimmed_start(s: Seq<char>) -> Seq<char>
    decreases s.len(),
{
    if s.len() > 0 && is_space(s[0]) {
        trimmed_start(s.drop_first())
    } else {
        s
    }
}

/// `s` without its leading and trailing white space.
pub open spec fn trimmed(s: Seq<char>) -> Seq<char> {
    trimmed_end(trimmed_start(s))
}

/// The text without its trailing white space.
pub fn trim_end(s: &str) -> (r: String)
    ensures
        r@ == trimmed_end(s@),
{
    let v = chars_of(s);
    let mut n: usize = v.len();
    assert(s@.take(n as int) == s@);
    while n > 0 && char_is_space(v[n - 1])
        invariant
            n <= v@.len(),
            v@ == s@,
            trimmed_end(s@) == trimmed_end(s@.take(n as int)),
        decreases n,
    {
        assert(s@.take(n as int).drop_last() == s@.take(n - 1));
        n = n - 1;
    }
    let r = text_of(&v, 0, n);
    assert(r@ == s@.take(n as int));
    r
}

/// The text without its leading and trailing white space.
pub fn trim(s: &str) -> (r: String)
    ensures
        r@ == trimmed(s@),
{
    let v = chars_of(s);
    let mut i: usize = 0;
    assert(s@.skip(0) == s@);
    while i < v.len() && char_is_space(v[i])
        invariant
            i <= v@.len(),
            v@ == s@,
            trimmed_start(s@) == trimmed_start(s@.skip(i as int)),
        decreases v@.len() - i,
    {
        assert(s@.skip(i as int).drop_first() == s@.skip(i + 1));
        i = i + 1;
    }
    let rest = text_of(&v, i, v.len());
    assert(rest@ == s@.skip(i as int));
    trim_end(&rest)
}

/// The decimal digits of `n`.
pub open spec fn decimal(n: nat) -> Seq<char>
    decreases n,
{
    if n < 10 {
        seq![(48 + n) as char]
    } else {
        decimal(n / 10).push((48 + n % 10) as char)
    }
}

/// The decimal digits of `n`.
pub fn decimal_text(n: u64) -> (r: String)
    ensures
        r@ == decimal(n as nat),
    decreases n,
{
    if n < 10 {
        let mut s = String::new();
        s.push((48 + n as u8) as char);
        assert(s@ == decimal(n as nat));
        s
    } else {
        let mut s = decimal_text(n / 10);
        s.push((48 + (n % 10) as u8) as char);
        s
    }
}

/// The decimal form of a signed number.
pub open spec fn signed_decimal(n: int) -> Seq<char> {
    if n < 0 {
        seq!['-'] + decimal((-n) as nat)
    } else {
        decimal(n as nat)
    }
}

/// The decimal form of a signed number.
pub fn signed_decimal_text(n: i64) -> (r: String)
    ensures
        r@ == signed_decimal(n as int),
{
    if n < 0 {
        let mut s = String::new();
        s.push('-');
        let magnitude: u64 = (-(n as i128)) as u64;
        s.append(&decimal_text(magnitude));
        assert(s@ == signed_decimal(n as int));
        s
    } else {
        decimal_text(n as u64)
    }
}

/// `parts` one after another, with `sep` between each two.
pub open spec fn joined(parts: Seq<Seq<char>>, sep: Seq<char>) -> Seq<char>
    decreases parts.len(),
{
    if parts.len() == 0 {
        Seq::empty()
    } else if parts.len() == 1 {
        parts[0]
    } else {
        joined(parts.drop_last(), sep) + sep + parts.last()
    }
}

/// The views of a sequence of texts.
pub open spec fn views(v: Seq<String>) -> Seq<Seq<char>> {
    v.map_values(|s: String| s@)
}

/// `parts` one after another, with `sep` between each two.
pub fn join(parts: &Vec<String>, sep: &str) -> (r: String)
    ensures
        r@ == joined(views(parts@), sep@),
{
    let mut out = String::new();
    let mut i: usize = 0;
    while i < parts.len()
        invariant
            i <= parts@.len(),
            out@ == joined(views(parts@.take(i as int)), sep@),
        decreases parts@.len() - i,
    {
        if i > 0 {
            out.append(sep);
        }
        out.append(&parts[i]);
        i = i + 1;
        let ghost now = views(parts@.take(i as int));
        assert(now.drop_last() == views(parts@.take(i - 1)));
        assert(now.last() == parts@[i - 1]@);
        assert(out@ == joined(now, sep@));
    }
    assert(parts@.take(parts@.len() as int) == parts@);
    out
}

/// The concatenation of two texts.
pub fn concat2(a: &str, b: &str) -> (r: String)
    ensures
        r@ == a@ + b@,
{
    let mut s = a.to_owned();
    s.append(b);
    s
}

/// The concatenation of three texts.
pub fn concat3(a: &str, b: &str, c: &str) -> (r: String)
    ensures
        r@ == a@ + b@ + c@,
{
    let mut s = a.to_owned();
    s.append(b);
    s.append(c);
    s
}

/// The pieces of `s` between the occurrences of `c`.
pub open spec fn split_on(s: Seq<char>, c: char) -> Seq<Seq<char>>
    decreases s.len(),
{
    let n = first_of(s, seq![c], 0);
    if n >= s.len() {
        seq![s]
    } else {
        proof {
            lemma_first_of(s, seq![c], 0);
        }
        seq![s.take(n)] + split_on(s.skip(n + 1), c)
    }
}

/// The pieces of `s` between the occurrences of `c`.
pub fn split(s: &str, c: char) -> (r: Vec<String>)
    ensures
        views(r@) == split_on(s@, c),
{
    let v = chars_of(s);
    let stops: Vec<char> = vec![c];
    assert(stops@ == seq![c]);
    let mut out: Vec<String> = Vec::new();
    let mut rest: Vec<char> = v;
    assert(views(out@) + split_on(s@, c) == split_on(s@, c));
    loop
        invariant
            stops@ == seq![c],
            split_on(s@, c) == views(out@) + split_on(rest@, c),
        decreases rest@.len(),
    {
        let n = position_of(&rest, &stops, 0);
        proof {
            lemma_first_of(rest@, stops@, 0);
        }
        let piece = text_of(&rest, 0, n);
        let ghost before = views(out@);
        assert(piece@ == rest@.take(n as int));
        out.push(piece);
        assert(views(out@) == before.push(rest@.take(n as int)));
        if n >= rest.len() {
            assert(rest@.take(n as int) == rest@);
            assert(views(out@) == before + seq![rest@]);
            return out;
        }
        let tail = tail_of(&rest, n + 1);
        assert(tail@ == rest@.skip(n + 1));
        assert(before + (seq![rest@.take(n as int)] + split_on(tail@, c)) == views(out@)
            + split_on(tail@, c));
        rest = tail;
    }
}

/// The characters of `v` from position `from` on.
pub fn tail_of(v: &Vec<char>, from: usize) -> (r: Vec<char>)
    requires
        from <= v@.len(),
    ensures
        r@ == v@.skip(from as int),
{
    let mut out: Vec<char> = Vec::new();
    let mut i: usize = from;
    while i < v.len()
        invariant
            from <= i <= v@.len(),
            out@ == v@.subrange(from as int, i as int),
        decreases v@.len() - i,
    {
        out.push(v[i]);
        i = i + 1;
        assert(v@.subrange(from as int, i as int) == v@.subrange(from as int, i - 1).push(v@[i - 1]));
    }
    assert(v@.subrange(from as int, v@.len() as int) == v@.skip(from as int));
    out
}

/// `s` with every `a` replaced by `b`.
pub open spec fn replaced(s: Seq<char>, a: char, b: char) -> Seq<char> {
    s.map_values(|c: char|
        if c == a {
            b
        } else {
            c
        })
}

/// `s` with every `a` replaced by `b`.
pub fn replace_char(s: &str, a: char, b: char) -> (r: String)
    ensures
        r@ == replaced(s@, a, b),
{
    let v = chars_of(s);
    let mut out = String::new();
    let mut i: usize = 0;
    while i < v.len()
        invariant
            i <= v@.len(),
            v@ == s@,
            out@ == replaced(s@.take(i as int), a, b),
        decreases v@.len() - i,
    {
        out.push(
            if v[i] == a {
                b
            } else {
                v[i]
            },
        );
        i = i + 1;
        assert(replaced(s@.take(i as int), a, b) == replaced(s@.take(i - 1), a, b).push(
            if s@[i - 1] == a {
                b
            } else {
                s@[i - 1]
            },
        ));
    }
    assert(s@.take(s@.len() as int) == s@);
    out
}

/// `s` without every leading repetition of `p`.
pub open spec fn without_prefixes(s: Seq<char>, p: Seq<char>) -> Seq<char>
    decreases s.len(),
{
    if p.len() > 0 && p.is_prefix_of(s) {
        without_prefixes(s.skip(p.len() as int), p)
    } else {
        s
    }
}

/// `s` without every leading repetition of `p`.
pub fn drop_prefixes(s: &str, p: &str) -> (r: String)
    ensures
        r@ == without_prefixes(s@, p@),
{
    let q = chars_of(p);
    let mut rest = chars_of(s);
    while q.len() > 0 && stands_at(&rest, &q, 0)
        invariant
            q@ == p@,
            without_prefixes(s@, p@) == without_prefixes(rest@, p@),
        decreases rest@.len(),
    {
        rest = tail_of(&rest, q.len());
    }
    let r = text_of(&rest, 0, rest.len());
    assert(r@ == rest@);
    r
}

/// `s` without its trailing repetitions of `c`.
pub open spec fn without_trailing(s: Seq<char>, c: char) -> Seq<char>
    decreases s.len(),
{
    if s.len() > 0 && s.last() == c {
        without_trailing(s.drop_last(), c)
    } else {
        s
    }
}

/// `s` without its trailing repetitions of `c`.
pub fn drop_trailing(s: &str, c: char) -> (r: String)
    ensures
        r@ == without_trailing(s@, c),
{
    let v = chars_of(s);
    let mut n: usize = v.len();
    assert(s@.take(n as int) == s@);
    while n > 0 && v[n - 1] == c
        invariant
            n <= v@.len(),
            v@ == s@,
            without_trailing(s@, c) == without_trailing(s@.take(n as int), c),
        decreases n,
    {
        assert(s@.take(n as int).drop_last() == s@.take(n - 1));
        n = n - 1;
    }
    let r = text_of(&v, 0, n);
    assert(r@ == s@.take(n as int));
    r
}

/// The number of bytes of a text in UTF-8.
pub open spec fn utf8_len(s: Seq<char>) -> nat {
    vstd::utf8::encode_utf8(s).len()
}

/// The number of bytes of a text in UTF-8.
pub fn byte_len(s: &str) -> (r: usize)
    ensures
        r == utf8_len(s@),
{
    s.as_bytes().len()
}

/// The lower-case form of a text, as `str::to_lowercase` gives it.
pub uninterp spec fn lowercase(s: Seq<char>) -> Seq<char>;

/// `str::to_lowercase`: the text in lower case by the Unicode rules, which
/// depend on the text alone.
#[verifier::external_body]
pub(crate) fn to_lowercase(s: &str) -> (r: String)
    ensures
        r@ == lowercase(s@),
{
    s.to_lowercase()
}

/// The text that `String::from_utf8_lossy` reads from bytes.
pub uninterp spec fn lossy_text(bytes: Seq<u8>) -> Seq<char>;

/// `String::from_utf8_lossy`: the bytes read as UTF-8, with replacement
/// characters where they are not; a function of the bytes alone.
#[verifier::external_body]
pub(crate) fn read_lossy(bytes: &Vec<u8>) -> (r: String)
    ensures
        r@ == lossy_text(bytes@),
{
    String::from_utf8_lossy(bytes).into_owned()
}

/// The text that `String::from_utf16_lossy` reads from units.
pub uninterp spec fn utf16_text(units: Seq<u16>) -> Seq<char>;

/// `String::from_utf16_lossy`: the units read as UTF-16, with replacement
/// characters where they are not; a function of the units alone.
#[verifier::external_body]
pub(crate) fn read_utf16(units: &Vec<u16>) -> (r: String)
    ensures
        r@ == utf16_text(units@),
{
    String::from_utf16_lossy(units)
}

/// The lower-case hexadecimal digit of a number below sixteen.
pub open spec fn hex_digit(n: int) -> char {
    if n < 10 {
        (48 + n) as char
    } else {
        (87 + n) as char
    }
}

/// The lower-case hexadecimal digits of `n`.
pub open spec fn hex(n: nat) -> Seq<char>
    decreases n,
{
    if n < 16 {
        seq![hex_digit(n as int)]
    } else {
        hex(n / 16).push(hex_digit((n % 16) as int))
    }
}

/// `s` with `c` in front until it has `width` characters.
pub open spec fn padded(s: Seq<char>, c: char, width: int) -> Seq<char>
    decreases width - s.len(),
{
    if s.len() >= width {
        s
    } else {
        padded(seq![c] + s, c, width)
    }
}

/// The lower-case hexadecimal digits of `n`.
pub fn hex_text(n: u64) -> (r: String)
    ensures
        r@ == hex(n as nat),
    decreases n,
{
    let low: u8 = (n % 16) as u8;
    let digit: char = if low < 10 {
        (48 + low) as char
    } else {
        (87 + low) as char
    };
    if n < 16 {
        let mut s = String::new();
        s.push(digit);
        assert(s@ == hex(n as nat));
        s
    } else {
        let mut s = hex_text(n / 16);
        s.push(digit);
        s
    }
}

/// `s` with `c` in front until it has `width` characters.
pub fn pad(s: &str, c: char, width: usize) -> (r: String)
    ensures
        r@ == padded(s@, c, width as int),
{
    let mut out = s.to_owned();
    let mut n: usize = s.unicode_len();
    while n < width
        invariant
            n == out@.len(),
            padded(s@, c, width as int) == padded(out@, c, width as int),
        decreases width - n,
    {
        let mut longer = String::new();
        longer.push(c);
        longer.append(&out);
        assert(longer@ == seq![c] + out@);
        out = longer;
        n = n + 1;
    }
    out
}

/// The first position at or after `from` that holds white space, or the length.
pub open spec fn space_at(s: Seq<char>, from: int) -> int
    decreases s.len() - from,
{
    if from < 0 || from >= s.len() {
        s.len() as int
    } else if is_space(s[from]) {
        from
    } else {
        space_at(s, from + 1)
    }
}

/// White space is found at or after the start, within the text.
pub proof fn lemma_space_at(s: Seq<char>, from: int)
    requires
        0 <= from <= s.len(),
    ensures
        from <= space_at(s, from) <= s.len(),
        from < s.len() && !is_space(s[from]) ==> from < space_at(s, from),
    decreases s.len() - from,
{
    if from < s.len() && !is_space(s[from]) {
        lemma_space_at(s, from + 1);
    }
}

/// Leading white space removed leaves no more than was there, and begins with
/// no white space.
pub proof fn lemma_trimmed_start_len(s: Seq<char>)
    ensures
        trimmed_start(s).len() <= s.len(),
        trimmed_start(s).len() > 0 ==> !is_space(trimmed_start(s)[0]),
    decreases s.len(),
{
    if s.len() > 0 && is_space(s[0]) {
        lemma_trimmed_start_len(s.drop_first());
    }
}

/// The words of a text: what stands between white space.
pub open spec fn words_of(s: Seq<char>) -> Seq<Seq<char>>
    decreases s.len(),
{
    let t = trimmed_start(s);
    if t.len() == 0 {
        Seq::empty()
    } else {
        proof {
            lemma_trimmed_start_len(s);
            lemma_space_at(t, 0);
        }
        seq![t.take(space_at(t, 0))] + words_of(t.skip(space_at(t, 0)))
    }
}

/// The words of a text: what stands between white space.
pub fn words(s: &str) -> (r: Vec<String>)
    ensures
        views(r@) == words_of(s@),
{
    let mut out: Vec<String> = Vec::new();
    let mut rest = chars_of(s);
    assert(views(out@) + words_of(s@) =~= words_of(s@));
    loop
        invariant
            words_of(s@) == views(out@) + words_of(rest@),
        decreases rest@.len(),
    {
        let mut i: usize = 0;
        assert(rest@.skip(0) == rest@);
        while i < rest.len() && char_is_space(rest[i])
            invariant
                i <= rest@.len(),
                trimmed_start(rest@) == trimmed_start(rest@.skip(i as int)),
            decreases rest@.len() - i,
        {
            assert(rest@.skip(i as int).drop_first() == rest@.skip(i + 1));
            i = i + 1;
        }
        let ghost t = trimmed_start(rest@);
        assert(t == rest@.skip(i as int));
        if i >= rest.len() {
            assert(views(out@) + Seq::<Seq<char>>::empty() =~= views(out@));
            return out;
        }
        let total: usize = rest.len();
        let mut j: usize = i;
        while j < rest.len() && !char_is_space(rest[j])
            invariant
                total == rest@.len(),
                i <= j <= total,
                t == rest@.skip(i as int),
                space_at(t, 0) == space_at(t, j - i),
            decreases total - j,
        {
            assert(t[j - i] == rest@[j as int]);
            j = j + 1;
        }
        assert(space_at(t, 0) == j - i) by {
            if j < total {
                assert(t[j - i] == rest@[j as int]);
            }
        }
        let word = text_of(&rest, i, j);
        let ghost before = views(out@);
        assert(word@ =~= t.take(j - i));
        out.push(word);
        assert(views(out@) =~= before.push(word@));
        let tail = tail_of(&rest, j);
        assert(tail@ =~= t.skip(j - i));
        proof {
            lemma_trimmed_start_len(rest@);
            lemma_space_at(t, 0);
            assert(before + (seq![t.take(j - i)] + words_of(tail@)) =~= views(out@) + words_of(
                tail@,
            ));
        }
        rest = tail;
    }
}

/// `s` without its leading repetitions of `c`.
pub open spec fn without_leading(s: Seq<char>, c: char) -> Seq<char>
    decreases s.len(),
{
    if s.len() > 0 && s[0] == c {
        without_leading(s.drop_first(), c)
    } else {
        s
    }
}

/// `s` without the repetitions of `c` at its two ends.
pub fn drop_around(s: &str, c: char) -> (r: String)
    ensures
        r@ == without_trailing(without_leading(s@, c), c),
{
    let v = chars_of(s);
    let mut i: usize = 0;
    assert(s@.skip(0) == s@);
    while i < v.len() && v[i] == c
        invariant
            i <= v@.len(),
            v@ == s@,
            without_leading(s@, c) == without_leading(s@.skip(i as int), c),
        decreases v@.len() - i,
    {
        assert(s@.skip(i as int).drop_first() == s@.skip(i + 1));
        i = i + 1;
    }
    let rest = text_of(&v, i, v.len());
    assert(rest@ == s@.skip(i as int));
    drop_trailing(&rest, c)
}

/// Is `c` a decimal digit?
pub open spec fn is_digit(c: char) -> bool {
    '0' <= c <= '9'
}

/// The number that decimal digits stand for; none where there is another
/// character, or nothing.
pub open spec fn digits_value(s: Seq<char>) -> Option<nat>
    decreases s.len(),
{
    if s.len() == 0 {
        None
    } else if !is_digit(s.last()) {
        None
    } else if s.len() == 1 {
        Some((s[0] as int - 48) as nat)
    } else {
        match digits_value(s.drop_last()) {
            Some(n) => Some((n * 10 + (s.last() as int - 48)) as nat),
            None => None,
        }
    }
}

/// The number that a text stands for, as unsigned numbers are read: digits,
/// with a plus sign before them or not, up to `max`.
pub open spec fn parsed_uint(s: Seq<char>, max: nat) -> Option<nat> {
    let digits = if s.len() > 0 && s[0] == '+' {
        s.drop_first()
    } else {
        s
    };
    match digits_value(digits) {
        Some(n) => if n <= max {
            Some(n)
        } else {
            None
        },
        None => None,
    }
}

proof fn lemma_digit_range(c: char)
    requires
        is_digit(c),
    ensures
        48 <= c as int <= 57,
{
}

proof fn lemma_digits_prefix(s: Seq<char>, n: int)
    requires
        0 < n <= s.len(),
        digits_value(s) is Some,
    ensures
        digits_value(s.take(n)) is Some,
        digits_value(s.take(n))->0 <= digits_value(s)->0,
    decreases s.len(),
{
    if n < s.len() {
        assert(s.drop_last().take(n) == s.take(n));
        lemma_digit_range(s.last());
        lemma_digits_prefix(s.drop_last(), n);
    } else {
        assert(s.take(n) == s);
    }
}

proof fn lemma_bad_prefix(s: Seq<char>, n: int)
    requires
        0 < n <= s.len(),
        digits_value(s.take(n)) is None,
    ensures
        digits_value(s) is None,
{
    if digits_value(s) is Some {
        lemma_digits_prefix(s, n);
    }
}

/// The number that a text stands for, as unsigned numbers are read.
pub fn parse_uint(s: &str, max: u32) -> (r: Option<u32>)
    ensures
        match r {
            Some(n) => parsed_uint(s@, max as nat) == Some(n as nat),
            None => parsed_uint(s@, max as nat) is None,
        },
{
    let v = chars_of(s);
    let start: usize = if v.len() > 0 && v[0] == '+' {
        1
    } else {
        0
    };
    let digits = tail_of(&v, start);
    assert(digits@ =~= (if s@.len() > 0 && s@[0] == '+' {
        s@.drop_first()
    } else {
        s@
    }));
    if digits.len() == 0 {
        return None;
    }
    let mut value: u64 = 0;
    let mut i: usize = 0;
    while i < digits.len()
        invariant
            i <= digits@.len(),
            digits@.len() > 0,
            value <= max,
            i == 0 ==> value == 0,
            i > 0 ==> digits_value(digits@.take(i as int)) == Some(value as nat),
            parsed_uint(s@, max as nat) == (match digits_value(digits@) {
                Some(n) => if n <= max as nat {
                    Some(n)
                } else {
                    None
                },
                None => None,
            }),
        decreases digits@.len() - i,
    {
        let c: char = digits[i];
        let ghost now = digits@.take(i + 1);
        assert(now.drop_last() == digits@.take(i as int));
        assert(now.last() == c);
        if c < '0' || c > '9' {
            proof {
                lemma_bad_prefix(digits@, i + 1);
            }
            return None;
        }
        proof {
            lemma_digit_range(c);
        }
        value = value * 10 + (c as u64 - 48);
        assert(digits_value(now) == Some(value as nat));
        if value > max as u64 {
            proof {
                if digits_value(digits@) is Some {
                    lemma_digits_prefix(digits@, i + 1);
                }
            }
            return None;
        }
        i = i + 1;
    }
    assert(digits@.take(digits@.len() as int) == digits@);
    Some(value as u32)
}

/// A trimmed text is the text without white space around it: only white space is
/// taken away, and none is left at either end.
pub proof fn law_trimming_takes_white_space_only(s: &str, r: String) -> (n: int)
    requires
        call_ensures(trim, (s,), r),
    ensures
        0 <= n <= n + r@.len() <= s@.len(),
        r@ == s@.subrange(n, n + r@.len()),
        forall|k: int| 0 <= k < n ==> is_space(#[trigger] s@[k]),
        forall|k: int| n + r@.len() <= k < s@.len() ==> is_space(#[trigger] s@[k]),
        r@.len() > 0 ==> !is_space(r@[0]) && !is_space(r@.last()),
{
    let n = lemma_trimmed_start(s@);
    let t = trimmed_start(s@);
    lemma_trimmed_end(t);
    assert(r@ =~= s@.subrange(n, n + r@.len()));
    assert forall|k: int| n + r@.len() <= k < s@.len() implies is_space(#[trigger] s@[k]) by {
        assert(t[k - n] == s@[k]);
    }
    n
}

proof fn lemma_trimmed_start(s: Seq<char>) -> (n: int)
    ensures
        0 <= n <= s.len(),
        trimmed_start(s) == s.skip(n),
        forall|k: int| 0 <= k < n ==> is_space(#[trigger] s[k]),
        n < s.len() ==> !is_space(s[n]),
    decreases s.len(),
{
    if s.len() > 0 && is_space(s[0]) {
        let rest = s.drop_first();
        let m = lemma_trimmed_start(rest);
        assert(s.skip(m + 1) =~= rest.skip(m));
        assert forall|k: int| 0 <= k < m + 1 implies is_space(#[trigger] s[k]) by {
            if k > 0 {
                assert(rest[k - 1] == s[k]);
            }
        }
        m + 1
    } else {
        assert(s.skip(0) =~= s);
        0
    }
}

proof fn lemma_trimmed_end(s: Seq<char>)
    ensures
        trimmed_end(s).len() <= s.len(),
        trimmed_end(s) == s.take(trimmed_end(s).len() as int),
        forall|k: int| trimmed_end(s).len() <= k < s.len() ==> is_space(#[trigger] s[k]),
        trimmed_end(s).len() > 0 ==> !is_space(trimmed_end(s).last()),
    decreases s.len(),
{
    if s.len() > 0 && is_space(s.last()) {
        let rest = s.drop_last();
        lemma_trimmed_end(rest);
        assert forall|k: int| trimmed_end(s).len() <= k < s.len() implies is_space(
            #[trigger] s[k],
        ) by {
            if k < rest.len() {
                assert(rest[k] == s[k]);
            }
        }
    } else {
        assert(s.take(s.len() as int) =~= s);
    }
}

/// The pieces of a text, joined again, are the text; there is always at least one,
/// and none holds what they were cut at.
pub proof fn law_pieces_join_again(s: Seq<char>, c: char)
    ensures
        split_on(s, c).len() > 0,
        joined(split_on(s, c), seq![c]) == s,
        forall|k: int|
            0 <= k < split_on(s, c).len() ==> !(#[trigger] split_on(s, c)[k]).contains(c),
    decreases s.len(),
{
    let stops = seq![c];
    let n = first_of(s, stops, 0);
    lemma_first_of(s, stops, 0);
    assert(stops[0] == c);
    if n >= s.len() {
        assert(split_on(s, c) =~= seq![s]);
        if s.contains(c) {
            let k = choose|k: int| 0 <= k < s.len() && s[k] == c;
            assert(stops.contains(s[k]));
        }
    } else {
        let head = s.take(n);
        let rest = s.skip(n + 1);
        let pieces = split_on(rest, c);
        law_pieces_join_again(rest, c);
        assert(s[n] == c);
        assert(split_on(s, c) =~= seq![head] + pieces);
        lemma_join_front(head, pieces, stops);
        assert(head + stops + rest =~= s);
        assert forall|k: int| 0 <= k < split_on(s, c).len() implies !(
        #[trigger] split_on(s, c)[k]).contains(c) by {
            if k == 0 {
                if head.contains(c) {
                    let m = choose|m: int| 0 <= m < head.len() && head[m] == c;
                    assert(stops.contains(s[m]));
                }
            } else {
                assert(split_on(s, c)[k] == pieces[k - 1]);
            }
        }
    }
}

proof fn lemma_join_front(head: Seq<char>, pieces: Seq<Seq<char>>, sep: Seq<char>)
    requires
        pieces.len() > 0,
    ensures
        joined(seq![head] + pieces, sep) == head + sep + joined(pieces, sep),
    decreases pieces.len(),
{
    let all = seq![head] + pieces;
    if pieces.len() == 1 {
        assert(all.drop_last() =~= seq![head]);
        assert(joined(seq![head], sep) == head);
    } else {
        assert(all.drop_last() =~= seq![head] + pieces.drop_last());
        lemma_join_front(head, pieces.drop_last(), sep);
        assert(head + sep + joined(pieces.drop_last(), sep) + sep + pieces.last() =~= head + sep + (
        joined(pieces.drop_last(), sep) + sep + pieces.last()));
    }
}

/// A text is a word of its own where it holds no white space, and white space parts
/// words: those before it and those behind it are the words of the whole.
pub proof fn law_white_space_parts_words(a: Seq<char>, c: char, b: Seq<char>)
    requires
        is_space(c),
    ensures
        words_of(a + seq![c] + b) == words_of(a) + words_of(b),
        (forall|k: int| 0 <= k < a.len() ==> !is_space(#[trigger] a[k])) && a.len() > 0
            ==> words_of(a) == seq![a],
    decreases a.len(),
{
    let whole = a + seq![c] + b;
    if a.len() == 0 {
        assert(whole.drop_first() =~= b);
        assert(trimmed_start(whole) == trimmed_start(b));
        assert(trimmed_start(a).len() == 0);
        assert(words_of(a) + words_of(b) =~= words_of(b));
    } else if is_space(a[0]) {
        assert(whole.drop_first() =~= a.drop_first() + seq![c] + b);
        law_white_space_parts_words(a.drop_first(), c, b);
        assert(trimmed_start(a) == trimmed_start(a.drop_first()));
        assert(trimmed_start(whole) == trimmed_start(whole.drop_first()));
    } else {
        lemma_space_at(a, 0);
        lemma_space_found(a, 0);
        let n = space_at(a, 0);
        lemma_space_at_prefix(a, c, b, 0);
        assert(space_at(whole, 0) == n);
        assert(whole.take(n) =~= a.take(n));
        assert(whole.skip(n) =~= a.skip(n) + seq![c] + b);
        law_white_space_parts_words(a.skip(n), c, b);
        assert(words_of(whole) =~= seq![a.take(n)] + words_of(whole.skip(n)));
        assert(words_of(a) =~= seq![a.take(n)] + words_of(a.skip(n)));
        assert(words_of(whole) =~= words_of(a) + words_of(b));
        if forall|k: int| 0 <= k < a.len() ==> !is_space(#[trigger] a[k]) {
            if n < a.len() {
                assert(is_space(a[n]));
            }
            assert(a.take(n) =~= a);
            assert(trimmed_start(a.skip(n)).len() == 0);
            assert(words_of(a) =~= seq![a]);
        }
    }
}

proof fn lemma_space_found(s: Seq<char>, from: int)
    requires
        0 <= from <= s.len(),
    ensures
        space_at(s, from) < s.len() ==> is_space(s[space_at(s, from)]),
    decreases s.len() - from,
{
    if from < s.len() && !is_space(s[from]) {
        lemma_space_found(s, from + 1);
    }
}

proof fn lemma_space_at_prefix(a: Seq<char>, c: char, b: Seq<char>, from: int)
    requires
        is_space(c),
        0 <= from <= a.len(),
    ensures
        space_at(a + seq![c] + b, from) == space_at(a, from),
    decreases a.len() - from,
{
    let whole = a + seq![c] + b;
    if from < a.len() {
        assert(whole[from] == a[from]);
        if !is_space(a[from]) {
            lemma_space_at_prefix(a, c, b, from + 1);
        }
    } else {
        assert(whole[from] == c);
    }
}

/// The decimal digits of a number read back as the number, up to the bound and no
/// further.
pub proof fn law_numbers_read_back(n: nat, max: nat)
    ensures
        digits_value(decimal(n)) == Some(n),
        parsed_uint(decimal(n), max) == (if n <= max {
            Some(n)
        } else {
            None
        }),
    decreases n,
{
    lemma_decimal_digits(n);
    assert(decimal(n)[0] != '+');
}

proof fn lemma_decimal_digits(n: nat)
    ensures
        decimal(n).len() > 0,
        is_digit(decimal(n)[0]),
        digits_value(decimal(n)) == Some(n),
    decreases n,
{
    if n < 10 {
        let c = (48 + n) as char;
        assert(c as int == 48 + n);
    } else {
        lemma_decimal_digits(n / 10);
        let c = (48 + n % 10) as char;
        assert(c as int == 48 + n % 10);
        assert(decimal(n).drop_last() =~= decimal(n / 10));
        assert(decimal(n)[0] == decimal(n / 10)[0]);
    }
}

/// A text is found where it stands: exactly where some part of the other text is
/// the same.
pub proof fn law_containing_is_standing_somewhere(s: &str, p: &str, r: bool)
    requires
        call_ensures(contains, (s, p), r),
    ensures
        r <==> exists|a: Seq<char>, b: Seq<char>| s@ == #[trigger] (a + p@ + b),
{
    if r {
        let i = choose|i: int| occurs_at(s@, p@, i);
        let a = s@.take(i);
        let b = s@.skip(i + p@.len());
        assert(s@ =~= a + p@ + b);
    }
    if exists|a: Seq<char>, b: Seq<char>| s@ == #[trigger] (a + p@ + b) {
        let (a, b) = choose|a: Seq<char>, b: Seq<char>| s@ == #[trigger] (a + p@ + b);
        assert(s@.subrange(a.len() as int, (a.len() + p@.len()) as int) =~= p@);
        assert(occurs_at(s@, p@, a.len() as int));
    }
}

/// A shortened text is the beginning of the text: as long as asked for, or all of
/// it.
pub proof fn law_truncating_keeps_the_beginning(s: &str, n: usize, r: String)
    requires
        call_ensures(truncate, (s, n), r),
    ensures
        r@.is_prefix_of(s@),
        r@.len() <= n,
        r@.len() == n || r@ == s@,
{
}

/// Lower case leaves everything but the letters from A to Z as it is, and turns
/// those into the letters from a to z; case does not count between two texts exactly
/// where their lower-case forms are the same.
pub proof fn law_lower_case_of_letters(s: &str, r: String)
    requires
        call_ensures(lower, (s,), r),
    ensures
        r@.len() == s@.len(),
        forall|k: int|
            0 <= k < s@.len() && 'A' <= #[trigger] s@[k] <= 'Z' ==> r@[k] as int == s@[k] as int
                + 32,
        forall|k: int|
            0 <= k < s@.len() && !('A' <= #[trigger] s@[k] <= 'Z') ==> r@[k] == s@[k],
{
}

/// Is there none of the characters in the text?
pub open spec fn holds_none(s: Seq<char>, stops: Seq<char>) -> bool {
    forall|k: int| 0 <= k < s.len() ==> !stops.contains(#[trigger] s[k])
}

/// What is cut before a character is what stands before the first one of its kind, and
/// all of the text where there is none.
pub proof fn law_texts_are_cut_at_the_first(a: Seq<char>, c: char, b: Seq<char>, stops: Seq<char>)
    requires
        holds_none(a, stops),
        stops.contains(c),
    ensures
        before_any(a + seq![c] + b, stops) == a,
        before_any(a, stops) == a,
{
    let s = a + seq![c] + b;
    lemma_first_of(s, stops, 0);
    let n = first_of(s, stops, 0);
    assert(s[a.len() as int] == c);
    if n < a.len() {
        assert(s[n] == a[n]);
    }
    if n > a.len() {
        assert(!stops.contains(s[a.len() as int]));
    }
    assert(s.take(n) =~= a);
    lemma_first_of(a, stops, 0);
    let m = first_of(a, stops, 0);
    if m < a.len() {
        assert(stops.contains(a[m]));
    }
    assert(a.take(m) =~= a);
}

/// What stands behind the last of a character is what follows it, and all of the text
/// where there is none.
pub proof fn law_texts_are_cut_behind_the_last(a: Seq<char>, c: char, b: Seq<char>)
    requires
        forall|k: int| 0 <= k < b.len() ==> #[trigger] b[k] != c,
    ensures
        after_last(a + seq![c] + b, c) == b,
        after_last(b, c) == b,
    decreases b.len(),
{
    let s = a + seq![c] + b;
    if b.len() == 0 {
        assert(s.last() == c);
        assert(b =~= Seq::<char>::empty());
    } else {
        let rest = b.drop_last();
        assert forall|k: int| 0 <= k < rest.len() implies #[trigger] rest[k] != c by {
            assert(rest[k] == b[k]);
        }
        law_texts_are_cut_behind_the_last(a, c, rest);
        assert(b[b.len() - 1] != c);
        assert(s.drop_last() =~= a + seq![c] + rest);
        assert(s.last() == b.last());
        assert(rest.push(b.last()) =~= b);
    }
}

/// Replacing a character changes it everywhere and nothing else.
pub proof fn law_every_one_is_replaced(s: &str, a: char, b: char, r: String)
    requires
        call_ensures(replace_char, (s, a, b), r),
    ensures
        r@.len() == s@.len(),
        forall|k: int|
            0 <= k < s@.len() ==> #[trigger] r@[k] == if s@[k] == a {
                b
            } else {
                s@[k]
            },
{
}

/// A prefix is taken off as often as it stands there, and so are characters at the end;
/// what is left begins or ends with neither.
pub proof fn law_repetitions_are_taken_off(s: Seq<char>, p: Seq<char>, c: char)
    ensures
        p.len() > 0 ==> !p.is_prefix_of(without_prefixes(s, p)),
        p.len() > 0 ==> without_prefixes(p + s, p) == without_prefixes(s, p),
        p.len() > 0 && !p.is_prefix_of(s) ==> without_prefixes(s, p) == s,
        without_trailing(s, c).len() > 0 ==> without_trailing(s, c).last() != c,
        without_trailing(s.push(c), c) == without_trailing(s, c),
        s.len() > 0 && s.last() != c ==> without_trailing(s, c) == s,
    decreases s.len(),
{
    if p.len() > 0 {
        assert((p + s).subrange(0, p.len() as int) =~= p);
        assert((p + s).skip(p.len() as int) =~= s);
        if p.is_prefix_of(s) {
            law_repetitions_are_taken_off(s.skip(p.len() as int), p, c);
        }
    }
    assert(s.push(c).drop_last() =~= s);
    if s.len() > 0 && s.last() == c {
        law_repetitions_are_taken_off(s.drop_last(), p, c);
    }
}

/// A prefix is taken off only where it stands there; and only a suffix that does.
pub proof fn law_ends_are_taken_off(s: Seq<char>, p: Seq<char>)
    ensures
        after_prefix(p + s, p) == Some(s),
        !p.is_prefix_of(s) ==> after_prefix(s, p) is None,
        without_suffix(s + p, p) == s,
        !p.is_suffix_of(s) ==> without_suffix(s, p) == s,
{
    assert((p + s).subrange(0, p.len() as int) =~= p);
    assert((p + s).skip(p.len() as int) =~= s);
    let t = s + p;
    assert(t.subrange(t.len() - p.len(), t.len() as int) =~= p);
    assert(t.take(s.len() as int) =~= s);
}

/// Texts are joined in order with the separator between each two of them.
pub proof fn law_texts_are_joined(
    parts: Seq<Seq<char>>,
    last: Seq<char>,
    sep: Seq<char>,
)
    ensures
        joined(seq![last], sep) == last,
        parts.len() > 0 ==> joined(parts.push(last), sep) == joined(parts, sep) + sep + last,
{
    assert(parts.push(last).drop_last() =~= parts);
}

/// The number that hexadecimal digits stand for.
pub open spec fn hex_number(s: Seq<char>) -> nat
    decreases s.len(),
{
    if s.len() == 0 {
        0
    } else {
        let c = s.last() as int;
        hex_number(s.drop_last()) * 16 + (if 48 <= c <= 57 {
            (c - 48) as nat
        } else {
            (c - 87) as nat
        })
    }
}

/// The hexadecimal form of a number stands for it, also with zeros in front.
pub proof fn law_hexadecimal_reads_back(n: nat, width: int)
    ensures
        hex_number(hex(n)) == n,
        hex_number(padded(hex(n), '0', width)) == n,
        padded(hex(n), '0', width).len() >= width,
{
    lemma_hex_number(n);
    lemma_padded_number(hex(n), width);
}

proof fn lemma_hex_number(n: nat)
    ensures
        hex_number(hex(n)) == n,
    decreases n,
{
    reveal_with_fuel(hex_number, 2);
    let s = hex(n);
    if n < 16 {
        assert(s.drop_last() =~= Seq::<char>::empty());
        lemma_hex_digit(n as int);
    } else {
        lemma_hex_number(n / 16);
        assert(s.drop_last() =~= hex(n / 16));
        lemma_hex_digit((n % 16) as int);
    }
}

proof fn lemma_hex_digit(d: int)
    requires
        0 <= d < 16,
    ensures
        d < 10 ==> hex_digit(d) as int == 48 + d,
        d >= 10 ==> hex_digit(d) as int == 87 + d,
{
}

proof fn lemma_padded_number(s: Seq<char>, width: int)
    ensures
        hex_number(padded(s, '0', width)) == hex_number(s),
        padded(s, '0', width).len() >= width,
    decreases width - s.len(),
{
    if s.len() < width {
        lemma_padded_number(seq!['0'] + s, width);
        lemma_leading_zero(s);
    }
}

proof fn lemma_leading_zero(s: Seq<char>)
    ensures
        hex_number(seq!['0'] + s) == hex_number(s),
    decreases s.len(),
{
    reveal_with_fuel(hex_number, 2);
    let t = seq!['0'] + s;
    if s.len() == 0 {
        assert(t.drop_last() =~= Seq::<char>::empty());
    } else {
        lemma_leading_zero(s.drop_last());
        assert(t.drop_last() =~= seq!['0'] + s.drop_last());
        assert(t.last() == s.last());
    }
}

/// A number below zero is written with a minus sign before its digits, and no other is.
pub proof fn law_signs_are_written(n: int)
    ensures
        n < 0 ==> signed_decimal(n) == seq!['-'] + decimal((-n) as nat),
        n >= 0 ==> signed_decimal(n) == decimal(n as nat),
{
}

} // verus!
