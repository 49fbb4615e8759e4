//! What a managed browser writes to its standard error: kept bounded, and
//! cleaned before anyone sees it.

use crate::text::{
    chars_of, clipped, find_chars, find_from, first_of, is_one_of, lemma_find_from, lemma_first_of,
    lossy_text, occurs, occurs_at, opt_view, position_of, read_lossy, split, split_on, stands_at,
    text_of, truncate, views, without_trailing,
};
use vstd::prelude::*;
use vstd::string::*;

verus! {

/// The largest number of bytes kept of a browser's standard error.
pub const DIAG_BUFFER_CAP: usize = 65536;

/// The largest number of characters of a cleaned tail.
pub const DIAG_TAIL_MAX: usize = 4096;

/// The largest number of characters of one cleaned line.
pub const DIAG_LINE_MAX: usize = 400;

/// The last `n` items of `s`, or all of it where it is shorter.
pub open spec fn last_n<A>(s: Seq<A>, n: int) -> Seq<A> {
    if s.len() <= n {
        s
    } else {
        s.skip(s.len() - n)
    }
}

/// The most recent bytes of a stream, at most `cap` of them.
pub struct StderrTail {
    buf: Vec<u8>,
    cap: usize,
}

impl View for StderrTail {
    type V = Seq<u8>;

    closed spec fn view(&self) -> Seq<u8> {
        self.buf@
    }
}

impl StderrTail {
    /// The most bytes that are kept.
    pub closed spec fn spec_cap(&self) -> usize {
        self.cap
    }

    /// Never more than `cap` bytes are kept.
    pub open spec fn wf(&self) -> bool {
        self@.len() <= self.spec_cap()
    }

    /// An empty tail that keeps at most `cap` bytes.
    pub fn new(cap: usize) -> (r: Self)
        ensures
            r.wf(),
            r.spec_cap() == cap,
            r@ == Seq::<u8>::empty(),
    {
        StderrTail { buf: Vec::new(), cap }
    }

    /// Appends bytes, keeping only the most recent `cap` bytes.
    pub fn push(&mut self, bytes: &[u8])
        requires
            old(self).wf(),
        ensures
            final(self).wf(),
            final(self).spec_cap() == old(self).spec_cap(),
            final(self)@ == last_n(old(self)@ + bytes@, old(self).spec_cap() as int),
    {
        let ghost before = self.buf@;
        let ghost all = before + bytes@;
        let cap: usize = self.cap;
        let mut kept: Vec<u8> = Vec::new();
        let room: usize = if bytes.len() >= cap {
            0
        } else {
            cap - bytes.len()
        };
        let from: usize = if self.buf.len() > room {
            self.buf.len() - room
        } else {
            0
        };
        let mut i: usize = from;
        while i < self.buf.len()
            invariant
                self.buf@ == before,
                self.cap == cap,
                from <= i <= before.len(),
                kept@ == before.subrange(from as int, i as int),
            decreases before.len() - i,
        {
            kept.push(self.buf[i]);
            i = i + 1;
        }
        let start: usize = if bytes.len() > cap {
            bytes.len() - cap
        } else {
            0
        };
        let ghost head = kept@;
        let mut j: usize = start;
        while j < bytes.len()
            invariant
                start <= j <= bytes@.len(),
                kept@ == head + bytes@.subrange(start as int, j as int),
            decreases bytes@.len() - j,
        {
            kept.push(bytes[j]);
            j = j + 1;
        }
        self.buf = kept;
        assert(self.buf@ == last_n(all, cap as int));
    }

    /// The tail as cleaned text.
    pub fn tail(&self) -> (r: String)
        ensures
            r@ == sanitized(lossy_text(self@)),
    {
        sanitize_diag(&read_lossy(&self.buf))
    }
}

/// What is kept depends only on the bytes that came, not on how they were cut
/// into chunks: two chunks leave what their concatenation leaves.
pub proof fn law_tail_chunks(before: Seq<u8>, first: Seq<u8>, second: Seq<u8>, cap: int)
    requires
        0 <= cap,
    ensures
        last_n(last_n(before + first, cap) + second, cap) == last_n(
            before + (first + second),
            cap,
        ),
{
    let left = last_n(last_n(before + first, cap) + second, cap);
    let right = last_n(before + (first + second), cap);
    assert(left.len() == right.len());
    assert(left == right);
}

/// The characters that a secret token is made of.
pub open spec fn is_word(c: char) -> bool {
    ('a' <= c <= 'z') || ('A' <= c <= 'Z') || ('0' <= c <= '9') || c == '_' || c == '-'
}

fn char_is_word(c: char) -> (r: bool)
    ensures
        r == is_word(c),
{
    ('a' <= c && c <= 'z') || ('A' <= c && c <= 'Z') || ('0' <= c && c <= '9') || c == '_' || c
        == '-'
}

/// The first position at or after `i` that does not hold a word character.
pub open spec fn word_end(s: Seq<char>, i: int) -> int
    decreases s.len() - i,
{
    if 0 <= i < s.len() && is_word(s[i]) {
        word_end(s, i + 1)
    } else {
        i
    }
}

/// Does a secret token (`sk-` and at least one word character, at the start of
/// a word) stand at position `i`?
pub open spec fn secret_at(s: Seq<char>, i: int) -> bool {
    &&& occurs_at(s, "sk-"@, i)
    &&& i + 3 < s.len() && is_word(s[i + 3])
    &&& i > 0 ==> !is_word(s[i - 1])
}

/// `s` from position `i` on, with every secret token struck out.
pub open spec fn redacted_from(s: Seq<char>, i: int) -> Seq<char>
    decreases s.len() - i,
{
    if i < 0 || i >= s.len() {
        Seq::empty()
    } else if secret_at(s, i) {
        proof {
            lemma_word_end(s, i + 3);
        }
        "sk-<redacted>"@ + redacted_from(s, word_end(s, i + 3))
    } else {
        seq![s[i]] + redacted_from(s, i + 1)
    }
}

/// `s` with every secret token struck out.
pub open spec fn redacted(s: Seq<char>) -> Seq<char> {
    redacted_from(s, 0)
}

/// A word ends at or after its start, and within the text.
pub proof fn lemma_word_end(s: Seq<char>, i: int)
    requires
        0 <= i <= s.len(),
    ensures
        i <= word_end(s, i) <= s.len(),
        forall|k: int| i <= k < word_end(s, i) ==> is_word(#[trigger] s[k]),
        word_end(s, i) < s.len() ==> !is_word(s[word_end(s, i)]),
    decreases s.len() - i,
{
    if i < s.len() && is_word(s[i]) {
        lemma_word_end(s, i + 1);
    }
}

/// The text with every secret token struck out.
pub fn redact_value(s: &str) -> (r: String)
    ensures
        r@ == redacted(s@),
{
    let v = chars_of(s);
    let mark = chars_of("sk-");
    let mut out = String::new();
    let mut i: usize = 0;
    proof {
        reveal_strlit("sk-");
    }
    assert(out@ + redacted_from(s@, 0) == redacted_from(s@, 0));
    while i < v.len()
        invariant
            v@ == s@,
            mark@ == "sk-"@,
            mark@.len() == 3,
            i <= v@.len(),
            redacted(s@) == out@ + redacted_from(s@, i as int),
        decreases v@.len() - i,
    {
        let ghost before = out@;
        if stands_at(&v, &mark, i) && v.len() - i > 3 && char_is_word(v[i + 3]) && (i == 0
            || !char_is_word(v[i - 1])) {
            let mut end: usize = i + 3;
            while end < v.len() && char_is_word(v[end])
                invariant
                    v@ == s@,
                    i + 3 <= end <= v@.len(),
                    word_end(s@, i + 3) == word_end(s@, end as int),
                decreases v@.len() - end,
            {
                end = end + 1;
            }
            out.append("sk-<redacted>");
            proof {
                lemma_word_end(s@, i + 3);
                assert(before + ("sk-<redacted>"@ + redacted_from(s@, end as int)) == out@
                    + redacted_from(s@, end as int));
            }
            i = end;
        } else {
            out.push(v[i]);
            assert(before + (seq![s@[i as int]] + redacted_from(s@, i + 1)) == out@
                + redacted_from(s@, i + 1));
            i = i + 1;
        }
    }
    assert(out@ + Seq::<char>::empty() == out@);
    out
}

/// A cleaned text holds no secret token.
pub proof fn law_no_secret_survives(s: Seq<char>, k: int)
    ensures
        !secret_at(redacted(s), k),
{
    lemma_no_secret_from(s, 0, k);
}

proof fn lemma_no_secret_from(s: Seq<char>, i: int, k: int)
    requires
        0 <= i <= s.len(),
        i > 0 && k == 0 ==> !is_word(s[i - 1]),
    ensures
        !secret_at(redacted_from(s, i), k),
    decreases s.len() - i,
{
    reveal_strlit("sk-");
    reveal_strlit("sk-<redacted>");
    let out = redacted_from(s, i);
    if i < s.len() && secret_at(out, k) {
        assert(out.subrange(k, k + 3)[0] == 's');
        assert(out.subrange(k, k + 3)[1] == 'k');
        assert(out.subrange(k, k + 3)[2] == '-');
        assert(out[k] == 's' && out[k + 1] == 'k' && out[k + 2] == '-');
        if secret_at(s, i) {
            let e = word_end(s, i + 3);
            lemma_word_end(s, i + 3);
            let rest = redacted_from(s, e);
            if k < 13 {
                assert(out[k] == "sk-<redacted>"@[k]);
                assert(k == 0);
                assert(out[3] == "sk-<redacted>"@[3]);
            } else if k == 13 {
                assert(rest[0] == out[13]);
                assert(!secret_at(s, e)) by {
                    if secret_at(s, e) {
                        assert(s.subrange(e, e + 3)[0] == 's');
                    }
                }
                assert(rest[0] == s[e]);
            } else {
                assert(rest.subrange(k - 13, k - 10) =~= out.subrange(k, k + 3));
                assert(rest[k - 10] == out[k + 3]);
                assert(rest[k - 14] == out[k - 1]);
                lemma_no_secret_from(s, e, k - 13);
            }
        } else {
            let rest = redacted_from(s, i + 1);
            if k == 0 {
                assert(s[i] == 's');
                assert(rest[0] == 'k' && rest[1] == '-');
                lemma_copied(s, i + 1);
                assert(s[i + 1] == 'k');
                let rest2 = redacted_from(s, i + 2);
                assert(rest2[0] == rest[1]);
                lemma_copied(s, i + 2);
                assert(s[i + 2] == '-');
                let rest3 = redacted_from(s, i + 3);
                assert(rest3[0] == rest2[1]);
                assert(rest3[0] == out[3]);
                assert(!secret_at(s, i + 3)) by {
                    assert(is_word(s[i + 2]));
                }
                assert(rest3.len() > 0);
                assert(rest3[0] == s[i + 3]);
                assert(s.subrange(i, i + 3) =~= "sk-"@);
                assert(secret_at(s, i));
            } else {
                assert(rest.subrange(k - 1, k + 2) =~= out.subrange(k, k + 3));
                assert(rest[k + 2] == out[k + 3]);
                if k > 1 {
                    assert(rest[k - 2] == out[k - 1]);
                }
                lemma_no_secret_from(s, i + 1, k - 1);
            }
        }
    }
}

/// Where what comes out does not begin with an `s`, it begins with the next
/// character as it stands.
proof fn lemma_copied(s: Seq<char>, i: int)
    requires
        0 <= i,
        redacted_from(s, i).len() > 0,
        redacted_from(s, i)[0] != 's',
    ensures
        i < s.len(),
        redacted_from(s, i) == seq![s[i]] + redacted_from(s, i + 1),
{
    reveal_strlit("sk-<redacted>");
    if i < s.len() && secret_at(s, i) {
        lemma_word_end(s, i + 3);
        assert(redacted_from(s, i)[0] == "sk-<redacted>"@[0]);
    }
}

/// The characters that end a URL in running text.
pub open spec fn url_ends() -> Seq<char> {
    seq![' ', '\t', '\r', '\n', '"', '\'', '<', '>']
}

/// The characters with which a URL's query or fragment begins.
pub open spec fn query_marks() -> Seq<char> {
    seq!['?', '#']
}

/// Does an http or https URL begin at position `i`?
pub open spec fn url_at(s: Seq<char>, i: int) -> bool {
    occurs_at(s, "http://"@, i) || occurs_at(s, "https://"@, i)
}

/// `s` from position `i` on, with the query and fragment of every URL cut out.
pub open spec fn stripped_from(s: Seq<char>, i: int) -> Seq<char>
    decreases s.len() - i,
{
    if i < 0 || i >= s.len() {
        Seq::empty()
    } else if url_at(s, i) {
        let end = first_of(s, url_ends(), i);
        let cut = first_of(s.take(end), query_marks(), i);
        proof {
            lemma_url_span(s, i);
        }
        s.subrange(i, cut) + stripped_from(s, end)
    } else {
        seq![s[i]] + stripped_from(s, i + 1)
    }
}

/// `s` with the query and fragment of every URL cut out.
pub open spec fn stripped(s: Seq<char>) -> Seq<char> {
    stripped_from(s, 0)
}

proof fn lemma_url_head(s: Seq<char>, i: int)
    requires
        url_at(s, i),
    ensures
        i + 7 <= s.len(),
        s[i] == 'h',
{
    reveal_strlit("http://");
    reveal_strlit("https://");
    if occurs_at(s, "http://"@, i) {
        assert(s.subrange(i, i + 7)[0] == 'h');
    } else {
        assert(s.subrange(i, i + 8)[0] == 'h');
    }
}

/// A URL ends behind its start, and its query begins within it.
pub proof fn lemma_url_span(s: Seq<char>, i: int)
    requires
        0 <= i < s.len(),
        url_at(s, i),
    ensures
        i < first_of(s, url_ends(), i) <= s.len(),
        i <= first_of(s.take(first_of(s, url_ends(), i)), query_marks(), i) <= first_of(
            s,
            url_ends(),
            i,
        ),
{
    lemma_url_head(s, i);
    let end = first_of(s, url_ends(), i);
    lemma_first_of(s, url_ends(), i);
    lemma_first_of(s.take(end), query_marks(), i);
}

/// The text with the query and fragment of every http and https URL cut out.
pub fn strip_url_query(s: &str) -> (r: String)
    ensures
        r@ == stripped(s@),
{
    let v = chars_of(s);
    let plain = chars_of("http://");
    let secure = chars_of("https://");
    let ends: Vec<char> = vec![' ', '\t', '\r', '\n', '"', '\'', '<', '>'];
    let marks: Vec<char> = vec!['?', '#'];
    assert(ends@ == url_ends());
    assert(marks@ == query_marks());
    let mut out = String::new();
    let mut i: usize = 0;
    assert(out@ + stripped_from(s@, 0) == stripped_from(s@, 0));
    while i < v.len()
        invariant
            v@ == s@,
            plain@ == "http://"@,
            secure@ == "https://"@,
            ends@ == url_ends(),
            marks@ == query_marks(),
            i <= v@.len(),
            stripped(s@) == out@ + stripped_from(s@, i as int),
        decreases v@.len() - i,
    {
        let ghost before = out@;
        if stands_at(&v, &plain, i) || stands_at(&v, &secure, i) {
            let end = position_of(&v, &ends, i);
            proof {
                lemma_url_span(s@, i as int);
            }
            let mut cut: usize = i;
            assert(s@.take(end as int).len() == end);
            while cut < end && !is_one_of(v[cut], &marks)
                invariant
                    v@ == s@,
                    marks@ == query_marks(),
                    i <= cut <= end <= v@.len(),
                    first_of(s@.take(end as int), query_marks(), i as int) == first_of(
                        s@.take(end as int),
                        query_marks(),
                        cut as int,
                    ),
                decreases end - cut,
            {
                cut = cut + 1;
            }
            let piece = text_of(&v, i, cut);
            out.append(&piece);
            assert(before + (s@.subrange(i as int, cut as int) + stripped_from(s@, end as int))
                == out@ + stripped_from(s@, end as int));
            i = end;
        } else {
            out.push(v[i]);
            assert(before + (seq![s@[i as int]] + stripped_from(s@, i + 1)) == out@
                + stripped_from(s@, i + 1));
            i = i + 1;
        }
    }
    assert(out@ + Seq::<char>::empty() == out@);
    out
}

/// In a stripped text no URL has a query or a fragment: from its start up to
/// the character that ends it there is neither `?` nor `#`.
pub proof fn law_no_query_survives(s: Seq<char>, k: int, j: int)
    requires
        url_at(stripped(s), k),
        k <= j < first_of(stripped(s), url_ends(), k),
    ensures
        !query_marks().contains(stripped(s)[j]),
{
    lemma_url_head(stripped(s), k);
    lemma_clean_from(s, 0, k, j);
}

/// What comes out up to a character that ends URLs is copied from the text.
proof fn lemma_prefix_copied(s: Seq<char>, i: int, n: int)
    requires
        0 <= i <= s.len(),
        0 <= n <= stripped_from(s, i).len(),
        forall|k: int| 0 <= k < n ==> !url_ends().contains(#[trigger] stripped_from(s, i)[k]),
    ensures
        i + n <= s.len(),
        stripped_from(s, i).take(n) == s.subrange(i, i + n),
    decreases s.len() - i,
{
    let out = stripped_from(s, i);
    if i < s.len() && n > 0 {
        if url_at(s, i) {
            let end = first_of(s, url_ends(), i);
            let cut = first_of(s.take(end), query_marks(), i);
            lemma_url_span(s, i);
            lemma_first_of(s, url_ends(), i);
            let rest = stripped_from(s, end);
            if n > cut - i {
                assert(out[cut - i] == rest[0]);
                assert(end < s.len());
                assert(url_ends().contains(s[end]));
                assert(!url_at(s, end)) by {
                    if url_at(s, end) {
                        lemma_url_head(s, end);
                    }
                }
                assert(rest[0] == s[end]);
            }
            assert(out.take(n) == s.subrange(i, i + n));
        } else {
            let rest = stripped_from(s, i + 1);
            assert forall|k: int| 0 <= k < n - 1 implies !url_ends().contains(
                #[trigger] rest[k],
            ) by {
                assert(rest[k] == out[k + 1]);
            }
            lemma_prefix_copied(s, i + 1, n - 1);
            assert(out.take(n) == seq![s[i]] + rest.take(n - 1));
            assert(out.take(n) == s.subrange(i, i + n));
        }
    }
}

proof fn lemma_clean_from(s: Seq<char>, i: int, k: int, j: int)
    requires
        0 <= i <= s.len(),
        url_at(stripped_from(s, i), k),
        k <= j < first_of(stripped_from(s, i), url_ends(), k),
    ensures
        !query_marks().contains(stripped_from(s, i)[j]),
    decreases s.len() - i,
{
    let out = stripped_from(s, i);
    lemma_url_head(out, k);
    lemma_first_of(out, url_ends(), k);
    if i < s.len() {
        if url_at(s, i) {
            let end = first_of(s, url_ends(), i);
            let cut = first_of(s.take(end), query_marks(), i);
            lemma_url_span(s, i);
            lemma_first_of(s, url_ends(), i);
            lemma_first_of(s.take(end), query_marks(), i);
            let rest = stripped_from(s, end);
            let n = cut - i;
            if k < n {
                if j < n {
                    assert(out[j] == s.take(end)[i + j]);
                } else {
                    assert(out[n] == rest[0]);
                    assert(end < s.len());
                    assert(!url_at(s, end)) by {
                        if url_at(s, end) {
                            lemma_url_head(s, end);
                        }
                    }
                    assert(rest[0] == s[end]);
                    assert(url_ends().contains(out[n]));
                }
            } else {
                lemma_shift(s.subrange(i, cut), rest, k, j);
                lemma_clean_from(s, end, k - n, j - n);
            }
        } else {
            let rest = stripped_from(s, i + 1);
            if k == 0 {
                let head = if occurs_at(out, "http://"@, 0) {
                    "http://"@
                } else {
                    "https://"@
                };
                reveal_strlit("http://");
                reveal_strlit("https://");
                let n = head.len() as int;
                assert(out.take(n) == out.subrange(0, n));
                assert forall|q: int| 0 <= q < n implies !url_ends().contains(
                    #[trigger] out[q],
                ) by {
                    assert(out[q] == head[q]);
                }
                lemma_prefix_copied(s, i, n);
                assert(s.subrange(i, i + n) == head);
                assert(occurs_at(s, head, i));
            } else {
                lemma_shift(seq![s[i]], rest, k, j);
                lemma_clean_from(s, i + 1, k - 1, j - 1);
            }
        }
    }
}

/// A URL that begins behind a prefix begins in what follows the prefix.
proof fn lemma_shift(head: Seq<char>, rest: Seq<char>, k: int, j: int)
    requires
        head.len() <= k,
        url_at(head + rest, k),
        k <= j < first_of(head + rest, url_ends(), k),
    ensures
        url_at(rest, k - head.len()),
        k - head.len() <= j - head.len() < first_of(rest, url_ends(), k - head.len()),
        rest[j - head.len()] == (head + rest)[j],
{
    let out = head + rest;
    let n = head.len() as int;
    reveal_strlit("http://");
    reveal_strlit("https://");
    lemma_url_head(out, k);
    if occurs_at(out, "http://"@, k) {
        assert(rest.subrange(k - n, k - n + 7) == out.subrange(k, k + 7));
    } else {
        assert(rest.subrange(k - n, k - n + 8) == out.subrange(k, k + 8));
    }
    lemma_first_shift(head, rest, k);
    lemma_first_of(out, url_ends(), k);
}

proof fn lemma_first_shift(head: Seq<char>, rest: Seq<char>, k: int)
    requires
        head.len() <= k <= head.len() + rest.len(),
    ensures
        first_of(head + rest, url_ends(), k) == first_of(rest, url_ends(), k - head.len())
            + head.len(),
    decreases head.len() + rest.len() - k,
{
    if k < head.len() + rest.len() {
        assert((head + rest)[k] == rest[k - head.len()]);
        if !url_ends().contains(rest[k - head.len()]) {
            lemma_first_shift(head, rest, k + 1);
        }
    }
}

/// One cleaned line: secrets struck out, URLs without queries, bounded.
pub open spec fn sanitized_line(line: Seq<char>) -> Seq<char> {
    clipped(stripped(redacted(line)), DIAG_LINE_MAX as int)
}

/// The cleaned form of each line, with the empty ones left out.
pub open spec fn sanitized_lines(lines: Seq<Seq<char>>) -> Seq<char>
    decreases lines.len(),
{
    if lines.len() == 0 {
        Seq::empty()
    } else {
        let line = without_cr(lines.last());
        let before = sanitized_lines(lines.drop_last());
        if line.len() == 0 {
            before
        } else {
            before + sanitized_line(line) + seq!['\n']
        }
    }
}

/// A line without the carriage returns at its end.
pub open spec fn without_cr(line: Seq<char>) -> Seq<char> {
    without_trailing(line, '\r')
}

/// A cleaned text: its lines cleaned one by one, and bounded as a whole.
pub open spec fn sanitized(raw: Seq<char>) -> Seq<char> {
    clipped(sanitized_lines(split_on(raw, '\n')), DIAG_TAIL_MAX as int)
}

/// Does the text hold no secret token?
pub open spec fn holds_no_secret(s: Seq<char>) -> bool {
    forall|k: int| !#[trigger] secret_at(s, k)
}

/// Does no http or https URL in the text have a query or a fragment?
pub open spec fn holds_no_query(s: Seq<char>) -> bool {
    forall|k: int, j: int|
        #![trigger url_at(s, k), s[j]]
        url_at(s, k) && k <= j < first_of(s, url_ends(), k) ==> !query_marks().contains(s[j])
}

/// Has every line of the text at most `n` characters?
pub open spec fn lines_within(s: Seq<char>, n: int) -> bool {
    forall|i: int, j: int|
        0 <= i <= j <= s.len() && !#[trigger] s.subrange(i, j).contains('\n') ==> j - i <= n
}

/// Cleaned output holds no secret token and no query or fragment of a URL, and
/// neither a line of it nor the whole is longer than its bound.
pub proof fn law_cleaned_output(raw: Seq<char>)
    ensures
        holds_no_secret(sanitized(raw)),
        holds_no_query(sanitized(raw)),
        lines_within(sanitized(raw), DIAG_LINE_MAX as int),
        sanitized(raw).len() <= DIAG_TAIL_MAX,
{
    let lines = split_on(raw, '\n');
    lemma_clean_lines(lines);
    lemma_clean_clip(sanitized_lines(lines), DIAG_TAIL_MAX as int);
    let whole = sanitized_lines(lines);
    let kept = sanitized(raw);
    assert forall|i: int, j: int|
        0 <= i <= j <= kept.len() && !#[trigger] kept.subrange(i, j).contains('\n') implies j - i
        <= DIAG_LINE_MAX by {
        assert(whole.subrange(i, j) == kept.subrange(i, j));
    }
}

/// The first characters of a clean text are clean.
proof fn lemma_clean_clip(s: Seq<char>, n: int)
    requires
        0 <= n,
    ensures
        holds_no_secret(s) ==> holds_no_secret(clipped(s, n)),
        holds_no_query(s) ==> holds_no_query(clipped(s, n)),
{
    let kept = clipped(s, n);
    let m = kept.len() as int;
    assert(kept == s.take(m));
    if holds_no_secret(s) {
        assert forall|k: int| !#[trigger] secret_at(kept, k) by {
            if secret_at(kept, k) {
                reveal_strlit("sk-");
                assert(s.subrange(k, k + 3) == kept.subrange(k, k + 3));
                assert(secret_at(s, k));
            }
        }
    }
    if holds_no_query(s) {
        assert forall|k: int, j: int|
            #![trigger url_at(kept, k), kept[j]]
            url_at(kept, k) && k <= j < first_of(kept, url_ends(), k) implies !query_marks()
            .contains(kept[j]) by {
            lemma_url_head(kept, k);
            reveal_strlit("http://");
            reveal_strlit("https://");
            if occurs_at(kept, "http://"@, k) {
                assert(s.subrange(k, k + 7) == kept.subrange(k, k + 7));
            } else {
                assert(s.subrange(k, k + 8) == kept.subrange(k, k + 8));
            }
            assert(url_at(s, k));
            lemma_first_of(kept, url_ends(), k);
            lemma_first_clip(s, m, k);
            assert(s[j] == kept[j]);
        }
    }
}

/// In the first `m` characters of a text the same character ends a URL, or else
/// none does.
proof fn lemma_first_clip(s: Seq<char>, m: int, k: int)
    requires
        0 <= k <= m <= s.len(),
    ensures
        first_of(s.take(m), url_ends(), k) == if first_of(s, url_ends(), k) < m {
            first_of(s, url_ends(), k)
        } else {
            m
        },
    decreases m - k,
{
    lemma_first_of(s, url_ends(), k);
    if k < m {
        assert(s.take(m)[k] == s[k]);
        if !url_ends().contains(s[k]) {
            lemma_first_clip(s, m, k + 1);
        }
    }
}

/// A URL that begins before a character that ends URLs stands before it whole.
proof fn lemma_url_before(s: Seq<char>, m: int, k: int)
    requires
        0 <= k <= m < s.len(),
        url_at(s, k),
        url_ends().contains(s[m]),
    ensures
        url_at(s.take(m), k),
        first_of(s, url_ends(), k) <= m,
        first_of(s.take(m), url_ends(), k) == first_of(s, url_ends(), k),
{
    reveal_strlit("http://");
    reveal_strlit("https://");
    let head = if occurs_at(s, "http://"@, k) {
        "http://"@
    } else {
        "https://"@
    };
    let n = head.len() as int;
    if m < k + n {
        assert(s.subrange(k, k + n)[m - k] == s[m]);
        assert(head[m - k] == s[m]);
    }
    assert(s.take(m).subrange(k, k + n) == s.subrange(k, k + n));
    lemma_first_of(s, url_ends(), k);
    lemma_first_clip(s, m, k);
}

/// A secret token stands whole on one side of a character that is none of its.
proof fn lemma_secret_beside(s: Seq<char>, m: int, k: int)
    requires
        secret_at(s, k),
        0 <= m < s.len(),
        !is_word(s[m]),
    ensures
        k + 3 < m || m < k,
{
    reveal_strlit("sk-");
    if k <= m < k + 3 {
        assert(s.subrange(k, k + 3)[m - k] == s[m]);
    }
}

/// Cutting queries out of a text without secret tokens leaves it without.
proof fn lemma_no_secret_stripped(s: Seq<char>, i: int, k: int)
    requires
        0 <= i <= s.len(),
        holds_no_secret(s),
        i > 0 && k == 0 ==> !is_word(s[i - 1]),
    ensures
        !secret_at(stripped_from(s, i), k),
    decreases s.len() - i,
{
    reveal_strlit("sk-");
    let out = stripped_from(s, i);
    if i < s.len() && secret_at(out, k) {
        assert forall|q: int| k <= q <= k + 3 implies is_word(#[trigger] out[q]) by {
            if q < k + 3 {
                assert(out.subrange(k, k + 3)[q - k] == out[q]);
            }
        }
        if k == 0 {
            assert forall|q: int| 0 <= q < 4 implies !url_ends().contains(#[trigger] out[q]) by {
                assert(is_word(out[q]));
            }
            lemma_prefix_copied(s, i, 4);
            assert(s.subrange(i, i + 3) == out.subrange(0, 3)) by {
                assert(s.subrange(i, i + 3) == s.subrange(i, i + 4).take(3));
                assert(out.subrange(0, 3) == out.take(4).take(3));
            }
            assert(s[i + 3] == s.subrange(i, i + 4)[3]);
            assert(out[3] == out.take(4)[3]);
            assert(secret_at(s, i));
        } else if url_at(s, i) {
            let end = first_of(s, url_ends(), i);
            let cut = first_of(s.take(end), query_marks(), i);
            lemma_url_span(s, i);
            lemma_first_of(s, url_ends(), i);
            let rest = stripped_from(s, end);
            let n = cut - i;
            if n < out.len() {
                assert(out[n] == rest[0]);
                assert(end < s.len());
                assert(!url_at(s, end)) by {
                    if url_at(s, end) {
                        lemma_url_head(s, end);
                    }
                }
                assert(rest[0] == s[end]);
                assert(!is_word(out[n]));
            }
            if k < n {
                assert(k + 3 < n);
                assert(s.subrange(i + k, i + k + 3) == out.subrange(k, k + 3));
                assert(s[i + k + 3] == out[k + 3]);
                assert(s[i + k - 1] == out[k - 1]);
                assert(secret_at(s, i + k));
            } else {
                assert(rest.subrange(k - n, k - n + 3) == out.subrange(k, k + 3));
                assert(rest[k - n + 3] == out[k + 3]);
                assert(k != n);
                assert(rest[k - n - 1] == out[k - 1]);
                lemma_no_secret_stripped(s, end, k - n);
            }
        } else {
            let rest = stripped_from(s, i + 1);
            assert(rest.subrange(k - 1, k + 2) == out.subrange(k, k + 3));
            assert(rest[k + 2] == out[k + 3]);
            if k > 1 {
                assert(rest[k - 2] == out[k - 1]);
            }
            lemma_no_secret_stripped(s, i + 1, k - 1);
        }
    }
}

/// A cleaned line is clean.
proof fn lemma_clean_line(line: Seq<char>)
    ensures
        holds_no_secret(sanitized_line(line)),
        holds_no_query(sanitized_line(line)),
{
    let hidden = redacted(line);
    let cut = stripped(hidden);
    assert forall|k: int| !#[trigger] secret_at(hidden, k) by {
        law_no_secret_survives(line, k);
    }
    assert forall|k: int| !#[trigger] secret_at(cut, k) by {
        lemma_no_secret_stripped(hidden, 0, k);
    }
    assert forall|k: int, j: int|
        #![trigger url_at(cut, k), cut[j]]
        url_at(cut, k) && k <= j < first_of(cut, url_ends(), k) implies !query_marks().contains(
        cut[j],
    ) by {
        law_no_query_survives(hidden, k, j);
    }
    lemma_clean_clip(cut, DIAG_LINE_MAX as int);
}

/// Cleaned lines, one below the other, are clean.
proof fn lemma_clean_lines(lines: Seq<Seq<char>>)
    ensures
        holds_no_secret(sanitized_lines(lines)),
        holds_no_query(sanitized_lines(lines)),
        lines_within(sanitized_lines(lines), DIAG_LINE_MAX as int),
        sanitized_lines(lines).len() > 0 ==> sanitized_lines(lines).last() == '\n',
    decreases lines.len(),
{
    if lines.len() > 0 {
        let before = sanitized_lines(lines.drop_last());
        let line = without_cr(lines.last());
        lemma_clean_lines(lines.drop_last());
        if line.len() > 0 {
            lemma_clean_line(line);
            lemma_clean_join(before, sanitized_line(line));
        }
    } else {
        let none = sanitized_lines(lines);
        assert forall|k: int, j: int|
            #![trigger url_at(none, k), none[j]]
            url_at(none, k) && k <= j < first_of(none, url_ends(), k) implies !query_marks()
            .contains(none[j]) by {
            lemma_url_head(none, k);
        }
    }
}

/// A clean line below clean lines leaves them clean.
proof fn lemma_clean_join(before: Seq<char>, line: Seq<char>)
    requires
        holds_no_secret(before),
        holds_no_secret(line),
        holds_no_query(before),
        holds_no_query(line),
        lines_within(before, DIAG_LINE_MAX as int),
        line.len() <= DIAG_LINE_MAX,
        before.len() > 0 ==> before.last() == '\n',
    ensures
        holds_no_secret(before + line + seq!['\n']),
        holds_no_query(before + line + seq!['\n']),
        lines_within(before + line + seq!['\n'], DIAG_LINE_MAX as int),
{
    let out = before + line + seq!['\n'];
    let b = before.len() as int;
    let e = b + line.len();
    assert(out[e] == '\n');
    assert(b > 0 ==> out[b - 1] == '\n');
    assert(url_ends()[3] == '\n');
    assert forall|k: int| !#[trigger] secret_at(out, k) by {
        if secret_at(out, k) {
            reveal_strlit("sk-");
            lemma_secret_beside(out, e, k);
            if k < b {
                lemma_secret_beside(out, b - 1, k);
                assert(before.subrange(k, k + 3) == out.subrange(k, k + 3));
                assert(secret_at(before, k));
            } else {
                assert(line.subrange(k - b, k - b + 3) == out.subrange(k, k + 3));
                assert(secret_at(line, k - b));
            }
        }
    }
    assert forall|k: int, j: int|
        #![trigger url_at(out, k), out[j]]
        url_at(out, k) && k <= j < first_of(out, url_ends(), k) implies !query_marks().contains(
        out[j],
    ) by {
        lemma_url_head(out, k);
        if k < b {
            lemma_url_before(out, b - 1, k);
            assert(out.take(b - 1) == clipped(before, b - 1));
            lemma_clean_clip(before, b - 1);
            assert(out.take(b - 1)[j] == out[j]);
        } else {
            assert(k <= e);
            lemma_url_before(out, e, k);
            assert(out.take(e) == before + line);
            lemma_shift(before, line, k, j);
            assert(out.take(e)[j] == out[j]);
        }
    }
    assert forall|i: int, j: int|
        0 <= i <= j <= out.len() && !#[trigger] out.subrange(i, j).contains('\n') implies j - i
        <= DIAG_LINE_MAX by {
        let part = out.subrange(i, j);
        if i <= e < j {
            assert(part[e - i] == '\n');
        }
        if i < b && i <= b - 1 < j {
            assert(part[b - 1 - i] == '\n');
        }
        if j < b {
            assert(before.subrange(i, j) == part);
        }
    }
}

/// Cleans captured output: strikes out secrets, cuts the queries of URLs,
/// bounds each line and the whole.
pub fn sanitize_diag(raw: &str) -> (r: String)
    ensures
        r@ == sanitized(raw@),
        r@.len() <= DIAG_TAIL_MAX,
{
    let lines = split(raw, '\n');
    let ghost all = split_on(raw@, '\n');
    let mut out = String::new();
    let mut i: usize = 0;
    while i < lines.len()
        invariant
            i <= lines@.len(),
            views(lines@) == all,
            out@ == sanitized_lines(all.take(i as int)),
        decreases lines@.len() - i,
    {
        let line = crate::text::drop_trailing(&lines[i], '\r');
        assert(lines@[i as int]@ == all[i as int]);
        assert(all.take(i + 1).drop_last() == all.take(i as int));
        if !line.as_str().is_empty() {
            let clean = truncate(&strip_url_query(&redact_value(&line)), DIAG_LINE_MAX);
            out.append(&clean);
            let ghost here = out@;
            out.push('\n');
            assert(out@ == here + seq!['\n']);
        }
        i = i + 1;
    }
    assert(all.take(all.len() as int) == all);
    truncate(&out, DIAG_TAIL_MAX)
}

/// The characters of an exit code as a browser prints it.
pub open spec fn is_code_char(c: char) -> bool {
    ('0' <= c <= '9') || ('a' <= c <= 'f') || ('A' <= c <= 'F') || c == '-' || c == 'x' || c == 'X'
}

fn char_is_code(c: char) -> (r: bool)
    ensures
        r == is_code_char(c),
{
    ('0' <= c && c <= '9') || ('a' <= c && c <= 'f') || ('A' <= c && c <= 'F') || c == '-' || c
        == 'x' || c == 'X'
}

/// The longest run of code characters from position `i` on.
pub open spec fn code_end(s: Seq<char>, i: int) -> int
    decreases s.len() - i,
{
    if 0 <= i < s.len() && is_code_char(s[i]) {
        code_end(s, i + 1)
    } else {
        i
    }
}

/// The exit code that one line reports, where it reports one.
pub open spec fn gpu_code_in(line: Seq<char>) -> Option<Seq<char>> {
    if !occurs(line, "GPU process exited unexpectedly"@) {
        None
    } else {
        match find_from(line, "exit_code="@, 0) {
            None => None,
            Some(at) => {
                let from = at + 10;
                if code_end(line, from) > from {
                    Some(line.subrange(from, code_end(line, from)))
                } else {
                    None
                }
            },
        }
    }
}

/// The first exit code that the lines report.
pub open spec fn first_gpu_code(lines: Seq<Seq<char>>) -> Option<Seq<char>>
    decreases lines.len(),
{
    if lines.len() == 0 {
        None
    } else {
        match gpu_code_in(lines[0]) {
            Some(code) => Some(code),
            None => first_gpu_code(lines.drop_first()),
        }
    }
}

fn gpu_code_of_line(line: &str) -> (r: Option<String>)
    ensures
        opt_view(r) == gpu_code_in(line@),
{
    if !crate::text::contains(line, "GPU process exited unexpectedly") {
        return None;
    }
    let v = chars_of(line);
    let total: usize = v.len();
    let key = chars_of("exit_code=");
    proof {
        reveal_strlit("exit_code=");
        lemma_find_from(line@, "exit_code="@, 0);
    }
    match find_chars(&v, &key, 0) {
        None => None,
        Some(at) => {
            assert(at + 10 <= total);
            let from: usize = at + 10;
            let mut end: usize = from;
            while end < v.len() && char_is_code(v[end])
                invariant
                    v@ == line@,
                    from <= end <= v@.len(),
                    code_end(line@, from as int) == code_end(line@, end as int),
                decreases v@.len() - end,
            {
                end = end + 1;
            }
            if end > from {
                Some(text_of(&v, from, end))
            } else {
                None
            }
        },
    }
}

/// The exit code of the GPU process, as the browser printed it, from the first
/// line that reports one.
pub fn gpu_exit_code_from_diag(diag: &str) -> (r: Option<String>)
    ensures
        opt_view(r) == first_gpu_code(split_on(diag@, '\n')),
{
    let lines = split(diag, '\n');
    let ghost all = split_on(diag@, '\n');
    let mut i: usize = 0;
    assert(all.skip(0) == all);
    while i < lines.len()
        invariant
            i <= lines@.len(),
            views(lines@) == all,
            all == split_on(diag@, '\n'),
            first_gpu_code(all) == first_gpu_code(all.skip(i as int)),
        decreases lines@.len() - i,
    {
        assert(lines@[i as int]@ == all[i as int]);
        assert(all.skip(i as int)[0] == all[i as int]);
        assert(all.skip(i as int).drop_first() == all.skip(i + 1));
        match gpu_code_of_line(&lines[i]) {
            Some(code) => {
                assert(gpu_code_in(all.skip(i as int)[0]) == Some(code@));
                return Some(code);
            },
            None => {},
        }
        i = i + 1;
    }
    None
}

/// The last bytes are kept, as many as fit, and none is changed.
pub proof fn law_last_are_kept(s: Seq<u8>, n: int)
    requires
        0 <= n,
    ensures
        s.len() <= n ==> last_n(s, n) == s,
        s.len() > n ==> last_n(s, n).len() == n,
        forall|k: int|
            0 <= k < last_n(s, n).len() ==> #[trigger] last_n(s, n)[k] == s[s.len() - last_n(
                s,
                n,
            ).len() + k],
{
}

/// A secret at the beginning of a text is struck out whole, and what stands behind it
/// is cleaned in its turn. Its letters, digits, hyphens and underscores are all of it.
pub proof fn law_secrets_are_struck_out(secret: Seq<char>, after: Seq<char>)
    requires
        secret.len() > 0,
        forall|k: int|
            0 <= k < secret.len() ==> ('a' <= #[trigger] secret[k] <= 'z') || ('A' <= secret[k]
                <= 'Z') || ('0' <= secret[k] <= '9') || secret[k] == '_' || secret[k] == '-',
        after.len() > 0 ==> after[0] == ' ' || after[0] == '"' || after[0] == ',' || after[0]
            == '\n',
    ensures
        redacted("sk-"@ + secret + after) == "sk-<redacted>"@ + redacted_from(
            "sk-"@ + secret + after,
            3 + secret.len() as int,
        ),
        after.len() == 0 ==> redacted("sk-"@ + secret + after) == "sk-<redacted>"@,
{
    let s = "sk-"@ + secret + after;
    reveal_strlit("sk-");
    assert("sk-"@.len() == 3);
    assert(s.subrange(0, 3) =~= "sk-"@);
    assert(s[3] == secret[0]);
    let end = 3 + secret.len();
    lemma_word_end(s, 3);
    assert forall|k: int| 3 <= k < end implies is_word(#[trigger] s[k]) by {
        assert(s[k] == secret[k - 3]);
    }
    if after.len() > 0 {
        assert(s[end as int] == after[0]);
    }
    if word_end(s, 3) < end {
        assert(is_word(s[word_end(s, 3)]));
    }
    if word_end(s, 3) > end {
        assert(is_word(s[end as int]));
    }
    assert(word_end(s, 3) == end);
    if after.len() == 0 {
        assert("sk-<redacted>"@ + Seq::<char>::empty() =~= "sk-<redacted>"@);
    }
}

/// A text without a secret is left as it is.
pub proof fn law_plain_text_is_left(s: &str, r: String)
    requires
        call_ensures(redact_value, (s,), r),
        !occurs(s@, "sk-"@),
    ensures
        r@ == s@,
{
    lemma_left_from(s@, 0);
    assert(s@.skip(0) =~= s@);
}

proof fn lemma_left_from(s: Seq<char>, i: int)
    requires
        0 <= i <= s.len(),
        !occurs(s, "sk-"@),
    ensures
        redacted_from(s, i) == s.skip(i),
    decreases s.len() - i,
{
    if i < s.len() {
        lemma_left_from(s, i + 1);
        assert(seq![s[i]] + s.skip(i + 1) =~= s.skip(i));
    } else {
        assert(s.skip(i) =~= Seq::<char>::empty());
    }
}

/// A text without an address is left as it is.
pub proof fn law_text_without_addresses_is_left(s: &str, r: String)
    requires
        call_ensures(strip_url_query, (s,), r),
        !occurs(s@, "http://"@),
        !occurs(s@, "https://"@),
    ensures
        r@ == s@,
{
    lemma_unstripped_from(s@, 0);
    assert(s@.skip(0) =~= s@);
}

proof fn lemma_unstripped_from(s: Seq<char>, i: int)
    requires
        0 <= i <= s.len(),
        !occurs(s, "http://"@),
        !occurs(s, "https://"@),
    ensures
        stripped_from(s, i) == s.skip(i),
    decreases s.len() - i,
{
    if i < s.len() {
        lemma_unstripped_from(s, i + 1);
        assert(seq![s[i]] + s.skip(i + 1) =~= s.skip(i));
    } else {
        assert(s.skip(i) =~= Seq::<char>::empty());
    }
}

/// Of an address the part before its query or fragment stays, and only that part goes
/// that follows, up to where the address ends.
pub proof fn law_queries_are_cut_out(place: Seq<char>, mark: char, query: Seq<char>)
    requires
        mark == '?' || mark == '#',
        forall|k: int|
            0 <= k < place.len() ==> !is_url_end(#[trigger] place[k]) && place[k] != '?' && place[k]
                != '#',
        forall|k: int| 0 <= k < query.len() ==> !is_url_end(#[trigger] query[k]),
    ensures
        stripped("http://"@ + place + seq![mark] + query) == "http://"@ + place,
        stripped("http://"@ + place) == "http://"@ + place,
{
    reveal_strlit("http://");
    let head = "http://"@ + place;
    let s = head + seq![mark] + query;
    assert forall|k: int| 0 <= k < head.len() implies !is_url_end(#[trigger] head[k]) && head[k]
        != '?' && head[k] != '#' by {
        if k >= 7 {
            assert(head[k] == place[k - 7]);
        }
    }
    lemma_ends_are(s, 0);
    lemma_ends_are(head, 0);
    assert(s.subrange(0, 7) =~= "http://"@);
    assert(head.subrange(0, 7) =~= "http://"@);
    let end = first_of(s, url_ends(), 0);
    lemma_first_of(s, url_ends(), 0);
    if end < s.len() {
        if end < head.len() {
            assert(s[end] == head[end]);
        } else if end > head.len() {
            assert(s[end] == query[end - head.len() - 1]);
        }
        assert(is_url_end(s[end]));
    }
    assert(s.take(end) =~= s);
    let cut = first_of(s, query_marks(), 0);
    lemma_first_of(s, query_marks(), 0);
    assert(query_marks()[0] == '?' && query_marks()[1] == '#');
    assert(s[head.len() as int] == mark);
    if cut > head.len() {
        assert(!query_marks().contains(s[head.len() as int]));
    }
    if cut < head.len() {
        assert(s[cut] == head[cut]);
    }
    assert(s.subrange(0, cut) =~= head);
    assert(stripped_from(s, s.len() as int) =~= Seq::<char>::empty());
    assert(head + Seq::<char>::empty() =~= head);
    let stop = first_of(head, url_ends(), 0);
    lemma_first_of(head, url_ends(), 0);
    if stop < head.len() {
        assert(is_url_end(head[stop]));
    }
    assert(head.take(stop) =~= head);
    lemma_first_of(head, query_marks(), 0);
    let none = first_of(head, query_marks(), 0);
    if none < head.len() {
        assert(query_marks().contains(head[none]));
    }
    assert(head.subrange(0, none) =~= head);
    assert(stripped_from(head, head.len() as int) =~= Seq::<char>::empty());
}

/// Does the character end an address in running text?
pub open spec fn is_url_end(c: char) -> bool {
    c == ' ' || c == '\t' || c == '\r' || c == '\n' || c == '"' || c == '\'' || c == '<' || c == '>'
}

proof fn lemma_ends_are(s: Seq<char>, i: int)
    ensures
        forall|c: char| #[trigger] url_ends().contains(c) <==> is_url_end(c),
{
    let ends = url_ends();
    assert forall|c: char| #[trigger] url_ends().contains(c) <==> is_url_end(c) by {
        if is_url_end(c) {
            assert(ends[0] == ' ' && ends[1] == '\t' && ends[2] == '\r' && ends[3] == '\n'
                && ends[4] == '"' && ends[5] == '\'' && ends[6] == '<' && ends[7] == '>');
        }
    }
}

/// An exit code is one that a line reports which says that the graphics process ended
/// unexpectedly: it stands right behind `exit_code=`, is not empty and goes on as far as
/// it can. Where none is given, no such line has anything of the kind there.
pub proof fn law_exit_codes_are_reported(diag: &str, r: Option<String>)
    requires
        call_ensures(gpu_exit_code_from_diag, (diag,), r),
    ensures
        r matches Some(code) ==> code@.len() > 0 && exists|i: int|
            0 <= i < split_on(diag@, '\n').len() && reports(
                #[trigger] split_on(diag@, '\n')[i],
                code@,
            ),
        r is None ==> forall|i: int, code: Seq<char>|
            0 <= i < split_on(diag@, '\n').len() && code.len() > 0 ==> !first_reports(
                #[trigger] split_on(diag@, '\n')[i],
                #[trigger] code_key(code),
            ),
{
    lemma_first_code(split_on(diag@, '\n'));
}

/// The words before an exit code, and the code.
pub open spec fn code_key(code: Seq<char>) -> Seq<char> {
    "exit_code="@ + code
}

/// Does the line say that the graphics process ended, with this code behind the words?
pub open spec fn reports(line: Seq<char>, code: Seq<char>) -> bool {
    &&& occurs(line, "GPU process exited unexpectedly"@)
    &&& occurs(line, code_key(code))
    &&& forall|k: int| 0 <= k < code.len() ==> is_code_char(#[trigger] code[k])
}

/// Does the line say that the graphics process ended, and begin the first mention of a
/// code with this text, which is made of what codes are made of?
pub open spec fn first_reports(line: Seq<char>, key: Seq<char>) -> bool {
    &&& occurs(line, "GPU process exited unexpectedly"@)
    &&& find_from(line, "exit_code="@, 0) is Some
    &&& occurs_at(line, key, find_from(line, "exit_code="@, 0)->0)
    &&& key.len() > 10
    &&& is_code_char(key[10])
}

proof fn lemma_code_end(s: Seq<char>, i: int)
    requires
        0 <= i <= s.len(),
    ensures
        i <= code_end(s, i) <= s.len(),
        forall|k: int| i <= k < code_end(s, i) ==> is_code_char(#[trigger] s[k]),
    decreases s.len() - i,
{
    if i < s.len() && is_code_char(s[i]) {
        lemma_code_end(s, i + 1);
    }
}

proof fn lemma_code_in(line: Seq<char>)
    ensures
        gpu_code_in(line) matches Some(code) ==> code.len() > 0 && reports(line, code),
        gpu_code_in(line) is None ==> forall|code: Seq<char>|
            code.len() > 0 ==> !first_reports(line, #[trigger] code_key(code)),
{
    reveal_strlit("exit_code=");
    assert("exit_code="@.len() == 10);
    lemma_find_from(line, "exit_code="@, 0);
    if let Some(at) = find_from(line, "exit_code="@, 0) {
        lemma_code_end(line, at + 10);
        if let Some(code) = gpu_code_in(line) {
            assert(line.subrange(at, at + 10) =~= "exit_code="@);
            assert(line.subrange(at, at + code_key(code).len()) =~= code_key(code)) by {
                assert(line.subrange(at, at + 10) + code =~= line.subrange(
                    at,
                    at + 10 + code.len(),
                ));
            }
            assert(occurs_at(line, code_key(code), at));
        } else {
            assert forall|code: Seq<char>| code.len() > 0 implies !first_reports(
                line,
                #[trigger] code_key(code),
            ) by {
                if first_reports(line, code_key(code)) {
                    let key = code_key(code);
                    assert(line.subrange(at, at + key.len())[10] == key[10]);
                    assert(line.subrange(at, at + key.len())[10] == line[at + 10]);
                    lemma_code_end(line, at + 11);
                }
            }
        }
    }
}

proof fn lemma_first_code(lines: Seq<Seq<char>>)
    ensures
        first_gpu_code(lines) matches Some(code) ==> code.len() > 0 && exists|i: int|
            0 <= i < lines.len() && reports(#[trigger] lines[i], code),
        first_gpu_code(lines) is None ==> forall|i: int, code: Seq<char>|
            0 <= i < lines.len() && code.len() > 0 ==> !first_reports(
                #[trigger] lines[i],
                #[trigger] code_key(code),
            ),
    decreases lines.len(),
{
    if lines.len() > 0 {
        lemma_code_in(lines[0]);
        let rest = lines.drop_first();
        lemma_first_code(rest);
        if gpu_code_in(lines[0]) is None {
            if let Some(code) = first_gpu_code(rest) {
                let i = choose|i: int| 0 <= i < rest.len() && reports(#[trigger] rest[i], code);
                assert(lines[i + 1] == rest[i]);
            } else {
                assert forall|i: int, code: Seq<char>|
                    0 <= i < lines.len() && code.len() > 0 implies !first_reports(
                    #[trigger] lines[i],
                    #[trigger] code_key(code),
                ) by {
                    if i > 0 {
                        assert(rest[i - 1] == lines[i]);
                    }
                }
            }
        }
    }
}

} // verus!
