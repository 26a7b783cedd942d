//! What trimming, cutting and searching texts come to.

use crate::text::{
    after_first_char, after_last_char, before_first_char, byte_len, contains, is_white_space,
    lemma_after_last, lemma_byte_len_is_that_of_utf8, lemma_first_of, lemma_trimmed_ends,
    short_chars, shorten, trim, trim_end_matches_char, trim_start_matches, trimmed_end,
    trimmed_start, white_space, without_prefix, without_suffix_char,
};
use vstd::prelude::*;
use vstd::utf8::encode_utf8;

verus! {

/// The space, the tab and the ends of lines are white space, and so are the spaces of Unicode that
/// are not ASCII; no other character is.
pub proof fn lemma_white_space(c: char, r: bool)
    requires
        call_ensures(is_white_space, (c,), r),
    ensures
        c == ' ' || c == '\t' || c == '\n' || c == '\r' || c == '\u{b}' || c == '\u{c}' ==> r,
        c == '\u{85}' || c == '\u{a0}' || c == '\u{1680}' || '\u{2000}' <= c <= '\u{200a}' ==> r,
        c == '\u{2028}' || c == '\u{2029}' || c == '\u{202f}' || c == '\u{205f}' || c
            == '\u{3000}' ==> r,
        r && c <= '\u{7f}' ==> c == ' ' || '\t' <= c <= '\r',
        r && c > '\u{7f}' ==> c == '\u{85}' || c == '\u{a0}' || c == '\u{1680}' || '\u{2000}' <= c
            <= '\u{200a}' || c == '\u{2028}' || c == '\u{2029}' || c == '\u{202f}' || c
            == '\u{205f}' || c == '\u{3000}',
{
}

proof fn lemma_trimmed_start(s: Seq<char>) -> (n: int)
    ensures
        0 <= n <= s.len(),
        trimmed_start(s) == s.skip(n),
        forall|k: int| 0 <= k < n ==> white_space(#[trigger] s[k]),
    decreases s.len(),
{
    if s.len() > 0 && white_space(s.first()) {
        let m = lemma_trimmed_start(s.drop_first());
        assert(s.drop_first().skip(m) =~= s.skip(m + 1));
        assert forall|k: int| 0 <= k < m + 1 implies white_space(#[trigger] s[k]) by {
            if k > 0 {
                assert(s.drop_first()[k - 1] == s[k]);
            }
        }
        m + 1
    } else {
        assert(s.skip(0) =~= s);
        0
    }
}

proof fn lemma_trimmed_end(s: Seq<char>) -> (n: int)
    ensures
        0 <= n <= s.len(),
        trimmed_end(s) == s.take(n),
        forall|k: int| n <= k < s.len() ==> white_space(#[trigger] s[k]),
    decreases s.len(),
{
    if s.len() > 0 && white_space(s.last()) {
        let n = lemma_trimmed_end(s.drop_last());
        assert(s.drop_last().take(n) =~= s.take(n));
        assert forall|k: int| n <= k < s.len() implies white_space(#[trigger] s[k]) by {
            if k < s.len() - 1 {
                assert(s.drop_last()[k] == s[k]);
            }
        }
        n
    } else {
        assert(s.take(s.len() as int) =~= s);
        s.len() as int
    }
}

/// Trimming takes white space off both ends, all of it, and nothing else.
pub proof fn lemma_trim(s: &str, r: &str)
    requires
        call_ensures(trim, (s,), r),
    ensures
        exists|from: int, to: int|
            0 <= from <= to <= s@.len() && r@ == #[trigger] s@.subrange(from, to) && (forall|k: int|
                0 <= k < from ==> white_space(#[trigger] s@[k])) && (forall|k: int|
                to <= k < s@.len() ==> white_space(#[trigger] s@[k])),
        r@.len() > 0 ==> !white_space(r@[0]) && !white_space(r@[r@.len() - 1]),
{
    lemma_trimmed_ends(s@);
    let from = lemma_trimmed_start(s@);
    let rest = s@.skip(from);
    let n = lemma_trimmed_end(rest);
    let to = from + n;
    assert(rest.take(n) =~= s@.subrange(from, to));
    assert forall|k: int| to <= k < s@.len() implies white_space(#[trigger] s@[k]) by {
        assert(rest[k - from] == s@[k]);
    }
}

/// A text is what stands before the first `c`, the `c`, and what follows it.
pub proof fn lemma_parts_around_the_first(s: &str, c: char, before: &str, after: &str)
    requires
        call_ensures(before_first_char, (s, c), before),
        call_ensures(after_first_char, (s, c), after),
    ensures
        !before@.contains(c),
        s@.contains(c) ==> s@ == before@.push(c) + after@,
        !s@.contains(c) ==> before@ == s@ && after@.len() == 0,
{
    lemma_first_of(s@, c);
    if before@.contains(c) {
        let j = choose|j: int| 0 <= j < before@.len() && before@[j] == c;
        assert(s@[j] == c);
    }
    if s@.contains(c) {
        assert(s@ =~= before@.push(c) + after@);
    } else {
        assert(before@ =~= s@);
    }
}

/// What follows the last `c` holds none, and is all of the text where the text holds none.
pub proof fn lemma_part_after_the_last(s: &str, c: char, r: &str)
    requires
        call_ensures(after_last_char, (s, c), r),
    ensures
        !r@.contains(c),
        r@ == s@ || exists|n: int|
            0 <= n < s@.len() && s@[n] == c && r@ == #[trigger] s@.skip(n + 1),
{
    lemma_after_last(s@, c);
    if r@.len() < s@.len() {
        let n = s@.len() - r@.len() - 1;
        assert(s@ == s@.take(n).push(c) + r@);
        assert(s@[n] == (s@.take(n).push(c) + r@)[n]);
        assert(r@ =~= s@.skip(n + 1));
    } else {
        crate::text::lemma_after_last_is_suffix(s@, c);
        assert(r@ =~= s@);
    }
}

/// Taking a prefix off takes it off as often as it stands there: a text with the prefix comes to
/// what it comes to without it, and a text that does not begin with it stays.
pub proof fn lemma_prefix_comes_off(s: Seq<char>, p: Seq<char>)
    requires
        p.len() > 0,
    ensures
        without_prefix(p + s, p) == without_prefix(s, p),
        !p.is_prefix_of(s) ==> without_prefix(s, p) == s,
        !p.is_prefix_of(without_prefix(s, p)),
    decreases s.len(),
{
    assert(p =~= (p + s).subrange(0, p.len() as int));
    assert((p + s).skip(p.len() as int) =~= s);
    if p.is_prefix_of(s) {
        assert(s =~= p + s.skip(p.len() as int));
        lemma_prefix_comes_off(s.skip(p.len() as int), p);
    }
}

/// Taking a character off the end takes it off as often as it stands there.
pub proof fn lemma_suffix_comes_off(s: Seq<char>, c: char)
    ensures
        without_suffix_char(s.push(c), c) == without_suffix_char(s, c),
        s.len() > 0 && s.last() != c ==> without_suffix_char(s, c) == s,
        without_suffix_char(Seq::empty(), c).len() == 0,
{
    assert(s.push(c).drop_last() =~= s);
}

/// The same of the functions that do it.
pub proof fn lemma_trimming_by_pattern(s: &str, p: &str, c: char, head: &str, tail: &str)
    requires
        call_ensures(trim_start_matches, (s, p), head),
        call_ensures(trim_end_matches_char, (s, c), tail),
    ensures
        p@.len() > 0 && !p@.is_prefix_of(s@) ==> head@ == s@,
        p@.len() > 0 ==> !p@.is_prefix_of(head@),
        s@.len() > 0 && s@[s@.len() - 1] != c ==> tail@ == s@,
        tail@.len() > 0 ==> tail@[tail@.len() - 1] != c,
{
    if p@.len() > 0 {
        lemma_prefix_comes_off(s@, p@);
    }
    lemma_no_suffix_left(s@, c);
}

proof fn lemma_no_suffix_left(s: Seq<char>, c: char)
    ensures
        without_suffix_char(s, c).len() > 0 ==> without_suffix_char(s, c).last() != c,
    decreases s.len(),
{
    if s.len() > 0 && s.last() == c {
        lemma_no_suffix_left(s.drop_last(), c);
    }
}

/// A text stands in another if and only if the other is something, the text and something.
pub proof fn lemma_contains(s: &str, t: &str, r: bool, before: Seq<char>, after: Seq<char>)
    requires
        call_ensures(contains, (s, t), r),
    ensures
        s@ == before + t@ + after ==> r,
        r ==> exists|i: int|
            0 <= i && i + t@.len() <= s@.len() && t@ == #[trigger] s@.subrange(i, i + t@.len()),
{
    if s@ == before + t@ + after {
        let i = before.len() as int;
        assert(s@.subrange(i, i + t@.len()) =~= t@);
    }
}

/// A text of at most twelve bytes is kept; of a longer one its first twelve bytes are, and three
/// dots.
pub proof fn lemma_shortened(s: &str, r: Option<String>)
    requires
        call_ensures(shorten, (s,), r),
    ensures
        encode_utf8(s@).len() <= 12 ==> (r matches Some(t) && t@ == s@),
        encode_utf8(s@).len() > 12 && r is Some ==> exists|n: int|
            0 <= n <= s@.len() && r->0@ == #[trigger] s@.take(n) + "..."@ && encode_utf8(
                s@.take(n),
            ).len() == 12,
{
    lemma_byte_len_is_that_of_utf8(s@);
    let n = short_chars(s@, 0);
    lemma_short_chars(s@, 0);
    lemma_byte_len_is_that_of_utf8(s@.take(n));
}

proof fn lemma_short_chars(s: Seq<char>, n: int)
    requires
        0 <= n <= s.len(),
    ensures
        n <= short_chars(s, n) <= s.len(),
    decreases s.len() - n,
{
    if n < s.len() && byte_len(s.take(n)) < 12 {
        lemma_short_chars(s, n + 1);
    }
}

/// A longer text is cut wherever its first twelve bytes are whole characters.
pub proof fn lemma_shortened_where_it_can_be(s: &str, r: Option<String>, n: int)
    requires
        call_ensures(shorten, (s,), r),
        encode_utf8(s@).len() > 12,
        0 <= n <= s@.len(),
        encode_utf8(s@.take(n)).len() == 12,
    ensures
        r matches Some(t) && t@ == s@.take(n) + "..."@,
{
    lemma_byte_len_is_that_of_utf8(s@);
    lemma_byte_len_is_that_of_utf8(s@.take(n));
    lemma_cut_is_found(s@, 0, n);
}

proof fn lemma_cut_is_found(s: Seq<char>, k: int, n: int)
    requires
        0 <= k <= n <= s.len(),
        byte_len(s.take(n)) == 12,
    ensures
        short_chars(s, k) == n,
    decreases n - k,
{
    if k < n {
        lemma_bytes_grow(s, k, n);
        lemma_cut_is_found(s, k + 1, n);
    }
}

proof fn lemma_bytes_grow(s: Seq<char>, k: int, n: int)
    requires
        0 <= k < n <= s.len(),
    ensures
        byte_len(s.take(k)) < byte_len(s.take(n)),
    decreases n - k,
{
    assert(s.take(n).drop_last() =~= s.take(n - 1));
    if k < n - 1 {
        lemma_bytes_grow(s, k, n - 1);
    }
}

} // verus!
