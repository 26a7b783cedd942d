//! Text handling over characters: trimming, prefixes, searching.

use vstd::prelude::*;
use vstd::utf8::{char_is_scalar, encode_scalar, encode_utf8};

verus! {

/// The characters with the Unicode property `White_Space`.
pub open spec fn white_space(c: char) -> bool {
    ||| '\u{9}' <= c <= '\u{d}'
    ||| c == '\u{20}'
    ||| c == '\u{85}'
    ||| c == '\u{a0}'
    ||| c == '\u{1680}'
    ||| '\u{2000}' <= c <= '\u{200a}'
    ||| c == '\u{2028}'
    ||| c == '\u{2029}'
    ||| c == '\u{202f}'
    ||| c == '\u{205f}'
    ||| c == '\u{3000}'
}

/// `s` without its leading white space.
pub open spec fn trimmed_start(s: Seq<char>) -> Seq<char>
    decreases s.len(),
{
    if s.len() > 0 && white_space(s.first()) {
        trimmed_start(s.drop_first())
    } else {
        s
    }
}

/// `s` without its trailing white space.
pub open spec fn trimmed_end(s: Seq<char>) -> Seq<char>
    decreases s.len(),
{
    if s.len() > 0 && white_space(s.last()) {
        trimmed_end(s.drop_last())
    } else {
        s
    }
}

/// `s` without leading and trailing white space.
pub open spec fn trimmed(s: Seq<char>) -> Seq<char> {
    trimmed_end(trimmed_start(s))
}

/// `s` after taking the prefix `p` off its front as often as it stands there.
pub open spec fn without_prefix(s: Seq<char>, p: Seq<char>) -> Seq<char>
    decreases s.len(),
{
    if p.len() > 0 && p.is_prefix_of(s) {
        without_prefix(s.skip(p.len() as int), p)
    } else {
        s
    }
}

/// `s` after taking the character `c` off its end as often as it stands there.
pub open spec fn without_suffix_char(s: Seq<char>, c: char) -> Seq<char>
    decreases s.len(),
{
    if s.len() > 0 && s.last() == c {
        without_suffix_char(s.drop_last(), c)
    } else {
        s
    }
}

/// Whether `t` stands somewhere in `s`.
pub open spec fn contains_text(s: Seq<char>, t: Seq<char>) -> bool {
    exists|i: int| 0 <= i <= s.len() - t.len() && #[trigger] s.subrange(i, i + t.len()) == t
}

/// The longest end of `s` in which `c` does not occur: what follows the last `c` of `s`, and all
/// of `s` where there is none.
pub open spec fn after_last(s: Seq<char>, c: char) -> Seq<char>
    decreases s.len(),
{
    if s.len() == 0 || s.last() == c {
        Seq::empty()
    } else {
        after_last(s.drop_last(), c).push(s.last())
    }
}

/// The place of the first `c` of `s`; the length of `s` where there is none.
pub open spec fn first_of(s: Seq<char>, c: char) -> int
    decreases s.len(),
{
    if s.len() == 0 || s.first() == c {
        0
    } else {
        1 + first_of(s.drop_first(), c)
    }
}

/// What stands before the first `c` of `s`; all of `s` where there is none.
pub open spec fn before_first(s: Seq<char>, c: char) -> Seq<char> {
    s.take(first_of(s, c))
}

/// What follows the first `c` of `s`; nothing where there is none.
pub open spec fn after_first(s: Seq<char>, c: char) -> Seq<char> {
    if first_of(s, c) < s.len() {
        s.skip(first_of(s, c) + 1)
    } else {
        Seq::empty()
    }
}

/// How many bytes `c` takes in UTF-8.
pub open spec fn utf8_len(c: char) -> nat {
    if c <= '\u{7f}' {
        1
    } else if c <= '\u{7ff}' {
        2
    } else if c <= '\u{ffff}' {
        3
    } else {
        4
    }
}

/// How many bytes `s` takes in UTF-8.
pub open spec fn byte_len(s: Seq<char>) -> nat
    decreases s.len(),
{
    if s.len() == 0 {
        0
    } else {
        byte_len(s.drop_last()) + utf8_len(s.last())
    }
}

/// How many bytes of a text [`shortened`] keeps.
pub const SHORT_BYTES: usize = 12;

/// How many characters of `s` come before the byte `SHORT_BYTES`, counted from the first `n`.
pub open spec fn short_chars(s: Seq<char>, n: int) -> int
    decreases s.len() - n,
{
    if n < 0 || n >= s.len() || byte_len(s.take(n)) >= SHORT_BYTES {
        n
    } else {
        short_chars(s, n + 1)
    }
}

/// `s`, or its first bytes and three dots where it takes more. There is none where the cut would
/// fall within a character.
pub open spec fn shortened(s: Seq<char>) -> Option<Seq<char>> {
    let head = s.take(short_chars(s, 0));
    if byte_len(s) <= SHORT_BYTES {
        Some(s)
    } else if byte_len(head) == SHORT_BYTES {
        Some(head + "..."@)
    } else {
        None
    }
}

/// No `c` stands before the first one, and where `c` occurs the first one is a `c`.
pub proof fn lemma_first_of(s: Seq<char>, c: char)
    ensures
        0 <= first_of(s, c) <= s.len(),
        forall|j: int| 0 <= j < first_of(s, c) ==> #[trigger] s[j] != c,
        first_of(s, c) < s.len() ==> s[first_of(s, c)] == c,
        s.contains(c) <==> first_of(s, c) < s.len(),
    decreases s.len(),
{
    if s.len() > 0 && s.first() != c {
        let rest = s.drop_first();
        lemma_first_of(rest, c);
        assert forall|j: int| 0 <= j < first_of(s, c) implies #[trigger] s[j] != c by {
            if j > 0 {
                assert(s[j] == rest[j - 1]);
            }
        }
        if s.contains(c) {
            let j = choose|j: int| 0 <= j < s.len() && s[j] == c;
            assert(rest[j - 1] == c);
        }
    }
}

/// What trimming leaves neither begins nor ends with white space.
pub proof fn lemma_trimmed_ends(s: Seq<char>)
    ensures
        trimmed(s).len() > 0 ==> !white_space(trimmed(s).first()) && !white_space(
            trimmed(s).last(),
        ),
{
    lemma_trimmed_start_first(s);
    lemma_trimmed_end_last(trimmed_start(s));
}

proof fn lemma_trimmed_start_first(s: Seq<char>)
    ensures
        trimmed_start(s).len() > 0 ==> !white_space(trimmed_start(s).first()),
    decreases s.len(),
{
    if s.len() > 0 && white_space(s.first()) {
        lemma_trimmed_start_first(s.drop_first());
    }
}

proof fn lemma_trimmed_end_last(s: Seq<char>)
    ensures
        trimmed_end(s).len() > 0 ==> !white_space(trimmed_end(s).last()) && trimmed_end(s).first()
            == s.first(),
        trimmed_end(s).len() <= s.len(),
    decreases s.len(),
{
    if s.len() > 0 && white_space(s.last()) {
        lemma_trimmed_end_last(s.drop_last());
    }
}

/// Trimming leaves a text alone that neither begins nor ends with white space.
pub proof fn lemma_trimmed_stays(s: Seq<char>)
    requires
        s.len() > 0 ==> !white_space(s.first()) && !white_space(s.last()),
    ensures
        trimmed(s) == s,
{
}

/// What is left behind a prefix is an end of the text.
pub proof fn lemma_without_prefix_is_suffix(s: Seq<char>, p: Seq<char>)
    ensures
        without_prefix(s, p).is_suffix_of(s),
    decreases s.len(),
{
    if p.len() > 0 && p.is_prefix_of(s) {
        let rest = s.skip(p.len() as int);
        lemma_without_prefix_is_suffix(rest, p);
        let w = without_prefix(s, p);
        assert(w =~= s.subrange(s.len() - w.len(), s.len() as int));
    } else {
        assert(s =~= s.subrange(0, s.len() as int));
    }
}

/// What follows without a `c` in it is part of what follows the last `c`.
pub proof fn lemma_after_last_of_sum(s: Seq<char>, t: Seq<char>, c: char)
    requires
        !t.contains(c),
    ensures
        after_last(s + t, c) == after_last(s, c) + t,
    decreases t.len(),
{
    if t.len() == 0 {
        assert(s + t =~= s);
        assert(after_last(s, c) + t =~= after_last(s, c));
    } else {
        let front = t.drop_last();
        assert forall|k: int| 0 <= k < front.len() implies #[trigger] front[k] != c by {
            assert(t.contains(t[k]));
        }
        lemma_after_last_of_sum(s, front, c);
        assert(t.contains(t.last()));
        assert((s + t).drop_last() =~= s + front);
        assert((after_last(s, c) + front).push(t.last()) =~= after_last(s, c) + t);
    }
}

/// What follows the last `c` holds none, and where it is not all, a `c` stands before it.
pub proof fn lemma_after_last(s: Seq<char>, c: char)
    ensures
        !after_last(s, c).contains(c),
        after_last(s, c).len() <= s.len(),
        after_last(s, c).len() < s.len() ==> s == s.take(
            s.len() - after_last(s, c).len() - 1,
        ).push(c) + after_last(s, c),
    decreases s.len(),
{
    let end = after_last(s, c);
    let n = s.len() - end.len() - 1;
    if s.len() > 0 && s.last() != c {
        let front = s.drop_last();
        lemma_after_last(front, c);
        assert forall|k: int| 0 <= k < end.len() implies #[trigger] end[k] != c by {
            if k < end.len() - 1 {
                assert(after_last(front, c).contains(after_last(front, c)[k]));
            }
        }
        if end.len() < s.len() {
            assert(front.take(n) =~= s.take(n));
            assert(s =~= front.push(s.last()));
            assert(s =~= s.take(n).push(c) + end);
        }
    } else if s.len() > 0 {
        assert(s =~= s.take(n).push(c) + end);
    }
}

/// What follows the last `c` is an end of the text.
pub proof fn lemma_after_last_is_suffix(s: Seq<char>, c: char)
    ensures
        after_last(s, c).is_suffix_of(s),
    decreases s.len(),
{
    let w = after_last(s, c);
    if s.len() > 0 && s.last() != c {
        lemma_after_last_is_suffix(s.drop_last(), c);
        assert(w =~= s.subrange(s.len() - w.len(), s.len() as int));
    } else {
        assert(w =~= s.subrange(s.len() as int, s.len() as int));
    }
}

/// The characters of `s`.
pub fn chars_of(s: &str) -> (r: Vec<char>)
    ensures
        r@ == s@,
{
    let mut r: Vec<char> = Vec::new();
    for c in it: s.chars()
        invariant
            it.seq() == s@,
            r@ == s@.take(it.index() as int),
    {
        r.push(c);
    }
    r
}

/// Whether `c` has the Unicode property `White_Space`.
pub fn is_white_space(c: char) -> (r: bool)
    ensures
        r == white_space(c),
{
    ('\u{9}' <= c && c <= '\u{d}') || c == '\u{20}' || c == '\u{85}' || c == '\u{a0}' || c
        == '\u{1680}' || ('\u{2000}' <= c && c <= '\u{200a}') || c == '\u{2028}' || c == '\u{2029}'
        || c == '\u{202f}' || c == '\u{205f}' || c == '\u{3000}'
}

/// Trims white space off both ends.
pub fn trim<'a>(s: &'a str) -> (r: &'a str)
    ensures
        r@ == trimmed(s@),
{
    let chars = chars_of(s);
    let mut from: usize = 0;
    assert(s@.skip(0) =~= s@);
    while from < chars.len() && is_white_space(chars[from])
        invariant
            from <= chars.len(),
            chars@ == s@,
            trimmed_start(s@) == trimmed_start(s@.skip(from as int)),
        decreases chars.len() - from,
    {
        proof {
            assert(s@.skip(from as int).drop_first() =~= s@.skip(from + 1));
        }
        from = from + 1;
    }
    let ghost rest = s@.skip(from as int);
    assert(trimmed_start(s@) == rest);
    let mut to: usize = chars.len();
    while from < to && is_white_space(chars[to - 1])
        invariant
            from <= to <= chars.len(),
            chars@ == s@,
            rest == s@.skip(from as int),
            trimmed_end(rest) == trimmed_end(s@.subrange(from as int, to as int)),
        decreases to,
    {
        proof {
            assert(s@.subrange(from as int, to as int).drop_last() =~= s@.subrange(
                from as int,
                to - 1,
            ));
        }
        to = to - 1;
    }
    s.substring_char(from, to)
}

/// Whether `s` begins with `p`.
pub fn starts_with(s: &str, p: &str) -> (r: bool)
    ensures
        r == p@.is_prefix_of(s@),
{
    let sc = chars_of(s);
    let pc = chars_of(p);
    if pc.len() > sc.len() {
        return false;
    }
    let mut i: usize = 0;
    while i < pc.len()
        invariant
            i <= pc.len() <= sc.len(),
            sc@ == s@,
            pc@ == p@,
            forall|j: int| 0 <= j < i ==> s@[j] == p@[j],
        decreases pc.len() - i,
    {
        if sc[i] != pc[i] {
            assert(s@.subrange(0, p@.len() as int)[i as int] != p@[i as int]);
            return false;
        }
        i = i + 1;
    }
    assert(p@ =~= s@.subrange(0, p@.len() as int));
    true
}

/// Whether `s` begins with the character `c`.
pub fn starts_with_char(s: &str, c: char) -> (r: bool)
    ensures
        r == (s@.len() > 0 && s@[0] == c),
{
    let chars = chars_of(s);
    chars.len() > 0 && chars[0] == c
}

/// Takes the prefix `p` off the front of `s` as often as it stands there.
pub fn trim_start_matches<'a>(s: &'a str, p: &str) -> (r: &'a str)
    ensures
        r@ == without_prefix(s@, p@),
{
    let len: usize = p.unicode_len();
    if len == 0 {
        return s;
    }
    let mut rest: &'a str = s;
    while starts_with(rest, p)
        invariant
            len == p@.len() > 0,
            without_prefix(s@, p@) == without_prefix(rest@, p@),
        decreases rest@.len(),
    {
        let total: usize = rest.unicode_len();
        let next = rest.substring_char(len, total);
        assert(next@ =~= rest@.skip(len as int));
        rest = next;
    }
    rest
}

/// Takes the character `c` off the end of `s` as often as it stands there.
pub fn trim_end_matches_char<'a>(s: &'a str, c: char) -> (r: &'a str)
    ensures
        r@ == without_suffix_char(s@, c),
{
    let chars = chars_of(s);
    let mut to: usize = chars.len();
    assert(s@.take(to as int) =~= s@);
    while to > 0 && chars[to - 1] == c
        invariant
            to <= chars.len(),
            chars@ == s@,
            without_suffix_char(s@, c) == without_suffix_char(s@.take(to as int), c),
        decreases to,
    {
        assert(s@.take(to as int).drop_last() =~= s@.take(to - 1));
        to = to - 1;
    }
    let r = s.substring_char(0, to);
    assert(r@ =~= s@.take(to as int));
    r
}

/// Whether the character `c` occurs in `s`.
pub fn contains_char(s: &str, c: char) -> (r: bool)
    ensures
        r == s@.contains(c),
{
    let chars = chars_of(s);
    let mut i: usize = 0;
    while i < chars.len()
        invariant
            i <= chars.len(),
            chars@ == s@,
            forall|j: int| 0 <= j < i ==> s@[j] != c,
        decreases chars.len() - i,
    {
        if chars[i] == c {
            assert(s@[i as int] == c);
            return true;
        }
        i = i + 1;
    }
    false
}

/// Whether `t` stands somewhere in `s`.
pub fn contains(s: &str, t: &str) -> (r: bool)
    ensures
        r == contains_text(s@, t@),
{
    let sc = chars_of(s);
    let tc = chars_of(t);
    if tc.len() > sc.len() {
        return false;
    }
    let last: usize = sc.len() - tc.len();
    let mut i: usize = 0;
    loop
        invariant
            i <= last,
            last == sc.len() - tc.len(),
            sc@ == s@,
            tc@ == t@,
            forall|k: int|
                0 <= k < i ==> #[trigger] s@.subrange(k, k + t@.len()) != t@,
        decreases last - i,
    {
        let mut j: usize = 0;
        while j < tc.len() && sc[i + j] == tc[j]
            invariant
                j <= tc.len(),
                i <= last,
                last == sc.len() - tc.len(),
                sc@ == s@,
                tc@ == t@,
                forall|k: int| 0 <= k < j ==> s@[i + k] == t@[k],
            decreases tc.len() - j,
        {
            j = j + 1;
        }
        let ghost part = s@.subrange(i as int, i + t@.len());
        if j == tc.len() {
            assert(part =~= t@);
            return true;
        }
        assert(part[j as int] != t@[j as int]);
        if i == last {
            return false;
        }
        i = i + 1;
    }
}

/// What follows the last `c` of `s`; all of `s` where there is none.
pub fn after_last_char<'a>(s: &'a str, c: char) -> (r: &'a str)
    ensures
        r@ == after_last(s@, c),
{
    let chars = chars_of(s);
    let len: usize = chars.len();
    let mut from: usize = len;
    proof {
        assert(s@.take(from as int) =~= s@);
        assert(after_last(s@, c) + s@.skip(from as int) =~= after_last(s@, c));
    }
    while from > 0 && chars[from - 1] != c
        invariant
            from <= len == chars.len(),
            chars@ == s@,
            after_last(s@, c) == after_last(s@.take(from as int), c) + s@.skip(from as int),
        decreases from,
    {
        proof {
            let head = s@.take(from as int);
            assert(head.drop_last() =~= s@.take(from - 1));
            assert(after_last(head, c) + s@.skip(from as int) =~= after_last(
                head.drop_last(),
                c,
            ) + s@.skip(from - 1));
        }
        from = from - 1;
    }
    let r = s.substring_char(from, len);
    proof {
        assert(after_last(s@.take(from as int), c) =~= Seq::<char>::empty());
        assert(r@ =~= s@.skip(from as int));
        assert(Seq::<char>::empty() + r@ =~= r@);
    }
    r
}

/// The place of the first `c` of `s`; the length of `s` where there is none.
pub fn first_char_of(s: &str, c: char) -> (r: usize)
    ensures
        r == first_of(s@, c),
{
    let chars = chars_of(s);
    let mut i: usize = 0;
    assert(s@.skip(0) =~= s@);
    while i < chars.len() && chars[i] != c
        invariant
            i <= chars.len(),
            chars@ == s@,
            first_of(s@, c) == i + first_of(s@.skip(i as int), c),
        decreases chars.len() - i,
    {
        assert(s@.skip(i as int).drop_first() =~= s@.skip(i + 1));
        i = i + 1;
    }
    i
}

/// What stands before the first `c` of `s`.
pub fn before_first_char<'a>(s: &'a str, c: char) -> (r: &'a str)
    ensures
        r@ == before_first(s@, c),
{
    let i: usize = first_char_of(s, c);
    proof {
        lemma_first_of(s@, c);
    }
    let r = s.substring_char(0, i);
    assert(r@ =~= s@.take(i as int));
    r
}

/// What follows the first `c` of `s`; nothing where there is none.
pub fn after_first_char<'a>(s: &'a str, c: char) -> (r: &'a str)
    ensures
        r@ == after_first(s@, c),
{
    let i: usize = first_char_of(s, c);
    let len: usize = s.unicode_len();
    proof {
        lemma_first_of(s@, c);
    }
    if i < len {
        let r = s.substring_char(i + 1, len);
        assert(r@ =~= s@.skip(i + 1));
        r
    } else {
        let r = s.substring_char(len, len);
        assert(r@ =~= Seq::<char>::empty());
        r
    }
}

/// Text takes no fewer bytes the longer it gets.
proof fn lemma_byte_len_grows(s: Seq<char>, n: int)
    requires
        0 <= n <= s.len(),
    ensures
        byte_len(s.take(n)) <= byte_len(s),
        n < s.len() ==> byte_len(s.take(n)) < byte_len(s),
    decreases s.len(),
{
    if n < s.len() {
        lemma_byte_len_grows(s.drop_last(), n);
        assert(s.drop_last().take(n) =~= s.take(n));
    } else {
        assert(s.take(n) =~= s);
    }
}

proof fn lemma_byte_len_from_first(s: Seq<char>)
    requires
        s.len() > 0,
    ensures
        byte_len(s) == utf8_len(s.first()) + byte_len(s.drop_first()),
    decreases s.len(),
{
    if s.len() > 1 {
        lemma_byte_len_from_first(s.drop_last());
        assert(s.drop_last().drop_first() =~= s.drop_first().drop_last());
        assert(s.drop_first().last() == s.last());
    } else {
        assert(s.drop_first() =~= Seq::<char>::empty());
        assert(s.drop_last() =~= Seq::<char>::empty());
    }
}

proof fn lemma_char_bytes(c: char)
    ensures
        encode_scalar(c as u32).len() == utf8_len(c),
{
    char_is_scalar(c);
}

/// The byte length of a text is the length of its UTF-8 encoding.
pub proof fn lemma_byte_len_is_that_of_utf8(s: Seq<char>)
    ensures
        byte_len(s) == encode_utf8(s).len(),
    decreases s.len(),
{
    if s.len() > 0 {
        lemma_byte_len_is_that_of_utf8(s.drop_first());
        lemma_byte_len_from_first(s);
        lemma_char_bytes(s[0]);
    }
}

proof fn lemma_ascii_bytes(s: Seq<char>)
    requires
        forall|i: int| 0 <= i < s.len() ==> #[trigger] s[i] <= '\u{7f}',
    ensures
        byte_len(s) == s.len(),
    decreases s.len(),
{
    if s.len() > 0 {
        lemma_ascii_bytes(s.drop_last());
    }
}

proof fn lemma_ascii_short_chars(s: Seq<char>, n: int)
    requires
        0 <= n <= s.len(),
        n <= SHORT_BYTES,
        forall|i: int| 0 <= i < s.len() ==> #[trigger] s[i] <= '\u{7f}',
    ensures
        short_chars(s, n) == if s.len() < SHORT_BYTES {
            s.len() as int
        } else {
            SHORT_BYTES as int
        },
    decreases s.len() - n,
{
    lemma_ascii_bytes(s.take(n));
    if n < s.len() && n < SHORT_BYTES {
        lemma_ascii_short_chars(s, n + 1);
    }
}

/// An ASCII text can always be shortened: its first characters are kept.
pub proof fn lemma_ascii_is_shortened(s: Seq<char>)
    requires
        forall|i: int| 0 <= i < s.len() ==> #[trigger] s[i] <= '\u{7f}',
    ensures
        shortened(s) == Some(
            if s.len() <= SHORT_BYTES {
                s
            } else {
                s.take(SHORT_BYTES as int) + "..."@
            },
        ),
{
    lemma_ascii_bytes(s);
    lemma_ascii_short_chars(s, 0);
    lemma_ascii_bytes(s.take(short_chars(s, 0)));
}

/// `s`, or its first bytes and three dots where it takes more; nothing where the cut would fall
/// within a character.
pub fn shorten(s: &str) -> (r: Option<String>)
    ensures
        r.deep_view() == shortened(s@),
{
    let chars = chars_of(s);
    let mut i: usize = 0;
    let mut bytes: usize = 0;
    assert(s@.take(0) =~= Seq::<char>::empty());
    while i < chars.len() && bytes < SHORT_BYTES
        invariant
            i <= chars.len(),
            chars@ == s@,
            bytes == byte_len(s@.take(i as int)),
            bytes <= SHORT_BYTES + 3,
            short_chars(s@, 0) == short_chars(s@, i as int),
        decreases chars.len() - i,
    {
        let c: char = chars[i];
        let width: usize = if c <= '\u{7f}' {
            1
        } else if c <= '\u{7ff}' {
            2
        } else if c <= '\u{ffff}' {
            3
        } else {
            4
        };
        proof {
            assert(s@.take(i + 1).drop_last() =~= s@.take(i as int));
        }
        bytes = bytes + width;
        i = i + 1;
    }
    proof {
        lemma_byte_len_grows(s@, i as int);
        assert(s@.take(s@.len() as int) =~= s@);
    }
    if i == chars.len() && bytes <= SHORT_BYTES {
        Some(s.to_owned())
    } else if bytes == SHORT_BYTES {
        let head = s.substring_char(0, i);
        assert(head@ =~= s@.take(i as int));
        Some(joined(head, "..."))
    } else {
        None
    }
}

/// Whether the two texts are equal.
pub fn same_text(a: &str, b: &str) -> (r: bool)
    ensures
        r == (a@ == b@),
{
    a.to_owned() == b.to_owned()
}

/// The text `a` followed by the text `b`.
pub fn joined(a: &str, b: &str) -> (r: String)
    ensures
        r@ == a@ + b@,
{
    a.to_owned().concat(b)
}

} // verus!
