//! Character-level text helpers with exact specifications: the pieces the
//! parsers and formatters of this crate are built from.

use vstd::prelude::*;

verus! {

/// The characters of `s`, in order.
pub fn chars_of(s: &str) -> (v: Vec<char>)
    ensures
        v@ == s@,
{
    let mut v: Vec<char> = Vec::new();
    for c in it: s.chars()
        invariant
            it.seq() == s@,
            v@ == s@.take(it.index() as int),
    {
        v.push(c);
        proof {
            assert(s@.take(it.index() + 1) =~= s@.take(it.index() as int).push(c));
        }
    }
    assert(v@ =~= s@);
    v
}

/// Whether two strings hold the same characters.
pub fn str_eq(a: &str, b: &str) -> (r: bool)
    ensures
        r == (a@ == b@),
{
    let x = chars_of(a);
    let y = chars_of(b);
    if x.len() != y.len() {
        return false;
    }
    let mut i: usize = 0;
    while i < x.len()
        invariant
            x@ == a@,
            y@ == b@,
            x.len() == y.len(),
            i <= x.len(),
            forall|j: int| 0 <= j < i ==> x@[j] == y@[j],
        decreases x.len() - i,
    {
        if x[i] != y[i] {
            return false;
        }
        i = i + 1;
    }
    assert(x@ =~= y@);
    true
}

/// Append one character (std's `String::push`).
#[verifier::external_body]
pub(crate) fn push_char(s: &mut String, c: char)
    ensures
        final(s)@ == old(s)@.push(c),
{
    s.push(c)
}

/// A string holding exactly the characters `v[from..to]`.
pub fn string_from_chars(v: &Vec<char>, from: usize, to: usize) -> (s: String)
    requires
        from <= to <= v.len(),
    ensures
        s@ == v@.subrange(from as int, to as int),
{
    let mut s = String::new();
    let mut i = from;
    while i < to
        invariant
            from <= i <= to <= v.len(),
            s@ == v@.subrange(from as int, i as int),
        decreases to - i,
    {
        push_char(&mut s, v[i]);
        assert(v@.subrange(from as int, i + 1) =~= v@.subrange(from as int, i as int).push(v@[i as int]));
        i = i + 1;
    }
    s
}

/// Unicode White_Space, as `char::is_whitespace` tests it.
pub open spec fn is_ws(c: char) -> bool {
    ('\u{9}' <= c && c <= '\u{d}') || c == ' ' || c == '\u{85}' || c == '\u{a0}' || c == '\u{1680}'
        || ('\u{2000}' <= c && c <= '\u{200a}') || c == '\u{2028}' || c == '\u{2029}'
        || c == '\u{202f}' || c == '\u{205f}' || c == '\u{3000}'
}

pub fn is_whitespace(c: char) -> (b: bool)
    ensures
        b == is_ws(c),
{
    ('\u{9}' <= c && c <= '\u{d}') || c == ' ' || c == '\u{85}' || c == '\u{a0}' || c == '\u{1680}'
        || ('\u{2000}' <= c && c <= '\u{200a}') || c == '\u{2028}' || c == '\u{2029}'
        || c == '\u{202f}' || c == '\u{205f}' || c == '\u{3000}'
}

/// `s` without its leading whitespace.
pub open spec fn trim_start(s: Seq<char>) -> Seq<char>
    decreases s.len(),
{
    if s.len() > 0 && is_ws(s[0]) {
        trim_start(s.drop_first())
    } else {
        s
    }
}

/// `s` without its trailing whitespace.
pub open spec fn trim_end(s: Seq<char>) -> Seq<char>
    decreases s.len(),
{
    if s.len() > 0 && is_ws(s.last()) {
        trim_end(s.drop_last())
    } else {
        s
    }
}

/// `s` without leading and trailing whitespace (`str::trim`).
pub open spec fn trim(s: Seq<char>) -> Seq<char> {
    trim_end(trim_start(s))
}

/// The index of the first whitespace character of `s` at or after `from`,
/// or `s.len()` when there is none.
pub open spec fn first_ws(s: Seq<char>, from: int) -> int
    decreases s.len() - from,
{
    if from >= s.len() {
        s.len() as int
    } else if is_ws(s[from]) {
        from
    } else {
        first_ws(s, from + 1)
    }
}

/// `s` split at its first whitespace character (which neither half keeps);
/// the whole of `s` and an empty rest when it holds none.
pub open spec fn split_at_ws(s: Seq<char>) -> (Seq<char>, Seq<char>) {
    let k = first_ws(s, 0);
    if k < s.len() {
        (s.take(k), s.skip(k + 1))
    } else {
        (s, Seq::empty())
    }
}

/// The whitespace-separated words of `s` (`str::split_whitespace`).
pub open spec fn words(s: Seq<char>) -> Seq<Seq<char>>
    decreases s.len(),
{
    if s.len() == 0 {
        Seq::empty()
    } else {
        let rest = words(s.drop_last());
        if is_ws(s.last()) {
            rest
        } else if s.len() >= 2 && !is_ws(s[s.len() - 2]) {
            rest.update(rest.len() - 1, rest.last().push(s.last()))
        } else {
            rest.push(seq![s.last()])
        }
    }
}

/// The pieces of `s` between newline characters (at least one piece).
pub open spec fn split_newlines(s: Seq<char>) -> Seq<Seq<char>>
    decreases s.len(),
{
    if s.len() == 0 {
        seq![Seq::empty()]
    } else {
        let rest = split_newlines(s.drop_last());
        if s.last() == '\n' {
            rest.push(Seq::empty())
        } else {
            rest.update(rest.len() - 1, rest.last().push(s.last()))
        }
    }
}

/// The lines of `s` (`str::lines`, up to a carriage return before each
/// newline, which the line keeps): the final newline is optional.
pub open spec fn lines(s: Seq<char>) -> Seq<Seq<char>> {
    if s.len() == 0 {
        Seq::empty()
    } else if s.last() == '\n' {
        split_newlines(s.drop_last())
    } else {
        split_newlines(s)
    }
}

/// Whether `needle` occurs in `hay` as a contiguous run.
pub open spec fn contains_text(hay: Seq<char>, needle: Seq<char>) -> bool {
    exists|i: int| 0 <= i && i + needle.len() <= hay.len() && #[trigger] hay.subrange(i, i + needle.len()) == needle
}

/// The start of `s` without leading whitespace: its index.
pub fn trim_start_index(v: &Vec<char>, from: usize, to: usize) -> (k: usize)
    requires
        from <= to <= v.len(),
    ensures
        from <= k <= to,
        v@.subrange(k as int, to as int) == trim_start(v@.subrange(from as int, to as int)),
    decreases to - from,
{
    if from < to && is_whitespace(v[from]) {
        assert(v@.subrange(from as int, to as int).drop_first() =~= v@.subrange(from + 1, to as int));
        trim_start_index(v, from + 1, to)
    } else {
        from
    }
}

/// The end of `s` without trailing whitespace: its index.
pub fn trim_end_index(v: &Vec<char>, from: usize, to: usize) -> (k: usize)
    requires
        from <= to <= v.len(),
    ensures
        from <= k <= to,
        v@.subrange(from as int, k as int) == trim_end(v@.subrange(from as int, to as int)),
    decreases to - from,
{
    if from < to && is_whitespace(v[to - 1]) {
        assert(v@.subrange(from as int, to as int).drop_last() =~= v@.subrange(from as int, to - 1));
        trim_end_index(v, from, to - 1)
    } else {
        from + 0 + (to - from)
    }
}

/// The characters of `v[from..to]` without leading and trailing whitespace.
pub fn trim_chars(v: &Vec<char>, from: usize, to: usize) -> (t: Vec<char>)
    requires
        from <= to <= v.len(),
    ensures
        t@ == trim(v@.subrange(from as int, to as int)),
{
    let a = trim_start_index(v, from, to);
    let b = trim_end_index(v, a, to);
    slice_chars(v, a, b)
}

/// The characters `v[from..to]`.
pub fn slice_chars(v: &Vec<char>, from: usize, to: usize) -> (t: Vec<char>)
    requires
        from <= to <= v.len(),
    ensures
        t@ == v@.subrange(from as int, to as int),
{
    let mut t: Vec<char> = Vec::new();
    let mut i = from;
    while i < to
        invariant
            from <= i <= to <= v.len(),
            t@ == v@.subrange(from as int, i as int),
        decreases to - i,
    {
        t.push(v[i]);
        assert(v@.subrange(from as int, i + 1) =~= v@.subrange(from as int, i as int).push(v@[i as int]));
        i = i + 1;
    }
    t
}

/// A string holding exactly the characters of `v`.
pub fn string_of(v: &Vec<char>) -> (s: String)
    ensures
        s@ == v@,
{
    let s = string_from_chars(v, 0, v.len());
    assert(v@.subrange(0, v.len() as int) =~= v@);
    s
}

/// The index of the first whitespace character of `v` at or after `from`.
pub fn find_ws(v: &Vec<char>, from: usize) -> (k: usize)
    requires
        from <= v.len(),
    ensures
        k == first_ws(v@, from as int),
        from <= k <= v.len(),
    decreases v.len() - from,
{
    if from >= v.len() {
        v.len()
    } else if is_whitespace(v[from]) {
        from
    } else {
        find_ws(v, from + 1)
    }
}

/// `v` split at its first whitespace character.
pub fn split_chars_at_ws(v: &Vec<char>) -> (r: (Vec<char>, Vec<char>))
    ensures
        (r.0@, r.1@) == split_at_ws(v@),
{
    let k = find_ws(v, 0);
    if k < v.len() {
        let a = slice_chars(v, 0, k);
        let b = slice_chars(v, k + 1, v.len());
        assert(a@ =~= v@.take(k as int));
        assert(b@ =~= v@.skip(k + 1));
        (a, b)
    } else {
        (slice_chars(v, 0, v.len()), Vec::new())
    }
}

/// The whitespace-separated words of `v`.
pub fn words_of(v: &Vec<char>) -> (w: Vec<Vec<char>>)
    ensures
        w@.map_values(|x: Vec<char>| x@) == words(v@),
{
    let mut w: Vec<Vec<char>> = Vec::new();
    let mut i: usize = 0;
    while i < v.len()
        invariant
            i <= v.len(),
            w@.map_values(|x: Vec<char>| x@) == words(v@.take(i as int)),
        decreases v.len() - i,
    {
        let c = v[i];
        let ghost pre = v@.take(i as int);
        assert(v@.take(i + 1).drop_last() =~= pre);
        assert(v@.take(i + 1).last() == c);
        if is_whitespace(c) {
        } else if i >= 1 && !is_whitespace(v[i - 1]) {
            assert(v@.take(i + 1)[i - 1] == v@[i - 1]);
            proof {
                lemma_words_nonempty(pre);
            }
            let last = w.len() - 1;
            let mut cur = w.remove(last);
            cur.push(c);
            w.push(cur);
            assert(w@.map_values(|x: Vec<char>| x@) =~= words(pre).update(words(pre).len() - 1, words(pre).last().push(c)));
        } else {
            let mut cur: Vec<char> = Vec::new();
            cur.push(c);
            w.push(cur);
            assert(cur@ =~= seq![c]);
            assert(w@.map_values(|x: Vec<char>| x@) =~= words(pre).push(seq![c]));
        }
        i = i + 1;
    }
    assert(v@.take(v.len() as int) =~= v@);
    w
}

/// A text ending in a non-whitespace character has at least one word.
pub proof fn lemma_words_nonempty(s: Seq<char>)
    requires
        s.len() > 0,
        !is_ws(s.last()),
    ensures
        words(s).len() > 0,
    decreases s.len(),
{
    if s.len() >= 2 && !is_ws(s[s.len() - 2]) {
        assert(s.drop_last().last() == s[s.len() - 2]);
        lemma_words_nonempty(s.drop_last());
    }
}

/// The lines of `v`.
pub fn lines_of(v: &Vec<char>) -> (ls: Vec<Vec<char>>)
    ensures
        ls@.map_values(|x: Vec<char>| x@) == lines(v@),
{
    if v.len() == 0 {
        let e: Vec<Vec<char>> = Vec::new();
        assert(e@.map_values(|x: Vec<char>| x@) =~= lines(v@));
        return e;
    }
    let end = if v[v.len() - 1] == '\n' { v.len() - 1 } else { v.len() };
    let mut ls: Vec<Vec<char>> = Vec::new();
    ls.push(Vec::new());
    let mut i: usize = 0;
    assert(ls@.map_values(|x: Vec<char>| x@) =~= split_newlines(v@.take(0)));
    while i < end
        invariant
            i <= end <= v.len(),
            ls.len() >= 1,
            ls@.map_values(|x: Vec<char>| x@) == split_newlines(v@.take(i as int)),
        decreases end - i,
    {
        let c = v[i];
        let ghost pre = v@.take(i as int);
        assert(v@.take(i + 1).drop_last() =~= pre);
        assert(v@.take(i + 1).last() == c);
        if c == '\n' {
            ls.push(Vec::new());
            assert(ls@.map_values(|x: Vec<char>| x@) =~= split_newlines(pre).push(Seq::empty()));
        } else {
            let last = ls.len() - 1;
            let mut cur = ls.remove(last);
            cur.push(c);
            ls.push(cur);
            assert(ls@.map_values(|x: Vec<char>| x@) =~= split_newlines(pre).update(split_newlines(pre).len() - 1, split_newlines(pre).last().push(c)));
        }
        i = i + 1;
    }
    if end < v.len() {
        assert(v@.take(end as int) =~= v@.drop_last());
    } else {
        assert(v@.take(end as int) =~= v@);
    }
    ls
}

/// Whether `needle` occurs in `hay`.
pub fn contains_chars(hay: &Vec<char>, needle: &Vec<char>) -> (b: bool)
    ensures
        b == contains_text(hay@, needle@),
{
    if needle.len() > hay.len() {
        assert(!contains_text(hay@, needle@));
        return false;
    }
    let mut i: usize = 0;
    while i <= hay.len() - needle.len()
        invariant
            needle.len() <= hay.len(),
            forall|j: int| 0 <= j < i ==> #[trigger] hay@.subrange(j, j + needle.len()) != needle@,
        decreases hay.len() - i,
    {
        let mut k: usize = 0;
        let mut same = true;
        while k < needle.len()
            invariant
                i + needle.len() <= hay.len(),
                k <= needle.len(),
                same == (forall|m: int| 0 <= m < k ==> hay@[i + m] == needle@[m]),
            decreases needle.len() - k,
        {
            if hay[i + k] != needle[k] {
                same = false;
            }
            k = k + 1;
        }
        if same {
            assert(hay@.subrange(i as int, i + needle.len()) =~= needle@);
            return true;
        }
        assert(hay@.subrange(i as int, i + needle.len()) != needle@) by {
            let m = choose|m: int| 0 <= m < needle.len() && hay@[i + m] != needle@[m];
            assert(hay@.subrange(i as int, i + needle.len())[m] == hay@[i + m]);
        }
        i = i + 1;
    }
    false
}

/// Whether `s` starts with `prefix`.
pub open spec fn starts_with(s: Seq<char>, prefix: Seq<char>) -> bool {
    prefix.len() <= s.len() && s.take(prefix.len() as int) == prefix
}

/// Whether `s` ends with `suffix`.
pub open spec fn ends_with(s: Seq<char>, suffix: Seq<char>) -> bool {
    suffix.len() <= s.len() && s.skip(s.len() - suffix.len()) == suffix
}

pub fn starts_with_chars(s: &Vec<char>, prefix: &Vec<char>) -> (b: bool)
    ensures
        b == starts_with(s@, prefix@),
{
    if prefix.len() > s.len() {
        return false;
    }
    let mut k: usize = 0;
    while k < prefix.len()
        invariant
            prefix.len() <= s.len(),
            k <= prefix.len(),
            forall|m: int| 0 <= m < k ==> s@[m] == prefix@[m],
        decreases prefix.len() - k,
    {
        if s[k] != prefix[k] {
            assert(s@.take(prefix.len() as int)[k as int] != prefix@[k as int]);
            return false;
        }
        k = k + 1;
    }
    assert(s@.take(prefix.len() as int) =~= prefix@);
    true
}

pub fn ends_with_chars(s: &Vec<char>, suffix: &Vec<char>) -> (b: bool)
    ensures
        b == ends_with(s@, suffix@),
{
    if suffix.len() > s.len() {
        return false;
    }
    let off = s.len() - suffix.len();
    let mut k: usize = 0;
    while k < suffix.len()
        invariant
            suffix.len() <= s.len(),
            off == s.len() - suffix.len(),
            k <= suffix.len(),
            forall|m: int| 0 <= m < k ==> s@[off + m] == suffix@[m],
        decreases suffix.len() - k,
    {
        if s[off + k] != suffix[k] {
            assert(s@.skip(off as int)[k as int] != suffix@[k as int]);
            return false;
        }
        k = k + 1;
    }
    assert(s@.skip(off as int) =~= suffix@);
    true
}

/// ASCII lowercasing of one character (`char::to_ascii_lowercase`).
pub open spec fn ascii_lower(c: char) -> char {
    if 'A' <= c && c <= 'Z' {
        ((c as u32) + 32) as char
    } else {
        c
    }
}

/// ASCII lowercasing of a text (`str::to_ascii_lowercase`).
pub open spec fn ascii_lowercase(s: Seq<char>) -> Seq<char> {
    s.map_values(|c: char| ascii_lower(c))
}

pub fn ascii_lower_char(c: char) -> (d: char)
    ensures
        d == ascii_lower(c),
{
    if 'A' <= c && c <= 'Z' {
        let n = (c as u32) + 32;
        ascii_char(n)
    } else {
        c
    }
}

/// The ASCII character with code `n`.
fn ascii_char(n: u32) -> (c: char)
    requires
        n < 128,
    ensures
        c == n as char,
{
    (n as u8) as char
}

pub fn ascii_lowercase_chars(v: &Vec<char>) -> (w: Vec<char>)
    ensures
        w@ == ascii_lowercase(v@),
{
    let mut w: Vec<char> = Vec::new();
    let mut i: usize = 0;
    while i < v.len()
        invariant
            i <= v.len(),
            w@ == ascii_lowercase(v@.take(i as int)),
        decreases v.len() - i,
    {
        w.push(ascii_lower_char(v[i]));
        assert(ascii_lowercase(v@.take(i + 1)) =~= ascii_lowercase(v@.take(i as int)).push(ascii_lower(v@[i as int])));
        i = i + 1;
    }
    assert(v@.take(v.len() as int) =~= v@);
    w
}

/// What `str::to_lowercase` makes of a text (full Unicode lowercasing).
pub uninterp spec fn unicode_lowercase(s: Seq<char>) -> Seq<char>;

/// `str::to_lowercase`: full Unicode lowercasing (context-sensitive, one
/// character may become several). The contract names the result.
#[verifier::external_body]
pub(crate) fn to_lowercase(s: &str) -> (l: String)
    ensures
        l@ == unicode_lowercase(s@),
{
    s.to_lowercase()
}

/// What `char::to_uppercase` makes of one character (full Unicode case
/// mapping: one character may become several).
pub uninterp spec fn unicode_uppercase_char(c: char) -> Seq<char>;

/// `char::to_uppercase`, collected. The contract names the result.
#[verifier::external_body]
pub(crate) fn char_to_uppercase(c: char) -> (u: String)
    ensures
        u@ == unicode_uppercase_char(c),
{
    c.to_uppercase().collect::<String>()
}

/// The ASCII digit of a value below ten.
pub open spec fn digit_char(d: nat) -> char {
    (('0' as u32) + d) as char
}

/// The decimal rendering of a natural number (how `Display` writes one).
pub open spec fn decimal(n: nat) -> Seq<char>
    decreases n,
{
    if n < 10 {
        seq![digit_char(n)]
    } else {
        decimal(n / 10).push(digit_char(n % 10))
    }
}

pub fn decimal_string(n: u64) -> (s: String)
    ensures
        s@ == decimal(n as nat),
    decreases n,
{
    if n < 10 {
        let mut s = String::new();
        push_char(&mut s, digit_of(n));
        assert(s@ =~= seq![digit_char(n as nat)]);
        s
    } else {
        let mut s = decimal_string(n / 10);
        push_char(&mut s, digit_of(n % 10));
        s
    }
}

pub fn digit_of(d: u64) -> (c: char)
    requires
        d < 10,
    ensures
        c == digit_char(d as nat),
{
    ascii_char(48 + d as u32)
}

/// The lowercase ASCII letter `d` places after `a` (`d` below 26).
pub fn letter_of(d: u64) -> (c: char)
    requires
        d < 26,
    ensures
        c == ((('a' as u32) + d) as char),
{
    ascii_char(97 + d as u32)
}

/// Whether a character is an ASCII decimal digit.
pub open spec fn is_digit(c: char) -> bool {
    '0' <= c && c <= '9'
}

/// The value of a run of decimal digits.
pub open spec fn digits_value(s: Seq<char>) -> nat
    decreases s.len(),
{
    if s.len() == 0 {
        0
    } else {
        digits_value(s.drop_last()) * 10 + ((s.last() as u32) - ('0' as u32)) as nat
    }
}

/// What an unsigned integer `FromStr` at most `max` accepts: an optional
/// `+`, then one or more decimal digits whose value fits.
pub open spec fn parse_unsigned(s: Seq<char>, max: nat) -> Option<nat> {
    let d = unsigned_digits(s);
    if d.len() > 0 && all_digits(d) && digits_value(d) <= max {
        Some(digits_value(d))
    } else {
        None
    }
}

/// The digit part of an unsigned integer text: without its optional `+`.
pub open spec fn unsigned_digits(s: Seq<char>) -> Seq<char> {
    if s.len() > 0 && s[0] == '+' {
        s.drop_first()
    } else {
        s
    }
}

/// Whether every character of `s` is a decimal digit.
pub open spec fn all_digits(s: Seq<char>) -> bool {
    forall|i: int| 0 <= i < s.len() ==> is_digit(#[trigger] s[i])
}

/// A longer run of digits is worth at least as much as its prefix.
proof fn lemma_digits_prefix_le(s: Seq<char>, k: int, m: int)
    requires
        0 <= k <= m <= s.len(),
        forall|j: int| 0 <= j < s.len() ==> is_digit(#[trigger] s[j]),
    ensures
        digits_value(s.take(k)) <= digits_value(s.take(m)),
    decreases m - k,
{
    if k < m {
        lemma_digits_prefix_le(s, k, m - 1);
        assert(s.take(m).drop_last() =~= s.take(m - 1));
    }
}

/// Parse an unsigned decimal integer no larger than `max`.
pub fn parse_unsigned_chars(v: &Vec<char>, max: u64) -> (r: Option<u64>)
    ensures
        match r {
            Some(n) => parse_unsigned(v@, max as nat) == Some(n as nat),
            None => parse_unsigned(v@, max as nat) is None,
        },
{
    let start: usize = if v.len() > 0 && v[0] == '+' { 1 } else { 0 };
    let ghost d = unsigned_digits(v@);
    assert(d =~= v@.skip(start as int));
    if start >= v.len() {
        return None;
    }
    let mut i = start;
    while i < v.len()
        invariant
            start <= i <= v.len(),
            d == v@.skip(start as int),
            d == unsigned_digits(v@),
            forall|j: int| 0 <= j < i - start ==> is_digit(#[trigger] d[j]),
        decreases v.len() - i,
    {
        if !('0' <= v[i] && v[i] <= '9') {
            assert(d[i - start] == v@[i as int]);
            assert(!is_digit(d[i - start]));
            assert(!(forall|j: int| 0 <= j < d.len() ==> is_digit(#[trigger] d[j])));
            return None;
        }
        i = i + 1;
    }
    let mut acc: u128 = 0;
    let mut i = start;
    while i < v.len()
        invariant
            start <= i <= v.len(),
            d == v@.skip(start as int),
            d == unsigned_digits(v@),
            forall|j: int| 0 <= j < d.len() ==> is_digit(#[trigger] d[j]),
            acc as nat == digits_value(d.take(i - start)),
            acc <= max,
        decreases v.len() - i,
    {
        assert(d[i - start] == v@[i as int]);
        assert(is_digit(d[i - start]));
        let dv = (v[i] as u32 - '0' as u32) as u128;
        assert(d.take(i - start + 1).drop_last() =~= d.take(i - start));
        assert(d.take(i - start + 1).last() == v@[i as int]);
        acc = acc * 10 + dv;
        if acc > max as u128 {
            proof {
                lemma_digits_prefix_le(d, i - start + 1, d.len() as int);
                assert(d.take(d.len() as int) =~= d);
            }
            return None;
        }
        i = i + 1;
    }
    assert(d.take(v.len() - start) =~= d);
    Some(acc as u64)
}

/// How many times `x` occurs in `s`.
pub open spec fn count_of(s: Seq<char>, x: char) -> nat
    decreases s.len(),
{
    if s.len() == 0 {
        0
    } else {
        count_of(s.drop_last(), x) + (if s.last() == x { 1nat } else { 0nat })
    }
}

/// The mantissa of a decimal float text: digits with at most one `.`, and
/// at least one digit.
pub open spec fn is_mantissa(m: Seq<char>) -> bool {
    &&& forall|i: int| 0 <= i < m.len() ==> is_digit(#[trigger] m[i]) || m[i] == '.'
    &&& count_of(m, '.') <= 1
    &&& exists|i: int| 0 <= i < m.len() && is_digit(#[trigger] m[i])
}

/// The text after a float's `e`: an optional sign, then one or more digits.
pub open spec fn is_exponent(x: Seq<char>) -> bool {
    let d = signless(x);
    d.len() > 0 && all_digits(d)
}

/// `x` without one leading `+` or `-`.
pub open spec fn signless(x: Seq<char>) -> Seq<char> {
    if x.len() > 0 && (x[0] == '+' || x[0] == '-') {
        x.drop_first()
    } else {
        x
    }
}

/// The index of the first occurrence of `x` in `s`, or `s.len()`.
pub open spec fn first_index_of(s: Seq<char>, x: char, from: int) -> int
    decreases s.len() - from,
{
    if from >= s.len() {
        s.len() as int
    } else if s[from] == x {
        from
    } else {
        first_index_of(s, x, from + 1)
    }
}

/// A decimal number: a mantissa and an optional exponent (lowercase `e`).
pub open spec fn is_decimal_number(b: Seq<char>) -> bool {
    let k = first_index_of(b, 'e', 0);
    if k < b.len() {
        is_mantissa(b.take(k)) && is_exponent(b.skip(k + 1))
    } else {
        is_mantissa(b)
    }
}

/// The float texts `f32::from_str` accepts (the grammar its documentation
/// gives, matched case-insensitively): an optional sign, then `inf`,
/// `infinity`, `nan`, or a decimal number; no surrounding whitespace.
pub open spec fn is_float_text(s: Seq<char>) -> bool {
    let l = ascii_lowercase(s);
    let b = if l.len() > 0 && (l[0] == '+' || l[0] == '-') { l.drop_first() } else { l };
    b == "inf"@ || b == "infinity"@ || b == "nan"@ || is_decimal_number(b)
}

fn is_mantissa_chars(m: &Vec<char>) -> (ok: bool)
    ensures
        ok == is_mantissa(m@),
{
    let mut dots: usize = 0;
    let mut digits = false;
    let mut i: usize = 0;
    while i < m.len()
        invariant
            i <= m.len(),
            dots as nat == count_of(m@.take(i as int), '.'),
            dots <= 1,
            forall|j: int| 0 <= j < i ==> is_digit(#[trigger] m@[j]) || m@[j] == '.',
            digits == (exists|j: int| 0 <= j < i && is_digit(#[trigger] m@[j])),
        decreases m.len() - i,
    {
        let c = m[i];
        assert(m@.take(i + 1).drop_last() =~= m@.take(i as int));
        if '0' <= c && c <= '9' {
            digits = true;
        } else if c == '.' {
            if dots == 1 {
                proof {
                    lemma_count_prefix(m@, '.', i + 1);
                }
                return false;
            }
            dots = dots + 1;
        } else {
            return false;
        }
        i = i + 1;
    }
    assert(m@.take(m.len() as int) =~= m@);
    digits
}

/// Counting over a longer prefix never finds fewer.
proof fn lemma_count_prefix(s: Seq<char>, x: char, k: int)
    requires
        0 <= k <= s.len(),
    ensures
        count_of(s.take(k), x) <= count_of(s, x),
    decreases s.len() - k,
{
    if k < s.len() {
        lemma_count_prefix(s, x, k + 1);
        assert(s.take(k + 1).drop_last() =~= s.take(k));
    } else {
        assert(s.take(k) =~= s);
    }
}

fn is_exponent_chars(x: &Vec<char>) -> (ok: bool)
    ensures
        ok == is_exponent(x@),
{
    let start: usize = if x.len() > 0 && (x[0] == '+' || x[0] == '-') { 1 } else { 0 };
    let ghost d = signless(x@);
    assert(d =~= x@.skip(start as int));
    if start >= x.len() {
        return false;
    }
    let mut i = start;
    while i < x.len()
        invariant
            start <= i <= x.len(),
            d == x@.skip(start as int),
            d == signless(x@),
            forall|j: int| 0 <= j < i - start ==> is_digit(#[trigger] d[j]),
        decreases x.len() - i,
    {
        if !('0' <= x[i] && x[i] <= '9') {
            assert(d[i - start] == x@[i as int]);
            assert(!is_digit(d[i - start]));
            assert(!all_digits(d));
            return false;
        }
        i = i + 1;
    }
    true
}

fn first_index_chars(v: &Vec<char>, x: char, from: usize) -> (k: usize)
    requires
        from <= v.len(),
    ensures
        k == first_index_of(v@, x, from as int),
        from <= k <= v.len(),
    decreases v.len() - from,
{
    if from >= v.len() {
        v.len()
    } else if v[from] == x {
        from
    } else {
        first_index_chars(v, x, from + 1)
    }
}

pub fn seq_eq_lit(v: &Vec<char>, lit: &str) -> (b: bool)
    ensures
        b == (v@ == lit@),
{
    let w = chars_of(lit);
    if v.len() != w.len() {
        return false;
    }
    let mut i: usize = 0;
    while i < v.len()
        invariant
            w@ == lit@,
            v.len() == w.len(),
            i <= v.len(),
            forall|j: int| 0 <= j < i ==> v@[j] == w@[j],
        decreases v.len() - i,
    {
        if v[i] != w[i] {
            return false;
        }
        i = i + 1;
    }
    assert(v@ =~= w@);
    true
}

/// Whether `v` is a float text `f32::from_str` accepts.
pub fn is_float_chars(v: &Vec<char>) -> (ok: bool)
    ensures
        ok == is_float_text(v@),
{
    let l = ascii_lowercase_chars(v);
    let start: usize = if l.len() > 0 && (l[0] == '+' || l[0] == '-') { 1 } else { 0 };
    let b = slice_chars(&l, start, l.len());
    let ghost lb = if l@.len() > 0 && (l@[0] == '+' || l@[0] == '-') { l@.drop_first() } else { l@ };
    assert(b@ =~= lb);
    if seq_eq_lit(&b, "inf") || seq_eq_lit(&b, "infinity") || seq_eq_lit(&b, "nan") {
        return true;
    }
    let k = first_index_chars(&b, 'e', 0);
    if k < b.len() {
        let m = slice_chars(&b, 0, k);
        let x = slice_chars(&b, k + 1, b.len());
        assert(m@ =~= b@.take(k as int));
        assert(x@ =~= b@.skip(k + 1));
        is_mantissa_chars(&m) && is_exponent_chars(&x)
    } else {
        is_mantissa_chars(&b)
    }
}

} // verus!