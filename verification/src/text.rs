//! Character-level text handling: the line splitting, trimming and field
//! splitting that every package-manager output parser is built from. Each
//! operation has a spec function over `Seq<char>` stating what it computes,
//! with the same meaning as the `str` method of the same name.
use vstd::prelude::*;

verus! {

/// `String::push` appends one character at the end of the string.
pub assume_specification[ String::push ](s: &mut String, ch: char)
    ensures
        final(s)@ == old(s)@.push(ch),
;

// ---------------------------------------------------------------------------
// Characters
// ---------------------------------------------------------------------------

/// The characters with the Unicode `White_Space` property: what
/// `char::is_whitespace` tests for.
pub open spec fn is_ws(c: char) -> bool {
    ||| c == ' '
    ||| ('\t' <= c && c <= '\r')
    ||| c == '\u{85}'
    ||| c == '\u{a0}'
    ||| c == '\u{1680}'
    ||| ('\u{2000}' <= c && c <= '\u{200a}')
    ||| c == '\u{2028}'
    ||| c == '\u{2029}'
    ||| c == '\u{202f}'
    ||| c == '\u{205f}'
    ||| c == '\u{3000}'
}

pub fn is_whitespace(c: char) -> (b: bool)
    ensures
        b == is_ws(c),
{
    c == ' ' || ('\t' <= c && c <= '\r') || c == '\u{85}' || c == '\u{a0}' || c == '\u{1680}'
        || ('\u{2000}' <= c && c <= '\u{200a}') || c == '\u{2028}' || c == '\u{2029}'
        || c == '\u{202f}' || c == '\u{205f}' || c == '\u{3000}'
}

/// ASCII lower-casing of one character (`char::to_ascii_lowercase`).
pub open spec fn ascii_lower(c: char) -> char {
    if 'A' <= c && c <= 'Z' {
        ((c as u32) + 32) as char
    } else {
        c
    }
}

pub fn to_ascii_lower(c: char) -> (r: char)
    ensures
        r == ascii_lower(c),
{
    if 'A' <= c && c <= 'Z' {
        let u: u32 = (c as u32) + 32;
        assert(0x61 <= u && u <= 0x7a);
        char_from_ascii(u)
    } else {
        c
    }
}

fn char_from_ascii(u: u32) -> (c: char)
    requires
        u < 0x80,
    ensures
        c == u as char,
{
    (u as u8) as char
}


// ---------------------------------------------------------------------------
// Conversions
// ---------------------------------------------------------------------------

/// The characters of `s`, in order.
pub fn chars_of(s: &str) -> (v: Vec<char>)
    ensures
        v@ == s@,
{
    let mut v: Vec<char> = Vec::new();
    for c in it: s.chars()
        invariant
            v@ == it.seq().take(it.index() as int),
            it.seq() == s@,
    {
        v.push(c);
    }
    v
}

/// A `String` holding exactly the characters `v`.
pub fn string_of(v: &[char]) -> (s: String)
    ensures
        s@ == v@,
{
    let mut s = String::new();
    let mut i: usize = 0;
    while i < v.len()
        invariant
            i <= v@.len(),
            s@ == v@.take(i as int),
        decreases v@.len() - i,
    {
        s.push(v[i]);
        i += 1;
        assert(s@ =~= v@.take(i as int));
    }
    assert(v@.take(v@.len() as int) =~= v@);
    s
}

/// The characters `v[lo..hi]` as a vector.
pub fn slice_chars(v: &[char], lo: usize, hi: usize) -> (r: Vec<char>)
    requires
        lo <= hi <= v@.len(),
    ensures
        r@ == v@.subrange(lo as int, hi as int),
{
    let mut r: Vec<char> = Vec::new();
    let mut i = lo;
    while i < hi
        invariant
            lo <= i <= hi <= v@.len(),
            r@ == v@.subrange(lo as int, i as int),
        decreases hi - i,
    {
        r.push(v[i]);
        i += 1;
        assert(r@ =~= v@.subrange(lo as int, i as int));
    }
    r
}

/// Appends the characters of `v` at the end of `s`.
pub fn push_chars(s: &mut String, v: &[char])
    ensures
        final(s)@ == old(s)@ + v@,
{
    let mut i: usize = 0;
    while i < v.len()
        invariant
            i <= v@.len(),
            s@ == old(s)@ + v@.take(i as int),
        decreases v@.len() - i,
    {
        s.push(v[i]);
        i += 1;
        assert(s@ =~= old(s)@ + v@.take(i as int));
    }
    assert(v@.take(v@.len() as int) =~= v@);
}

/// Appends the characters of `t` at the end of `s`.
pub fn push_str(s: &mut String, t: &str)
    ensures
        final(s)@ == old(s)@ + t@,
{
    let v = chars_of(t);
    push_chars(s, v.as_slice());
}

// ---------------------------------------------------------------------------
// Prefixes, suffixes and occurrences
// ---------------------------------------------------------------------------

pub open spec fn starts_with(s: Seq<char>, p: Seq<char>) -> bool {
    p.len() <= s.len() && s.take(p.len() as int) == p
}

pub open spec fn ends_with(s: Seq<char>, p: Seq<char>) -> bool {
    p.len() <= s.len() && s.skip(s.len() - p.len()) == p
}

/// `p` occurs in `s` starting at index `i`.
pub open spec fn occurs_at(s: Seq<char>, p: Seq<char>, i: int) -> bool {
    0 <= i && i + p.len() <= s.len() && s.subrange(i, i + p.len()) == p
}

/// The first index at or after `i` where `p` occurs in `s`.
pub open spec fn find_from(s: Seq<char>, p: Seq<char>, i: int) -> Option<int>
    decreases s.len() + 1 - i,
{
    if i < 0 || i + p.len() > s.len() {
        None
    } else if occurs_at(s, p, i) {
        Some(i)
    } else {
        find_from(s, p, i + 1)
    }
}

/// The first index where `p` occurs in `s` (`str::find`).
pub open spec fn find(s: Seq<char>, p: Seq<char>) -> Option<int> {
    find_from(s, p, 0)
}

/// `str::contains` with a string pattern.
pub open spec fn contains(s: Seq<char>, p: Seq<char>) -> bool {
    find(s, p) is Some
}

/// `str::split_once` with a string pattern.
pub open spec fn split_once(s: Seq<char>, p: Seq<char>) -> Option<(Seq<char>, Seq<char>)> {
    match find(s, p) {
        Some(i) => Some((s.take(i), s.skip(i + p.len()))),
        None => None,
    }
}

pub fn has_prefix(s: &[char], p: &[char]) -> (b: bool)
    ensures
        b == starts_with(s@, p@),
{
    if p.len() > s.len() {
        return false;
    }
    let mut i: usize = 0;
    while i < p.len()
        invariant
            p@.len() <= s@.len(),
            i <= p@.len(),
            forall|k: int| 0 <= k < i ==> s@[k] == p@[k],
        decreases p@.len() - i,
    {
        if s[i] != p[i] {
            assert(s@.take(p@.len() as int)[i as int] != p@[i as int]);
            return false;
        }
        i += 1;
    }
    assert(s@.take(p@.len() as int) =~= p@);
    true
}

/// `p` occurs in `s` at index `i` (exec).
pub fn matches_at(s: &[char], p: &[char], i: usize) -> (b: bool)
    ensures
        b == occurs_at(s@, p@, i as int),
{
    if i > s.len() || p.len() > s.len() - i {
        return false;
    }
    let mut k: usize = 0;
    while k < p.len()
        invariant
            i + p@.len() <= s@.len(),
            s@.len() == s.len(),
            k <= p@.len(),
            forall|j: int| 0 <= j < k ==> s@[i + j] == p@[j],
        decreases p@.len() - k,
    {
        assert(i + k < s@.len());
        if s[i + k] != p[k] {
            assert(s@.subrange(i as int, i + p@.len())[k as int] != p@[k as int]);
            return false;
        }
        k += 1;
    }
    assert(s@.subrange(i as int, i + p@.len()) =~= p@);
    true
}

pub fn has_suffix(s: &[char], p: &[char]) -> (b: bool)
    ensures
        b == ends_with(s@, p@),
{
    if p.len() > s.len() {
        return false;
    }
    let b = matches_at(s, p, s.len() - p.len());
    assert(s@.subrange(s@.len() - p@.len(), s@.len() as int) =~= s@.skip(s@.len() - p@.len()));
    b
}

/// The first occurrence of `p` in `s` (`str::find`).
pub fn find_str(s: &[char], p: &[char]) -> (r: Option<usize>)
    ensures
        r matches Some(i) ==> find(s@, p@) == Some(i as int),
        r is None ==> find(s@, p@) is None,
{
    if p.len() > s.len() {
        return None;
    }
    if p.len() == 0 {
        assert(s@.subrange(0, 0) =~= p@);
        return Some(0);
    }
    let last = s.len() - p.len();
    let mut i: usize = 0;
    while i <= last
        invariant
            last + p@.len() == s@.len(),
            s@.len() == s.len(),
            p@.len() > 0,
            i <= last + 1,
            find(s@, p@) == find_from(s@, p@, i as int),
        decreases last + 1 - i,
    {
        if matches_at(s, p, i) {
            return Some(i);
        }
        i += 1;
    }
    None
}

pub fn contains_str(s: &[char], p: &[char]) -> (b: bool)
    ensures
        b == contains(s@, p@),
{
    find_str(s, p).is_some()
}

/// `str::split_once` with a string pattern.
pub fn split_once_str(s: &[char], p: &[char]) -> (r: Option<(Vec<char>, Vec<char>)>)
    ensures
        r matches Some(x) ==> split_once(s@, p@) == Some((x.0@, x.1@)),
        r is None ==> split_once(s@, p@) is None,
{
    match find_str(s, p) {
        Some(i) => {
            proof { lemma_find_from_bounds(s@, p@, 0); }
            assert(occurs_at(s@, p@, i as int));
            assert(s@.len() == s.len());
            Some((slice_chars(s, 0, i), slice_chars(s, i + p.len(), s.len())))
        }
        None => None,
    }
}

pub proof fn lemma_find_from_bounds(s: Seq<char>, p: Seq<char>, i: int)
    ensures
        find_from(s, p, i) matches Some(k) ==> i <= k && occurs_at(s, p, k),
    decreases s.len() + 1 - i,
{
    if !(i < 0 || i + p.len() > s.len()) && !occurs_at(s, p, i) {
        lemma_find_from_bounds(s, p, i + 1);
    }
}

// ---------------------------------------------------------------------------
// Trimming
// ---------------------------------------------------------------------------

/// `str::trim_start`.
pub open spec fn trim_start(s: Seq<char>) -> Seq<char>
    decreases s.len(),
{
    if s.len() > 0 && is_ws(s[0]) {
        trim_start(s.drop_first())
    } else {
        s
    }
}

/// `str::trim_end`.
pub open spec fn trim_end(s: Seq<char>) -> Seq<char>
    decreases s.len(),
{
    if s.len() > 0 && is_ws(s.last()) {
        trim_end(s.drop_last())
    } else {
        s
    }
}

/// `str::trim`.
pub open spec fn trim(s: Seq<char>) -> Seq<char> {
    trim_end(trim_start(s))
}

/// `str::trim_start_matches` with a single character.
pub open spec fn trim_start_char(s: Seq<char>, c: char) -> Seq<char>
    decreases s.len(),
{
    if s.len() > 0 && s[0] == c {
        trim_start_char(s.drop_first(), c)
    } else {
        s
    }
}

/// `str::trim_end_matches` with a non-empty string pattern.
pub open spec fn trim_end_str(s: Seq<char>, p: Seq<char>) -> Seq<char>
    decreases s.len(),
{
    if p.len() > 0 && ends_with(s, p) {
        proof { assert(s.take(s.len() - p.len()).len() < s.len()); }
        trim_end_str(s.take(s.len() - p.len()), p)
    } else {
        s
    }
}

/// Index of the first character of `s[i..]` that is not white space.
fn skip_ws_from(v: &[char], i: usize) -> (j: usize)
    requires
        i <= v@.len(),
    ensures
        i <= j <= v@.len(),
        trim_start(v@.skip(i as int)) == v@.skip(j as int),
{
    let mut j = i;
    while j < v.len() && is_whitespace(v[j])
        invariant
            i <= j <= v@.len(),
            trim_start(v@.skip(i as int)) == trim_start(v@.skip(j as int)),
        decreases v@.len() - j,
    {
        assert(v@.skip(j as int).drop_first() =~= v@.skip(j + 1));
        j += 1;
    }
    j
}

/// `str::trim_start`.
pub fn trim_start_chars(v: &[char]) -> (r: Vec<char>)
    ensures
        r@ == trim_start(v@),
{
    let j = skip_ws_from(v, 0);
    assert(v@.skip(0) =~= v@);
    assert(v@.subrange(j as int, v@.len() as int) =~= v@.skip(j as int));
    slice_chars(v, j, v.len())
}

/// `str::trim_end`.
pub fn trim_end_chars(v: &[char]) -> (r: Vec<char>)
    ensures
        r@ == trim_end(v@),
{
    let mut j = v.len();
    assert(v@.take(v@.len() as int) =~= v@);
    while j > 0 && is_whitespace(v[j - 1])
        invariant
            j <= v@.len(),
            trim_end(v@) == trim_end(v@.take(j as int)),
        decreases j,
    {
        assert(v@.take(j as int).drop_last() =~= v@.take(j - 1));
        j -= 1;
    }
    assert(v@.subrange(0, j as int) =~= v@.take(j as int));
    slice_chars(v, 0, j)
}

/// `str::trim`.
pub fn trim_chars(v: &[char]) -> (r: Vec<char>)
    ensures
        r@ == trim(v@),
{
    let a = trim_start_chars(v);
    trim_end_chars(a.as_slice())
}

/// `str::trim_start_matches(c)`.
pub fn trim_start_char_chars(v: &[char], c: char) -> (r: Vec<char>)
    ensures
        r@ == trim_start_char(v@, c),
{
    let mut j: usize = 0;
    assert(v@.skip(0) =~= v@);
    while j < v.len() && v[j] == c
        invariant
            j <= v@.len(),
            trim_start_char(v@, c) == trim_start_char(v@.skip(j as int), c),
        decreases v@.len() - j,
    {
        assert(v@.skip(j as int).drop_first() =~= v@.skip(j + 1));
        j += 1;
    }
    assert(v@.subrange(j as int, v@.len() as int) =~= v@.skip(j as int));
    slice_chars(v, j, v.len())
}

/// `str::trim_end_matches(p)` for a non-empty pattern.
pub fn trim_end_str_chars(v: &[char], p: &[char]) -> (r: Vec<char>)
    requires
        p@.len() > 0,
    ensures
        r@ == trim_end_str(v@, p@),
{
    let mut j = v.len();
    assert(v@.take(v@.len() as int) =~= v@);
    while j >= p.len() && matches_at(v, p, j - p.len())
        invariant
            j <= v@.len(),
            p@.len() > 0,
            trim_end_str(v@, p@) == trim_end_str(v@.take(j as int), p@),
        decreases j,
    {
        assert(v@.subrange(j - p@.len(), j as int) =~= v@.take(j as int).skip(j - p@.len()));
        assert(v@.take(j as int).take(j - p@.len()) =~= v@.take(j - p@.len()));
        j -= p.len();
    }
    proof {
        if j >= p@.len() {
            assert(v@.subrange(j - p@.len(), j as int) =~= v@.take(j as int).skip(j - p@.len()));
        }
    }
    assert(v@.subrange(0, j as int) =~= v@.take(j as int));
    slice_chars(v, 0, j)
}


// ---------------------------------------------------------------------------
// Splitting
// ---------------------------------------------------------------------------

/// The first index at or after `i` holding `c`, or `s.len()` when none does.
pub open spec fn char_from(s: Seq<char>, c: char, i: int) -> int
    decreases s.len() - i,
{
    if 0 <= i < s.len() && s[i] != c {
        char_from(s, c, i + 1)
    } else {
        i
    }
}

pub proof fn lemma_char_from(s: Seq<char>, c: char, i: int)
    requires
        0 <= i <= s.len(),
    ensures
        i <= char_from(s, c, i) <= s.len(),
        char_from(s, c, i) < s.len() ==> s[char_from(s, c, i)] == c,
        forall|k: int| i <= k < char_from(s, c, i) ==> s[k] != c,
    decreases s.len() - i,
{
    if i < s.len() && s[i] != c {
        lemma_char_from(s, c, i + 1);
    }
}

/// The pieces of `s[i..]` between occurrences of `c` (`str::split` with a
/// character pattern, applied to the suffix starting at `i`).
pub open spec fn split_char_from(s: Seq<char>, c: char, i: int) -> Seq<Seq<char>>
    decreases s.len() - i,
{
    if i < 0 || i > s.len() {
        Seq::empty()
    } else {
        let j = char_from(s, c, i);
        proof {
            lemma_char_from(s, c, i);
        }
        if j >= s.len() {
            seq![s.subrange(i, s.len() as int)]
        } else {
            seq![s.subrange(i, j)] + split_char_from(s, c, j + 1)
        }
    }
}

/// Splitting always yields at least one piece.
pub proof fn lemma_split_nonempty(s: Seq<char>, c: char)
    ensures
        split_char(s, c).len() >= 1,
{
    lemma_char_from(s, c, 0);
    if char_from(s, c, 0) < s.len() {
        assert(split_char(s, c) == seq![s.subrange(0, char_from(s, c, 0))] + split_char_from(s, c, char_from(s, c, 0) + 1));
    }
}

/// `str::split` with a character pattern.
pub open spec fn split_char(s: Seq<char>, c: char) -> Seq<Seq<char>> {
    split_char_from(s, c, 0)
}

/// `s` with one trailing carriage return removed.
pub open spec fn strip_cr(s: Seq<char>) -> Seq<char> {
    if s.len() > 0 && s.last() == '\r' {
        s.drop_last()
    } else {
        s
    }
}

/// The lines of `s[i..]`, as `str::lines` yields them: split at `\n`, a
/// `\r` before the `\n` dropped, and no empty last line after a final `\n`.
pub open spec fn lines_from(s: Seq<char>, i: int) -> Seq<Seq<char>>
    decreases s.len() - i,
{
    if i < 0 || i >= s.len() {
        Seq::empty()
    } else {
        let j = char_from(s, '\n', i);
        proof {
            lemma_char_from(s, '\n', i);
        }
        if j >= s.len() {
            seq![s.subrange(i, s.len() as int)]
        } else {
            seq![strip_cr(s.subrange(i, j))] + lines_from(s, j + 1)
        }
    }
}

/// `str::lines`.
pub open spec fn lines(s: Seq<char>) -> Seq<Seq<char>> {
    lines_from(s, 0)
}

/// The first index at or after `i` that is not white space (or `s.len()`).
pub open spec fn non_ws_from(s: Seq<char>, i: int) -> int
    decreases s.len() - i,
{
    if 0 <= i < s.len() && is_ws(s[i]) {
        non_ws_from(s, i + 1)
    } else {
        i
    }
}

/// The first index at or after `i` that is white space (or `s.len()`).
pub open spec fn ws_from(s: Seq<char>, i: int) -> int
    decreases s.len() - i,
{
    if 0 <= i < s.len() && !is_ws(s[i]) {
        ws_from(s, i + 1)
    } else {
        i
    }
}

pub proof fn lemma_non_ws_from(s: Seq<char>, i: int)
    requires
        0 <= i <= s.len(),
    ensures
        i <= non_ws_from(s, i) <= s.len(),
        non_ws_from(s, i) < s.len() ==> !is_ws(s[non_ws_from(s, i)]),
    decreases s.len() - i,
{
    if i < s.len() && is_ws(s[i]) {
        lemma_non_ws_from(s, i + 1);
    }
}

pub proof fn lemma_ws_from(s: Seq<char>, i: int)
    requires
        0 <= i <= s.len(),
    ensures
        i <= ws_from(s, i) <= s.len(),
        i < s.len() && !is_ws(s[i]) ==> i < ws_from(s, i),
    decreases s.len() - i,
{
    if i < s.len() && !is_ws(s[i]) {
        lemma_ws_from(s, i + 1);
    }
}

/// No white space lies between `i` and `ws_from(s, i)`.
pub proof fn lemma_ws_from_first(s: Seq<char>, i: int, j: int)
    requires
        0 <= i <= j < s.len(),
        is_ws(s[j]),
    ensures
        ws_from(s, i) <= j,
        is_ws(s[ws_from(s, i)]),
        forall|m: int| i <= m < ws_from(s, i) ==> !is_ws(#[trigger] s[m]),
    decreases s.len() - i,
{
    if !is_ws(s[i]) {
        lemma_ws_from_first(s, i + 1, j);
    }
}

/// Trimming the start of `s` keeps its last `m` characters when none of
/// them is white space.
pub proof fn lemma_trim_start_keeps_tail(s: Seq<char>, m: int)
    requires
        0 < m <= s.len(),
        forall|p: int| s.len() - m <= p < s.len() ==> !is_ws(#[trigger] s[p]),
    ensures
        trim_start(s).len() >= m,
        trim_start(s).skip(trim_start(s).len() - m) == s.skip(s.len() - m),
        !is_ws(trim_start(s).last()),
    decreases s.len(),
{
    if is_ws(s[0]) {
        let t = s.drop_first();
        assert forall|p: int| t.len() - m <= p < t.len() implies !is_ws(#[trigger] t[p]) by {
            assert(t[p] == s[p + 1]);
        }
        lemma_trim_start_keeps_tail(t, m);
        assert(t.skip(t.len() - m) =~= s.skip(s.len() - m));
    } else {
        assert(s[s.len() - 1] == s.last());
    }
}

/// Trimming the end of `s` changes nothing when its last character is not
/// white space; trimming its start, when its first is not.
pub proof fn lemma_trim_noop(s: Seq<char>)
    ensures
        s.len() > 0 && !is_ws(s.last()) ==> trim_end(s) == s,
        s.len() > 0 && !is_ws(s[0]) ==> trim_start(s) == s,
{
}

/// The white-space separated words of `s[i..]` (`str::split_whitespace`).
pub open spec fn words_from(s: Seq<char>, i: int) -> Seq<Seq<char>>
    decreases s.len() - i,
{
    if i < 0 || i > s.len() {
        Seq::empty()
    } else {
        let a = non_ws_from(s, i);
        proof {
            lemma_non_ws_from(s, i);
        }
        if a >= s.len() {
            Seq::empty()
        } else {
            let b = ws_from(s, a);
            proof {
                lemma_ws_from(s, a);
            }
            seq![s.subrange(a, b)] + words_from(s, b)
        }
    }
}

/// `str::split_whitespace`.
pub open spec fn words(s: Seq<char>) -> Seq<Seq<char>> {
    words_from(s, 0)
}

/// The last index of `c` among the first `n` characters of `s`.
pub open spec fn rfind_before(s: Seq<char>, c: char, n: int) -> Option<int>
    decreases n,
{
    if n <= 0 || n > s.len() {
        None
    } else if s[n - 1] == c {
        Some(n - 1)
    } else {
        rfind_before(s, c, n - 1)
    }
}

/// `str::rfind` with a character pattern.
pub open spec fn rfind(s: Seq<char>, c: char) -> Option<int> {
    rfind_before(s, c, s.len() as int)
}

/// `str::eq_ignore_ascii_case`.
pub open spec fn eq_ignore_case(a: Seq<char>, b: Seq<char>) -> bool {
    a.len() == b.len() && forall|i: int| 0 <= i < a.len() ==> ascii_lower(a[i]) == ascii_lower(b[i])
}

/// The view of a vector of character vectors, element by element.
pub open spec fn seqs_of(v: Seq<Vec<char>>) -> Seq<Seq<char>> {
    v.map_values(|x: Vec<char>| x@)
}

fn char_index_from(v: &[char], c: char, i: usize) -> (j: usize)
    requires
        i <= v@.len(),
    ensures
        j == char_from(v@, c, i as int),
        i <= j <= v@.len(),
{
    let mut j = i;
    while j < v.len() && v[j] != c
        invariant
            i <= j <= v@.len(),
            char_from(v@, c, i as int) == char_from(v@, c, j as int),
        decreases v@.len() - j,
    {
        j += 1;
    }
    j
}

/// `str::split` with a character pattern.
pub fn split_on(v: &[char], c: char) -> (r: Vec<Vec<char>>)
    ensures
        seqs_of(r@) == split_char(v@, c),
{
    let mut r: Vec<Vec<char>> = Vec::new();
    let mut i: usize = 0;
    loop
        invariant
            i <= v@.len(),
            split_char(v@, c) == seqs_of(r@) + split_char_from(v@, c, i as int),
        decreases v@.len() - i,
    {
        let j = char_index_from(v, c, i);
        let piece = slice_chars(v, i, j);
        let ghost before = r@;
        r.push(piece);
        assert(seqs_of(r@) =~= seqs_of(before).push(piece@));
        if j >= v.len() {
            assert(split_char_from(v@, c, i as int) == seq![piece@]);
            assert(split_char(v@, c) =~= seqs_of(r@));
            return r;
        }
        assert(split_char_from(v@, c, i as int) == seq![piece@] + split_char_from(v@, c, j + 1));
        assert(split_char(v@, c) =~= seqs_of(r@) + split_char_from(v@, c, j + 1));
        i = j + 1;
    }
}

/// `str::lines`.
pub fn split_lines(v: &[char]) -> (r: Vec<Vec<char>>)
    ensures
        seqs_of(r@) == lines(v@),
{
    let mut r: Vec<Vec<char>> = Vec::new();
    let mut i: usize = 0;
    assert(seqs_of(r@) =~= Seq::<Seq<char>>::empty());
    while i < v.len()
        invariant
            i <= v@.len(),
            lines(v@) == seqs_of(r@) + lines_from(v@, i as int),
        decreases v@.len() - i,
    {
        let j = char_index_from(v, '\n', i);
        let ghost before = r@;
        if j >= v.len() {
            let piece = slice_chars(v, i, j);
            r.push(piece);
            assert(seqs_of(r@) =~= seqs_of(before).push(piece@));
            assert(lines_from(v@, i as int) == seq![piece@]);
            assert(lines(v@) =~= seqs_of(r@));
            return r;
        }
        let end = if j > i && v[j - 1] == '\r' { j - 1 } else { j };
        let piece = slice_chars(v, i, end);
        assert(piece@ == strip_cr(v@.subrange(i as int, j as int))) by {
            if j > i && v@[j - 1] == '\r' {
                assert(v@.subrange(i as int, j as int).drop_last() =~= v@.subrange(i as int, j - 1));
            }
        }
        r.push(piece);
        assert(seqs_of(r@) =~= seqs_of(before).push(piece@));
        assert(lines(v@) =~= seqs_of(r@) + lines_from(v@, j + 1));
        i = j + 1;
    }
    assert(lines_from(v@, i as int) =~= Seq::<Seq<char>>::empty());
    assert(lines(v@) =~= seqs_of(r@));
    r
}

/// `str::split_whitespace`.
pub fn split_words(v: &[char]) -> (r: Vec<Vec<char>>)
    ensures
        seqs_of(r@) == words(v@),
{
    let mut r: Vec<Vec<char>> = Vec::new();
    let mut i: usize = 0;
    assert(seqs_of(r@) =~= Seq::<Seq<char>>::empty());
    loop
        invariant
            i <= v@.len(),
            words(v@) == seqs_of(r@) + words_from(v@, i as int),
        decreases v@.len() - i,
    {
        let mut a = i;
        while a < v.len() && is_whitespace(v[a])
            invariant
                i <= a <= v@.len(),
                non_ws_from(v@, i as int) == non_ws_from(v@, a as int),
            decreases v@.len() - a,
        {
            a += 1;
        }
        if a >= v.len() {
            assert(words_from(v@, i as int) =~= Seq::<Seq<char>>::empty());
            assert(words(v@) =~= seqs_of(r@));
            return r;
        }
        let mut b = a;
        while b < v.len() && !is_whitespace(v[b])
            invariant
                a <= b <= v@.len(),
                ws_from(v@, a as int) == ws_from(v@, b as int),
            decreases v@.len() - b,
        {
            b += 1;
        }
        proof { lemma_ws_from(v@, a as int); }
        let piece = slice_chars(v, a, b);
        let ghost before = r@;
        r.push(piece);
        assert(seqs_of(r@) =~= seqs_of(before).push(piece@));
        assert(words_from(v@, i as int) == seq![piece@] + words_from(v@, b as int));
        assert(words(v@) =~= seqs_of(r@) + words_from(v@, b as int));
        i = b;
    }
}

/// `str::rfind` with a character pattern.
pub fn rfind_char(v: &[char], c: char) -> (r: Option<usize>)
    ensures
        r matches Some(i) ==> rfind(v@, c) == Some(i as int) && i < v@.len(),
        r is None ==> rfind(v@, c) is None,
{
    let mut n = v.len();
    while n > 0
        invariant
            n <= v@.len(),
            rfind(v@, c) == rfind_before(v@, c, n as int),
        decreases n,
    {
        if v[n - 1] == c {
            return Some(n - 1);
        }
        n -= 1;
    }
    None
}

/// `str::eq_ignore_ascii_case`.
pub fn eq_ignore_ascii_case(a: &[char], b: &[char]) -> (r: bool)
    ensures
        r == eq_ignore_case(a@, b@),
{
    if a.len() != b.len() {
        return false;
    }
    let mut i: usize = 0;
    while i < a.len()
        invariant
            a@.len() == b@.len(),
            i <= a@.len(),
            forall|k: int| 0 <= k < i ==> ascii_lower(a@[k]) == ascii_lower(b@[k]),
        decreases a@.len() - i,
    {
        if to_ascii_lower(a[i]) != to_ascii_lower(b[i]) {
            return false;
        }
        i += 1;
    }
    true
}

// ---------------------------------------------------------------------------
// Numbers
// ---------------------------------------------------------------------------

/// The decimal digit character for `d < 10`.
pub open spec fn digit(d: nat) -> char {
    ((48 + d) as u32) as char
}

/// The decimal representation of `n` (what `format!("{n}")` prints).
pub open spec fn decimal(n: nat) -> Seq<char>
    decreases n,
{
    if n < 10 {
        seq![digit(n)]
    } else {
        decimal(n / 10).push(digit(n % 10))
    }
}

/// Appends the decimal representation of `n` to `s`.
pub fn push_decimal(s: &mut String, n: usize)
    ensures
        final(s)@ == old(s)@ + decimal(n as nat),
    decreases n,
{
    if n >= 10 {
        push_decimal(s, n / 10);
    }
    let d: u32 = (n % 10) as u32;
    s.push(char_from_ascii(48 + d));
    assert(s@ =~= old(s)@ + decimal(n as nat));
}

} // verus!
