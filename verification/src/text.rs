//! Character-level text helpers shared by the formatting and parsing code.
//!
//! Strings are reasoned about through their view, a `Seq<char>`.

use vstd::prelude::*;
use vstd::string::StringSliceAdditionalSpecFns;
use vstd::utf8::{decode_utf8, encode_utf8, is_char_boundary};

verus! {

// ---------------------------------------------------------------------------
// std string primitives that vstd leaves unspecified
// ---------------------------------------------------------------------------

/// The characters of `s` in order.
pub fn chars_of(s: &str) -> (r: Vec<char>)
    ensures
        r@ == s@,
{
    broadcast use vstd::string::axiom_spec_iter;
    let mut out: Vec<char> = Vec::new();
    for c in it: s.chars()
        invariant
            it.seq() == s@,
            out@ == it.seq().take(it.index() as int),
    {
        out.push(c);
        assert(out@ =~= it.seq().take(it.index() + 1));
    }
    assert(out@ =~= s@);
    out
}

/// `String::from_iter` over characters: the string made of `v` in order.
#[verifier::external_body]
pub fn string_of(v: &[char]) -> (r: String)
    ensures
        r@ == v@,
{
    v.iter().collect()
}

/// Whether two strings hold the same characters.
pub fn str_eq(a: &str, b: &str) -> (r: bool)
    ensures
        r == (a@ == b@),
{
    if a.len() != b.len() {
        proof {
            if a@ == b@ {
                assert(a.spec_bytes() == b.spec_bytes());
            }
        }
        return false;
    }
    let x = chars_of(a);
    let y = chars_of(b);
    if x.len() != y.len() {
        return false;
    }
    let mut i: usize = 0;
    while i < x.len()
        invariant
            i <= x@.len(),
            x@.len() == y@.len(),
            x@ == a@,
            y@ == b@,
            forall|j: int| 0 <= j < i ==> x@[j] == y@[j],
        decreases x.len() - i,
    {
        if x[i] != y[i] {
            return false;
        }
        i = i + 1;
    }
    assert(x@ =~= y@);
    true
}

/// What `str::to_lowercase` returns: the Unicode lower-case mapping of each character.
pub uninterp spec fn lowercase(s: Seq<char>) -> Seq<char>;

/// Whether every character is ASCII.
pub open spec fn is_ascii_seq(s: Seq<char>) -> bool {
    forall|i: int| 0 <= i < s.len() ==> (#[trigger] s[i]) < '\u{80}'
}

/// A character with `A` to `Z` mapped to `a` to `z`.
pub open spec fn ascii_lower_char(c: char) -> char {
    if 'A' <= c && c <= 'Z' { ((c as u32) + 32) as char } else { c }
}

/// Each character with `A` to `Z` mapped to `a` to `z`.
pub open spec fn ascii_lower(s: Seq<char>) -> Seq<char> {
    s.map_values(|c: char| ascii_lower_char(c))
}

/// `str::to_lowercase`. On ASCII text the Unicode mapping is the ASCII one: `A`
/// to `Z` become `a` to `z` and every other character stays; nothing more is
/// stated of other text.
#[verifier::external_body]
pub fn to_lowercase(s: &str) -> (r: String)
    ensures
        r@ == lowercase(s@),
        is_ascii_seq(s@) ==> r@ == ascii_lower(s@),
{
    s.to_lowercase()
}

/// A string literal as an owned `String`.
pub fn owned(s: &str) -> (r: String)
    ensures
        r@ == s@,
{
    String::from_str(s)
}

/// A copy of an optional string.
pub fn clone_opt_string(o: &Option<String>) -> (r: Option<String>)
    ensures
        r == *o,
{
    match o {
        Some(s) => Some(s.clone()),
        None => None,
    }
}

/// A copy of a vector of strings.
pub fn clone_strings(v: &Vec<String>) -> (r: Vec<String>)
    ensures
        r@ == v@,
{
    let mut out: Vec<String> = Vec::new();
    let mut i: usize = 0;
    while i < v.len()
        invariant
            i <= v.len(),
            out@ == v@.take(i as int),
        decreases v.len() - i,
    {
        out.push(v[i].clone());
        i = i + 1;
        assert(out@ =~= v@.take(i as int));
    }
    assert(v@.take(v@.len() as int) =~= v@);
    out
}

/// The views of a sequence of strings.
pub open spec fn views(v: Seq<String>) -> Seq<Seq<char>> {
    v.map_values(|s: String| s@)
}

/// `parts.join(sep)`: the parts with `sep` between neighbours.
pub open spec fn join_seq(parts: Seq<Seq<char>>, sep: Seq<char>) -> Seq<char>
    decreases parts.len(),
{
    if parts.len() == 0 {
        Seq::empty()
    } else if parts.len() == 1 {
        parts[0]
    } else {
        join_seq(parts.drop_last(), sep) + sep + parts.last()
    }
}

/// `parts.join(sep)` for a vector of strings.
pub fn join(parts: &Vec<String>, sep: &str) -> (r: String)
    ensures
        r@ == join_seq(views(parts@), sep@),
{
    let mut out = String::new();
    let ghost vs = views(parts@);
    let mut i: usize = 0;
    while i < parts.len()
        invariant
            i <= parts.len(),
            vs == views(parts@),
            vs.len() == parts@.len(),
            out@ == join_seq(vs.take(i as int), sep@),
        decreases parts.len() - i,
    {
        if i == 0 {
            out.append(parts[i].as_str());
            assert(vs.take(1).drop_last() =~= vs.take(0));
        } else {
            out.append(sep);
            out.append(parts[i].as_str());
            assert(vs.take(i + 1).drop_last() =~= vs.take(i as int));
        }
        assert(vs.take(i + 1).last() == parts@[i as int]@);
        i = i + 1;
    }
    assert(vs.take(parts@.len() as int) =~= vs);
    out
}

// ---------------------------------------------------------------------------
// Substring predicates
// ---------------------------------------------------------------------------

/// `needle` occurs in `hay` starting at position `i`.
pub open spec fn occurs_at(hay: Seq<char>, needle: Seq<char>, i: int) -> bool {
    0 <= i && i + needle.len() <= hay.len() && hay.subrange(i, i + needle.len()) == needle
}

/// `needle` occurs somewhere in `hay` (`str::contains`).
pub open spec fn contains_seq(hay: Seq<char>, needle: Seq<char>) -> bool {
    exists|i: int| occurs_at(hay, needle, i)
}

/// `hay` begins with `prefix` (`str::starts_with`).
pub open spec fn starts_with_seq(hay: Seq<char>, prefix: Seq<char>) -> bool {
    prefix.len() <= hay.len() && hay.take(prefix.len() as int) == prefix
}

/// `hay` ends with `suffix` (`str::ends_with`).
pub open spec fn ends_with_seq(hay: Seq<char>, suffix: Seq<char>) -> bool {
    suffix.len() <= hay.len() && hay.skip(hay.len() - suffix.len()) == suffix
}

/// The first position at which `needle` occurs in `hay` (`str::find`).
pub open spec fn find_seq(hay: Seq<char>, needle: Seq<char>) -> Option<int> {
    if contains_seq(hay, needle) {
        Some(choose|i: int| occurs_at(hay, needle, i) && forall|j: int| 0 <= j < i ==> !occurs_at(hay, needle, j))
    } else {
        None
    }
}

/// Whether position `i` is the first occurrence.
pub open spec fn is_first_occurrence(hay: Seq<char>, needle: Seq<char>, i: int) -> bool {
    occurs_at(hay, needle, i) && forall|j: int| 0 <= j < i ==> !occurs_at(hay, needle, j)
}

/// Whether `needle` occurs at position `i`, checked character by character.
fn occurs_at_exec(hay: &Vec<char>, needle: &Vec<char>, i: usize) -> (r: bool)
    requires
        i + needle.len() <= hay.len(),
    ensures
        r == occurs_at(hay@, needle@, i as int),
{
    let n = needle.len();
    let mut k: usize = 0;
    while k < n
        invariant
            k <= n,
            n == needle.len(),
            i + n <= hay.len(),
            forall|t: int| 0 <= t < k ==> hay@[i + t] == needle@[t],
        decreases n - k,
    {
        if hay[i + k] != needle[k] {
            assert(hay@.subrange(i as int, i + n)[k as int] != needle@[k as int]);
            return false;
        }
        k = k + 1;
    }
    assert(hay@.subrange(i as int, i + n) =~= needle@);
    true
}

/// The first position of `needle` in `hay`, on character vectors.
pub fn find_chars(hay: &Vec<char>, needle: &Vec<char>) -> (r: Option<usize>)
    ensures
        match r {
            Some(i) => is_first_occurrence(hay@, needle@, i as int),
            None => !contains_seq(hay@, needle@),
        },
{
    let h = hay.len();
    let n = needle.len();
    if n > h {
        return None;
    }
    if n == 0 {
        assert(hay@.subrange(0, 0) =~= needle@);
        return Some(0);
    }
    let last = h - n;
    let mut i: usize = 0;
    while i <= last
        invariant
            h == hay.len(),
            n == needle.len(),
            n <= h,
            last == h - n,
            n >= 1,
            i <= last + 1,
            forall|j: int| 0 <= j < i ==> !occurs_at(hay@, needle@, j),
        decreases last + 1 - i,
    {
        if occurs_at_exec(hay, needle, i) {
            return Some(i);
        }
        i = i + 1;
    }
    None
}

/// Lemma: the first occurrence found is the one `find_seq` picks.
pub proof fn lemma_first_occurrence_unique(hay: Seq<char>, needle: Seq<char>, i: int)
    requires
        is_first_occurrence(hay, needle, i),
    ensures
        find_seq(hay, needle) == Some(i),
{
    assert(contains_seq(hay, needle));
    let k = choose|k: int| occurs_at(hay, needle, k) && forall|j: int| 0 <= j < k ==> !occurs_at(hay, needle, j);
    assert(occurs_at(hay, needle, k) && forall|j: int| 0 <= j < k ==> !occurs_at(hay, needle, j));
    if k < i {
        assert(!occurs_at(hay, needle, k));
    }
    if i < k {
        assert(!occurs_at(hay, needle, i));
    }
}

/// `hay.contains(needle)` on character vectors.
pub fn contains_chars(hay: &Vec<char>, needle: &Vec<char>) -> (r: bool)
    ensures
        r == contains_seq(hay@, needle@),
{
    match find_chars(hay, needle) {
        Some(_) => true,
        None => false,
    }
}

/// `hay.contains(needle)`.
pub fn contains(hay: &str, needle: &str) -> (r: bool)
    ensures
        r == contains_seq(hay@, needle@),
{
    let h = chars_of(hay);
    let n = chars_of(needle);
    contains_chars(&h, &n)
}

/// `hay.starts_with(prefix)` on character vectors.
pub fn starts_with_chars(hay: &Vec<char>, prefix: &Vec<char>) -> (r: bool)
    ensures
        r == starts_with_seq(hay@, prefix@),
{
    if prefix.len() > hay.len() {
        return false;
    }
    let r = occurs_at_exec(hay, prefix, 0);
    assert(hay@.subrange(0, prefix@.len() as int) =~= hay@.take(prefix@.len() as int));
    r
}

/// `hay.starts_with(prefix)`.
pub fn starts_with(hay: &str, prefix: &str) -> (r: bool)
    ensures
        r == starts_with_seq(hay@, prefix@),
{
    let h = chars_of(hay);
    let p = chars_of(prefix);
    starts_with_chars(&h, &p)
}

/// `hay.ends_with(suffix)`.
pub fn ends_with(hay: &str, suffix: &str) -> (r: bool)
    ensures
        r == ends_with_seq(hay@, suffix@),
{
    let h = chars_of(hay);
    let s = chars_of(suffix);
    if s.len() > h.len() {
        return false;
    }
    let start = h.len() - s.len();
    let r = occurs_at_exec(&h, &s, start);
    assert(h@.subrange(start as int, start + s@.len()) =~= h@.skip(h@.len() - s@.len()));
    r
}

/// The last position of `c` in `v` (`str::rfind` with a character).
pub fn rfind_char(v: &Vec<char>, c: char) -> (r: Option<usize>)
    ensures
        match r {
            Some(i) => i < v@.len() && v@[i as int] == c && forall|j: int| i < j < v@.len() ==> v@[j] != c,
            None => forall|j: int| 0 <= j < v@.len() ==> v@[j] != c,
        },
{
    let mut i = v.len();
    while i > 0
        invariant
            i <= v.len(),
            forall|j: int| i <= j < v@.len() ==> v@[j] != c,
        decreases i,
    {
        if v[i - 1] == c {
            return Some(i - 1);
        }
        i = i - 1;
    }
    None
}

/// The sub-vector `v[from..to]`.
pub fn slice_chars(v: &Vec<char>, from: usize, to: usize) -> (r: Vec<char>)
    requires
        from <= to <= v.len(),
    ensures
        r@ == v@.subrange(from as int, to as int),
{
    let mut out: Vec<char> = Vec::new();
    let mut i = from;
    while i < to
        invariant
            from <= i <= to,
            to <= v.len(),
            out@ == v@.subrange(from as int, i as int),
        decreases to - i,
    {
        out.push(v[i]);
        i = i + 1;
        assert(out@ =~= v@.subrange(from as int, i as int));
    }
    out
}

// ---------------------------------------------------------------------------
// Whitespace and trimming
// ---------------------------------------------------------------------------

/// `char::is_whitespace`: the Unicode `White_Space` property.
pub open spec fn is_whitespace(c: char) -> bool {
    ||| ('\u{9}' <= c && c <= '\u{d}')
    ||| c == ' '
    ||| c == '\u{85}'
    ||| c == '\u{a0}'
    ||| c == '\u{1680}'
    ||| ('\u{2000}' <= c && c <= '\u{200a}')
    ||| c == '\u{2028}'
    ||| c == '\u{2029}'
    ||| c == '\u{202f}'
    ||| c == '\u{205f}'
    ||| c == '\u{3000}'
}

/// `char::is_whitespace`.
pub fn is_whitespace_char(c: char) -> (r: bool)
    ensures
        r == is_whitespace(c),
{
    ('\u{9}' <= c && c <= '\u{d}') || c == ' ' || c == '\u{85}' || c == '\u{a0}' || c == '\u{1680}'
        || ('\u{2000}' <= c && c <= '\u{200a}') || c == '\u{2028}' || c == '\u{2029}'
        || c == '\u{202f}' || c == '\u{205f}' || c == '\u{3000}'
}

/// `s` with leading and trailing whitespace removed, given by its bounds:
/// `lo` is the first non-whitespace position and `hi` one past the last.
pub open spec fn trim_bounds(s: Seq<char>, lo: int, hi: int) -> bool {
    &&& 0 <= lo <= hi <= s.len()
    &&& forall|j: int| 0 <= j < lo ==> is_whitespace(s[j])
    &&& forall|j: int| hi <= j < s.len() ==> is_whitespace(s[j])
    &&& lo < hi ==> !is_whitespace(s[lo]) && !is_whitespace(s[hi - 1])
    &&& lo == hi ==> forall|j: int| 0 <= j < s.len() ==> is_whitespace(s[j])
}

/// `str::trim`: the string without leading and trailing whitespace.
pub open spec fn trim_seq(s: Seq<char>) -> Seq<char> {
    let (lo, hi) = choose|lo: int, hi: int| trim_bounds(s, lo, hi);
    s.subrange(lo, hi)
}

/// Lemma: there is one pair of trim bounds for each sequence, up to the empty result.
pub proof fn lemma_trim_bounds_determine(s: Seq<char>, lo: int, hi: int)
    requires
        trim_bounds(s, lo, hi),
    ensures
        trim_seq(s) == s.subrange(lo, hi),
{
    let (lo2, hi2) = choose|lo2: int, hi2: int| trim_bounds(s, lo2, hi2);
    assert(trim_bounds(s, lo2, hi2));
    if lo < hi {
        if lo2 < lo {
            assert(is_whitespace(s[lo2]));
            assert(lo2 == hi2 || !is_whitespace(s[lo2]));
            assert(lo2 == hi2);
            assert(is_whitespace(s[lo]));
        }
        if lo < lo2 {
            assert(is_whitespace(s[lo]));
        }
        if hi2 < hi {
            assert(is_whitespace(s[hi - 1]));
        }
        if hi < hi2 {
            assert(is_whitespace(s[hi2 - 1]));
            assert(lo2 < hi2);
        }
        assert(lo == lo2 && hi == hi2);
    } else {
        if lo2 < hi2 {
            assert(is_whitespace(s[lo2]));
        }
        assert(s.subrange(lo, hi) =~= Seq::<char>::empty());
        assert(s.subrange(lo2, hi2) =~= Seq::<char>::empty());
    }
}

/// `v.trim()` on a character vector.
pub fn trim_chars(v: &Vec<char>) -> (r: Vec<char>)
    ensures
        r@ == trim_seq(v@),
{
    let n = v.len();
    let mut lo: usize = 0;
    while lo < n && is_whitespace_char(v[lo])
        invariant
            lo <= n,
            n == v.len(),
            forall|j: int| 0 <= j < lo ==> is_whitespace(v@[j]),
        decreases n - lo,
    {
        lo = lo + 1;
    }
    let mut hi: usize = n;
    while hi > lo && is_whitespace_char(v[hi - 1])
        invariant
            lo <= hi <= n,
            n == v.len(),
            forall|j: int| hi <= j < n ==> is_whitespace(v@[j]),
            lo < n ==> !is_whitespace(v@[lo as int]),
        decreases hi,
    {
        hi = hi - 1;
    }
    proof {
        assert(trim_bounds(v@, lo as int, hi as int));
        lemma_trim_bounds_determine(v@, lo as int, hi as int);
    }
    slice_chars(v, lo, hi)
}

/// `s.trim()`.
pub fn trim(s: &str) -> (r: String)
    ensures
        r@ == trim_seq(s@),
{
    let v = chars_of(s);
    let t = trim_chars(&v);
    string_of(t.as_slice())
}

/// The number of characters before the first whitespace.
pub open spec fn word_len(s: Seq<char>) -> nat
    decreases s.len(),
{
    if s.len() == 0 || is_whitespace(s[0]) { 0 } else { 1 + word_len(s.skip(1)) }
}

/// A leading word fits in the text.
pub proof fn lemma_word_len_bound(s: Seq<char>)
    ensures
        word_len(s) <= s.len(),
        s.len() > 0 && !is_whitespace(s[0]) ==> word_len(s) >= 1,
    decreases s.len(),
{
    if s.len() > 0 && !is_whitespace(s[0]) {
        lemma_word_len_bound(s.skip(1));
    }
}

/// The whitespace-separated words of a text (`str::split_whitespace`).
pub open spec fn words(s: Seq<char>) -> Seq<Seq<char>>
    decreases s.len(),
{
    if s.len() == 0 {
        Seq::empty()
    } else if is_whitespace(s[0]) {
        words(s.skip(1))
    } else {
        proof {
            lemma_word_len_bound(s);
        }
        seq![s.take(word_len(s) as int)] + words(s.skip(word_len(s) as int))
    }
}

/// `s.split_whitespace()` collected into owned strings.
pub fn split_whitespace(s: &str) -> (r: Vec<String>)
    ensures
        views(r@) == words(s@),
{
    let v = chars_of(s);
    let mut out: Vec<String> = Vec::new();
    let mut i: usize = 0;
    assert(v@.skip(0) =~= v@);
    while i < v.len()
        invariant
            i <= v.len(),
            v@ == s@,
            views(out@) + words(v@.skip(i as int)) == words(v@),
        decreases v.len() - i,
    {
        if is_whitespace_char(v[i]) {
            assert(v@.skip(i as int).skip(1) =~= v@.skip(i + 1));
            i = i + 1;
        } else {
            let mut j: usize = i;
            while j < v.len() && !is_whitespace_char(v[j])
                invariant
                    i <= j <= v.len(),
                    word_len(v@.skip(i as int)) == (j - i) + word_len(v@.skip(j as int)),
                decreases v.len() - j,
            {
                assert(v@.skip(j as int).skip(1) =~= v@.skip(j + 1));
                j = j + 1;
            }
            proof {
                lemma_word_len_bound(v@.skip(i as int));
                assert(word_len(v@.skip(j as int)) == 0);
                assert(v@.skip(i as int).take((j - i) as int) =~= v@.subrange(i as int, j as int));
                assert(v@.skip(i as int).skip((j - i) as int) =~= v@.skip(j as int));
            }
            let w = slice_chars(&v, i, j);
            let ghost before = views(out@);
            out.push(string_of(w.as_slice()));
            proof {
                assert(views(out@) =~= before.push(v@.subrange(i as int, j as int)));
                assert(words(v@.skip(i as int)) == seq![v@.subrange(i as int, j as int)] + words(v@.skip(j as int)));
                assert(views(out@) + words(v@.skip(j as int)) =~= before + words(v@.skip(i as int)));
            }
            i = j;
        }
    }
    assert(words(v@.skip(v@.len() as int)) =~= Seq::<Seq<char>>::empty()) by {
        assert(v@.skip(v@.len() as int).len() == 0);
    }
    assert(views(out@) + Seq::<Seq<char>>::empty() =~= views(out@));
    out
}

// ---------------------------------------------------------------------------
// Decimal rendering of integers
// ---------------------------------------------------------------------------

/// The character of a decimal digit.
pub open spec fn digit_char(d: nat) -> char {
    if d == 0 { '0' }
    else if d == 1 { '1' }
    else if d == 2 { '2' }
    else if d == 3 { '3' }
    else if d == 4 { '4' }
    else if d == 5 { '5' }
    else if d == 6 { '6' }
    else if d == 7 { '7' }
    else if d == 8 { '8' }
    else { '9' }
}

/// The decimal representation of `n`, as `Display` prints an unsigned integer.
pub open spec fn decimal(n: nat) -> Seq<char>
    decreases n,
{
    if n < 10 {
        seq![digit_char(n)]
    } else {
        decimal(n / 10).push(digit_char(n % 10))
    }
}

/// The decimal representation of a signed integer, with a leading `-` when negative.
pub open spec fn signed_decimal(n: int) -> Seq<char> {
    if n < 0 {
        seq!['-'] + decimal((-n) as nat)
    } else {
        decimal(n as nat)
    }
}

/// `format!("{:02}", n)` for a signed integer: zero-padded to two characters after any sign.
pub open spec fn pad2_decimal(n: int) -> Seq<char> {
    if n < 0 {
        seq!['-'] + decimal((-n) as nat)
    } else if n < 10 {
        seq!['0'] + decimal(n as nat)
    } else {
        decimal(n as nat)
    }
}

/// Lemma: a decimal representation is a non-empty run of digits whose value is the number.
pub proof fn lemma_decimal_digits(n: nat)
    ensures
        decimal(n).len() > 0,
        forall|i: int| 0 <= i < decimal(n).len() ==> '0' <= #[trigger] decimal(n)[i] <= '9',
        crate::maint::update::digits_value(decimal(n)) == n,
    decreases n,
{
    if n < 10 {
        let s = decimal(n);
        assert(s.drop_last() =~= Seq::<char>::empty());
        assert(s.last() as int - '0' as int == n);
        assert(crate::maint::update::digits_value(Seq::<char>::empty()) == 0);
        assert(crate::maint::update::digits_value(s) == crate::maint::update::digits_value(s.drop_last()) * 10 + (s.last() as int - '0' as int));
    } else {
        lemma_decimal_digits(n / 10);
        let s = decimal(n);
        let d = n % 10;
        assert(s.drop_last() =~= decimal(n / 10));
        assert(s.last() == digit_char(d));
        assert(digit_char(d) as int - '0' as int == d);
        assert(crate::maint::update::digits_value(s) == crate::maint::update::digits_value(s.drop_last()) * 10 + (s.last() as int - '0' as int));
        assert((n / 10) * 10 + n % 10 == n);
        assert forall|i: int| 0 <= i < s.len() implies '0' <= #[trigger] s[i] <= '9' by {
            if i < s.len() - 1 {
                assert(s[i] == decimal(n / 10)[i]);
            }
        }
    }
}

/// Lemma: trimming a decimal representation leaves it as it is.
pub proof fn lemma_decimal_trimmed(n: nat)
    ensures
        trim_seq(decimal(n)) == decimal(n),
{
    lemma_decimal_digits(n);
    let s = decimal(n);
    assert forall|j: int| 0 <= j < s.len() implies !is_whitespace(#[trigger] s[j]) by {
        assert('0' <= s[j] <= '9');
    }
    assert(trim_bounds(s, 0, s.len() as int));
    lemma_trim_bounds_determine(s, 0, s.len() as int);
    assert(s.subrange(0, s.len() as int) =~= s);
}

fn digit_of(d: u8) -> (c: char)
    requires
        d < 10,
    ensures
        c == digit_char(d as nat),
{
    if d == 0 { '0' }
    else if d == 1 { '1' }
    else if d == 2 { '2' }
    else if d == 3 { '3' }
    else if d == 4 { '4' }
    else if d == 5 { '5' }
    else if d == 6 { '6' }
    else if d == 7 { '7' }
    else if d == 8 { '8' }
    else { '9' }
}

/// The decimal characters of `n`.
pub fn decimal_chars(n: u128) -> (r: Vec<char>)
    ensures
        r@ == decimal(n as nat),
    decreases n,
{
    if n < 10 {
        let mut v: Vec<char> = Vec::new();
        v.push(digit_of(n as u8));
        assert(v@ =~= seq![digit_char(n as nat)]);
        v
    } else {
        let mut v = decimal_chars(n / 10);
        v.push(digit_of((n % 10) as u8));
        v
    }
}

/// `n.to_string()` for an unsigned integer.
pub fn u64_to_string(n: u64) -> (r: String)
    ensures
        r@ == decimal(n as nat),
{
    let v = decimal_chars(n as u128);
    string_of(v.as_slice())
}

/// `n.to_string()` for a signed integer.
pub fn i64_to_string(n: i64) -> (r: String)
    ensures
        r@ == signed_decimal(n as int),
{
    if n < 0 {
        let mag: u128 = if n == i64::MIN { 9223372036854775808u128 } else { (-n) as u128 };
        let mut v: Vec<char> = Vec::new();
        v.push('-');
        let d = decimal_chars(mag);
        let mut i: usize = 0;
        while i < d.len()
            invariant
                i <= d.len(),
                v@ == seq!['-'] + d@.take(i as int),
            decreases d.len() - i,
        {
            v.push(d[i]);
            i = i + 1;
            assert(v@ =~= seq!['-'] + d@.take(i as int));
        }
        assert(d@.take(d@.len() as int) =~= d@);
        string_of(v.as_slice())
    } else {
        u64_to_string(n as u64)
    }
}

/// `format!("{:02}", n)`.
pub fn pad2(n: i64) -> (r: String)
    ensures
        r@ == pad2_decimal(n as int),
{
    if n >= 0 && n < 10 {
        let s = owned("0");
        let d = u64_to_string(n as u64);
        let r = s.concat(d.as_str());
        proof { reveal_strlit("0"); }
        assert(r@ =~= seq!['0'] + decimal(n as nat));
        r
    } else {
        i64_to_string(n)
    }
}


/// The string without the characters `c` it starts with (`trim_start_matches`).
pub open spec fn trim_start_char(s: Seq<char>, c: char) -> Seq<char>
    decreases s.len(),
{
    if s.len() > 0 && s[0] == c {
        trim_start_char(s.skip(1), c)
    } else {
        s
    }
}

/// The string without the characters `c` it ends with (`trim_end_matches`).
pub open spec fn trim_end_char(s: Seq<char>, c: char) -> Seq<char>
    decreases s.len(),
{
    if s.len() > 0 && s.last() == c {
        trim_end_char(s.drop_last(), c)
    } else {
        s
    }
}

/// `s.trim_start_matches(c)`.
pub fn trim_start_matches_char(s: &str, c: char) -> (r: String)
    ensures
        r@ == trim_start_char(s@, c),
{
    let v = chars_of(s);
    let mut i: usize = 0;
    assert(v@.skip(0) =~= v@);
    while i < v.len() && v[i] == c
        invariant
            i <= v.len(),
            trim_start_char(v@, c) == trim_start_char(v@.skip(i as int), c),
        decreases v.len() - i,
    {
        assert(v@.skip(i as int).skip(1) =~= v@.skip(i + 1));
        i = i + 1;
    }
    let rest = slice_chars(&v, i, v.len());
    assert(rest@ =~= v@.skip(i as int));
    string_of(rest.as_slice())
}

/// `s.trim_end_matches(c)`.
pub fn trim_end_matches_char(s: &str, c: char) -> (r: String)
    ensures
        r@ == trim_end_char(s@, c),
{
    let v = chars_of(s);
    let mut n: usize = v.len();
    assert(v@.take(v@.len() as int) =~= v@);
    while n > 0 && v[n - 1] == c
        invariant
            n <= v.len(),
            trim_end_char(v@, c) == trim_end_char(v@.take(n as int), c),
        decreases n,
    {
        assert(v@.take(n as int).drop_last() =~= v@.take(n - 1));
        n = n - 1;
    }
    let rest = slice_chars(&v, 0, n);
    assert(rest@ =~= v@.take(n as int));
    assert(v@.take(v@.len() as int) =~= v@);
    string_of(rest.as_slice())
}

/// Whether cutting `s` after `n` bytes falls on a character boundary, as slicing a
/// `str` demands.
pub open spec fn cuttable(s: Seq<char>, n: usize) -> bool {
    byte_len(s) > n ==> is_char_boundary(encode_utf8(s), n as int)
}

/// The first `n` bytes of `s`, or all of it when it is shorter.
pub open spec fn byte_prefix(s: Seq<char>, n: usize) -> Seq<char> {
    if byte_len(s) <= n {
        s
    } else {
        decode_utf8(encode_utf8(s).subrange(0, n as int))
    }
}

/// `if s.len() > n { &s[..n] } else { s }` as an owned string.
pub fn prefix_bytes(s: &str, n: usize) -> (r: String)
    requires
        cuttable(s@, n),
    ensures
        r@ == byte_prefix(s@, n),
{
    if s.len() <= n {
        owned(s)
    } else {
        let (head, _) = s.split_at(n);
        proof {
            vstd::utf8::encode_utf8_decode_utf8(head@);
            assert(encode_utf8(head@) =~= s.spec_bytes().subrange(0, n as int));
        }
        owned(head)
    }
}

// ---------------------------------------------------------------------------
// Byte-length truncation for display
// ---------------------------------------------------------------------------

/// `max_len - 3`, or zero when `max_len < 3`.
pub open spec fn cut_point(max_len: nat) -> int {
    if max_len >= 3 { max_len - 3 } else { 0 }
}

/// The length in bytes of the UTF-8 encoding of `s`, as `str::len` reports it.
pub open spec fn byte_len(s: Seq<char>) -> usize {
    encode_utf8(s).len() as usize
}

/// Whether truncating `s` to `max_len` bytes cuts it at a character boundary, as
/// slicing a `str` demands.
pub open spec fn truncatable(s: Seq<char>, max_len: usize) -> bool {
    byte_len(s) > max_len ==> is_char_boundary(encode_utf8(s), cut_point(max_len as nat))
}

/// The string unchanged when it has at most `max_len` bytes; otherwise its first
/// `max_len - 3` bytes followed by `...`.
pub open spec fn truncated(s: Seq<char>, max_len: usize) -> Seq<char> {
    if byte_len(s) <= max_len {
        s
    } else {
        decode_utf8(encode_utf8(s).subrange(0, cut_point(max_len as nat))) + "..."@
    }
}

/// Whether `truncate_str(s, max_len)` is defined: the string fits, or the cut
/// falls on a character boundary.
pub fn truncatable_exec(s: &str, max_len: usize) -> (r: bool)
    ensures
        r == truncatable(s@, max_len),
{
    if s.len() <= max_len {
        return true;
    }
    let cut: usize = if max_len >= 3 { max_len - 3 } else { 0 };
    s.is_char_boundary(cut)
}

/// Truncates a string for display to at most `max_len` bytes, marking the cut with `...`.
pub fn truncate_str(s: &str, max_len: usize) -> (r: String)
    requires
        truncatable(s@, max_len),
    ensures
        r@ == truncated(s@, max_len),
{
    if s.len() <= max_len {
        owned(s)
    } else {
        let cut: usize = if max_len >= 3 { max_len - 3 } else { 0 };
        let (head, _) = s.split_at(cut);
        proof {
            vstd::utf8::encode_utf8_decode_utf8(head@);
            assert(encode_utf8(head@) =~= s.spec_bytes().subrange(0, cut as int));
        }
        owned(head).concat("...")
    }
}

// ---------------------------------------------------------------------------
// Key-value pairs kept as a small map
// ---------------------------------------------------------------------------

/// Whether `i` is the first pair with key `key`.
pub open spec fn first_key(s: Seq<(String, String)>, key: Seq<char>, i: int) -> bool {
    0 <= i < s.len() && s[i].0@ == key && forall|j: int| 0 <= j < i ==> (#[trigger] s[j]).0@ != key
}

/// Key-value pairs with `key` set to `value`: the value of the pair with that key
/// is replaced, or the pair is appended when there is none.
pub open spec fn with_pair(s: Seq<(String, String)>, key: String, value: String) -> Seq<(String, String)> {
    if exists|i: int| first_key(s, key@, i) {
        let i = choose|i: int| first_key(s, key@, i);
        s.update(i, (s[i].0, value))
    } else {
        s.push((key, value))
    }
}

/// No key occurs twice among the pairs.
pub open spec fn keys_unique(s: Seq<(String, String)>) -> bool {
    forall|i: int, j: int| 0 <= i < j < s.len() ==> (#[trigger] s[i]).0@ != (#[trigger] s[j]).0@
}

/// The value the pairs give a key (the first pair with it), if any.
pub open spec fn pair_value(s: Seq<(String, String)>, key: Seq<char>) -> Option<Seq<char>> {
    if exists|i: int| first_key(s, key, i) {
        Some(s[choose|i: int| first_key(s, key, i)].1@)
    } else {
        None
    }
}

proof fn lemma_first_key_unique(s: Seq<(String, String)>, key: Seq<char>, i: int, j: int)
    requires
        first_key(s, key, i),
        first_key(s, key, j),
    ensures
        i == j,
{
    if i < j { assert(s[i].0@ == key); } else if j < i { assert(s[j].0@ == key); }
}

proof fn lemma_some_first_key(s: Seq<(String, String)>, key: Seq<char>, j: int)
    requires
        0 <= j < s.len(),
        s[j].0@ == key,
    ensures
        exists|i: int| first_key(s, key, i),
    decreases j,
{
    if exists|jj: int| 0 <= jj < j && (#[trigger] s[jj]).0@ == key {
        let jj = choose|jj: int| 0 <= jj < j && (#[trigger] s[jj]).0@ == key;
        lemma_some_first_key(s, key, jj);
    } else {
        assert(first_key(s, key, j));
    }
}

/// Setting a key gives it the new value, leaves every other key's value as it
/// was, and keeps keys from occurring twice.
pub proof fn law_pair_set_replaces(s: Seq<(String, String)>, key: String, value: String)
    ensures
        pair_value(with_pair(s, key, value), key@) == Some(value@),
        forall|k: Seq<char>| k != key@ ==> #[trigger] pair_value(with_pair(s, key, value), k) == pair_value(s, k),
        keys_unique(s) ==> keys_unique(with_pair(s, key, value)),
{
    let t = with_pair(s, key, value);
    if exists|i: int| first_key(s, key@, i) {
        let i = choose|i: int| first_key(s, key@, i);
        assert forall|j: int| 0 <= j < t.len() implies (#[trigger] t[j]).0@ == s[j].0@ by {}
        assert(first_key(t, key@, i));
        let c = choose|c: int| first_key(t, key@, c);
        lemma_first_key_unique(t, key@, i, c);
        assert forall|k: Seq<char>| k != key@ implies #[trigger] pair_value(t, k) == pair_value(s, k) by {
            if exists|m: int| first_key(s, k, m) {
                let m = choose|m: int| first_key(s, k, m);
                assert(m != i);
                assert(first_key(t, k, m));
                let c2 = choose|c2: int| first_key(t, k, c2);
                lemma_first_key_unique(t, k, m, c2);
            } else {
                if exists|m: int| first_key(t, k, m) {
                    let m = choose|m: int| first_key(t, k, m);
                    assert(m != i);
                    assert(t[m].0@ == s[m].0@);
                    assert forall|jj: int| 0 <= jj < m implies (#[trigger] s[jj]).0@ != k by {
                        assert(t[jj].0@ != k);
                        assert(t[jj].0@ == s[jj].0@);
                    }
                    assert(first_key(s, k, m));
                }
            }
        }
        if keys_unique(s) {
            assert forall|a: int, b: int| 0 <= a < b < t.len() implies (#[trigger] t[a]).0@ != (#[trigger] t[b]).0@ by {
                assert(s[a].0@ != s[b].0@);
            }
        }
    } else {
        let n = s.len() as int;
        assert forall|j: int| 0 <= j < n implies (#[trigger] s[j]).0@ != key@ by {
            if s[j].0@ == key@ {
                lemma_some_first_key(s, key@, j);
            }
        }
        assert(first_key(t, key@, n));
        let c = choose|c: int| first_key(t, key@, c);
        lemma_first_key_unique(t, key@, n, c);
        assert forall|k: Seq<char>| k != key@ implies #[trigger] pair_value(t, k) == pair_value(s, k) by {
            if exists|m: int| first_key(s, k, m) {
                let m = choose|m: int| first_key(s, k, m);
                assert(first_key(t, k, m));
                let c2 = choose|c2: int| first_key(t, k, c2);
                lemma_first_key_unique(t, k, m, c2);
            } else {
                if exists|m: int| first_key(t, k, m) {
                    let m = choose|m: int| first_key(t, k, m);
                    if m < n {
                        assert(t[m] == s[m]);
                        assert forall|jj: int| 0 <= jj < m implies (#[trigger] s[jj]).0@ != k by {
                            assert(t[jj].0@ != k);
                            assert(t[jj] == s[jj]);
                        }
                        assert(first_key(s, k, m));
                    }
                }
            }
        }
        if keys_unique(s) {
            assert forall|a: int, b: int| 0 <= a < b < t.len() implies (#[trigger] t[a]).0@ != (#[trigger] t[b]).0@ by {
                if b == n {
                    assert(s[a].0@ != key@);
                } else {
                    assert(s[a].0@ != s[b].0@);
                }
            }
        }
    }
}

/// Sets `key` to `value` among the key-value pairs.
pub fn set_pair(v: &mut Vec<(String, String)>, key: String, value: String)
    ensures
        final(v)@ == with_pair(old(v)@, key, value),
{
    let mut i: usize = 0;
    while i < v.len()
        invariant
            i <= v@.len(),
            *v == *old(v),
            forall|j: int| 0 <= j < i ==> (#[trigger] v@[j]).0@ != key@,
        decreases v.len() - i,
    {
        if str_eq(v[i].0.as_str(), key.as_str()) {
            proof {
                assert(first_key(v@, key@, i as int));
                let c = choose|c: int| first_key(v@, key@, c);
                lemma_first_key_unique(v@, key@, i as int, c);
            }
            let k = v[i].0.clone();
            v.set(i, (k, value));
            return;
        }
        i = i + 1;
    }
    v.push((key, value));
}

} // verus!
