//! Text helpers shared by export and package naming: identifier
//! sanitising and decimal formatting.

use vstd::prelude::*;
use vstd::string::StrSliceExecFns;

verus! {

/// `c` is `0-9`, `a-z` or `A-Z`.
pub open spec fn is_ascii_alphanumeric(c: char) -> bool {
    ('0' <= c && c <= '9') || ('a' <= c && c <= 'z') || ('A' <= c && c <= 'Z')
}

/// ASCII lower-casing: `A-Z` map to `a-z`, every other char is unchanged.
pub open spec fn ascii_lowercase(c: char) -> char {
    if 'A' <= c && c <= 'Z' {
        ((c as u32) + 32) as char
    } else {
        c
    }
}

/// Keeps ASCII letters and digits (lower-cased when `lower`) and replaces
/// each run of other characters by a single `_`.
pub open spec fn collapse_separators(cs: Seq<char>, lower: bool) -> Seq<char>
    decreases cs.len(),
{
    if cs.len() == 0 {
        Seq::empty()
    } else {
        let prev = collapse_separators(cs.drop_last(), lower);
        let c = cs.last();
        if is_ascii_alphanumeric(c) {
            prev.push(if lower { ascii_lowercase(c) } else { c })
        } else if prev.len() > 0 && prev.last() == '_' {
            prev
        } else {
            prev.push('_')
        }
    }
}

/// `cs` without its leading underscores.
pub open spec fn strip_leading_underscores(cs: Seq<char>) -> Seq<char>
    decreases cs.len(),
{
    if cs.len() > 0 && cs[0] == '_' {
        strip_leading_underscores(cs.drop_first())
    } else {
        cs
    }
}

/// `cs` without its trailing underscores.
pub open spec fn strip_trailing_underscores(cs: Seq<char>) -> Seq<char>
    decreases cs.len(),
{
    if cs.len() > 0 && cs.last() == '_' {
        strip_trailing_underscores(cs.drop_last())
    } else {
        cs
    }
}

/// The identifier made from `cs`: separators collapsed, underscores
/// trimmed from both ends, and `fallback` when nothing is left.
pub open spec fn sanitized_identifier(cs: Seq<char>, lower: bool, fallback: Seq<char>) -> Seq<
    char,
> {
    let t = strip_trailing_underscores(strip_leading_underscores(collapse_separators(cs, lower)));
    if t.len() == 0 {
        fallback
    } else {
        t
    }
}

/// Appends a char to a string (std's `String::push`).
#[verifier::external_body]
pub(crate) fn push_char(s: &mut String, c: char)
    ensures
        final(s)@ == old(s)@.push(c),
{
    s.push(c);
}

/// Appends every char of `t` to `s`.
pub fn push_str(s: &mut String, t: &str)
    ensures
        final(s)@ == old(s)@ + t@,
{
    let ghost start = s@;
    let n = t.unicode_len();
    let mut i: usize = 0;
    while i < n
        invariant
            n == t@.len(),
            i <= n,
            s@ == start + t@.take(i as int),
        decreases n - i,
    {
        push_char(s, t.get_char(i));
        i = i + 1;
        assert(s@ =~= start + t@.take(i as int));
    }
    assert(t@.take(i as int) =~= t@);
}

fn is_alnum(c: char) -> (r: bool)
    ensures
        r == is_ascii_alphanumeric(c),
{
    ('0' <= c && c <= '9') || ('a' <= c && c <= 'z') || ('A' <= c && c <= 'Z')
}

fn lower_char(c: char) -> (r: char)
    ensures
        r == ascii_lowercase(c),
{
    if 'A' <= c && c <= 'Z' {
        ((c as u8) + 32) as char
    } else {
        c
    }
}

proof fn lemma_strip_leading_prefix(cs: Seq<char>, k: int)
    requires
        0 <= k <= cs.len(),
        forall|j: int| 0 <= j < k ==> cs[j] == '_',
    ensures
        strip_leading_underscores(cs) == strip_leading_underscores(cs.subrange(k, cs.len() as int)),
    decreases k,
{
    if k > 0 {
        assert(cs.drop_first().subrange(k - 1, cs.drop_first().len() as int) =~= cs.subrange(
            k,
            cs.len() as int,
        ));
        lemma_strip_leading_prefix(cs.drop_first(), k - 1);
    } else {
        assert(cs.subrange(0, cs.len() as int) =~= cs);
    }
}

proof fn lemma_strip_trailing_suffix(cs: Seq<char>, k: int)
    requires
        0 <= k <= cs.len(),
        forall|j: int| k <= j < cs.len() ==> cs[j] == '_',
    ensures
        strip_trailing_underscores(cs) == strip_trailing_underscores(cs.subrange(0, k)),
    decreases cs.len() - k,
{
    if k < cs.len() {
        assert(cs.drop_last().subrange(0, k) =~= cs.subrange(0, k));
        lemma_strip_trailing_suffix(cs.drop_last(), k);
    } else {
        assert(cs.subrange(0, k) =~= cs);
    }
}

/// Builds the sanitised identifier of `name` (see `sanitized_identifier`).
pub fn sanitize_identifier(name: &str, lower: bool, fallback: &str) -> (r: String)
    ensures
        r@ == sanitized_identifier(name@, lower, fallback@),
{
    let n = name.unicode_len();
    let mut out: Vec<char> = Vec::new();
    let mut i: usize = 0;
    while i < n
        invariant
            n == name@.len(),
            i <= n,
            out@ == collapse_separators(name@.take(i as int), lower),
        decreases n - i,
    {
        let c = name.get_char(i);
        assert(name@.take(i + 1).drop_last() =~= name@.take(i as int));
        assert(name@.take(i + 1).last() == c);
        if is_alnum(c) {
            if lower {
                out.push(lower_char(c));
            } else {
                out.push(c);
            }
        } else if out.len() > 0 && out[out.len() - 1] == '_' {
        } else {
            out.push('_');
        }
        i = i + 1;
    }
    assert(name@.take(n as int) =~= name@);
    let ghost collapsed = out@;
    let mut start: usize = 0;
    while start < out.len() && out[start] == '_'
        invariant
            start <= out.len(),
            out@ == collapsed,
            forall|j: int| 0 <= j < start ==> collapsed[j] == '_',
        decreases out.len() - start,
    {
        start = start + 1;
    }
    proof {
        lemma_strip_leading_prefix(collapsed, start as int);
    }
    let ghost rest = collapsed.subrange(start as int, collapsed.len() as int);
    assert(rest.len() == 0 || rest[0] != '_');
    assert(strip_leading_underscores(rest) == rest);
    let mut end: usize = out.len();
    while end > start && out[end - 1] == '_'
        invariant
            start <= end <= out.len(),
            out@ == collapsed,
            forall|j: int| end <= j < collapsed.len() ==> collapsed[j] == '_',
        decreases end,
    {
        end = end - 1;
    }
    proof {
        let k = (end - start) as int;
        assert forall|j: int| k <= j < rest.len() implies rest[j] == '_' by {
            assert(rest[j] == collapsed[start + j]);
        }
        lemma_strip_trailing_suffix(rest, k);
        let kept = rest.subrange(0, k);
        assert(kept =~= collapsed.subrange(start as int, end as int));
        assert(kept.len() == 0 || kept.last() != '_');
        assert(strip_trailing_underscores(kept) == kept);
    }
    let mut r = String::new();
    if start == end {
        push_str(&mut r, fallback);
    } else {
        let mut m: usize = start;
        while m < end
            invariant
                start <= m <= end <= out.len(),
                out@ == collapsed,
                r@ == collapsed.subrange(start as int, m as int),
            decreases end - m,
        {
            push_char(&mut r, out[m]);
            m = m + 1;
            assert(r@ =~= collapsed.subrange(start as int, m as int));
        }
    }
    r
}

/// Decimal digits of `v`, most significant first (`"0"` for zero).
pub open spec fn decimal_digits(v: nat) -> Seq<char>
    decreases v,
{
    if v < 10 {
        seq![(('0' as u32) + v) as char]
    } else {
        decimal_digits(v / 10).push((('0' as u32) + v % 10) as char)
    }
}

/// Decimal text of a signed value: `-` then the digits of its magnitude
/// when negative.
pub open spec fn signed_decimal(v: int) -> Seq<char> {
    if v < 0 {
        seq!['-'] + decimal_digits((-v) as nat)
    } else {
        decimal_digits(v as nat)
    }
}

/// Appends the decimal text of `v` (what `{}` formatting prints).
pub fn push_decimal(s: &mut String, v: u64)
    ensures
        final(s)@ == old(s)@ + decimal_digits(v as nat),
    decreases v,
{
    if v >= 10 {
        push_decimal(s, v / 10);
    }
    let d = (v % 10) as u8;
    let c = (48u8 + d) as char;
    assert(c == (('0' as u32) + (v as nat) % 10) as char);
    push_char(s, c);
}

/// Appends the decimal text of a signed 32-bit value.
pub fn push_signed_decimal(s: &mut String, v: i32)
    ensures
        final(s)@ == old(s)@ + signed_decimal(v as int),
{
    if v < 0 {
        push_char(s, '-');
        let magnitude: u64 = (0i64 - v as i64) as u64;
        push_decimal(s, magnitude);
        assert(seq!['-'] + decimal_digits((-(v as int)) as nat) =~= seq!['-'].add(decimal_digits(
            magnitude as nat,
        )));
    } else {
        push_decimal(s, v as u64);
    }
}

/// Unicode `White_Space`, the property `char::is_whitespace` tests.
pub open spec fn is_unicode_whitespace(c: char) -> bool {
    let u = c as u32;
    (0x09 <= u && u <= 0x0d) || u == 0x20 || u == 0x85 || u == 0xa0 || u == 0x1680 || (0x2000 <= u
        && u <= 0x200a) || u == 0x2028 || u == 0x2029 || u == 0x202f || u == 0x205f || u == 0x3000
}

/// Every char is whitespace: the text is empty once trimmed.
pub open spec fn is_blank(cs: Seq<char>) -> bool {
    forall|i: int| 0 <= i < cs.len() ==> is_unicode_whitespace(#[trigger] cs[i])
}

fn is_whitespace_char(c: char) -> (r: bool)
    ensures
        r == is_unicode_whitespace(c),
{
    let u = c as u32;
    (0x09 <= u && u <= 0x0d) || u == 0x20 || u == 0x85 || u == 0xa0 || u == 0x1680 || (0x2000 <= u
        && u <= 0x200a) || u == 0x2028 || u == 0x2029 || u == 0x202f || u == 0x205f || u == 0x3000
}

/// `s.trim().is_empty()`.
pub fn blank(s: &str) -> (r: bool)
    ensures
        r == is_blank(s@),
{
    let n = s.unicode_len();
    let mut i: usize = 0;
    while i < n
        invariant
            n == s@.len(),
            i <= n,
            forall|j: int| 0 <= j < i ==> is_unicode_whitespace(#[trigger] s@[j]),
        decreases n - i,
    {
        if !is_whitespace_char(s.get_char(i)) {
            return false;
        }
        i = i + 1;
    }
    true
}

/// `a == b` on string slices.
pub fn str_eq(a: &str, b: &str) -> (r: bool)
    ensures
        r == (a@ == b@),
{
    let n = a.unicode_len();
    let m = b.unicode_len();
    if n != m {
        return false;
    }
    let mut i: usize = 0;
    while i < n
        invariant
            n == a@.len(),
            m == b@.len(),
            n == m,
            i <= n,
            forall|j: int| 0 <= j < i ==> a@[j] == b@[j],
        decreases n - i,
    {
        if a.get_char(i) != b.get_char(i) {
            return false;
        }
        i = i + 1;
    }
    assert(a@ =~= b@);
    true
}

/// `s` begins with `prefix`.
pub open spec fn has_prefix(s: Seq<char>, prefix: Seq<char>) -> bool {
    prefix.len() <= s.len() && s.subrange(0, prefix.len() as int) == prefix
}

/// `s` ends with `suffix`.
pub open spec fn has_suffix(s: Seq<char>, suffix: Seq<char>) -> bool {
    suffix.len() <= s.len() && s.subrange(s.len() - suffix.len(), s.len() as int) == suffix
}

/// `s.starts_with(prefix)`.
pub fn starts_with(s: &str, prefix: &str) -> (r: bool)
    ensures
        r == has_prefix(s@, prefix@),
{
    let n = s.unicode_len();
    let m = prefix.unicode_len();
    if m > n {
        return false;
    }
    let mut i: usize = 0;
    while i < m
        invariant
            n == s@.len(),
            m == prefix@.len(),
            m <= n,
            i <= m,
            forall|j: int| 0 <= j < i ==> s@[j] == prefix@[j],
        decreases m - i,
    {
        if s.get_char(i) != prefix.get_char(i) {
            assert(s@.subrange(0, m as int)[i as int] != prefix@[i as int]);
            return false;
        }
        i = i + 1;
    }
    assert(s@.subrange(0, m as int) =~= prefix@);
    true
}

/// `s.ends_with(suffix)`.
pub fn ends_with(s: &str, suffix: &str) -> (r: bool)
    ensures
        r == has_suffix(s@, suffix@),
{
    let n = s.unicode_len();
    let m = suffix.unicode_len();
    if m > n {
        return false;
    }
    let start = n - m;
    let mut i: usize = 0;
    while i < m
        invariant
            n == s@.len(),
            m == suffix@.len(),
            m <= n,
            start == n - m,
            i <= m,
            forall|j: int| 0 <= j < i ==> s@[start + j] == suffix@[j],
        decreases m - i,
    {
        if s.get_char(start + i) != suffix.get_char(i) {
            assert(s@.subrange(start as int, n as int)[i as int] != suffix@[i as int]);
            return false;
        }
        i = i + 1;
    }
    assert(s@.subrange(start as int, n as int) =~= suffix@);
    true
}

/// A `String` holding a copy of `s`.
pub fn owned(s: &str) -> (r: String)
    ensures
        r@ == s@,
{
    let mut r = String::new();
    push_str(&mut r, s);
    assert(r@ =~= s@);
    r
}

} // verus!
