//! Text primitives shared by the configuration, IPC and command-line logic:
//! whitespace trimming, lower-casing and substring search.
use vstd::prelude::*;

verus! {

/// The Unicode `White_Space` property (the set that `char::is_whitespace` uses).
pub open spec fn is_white_space(c: char) -> bool {
    ||| ('\u{9}' <= c && c <= '\u{d}')
    ||| c == ' '
    ||| c == '\u{85}'
    ||| c == '\u{a0}'
    ||| c == '\u{1680}'
    ||| ('\u{2000}' <= c && c <= '\u{200a}')
    ||| c == '\u{2028}'
    ||| c == '\u{2029}'
    ||| c == '\u{202f}'
    ||| c == '\u{205f}'
    ||| c == '\u{3000}'
}

/// `s` without its leading white space.
pub open spec fn trim_start_spec(s: Seq<char>) -> Seq<char>
    decreases s.len(),
{
    if s.len() > 0 && is_white_space(s[0]) {
        trim_start_spec(s.drop_first())
    } else {
        s
    }
}

/// `s` without its trailing white space.
pub open spec fn trim_end_spec(s: Seq<char>) -> Seq<char>
    decreases s.len(),
{
    if s.len() > 0 && is_white_space(s.last()) {
        trim_end_spec(s.drop_last())
    } else {
        s
    }
}

/// `s` without leading and trailing white space.
pub open spec fn trimmed(s: Seq<char>) -> Seq<char> {
    trim_end_spec(trim_start_spec(s))
}

/// What `str::to_lowercase` returns for a string (Unicode lower-case mapping).
pub uninterp spec fn lowercase(s: Seq<char>) -> Seq<char>;

/// The normal form of an application name: trimmed, then lower-cased.
pub open spec fn normalized(s: Seq<char>) -> Seq<char> {
    lowercase(trimmed(s))
}

/// Whether `c` is Unicode `White_Space`.
fn is_white_space_char(c: char) -> (r: bool)
    ensures
        r == is_white_space(c),
{
    ('\u{9}' <= c && c <= '\u{d}') || c == ' ' || c == '\u{85}' || c == '\u{a0}' || c == '\u{1680}'
        || ('\u{2000}' <= c && c <= '\u{200a}') || c == '\u{2028}' || c == '\u{2029}' || c
        == '\u{202f}' || c == '\u{205f}' || c == '\u{3000}'
}

/// `s` without leading and trailing `White_Space` (what `str::trim` returns).
pub(crate) fn trim_str(s: &str) -> (r: &str)
    ensures
        r@ == trimmed(s@),
{
    let len = s.unicode_len();
    let ghost v = s@;
    let mut st: usize = 0;
    assert(v.skip(0) =~= v);
    while st < len && is_white_space_char(s.get_char(st))
        invariant
            len == v.len(),
            v == s@,
            st <= len,
            trim_start_spec(v.skip(st as int)) == trim_start_spec(v),
        decreases len - st,
    {
        assert(v.skip(st as int).drop_first() =~= v.skip(st + 1));
        st = st + 1;
    }
    let ghost front = v.skip(st as int);
    assert(trim_start_spec(front) == front) by {
        if front.len() > 0 {
            assert(front[0] == v[st as int]);
        }
    }
    let mut end: usize = len;
    while end > st && is_white_space_char(s.get_char(end - 1))
        invariant
            len == v.len(),
            v == s@,
            st <= end <= len,
            front == v.skip(st as int),
            trim_end_spec(v.subrange(st as int, end as int)) == trim_end_spec(front),
        decreases end - st,
    {
        assert(v.subrange(st as int, end as int).drop_last() =~= v.subrange(st as int, end - 1));
        end = end - 1;
    }
    assert(v.subrange(st as int, len as int) =~= front);
    let r = s.substring_char(st, end);
    assert(trim_end_spec(r@) == r@) by {
        if r@.len() > 0 {
            assert(r@.last() == v[end - 1]);
        }
    }
    r
}

/// `str::to_lowercase`: the Unicode lower-case mapping of the whole string, named by
/// `lowercase` (the mapping tables are not restated here).
#[verifier::external_body]
pub(crate) fn to_lowercase_str(s: &str) -> (r: String)
    ensures
        r@ == lowercase(s@),
{
    s.to_lowercase()
}

/// Trims and lower-cases an application name.
pub fn normalize_name(s: &str) -> (r: String)
    ensures
        r@ == normalized(s@),
{
    let t = trim_str(s);
    to_lowercase_str(t)
}

/// `t` occurs in `s` as a contiguous run of characters.
pub open spec fn contains_seq(s: Seq<char>, t: Seq<char>) -> bool {
    exists|i: int| 0 <= i && i + t.len() <= s.len() && #[trigger] s.subrange(i, i + t.len()) == t
}

/// `t` is a prefix of `s`.
pub open spec fn starts_with_seq(s: Seq<char>, t: Seq<char>) -> bool {
    t.len() <= s.len() && s.subrange(0, t.len() as int) == t
}

/// Compares `s[start..start + t.len()]` with `t`.
fn matches_at(s: &str, t: &str, start: usize, s_len: usize, t_len: usize) -> (r: bool)
    requires
        s_len == s@.len(),
        t_len == t@.len(),
        start + t_len <= s_len,
    ensures
        r == (s@.subrange(start as int, start + t_len) == t@),
{
    let mut j: usize = 0;
    while j < t_len
        invariant
            s_len == s@.len(),
            t_len == t@.len(),
            start + t_len <= s_len,
            j <= t_len,
            forall|k: int| 0 <= k < j ==> s@[start + k] == t@[k],
        decreases t_len - j,
    {
        if s.get_char(start + j) != t.get_char(j) {
            assert(s@.subrange(start as int, start + t_len)[j as int] != t@[j as int]);
            return false;
        }
        j = j + 1;
    }
    assert(s@.subrange(start as int, start + t_len) =~= t@);
    true
}

/// Substring search (what `str::contains` computes for a string pattern).
pub fn contains_str(s: &str, t: &str) -> (r: bool)
    ensures
        r == contains_seq(s@, t@),
{
    let s_len = s.unicode_len();
    let t_len = t.unicode_len();
    if t_len > s_len {
        return false;
    }
    let mut i: usize = 0;
    let last = s_len - t_len;
    while i <= last
        invariant
            last == s_len - t_len,
            s_len == s@.len(),
            t_len == t@.len(),
            t_len <= s_len,
            i <= s_len - t_len + 1,
            forall|k: int| 0 <= k < i ==> #[trigger] s@.subrange(k, k + t_len) != t@,
        decreases last + 1 - i,
    {
        if matches_at(s, t, i, s_len, t_len) {
            return true;
        }
        if i == last {
            return false;
        }
        i = i + 1;
    }
    false
}

/// Prefix test (what `str::starts_with` computes for a string pattern).
pub fn starts_with_str(s: &str, t: &str) -> (r: bool)
    ensures
        r == starts_with_seq(s@, t@),
{
    let s_len = s.unicode_len();
    let t_len = t.unicode_len();
    if t_len > s_len {
        return false;
    }
    matches_at(s, t, 0, s_len, t_len)
}

/// Compares two strings as text.
pub fn str_equals(a: &str, b: &str) -> (r: bool)
    ensures
        r == (a@ == b@),
{
    let x = String::from_str(a);
    let y = String::from_str(b);
    x == y
}

/// What `{:?}` writes for a string: the text in double quotes, with `Debug` escapes.
pub uninterp spec fn debug_quoted(s: Seq<char>) -> Seq<char>;

/// `format!("{:?}", s)`: the `Debug` form of a string (`str::escape_debug` in double
/// quotes), named by `debug_quoted`.
#[verifier::external_body]
pub(crate) fn debug_str(s: &str) -> (r: String)
    ensures
        r@ == debug_quoted(s@),
{
    format!("{:?}", s)
}

/// Copies a string.
pub fn copy_string(s: &str) -> (r: String)
    ensures
        r@ == s@,
{
    String::from_str(s)
}

} // verus!
