//! Character-sequence helpers: comparison, search, trimming and joining.

use vstd::prelude::*;

verus! {

/// `parts` one after another, with `sep` between neighbours.
pub open spec fn joined(parts: Seq<Seq<char>>, sep: Seq<char>) -> Seq<char>
    decreases parts.len(),
{
    if parts.len() == 0 {
        seq![]
    } else if parts.len() == 1 {
        parts[0]
    } else {
        joined(parts.drop_last(), sep) + sep + parts.last()
    }
}

/// Joining one more part onto a prefix.
pub proof fn lemma_joined_push(parts: Seq<Seq<char>>, sep: Seq<char>, i: int)
    requires
        0 <= i < parts.len(),
    ensures
        joined(parts.subrange(0, i + 1), sep) == if i == 0 {
            parts[0]
        } else {
            joined(parts.subrange(0, i), sep) + sep + parts[i]
        },
{
    assert(parts.subrange(0, i + 1).drop_last() =~= parts.subrange(0, i));
}

/// Whether `p` occurs in `s` at index `i`.
pub open spec fn occurs_at(s: Seq<char>, p: Seq<char>, i: int) -> bool {
    0 <= i && i + p.len() <= s.len() && s.subrange(i, i + p.len()) == p
}

/// The first index at or after `from` where `p` occurs in `s`.
pub open spec fn index_of(s: Seq<char>, p: Seq<char>, from: int) -> Option<int>
    decreases s.len() - from,
{
    if from < 0 || from + p.len() > s.len() {
        None
    } else if p.len() == 0 || s.subrange(from, from + p.len()) == p {
        Some(from)
    } else {
        index_of(s, p, from + 1)
    }
}

/// Whether `a` and `b` hold the same characters.
pub fn same_text(a: &str, b: &str) -> (r: bool)
    ensures
        r == (a@ == b@),
{
    let n = a.unicode_len();
    if n != b.unicode_len() {
        return false;
    }
    let mut i: usize = 0;
    while i < n
        invariant
            n == a@.len(),
            n == b@.len(),
            i <= n,
            a@.subrange(0, i as int) == b@.subrange(0, i as int),
        decreases n - i,
    {
        if a.get_char(i) != b.get_char(i) {
            return false;
        }
        assert(a@.subrange(0, i + 1) =~= a@.subrange(0, i as int).push(a@[i as int]));
        assert(b@.subrange(0, i + 1) =~= b@.subrange(0, i as int).push(b@[i as int]));
        i = i + 1;
    }
    assert(a@ =~= a@.subrange(0, n as int));
    assert(b@ =~= b@.subrange(0, n as int));
    true
}

/// Whether `p` occurs in `s` at index `i`.
fn matches_at(s: &str, s_len: usize, p: &str, p_len: usize, i: usize) -> (r: bool)
    requires
        s_len == s@.len(),
        p_len == p@.len(),
        i + p_len <= s_len,
    ensures
        r == (s@.subrange(i as int, i + p_len) == p@),
{
    let mut k: usize = 0;
    while k < p_len
        invariant
            s_len == s@.len(),
            p_len == p@.len(),
            i + p_len <= s_len,
            k <= p_len,
            s@.subrange(i as int, i + k) == p@.subrange(0, k as int),
        decreases p_len - k,
    {
        if s.get_char(i + k) != p.get_char(k) {
            assert(s@.subrange(i as int, i + p_len)[k as int] != p@[k as int]);
            return false;
        }
        assert(s@.subrange(i as int, i + k + 1) =~= s@.subrange(i as int, i + k).push(
            s@[i + k],
        ));
        assert(p@.subrange(0, k + 1) =~= p@.subrange(0, k as int).push(p@[k as int]));
        k = k + 1;
    }
    assert(p@ =~= p@.subrange(0, p_len as int));
    true
}

/// The first index at or after `from` where `p` occurs in `s`.
pub fn find_from(s: &str, p: &str, from: usize) -> (r: Option<usize>)
    ensures
        r matches Some(i) ==> index_of(s@, p@, from as int) == Some(i as int),
        r matches Some(i) ==> i + p@.len() <= s@.len() <= usize::MAX,
        r is None ==> index_of(s@, p@, from as int) is None,
{
    let s_len = s.unicode_len();
    let p_len = p.unicode_len();
    if p_len > s_len || from > s_len - p_len {
        return None;
    }
    if p_len == 0 {
        proof {
            lemma_index_of_bounds(s@, p@, from as int);
        }
        return Some(from);
    }
    let mut i = from;
    while i <= s_len - p_len
        invariant
            s_len == s@.len(),
            p_len == p@.len(),
            1 <= p_len <= s_len,
            from <= i <= s_len - p_len + 1,
            index_of(s@, p@, from as int) == index_of(s@, p@, i as int),
        decreases s_len - p_len + 1 - i,
    {
        if matches_at(s, s_len, p, p_len, i) {
            proof {
                lemma_index_of_bounds(s@, p@, from as int);
            }
            return Some(i);
        }
        i = i + 1;
    }
    None
}

/// Whether `c` has the Unicode `White_Space` property.
pub open spec fn is_white_space(c: char) -> bool {
    let u = c as u32;
    (0x09 <= u && u <= 0x0D) || u == 0x20 || u == 0x85 || u == 0xA0 || u == 0x1680 || (0x2000 <= u
        && u <= 0x200A) || u == 0x2028 || u == 0x2029 || u == 0x202F || u == 0x205F || u == 0x3000
}

/// The number of white-space characters at the start of `s`.
pub open spec fn leading_white_space(s: Seq<char>) -> nat
    decreases s.len(),
{
    if s.len() > 0 && is_white_space(s[0]) {
        1 + leading_white_space(s.drop_first())
    } else {
        0
    }
}

/// The number of white-space characters at the end of `s`.
pub open spec fn trailing_white_space(s: Seq<char>) -> nat
    decreases s.len(),
{
    if s.len() > 0 && is_white_space(s.last()) {
        1 + trailing_white_space(s.drop_last())
    } else {
        0
    }
}

pub proof fn lemma_white_space_counts(s: Seq<char>)
    ensures
        leading_white_space(s) <= s.len(),
        trailing_white_space(s) <= s.len(),
    decreases s.len(),
{
    if s.len() > 0 {
        lemma_white_space_counts(s.drop_first());
        lemma_white_space_counts(s.drop_last());
    }
}

/// `s` without its leading and trailing white space.
pub open spec fn trimmed(s: Seq<char>) -> Seq<char> {
    let rest = s.subrange(leading_white_space(s) as int, s.len() as int);
    rest.subrange(0, rest.len() - trailing_white_space(rest))
}

/// Relies on `str::trim`: leading and trailing characters with the Unicode
/// `White_Space` property are removed.
#[verifier::external_body]
fn trim_str(s: &str) -> (r: &str)
    ensures
        r@ == trimmed(s@),
{
    s.trim()
}

/// A copy of `s` without its leading and trailing white space.
pub fn trim_text(s: &str) -> (r: String)
    ensures
        r@ == trimmed(s@),
{
    String::from_str(trim_str(s))
}

/// The characters of an optional string.
pub open spec fn opt_view(o: Option<String>) -> Option<Seq<char>> {
    match o {
        Some(s) => Some(s@),
        None => None,
    }
}

/// Joining a sequence with one more part at its end.
pub proof fn lemma_joined_snoc(parts: Seq<Seq<char>>, x: Seq<char>, sep: Seq<char>)
    ensures
        joined(parts.push(x), sep) == if parts.len() == 0 {
            x
        } else {
            joined(parts, sep) + sep + x
        },
{
    assert(parts.push(x).drop_last() =~= parts);
}

/// Where `index_of` finds its pattern.
pub proof fn lemma_index_of_bounds(s: Seq<char>, p: Seq<char>, from: int)
    ensures
        index_of(s, p, from) matches Some(i) ==> from <= i && i + p.len() <= s.len() && occurs_at(
            s,
            p,
            i,
        ),
    decreases s.len() - from,
{
    if from < 0 || from + p.len() > s.len() {
    } else if p.len() == 0 || s.subrange(from, from + p.len()) == p {
        if p.len() == 0 {
            assert(s.subrange(from, from) =~= p);
        }
    } else {
        lemma_index_of_bounds(s, p, from + 1);
    }
}

} // verus!
