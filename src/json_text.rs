//! Pieces of JSON text: string literals, integers and comma-separated lists.

use vstd::prelude::*;

use crate::text::{joined, lemma_joined_push};

verus! {

#[verifier::external_type_specification]
#[verifier::external_body]
pub struct ExJsonError(serde_json::Error);

/// The hexadecimal digit `d`, in lower case.
pub open spec fn hex_digit(d: u32) -> char {
    seq!['0', '1', '2', '3', '4', '5', '6', '7', '8', '9', 'a', 'b', 'c', 'd', 'e', 'f'][d as int]
}

/// How a JSON string literal holds the character `c`: quote and backslash
/// behind a backslash, the controls below U+0020 as a short escape or as
/// `\u00XX`, everything else verbatim.
pub open spec fn escape_char(c: char) -> Seq<char> {
    if c == '"' {
        seq!['\\', '"']
    } else if c == '\\' {
        seq!['\\', '\\']
    } else if c == '\x08' {
        seq!['\\', 'b']
    } else if c == '\x0c' {
        seq!['\\', 'f']
    } else if c == '\n' {
        seq!['\\', 'n']
    } else if c == '\r' {
        seq!['\\', 'r']
    } else if c == '\t' {
        seq!['\\', 't']
    } else if (c as u32) < 0x20 {
        seq!['\\', 'u', '0', '0', hex_digit((c as u32) / 16), hex_digit((c as u32) % 16)]
    } else {
        seq![c]
    }
}

/// The characters of `s`, each escaped.
pub open spec fn escaped(s: Seq<char>) -> Seq<char>
    decreases s.len(),
{
    if s.len() == 0 {
        seq![]
    } else {
        escaped(s.drop_last()) + escape_char(s.last())
    }
}

/// The JSON string literal of the characters `s`.
pub open spec fn json_quoted(s: Seq<char>) -> Seq<char> {
    seq!['"'] + escaped(s) + seq!['"']
}

/// A character that a JSON string literal cannot hold verbatim.
pub open spec fn needs_escape(c: char) -> bool {
    c == '"' || c == '\\' || (c as u32) < 0x20
}

/// Characters that a JSON string literal holds verbatim.
pub open spec fn is_plain(s: Seq<char>) -> bool {
    forall|i: int| 0 <= i < s.len() ==> !needs_escape(#[trigger] s[i])
}

/// Plain characters stand for themselves.
pub proof fn lemma_plain_is_unescaped(s: Seq<char>)
    requires
        is_plain(s),
    ensures
        escaped(s) == s,
    decreases s.len(),
{
    if s.len() > 0 {
        let init = s.drop_last();
        assert forall|i: int| 0 <= i < init.len() implies !needs_escape(#[trigger] init[i]) by {
            assert(init[i] == s[i]);
        }
        lemma_plain_is_unescaped(init);
        assert(!needs_escape(s[s.len() - 1]));
        assert(s =~= init.push(s.last()));
    }
}

/// Relies on `serde_json::to_string` applied to a `str`: serialising into its
/// in-memory buffer does not fail, and it writes the string between quotes
/// with each character escaped by its `ESCAPE` table (`format_escaped_str`).
#[verifier::external_body]
fn serde_quote(s: &str) -> (r: Result<String, serde_json::Error>)
    ensures
        r is Ok,
        r->Ok_0@ == json_quoted(s@),
{
    serde_json::to_string(s)
}

/// `s` as a JSON string literal, quotes and escapes included.
pub fn quote_json(s: &str) -> (r: String)
    ensures
        r@ == json_quoted(s@),
        is_plain(s@) ==> r@ == seq!['"'] + s@ + seq!['"'],
{
    proof {
        if is_plain(s@) {
            lemma_plain_is_unescaped(s@);
        }
    }
    match serde_quote(s) {
        Ok(t) => t,
        Err(_) => String::new(),
    }
}

/// The decimal digit `d`.
pub open spec fn digit_char(d: nat) -> char {
    seq!['0', '1', '2', '3', '4', '5', '6', '7', '8', '9'][d as int]
}

/// Decimal digits of `n`, most significant first, without leading zeros.
pub open spec fn digits(n: nat) -> Seq<char>
    decreases n,
{
    if n < 10 {
        seq![digit_char(n)]
    } else {
        digits(n / 10).push(digit_char(n % 10))
    }
}

/// The JSON text of the integer `n`.
pub open spec fn decimal(n: int) -> Seq<char> {
    if n < 0 {
        seq!['-'] + digits((-n) as nat)
    } else {
        digits(n as nat)
    }
}

fn append_digits(out: &mut String, n: u64)
    ensures
        final(out)@ == old(out)@ + digits(n as nat),
    decreases n,
{
    if n >= 10 {
        append_digits(out, n / 10);
    }
    let d = (n % 10) as usize;
    let table = "0123456789";
    proof {
        reveal_strlit("0123456789");
    }
    let piece = table.substring_char(d, d + 1);
    assert(piece@ =~= seq![digit_char(d as nat)]);
    out.append(piece);
    assert(final(out)@ =~= old(out)@ + digits(n as nat));
}

/// Appends the decimal text of the count `n` to `out`.
pub fn append_count(out: &mut String, n: usize)
    ensures
        final(out)@ == old(out)@ + decimal(n as int),
{
    append_digits(out, n as u64);
}

/// Appends the JSON text of `n` to `out`.
pub fn append_int(out: &mut String, n: i64)
    ensures
        final(out)@ == old(out)@ + decimal(n as int),
{
    if n < 0 {
        let minus = "-";
        proof {
            reveal_strlit("-");
        }
        assert(minus@ =~= seq!['-']);
        out.append(minus);
        let m: u64 = (0i128 - n as i128) as u64;
        append_digits(out, m);
        assert(final(out)@ =~= old(out)@ + decimal(n as int));
    } else {
        append_digits(out, n as u64);
    }
}

/// The characters of each string.
pub open spec fn string_views(v: Seq<String>) -> Seq<Seq<char>> {
    v.map_values(|s: String| s@)
}

/// Each sequence as a JSON string literal.
pub open spec fn quoted_all(items: Seq<Seq<char>>) -> Seq<Seq<char>> {
    items.map_values(|s: Seq<char>| json_quoted(s))
}

/// A JSON array of string literals.
pub open spec fn string_array(items: Seq<Seq<char>>) -> Seq<char> {
    "["@ + joined(quoted_all(items), ","@) + "]"@
}

/// A JSON array of integers.
pub open spec fn int_array(items: Seq<i64>) -> Seq<char> {
    "["@ + joined(items.map_values(|n: i64| decimal(n as int)), ","@) + "]"@
}

/// The JSON array of the strings `items`, in order.
pub fn string_array_text(items: &Vec<String>) -> (r: String)
    ensures
        r@ == string_array(string_views(items@)),
{
    let ghost parts = quoted_all(string_views(items@));
    let mut body = String::new();
    let mut i: usize = 0;
    while i < items.len()
        invariant
            i <= items.len(),
            parts == quoted_all(string_views(items@)),
            body@ == joined(parts.subrange(0, i as int), ","@),
        decreases items.len() - i,
    {
        proof {
            lemma_joined_push(parts, ","@, i as int);
        }
        if i > 0 {
            body.append(",");
        }
        let q = quote_json(items[i].as_str());
        body.append(q.as_str());
        i = i + 1;
    }
    assert(parts.subrange(0, i as int) =~= parts);
    let mut out = String::from_str("[");
    out.append(body.as_str());
    out.append("]");
    out
}

/// The JSON array of the integers `items`, in order.
pub fn int_array_text(items: &Vec<i64>) -> (r: String)
    ensures
        r@ == int_array(items@),
{
    let ghost parts = items@.map_values(|n: i64| decimal(n as int));
    let mut body = String::new();
    let mut i: usize = 0;
    while i < items.len()
        invariant
            i <= items.len(),
            parts == items@.map_values(|n: i64| decimal(n as int)),
            body@ == joined(parts.subrange(0, i as int), ","@),
        decreases items.len() - i,
    {
        proof {
            lemma_joined_push(parts, ","@, i as int);
        }
        if i > 0 {
            body.append(",");
        }
        append_int(&mut body, items[i]);
        i = i + 1;
    }
    assert(parts.subrange(0, i as int) =~= parts);
    let mut out = String::from_str("[");
    out.append(body.as_str());
    out.append("]");
    out
}

} // verus!
