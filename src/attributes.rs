//! Declaration-time annotations and the attributes read from them.

use vstd::prelude::*;

use crate::error::{err_view, ErrorKind, SchemaError};
use crate::json_text::string_views;
use crate::text::{
    find_from, index_of, joined, lemma_index_of_bounds, lemma_joined_snoc, opt_view, same_text,
    trim_text, trimmed,
};

verus! {

/// One annotation of a declaration, a field or a variant.
pub enum Annotation {
    /// One line of documentation text, as written after `///`.
    Doc(String),
    /// The tokens inside a `serde(...)` list, as text.
    Serde(String),
    /// The items of a `repr(...)` list, by name.
    Repr(Vec<String>),
    /// Any other annotation.
    Other,
}

/// The trimmed documentation lines among `anns`, in order.
pub open spec fn doc_lines(anns: Seq<Annotation>) -> Seq<Seq<char>>
    decreases anns.len(),
{
    if anns.len() == 0 {
        seq![]
    } else {
        let rest = doc_lines(anns.drop_last());
        match anns.last() {
            Annotation::Doc(t) => rest.push(trimmed(t@)),
            _ => rest,
        }
    }
}

/// The documentation lines joined by single spaces; absent when that is empty.
pub open spec fn description_of(anns: Seq<Annotation>) -> Option<Seq<char>> {
    let d = joined(doc_lines(anns), " "@);
    if d.len() == 0 {
        None
    } else {
        Some(d)
    }
}

/// The text between the two quotes that follow `rename =` in serde tokens.
pub open spec fn rename_in(t: Seq<char>) -> Option<Seq<char>> {
    match index_of(t, "rename ="@, 0) {
        None => None,
        Some(p) => match index_of(t, "\""@, p) {
            None => None,
            Some(q) => match index_of(t, "\""@, q + 1) {
                None => None,
                Some(e) => Some(t.subrange(q + 1, e)),
            },
        },
    }
}

/// The first rename among the serde annotations of `anns`.
pub open spec fn rename_of(anns: Seq<Annotation>) -> Option<Seq<char>>
    decreases anns.len(),
{
    if anns.len() == 0 {
        None
    } else {
        match anns[0] {
            Annotation::Serde(t) => match rename_in(t@) {
                Some(r) => Some(r),
                None => rename_of(anns.drop_first()),
            },
            _ => rename_of(anns.drop_first()),
        }
    }
}

/// Whether `a` is a serde annotation that mentions `skip`.
pub open spec fn mentions_skip(a: Annotation) -> bool {
    match a {
        Annotation::Serde(t) => index_of(t@, "skip"@, 0) is Some,
        _ => false,
    }
}

/// Whether some serde annotation of `anns` mentions `skip`.
pub open spec fn skip_of(anns: Seq<Annotation>) -> bool {
    exists|i: int| 0 <= i < anns.len() && #[trigger] mentions_skip(anns[i])
}

/// Whether `anns` holds a serde annotation.
pub open spec fn has_serde(anns: Seq<Annotation>) -> bool {
    exists|i: int| 0 <= i < anns.len() && #[trigger] anns[i] is Serde
}

/// The description of `attrs`: its documentation lines, each trimmed, joined by
/// single spaces; `None` when that text is empty.
pub fn get_description(attrs: &Vec<Annotation>) -> (r: Option<String>)
    ensures
        opt_view(r) == description_of(attrs@),
{
    let mut docs = String::new();
    let mut count: usize = 0;
    let mut i: usize = 0;
    while i < attrs.len()
        invariant
            i <= attrs.len(),
            count == doc_lines(attrs@.subrange(0, i as int)).len(),
            count <= i,
            docs@ == joined(doc_lines(attrs@.subrange(0, i as int)), " "@),
        decreases attrs.len() - i,
    {
        let ghost prev = doc_lines(attrs@.subrange(0, i as int));
        assert(attrs@.subrange(0, i + 1).drop_last() =~= attrs@.subrange(0, i as int));
        match &attrs[i] {
            Annotation::Doc(t) => {
                let line = trim_text(t.as_str());
                proof {
                    lemma_joined_snoc(prev, line@, " "@);
                }
                if count > 0 {
                    docs.append(" ");
                }
                docs.append(line.as_str());
                count = count + 1;
            },
            _ => {},
        }
        i = i + 1;
    }
    assert(attrs@.subrange(0, i as int) =~= attrs@);
    if docs.as_str().is_empty() {
        None
    } else {
        Some(docs)
    }
}

/// The rename that a serde token text carries: the text between the two
/// quotes that follow `rename =`.
fn rename_in_tokens(t: &str) -> (r: Option<String>)
    ensures
        opt_view(r) == rename_in(t@),
{
    match find_from(t, "rename =", 0) {
        None => None,
        Some(p) => match find_from(t, "\"", p) {
            None => None,
            Some(q) => {
                proof {
                    reveal_strlit("\"");
                    lemma_index_of_bounds(t@, "\""@, p as int);
                }
                match find_from(t, "\"", q + 1) {
                    None => None,
                    Some(e) => {
                        proof {
                            lemma_index_of_bounds(t@, "\""@, q + 1);
                        }
                        Some(String::from_str(t.substring_char(q + 1, e)))
                    },
                }
            },
        },
    }
}

/// The emitted name that `attrs` sets through `serde(rename = "...")`, if any.
pub fn get_serde_rename(attrs: &Vec<Annotation>) -> (r: Option<String>)
    ensures
        opt_view(r) == rename_of(attrs@),
{
    let mut i: usize = 0;
    assert(attrs@.subrange(0, attrs@.len() as int) =~= attrs@);
    while i < attrs.len()
        invariant
            i <= attrs.len(),
            rename_of(attrs@) == rename_of(attrs@.subrange(i as int, attrs@.len() as int)),
        decreases attrs.len() - i,
    {
        assert(attrs@.subrange(i as int, attrs@.len() as int).drop_first() =~= attrs@.subrange(
            i + 1,
            attrs@.len() as int,
        ));
        assert(attrs@.subrange(i as int, attrs@.len() as int)[0] == attrs@[i as int]);
        match &attrs[i] {
            Annotation::Serde(t) => {
                let found = rename_in_tokens(t.as_str());
                if found.is_some() {
                    return found;
                }
            },
            _ => {},
        }
        i = i + 1;
    }
    None
}

/// Whether a serde annotation of `attrs` mentions `skip`.
pub fn get_serde_skip(attrs: &Vec<Annotation>) -> (r: bool)
    ensures
        r == skip_of(attrs@),
{
    let mut i: usize = 0;
    while i < attrs.len()
        invariant
            i <= attrs.len(),
            forall|k: int| 0 <= k < i ==> !#[trigger] mentions_skip(attrs@[k]),
        decreases attrs.len() - i,
    {
        match &attrs[i] {
            Annotation::Serde(t) => {
                if find_from(t.as_str(), "skip", 0).is_some() {
                    assert(mentions_skip(attrs@[i as int]));
                    return true;
                }
            },
            _ => {},
        }
        i = i + 1;
    }
    false
}

/// Whether `attrs` holds any serde annotation.
pub fn has_top_level_serde_attr(attrs: &Vec<Annotation>) -> (r: bool)
    ensures
        r == has_serde(attrs@),
{
    let mut i: usize = 0;
    while i < attrs.len()
        invariant
            i <= attrs.len(),
            forall|k: int| 0 <= k < i ==> !(#[trigger] attrs@[k] is Serde),
        decreases attrs.len() - i,
    {
        if let Annotation::Serde(_) = &attrs[i] {
            return true;
        }
        i = i + 1;
    }
    false
}

/// An integer type name that may stand in `repr(...)`.
pub open spec fn is_int_repr(n: Seq<char>) -> bool {
    n == "u8"@ || n == "u16"@ || n == "u32"@ || n == "u64"@ || n == "u128"@ || n == "usize"@ || n
        == "i8"@ || n == "i16"@ || n == "i32"@ || n == "i64"@ || n == "i128"@ || n == "isize"@
}

/// A `repr(...)` item that an enum schema accepts.
pub open spec fn is_known_repr(n: Seq<char>) -> bool {
    is_int_repr(n) || n == "align"@ || n == "packed"@
}

/// The items of all `repr(...)` annotations of `anns`, in order.
pub open spec fn repr_names(anns: Seq<Annotation>) -> Seq<Seq<char>>
    decreases anns.len(),
{
    if anns.len() == 0 {
        seq![]
    } else {
        let rest = repr_names(anns.drop_last());
        match anns.last() {
            Annotation::Repr(items) => rest + string_views(items@),
            _ => rest,
        }
    }
}

/// The first unknown `repr` item is an error; otherwise, whether an integer
/// representation is declared.
pub open spec fn repr_check(names: Seq<Seq<char>>) -> Result<bool, (ErrorKind, Seq<char>)>
    decreases names.len(),
{
    if names.len() == 0 {
        Ok(false)
    } else if !is_known_repr(names[0]) {
        Err((ErrorKind::UnsupportedRepresentation, names[0]))
    } else {
        match repr_check(names.drop_first()) {
            Ok(b) => Ok(b || is_int_repr(names[0])),
            Err(e) => Err(e),
        }
    }
}

fn is_int_repr_name(n: &str) -> (r: bool)
    ensures
        r == is_int_repr(n@),
{
    same_text(n, "u8") || same_text(n, "u16") || same_text(n, "u32") || same_text(n, "u64")
        || same_text(n, "u128") || same_text(n, "usize") || same_text(n, "i8") || same_text(
        n,
        "i16",
    ) || same_text(n, "i32") || same_text(n, "i64") || same_text(n, "i128") || same_text(
        n,
        "isize",
    )
}

fn repr_names_of(attrs: &Vec<Annotation>) -> (r: Vec<String>)
    ensures
        string_views(r@) == repr_names(attrs@),
{
    let mut names: Vec<String> = Vec::new();
    let mut i: usize = 0;
    while i < attrs.len()
        invariant
            i <= attrs.len(),
            string_views(names@) == repr_names(attrs@.subrange(0, i as int)),
        decreases attrs.len() - i,
    {
        assert(attrs@.subrange(0, i + 1).drop_last() =~= attrs@.subrange(0, i as int));
        match &attrs[i] {
            Annotation::Repr(items) => {
                let ghost before = string_views(names@);
                let mut j: usize = 0;
                while j < items.len()
                    invariant
                        j <= items.len(),
                        string_views(names@) == before + string_views(items@.subrange(0, j as int)),
                    decreases items.len() - j,
                {
                    let n = items[j].clone();
                    let ghost prev = names@;
                    names.push(n);
                    assert(names@ =~= prev.push(n));
                    assert(string_views(names@) =~= string_views(prev).push(n@));
                    assert(string_views(items@.subrange(0, j + 1)) =~= string_views(
                        items@.subrange(0, j as int),
                    ).push(items@[j as int]@));
                    assert(string_views(names@) =~= before + string_views(
                        items@.subrange(0, j + 1),
                    ));
                    j = j + 1;
                }
                assert(items@.subrange(0, j as int) =~= items@);
            },
            _ => {},
        }
        i = i + 1;
    }
    assert(attrs@.subrange(0, i as int) =~= attrs@);
    names
}

/// Whether `attrs` declares an integer representation through `repr(...)`;
/// an item other than an integer type, `align` or `packed` is an error.
pub fn has_repr_attr(attrs: &Vec<Annotation>) -> (r: Result<bool, SchemaError>)
    ensures
        err_view(r) == repr_check(repr_names(attrs@)),
{
    let names = repr_names_of(attrs);
    let ghost all = string_views(names@);
    let mut found = false;
    let mut i: usize = 0;
    assert(all.subrange(0, all.len() as int) =~= all);
    while i < names.len()
        invariant
            i <= names.len(),
            all == string_views(names@),
            all == repr_names(attrs@),
            repr_check(all) == match repr_check(all.subrange(i as int, all.len() as int)) {
                Ok(b) => Ok(b || found),
                Err(e) => Err(e),
            },
        decreases names.len() - i,
    {
        let n = names[i].as_str();
        assert(all.subrange(i as int, all.len() as int).drop_first() =~= all.subrange(
            i + 1,
            all.len() as int,
        ));
        assert(all.subrange(i as int, all.len() as int)[0] == all[i as int]);
        assert(all[i as int] == n@);
        let int_repr = is_int_repr_name(n);
        if !int_repr && !same_text(n, "align") && !same_text(n, "packed") {
            let e = SchemaError::new(ErrorKind::UnsupportedRepresentation, n);
            assert(!is_known_repr(n@));
            assert(repr_check(all.subrange(i as int, all.len() as int)) == Err::<bool, _>(e@));
            return Err(e);
        }
        found = found || int_repr;
        i = i + 1;
    }
    Ok(found)
}

} // verus!
