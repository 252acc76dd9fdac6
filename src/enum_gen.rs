//! Fragments of enums: a string or a numeric `enum` schema.

use vstd::prelude::*;

use crate::attributes::{
    description_of, get_description, get_serde_rename, get_serde_skip, rename_of, skip_of,
    Annotation,
};
use crate::error::{ErrorKind, SchemaError};
use crate::json_text::{int_array, int_array_text, string_array, string_array_text, string_views};
use crate::text::opt_view;
use crate::type_model::{append_description, description_member};

verus! {

/// One variant of an enum declaration.
pub struct VariantDecl {
    pub ident: String,
    pub annotations: Vec<Annotation>,
    /// Whether the variant carries no data.
    pub is_unit: bool,
    /// The explicit integer discriminant, if one is written.
    pub discriminant: Option<i64>,
}

/// The properties of a variant that an enum schema checks for.
#[derive(Clone, Copy, Debug, PartialEq, Eq, Structural)]
pub enum VariantFlag {
    /// The variant carries data.
    CarriesData,
    /// The variant has an explicit discriminant.
    HasDiscriminant,
    /// The variant is kept and documented.
    Described,
}

/// Whether a variant is kept in the schema.
pub open spec fn kept(v: VariantDecl) -> bool {
    !skip_of(v.annotations@)
}

/// The emitted name of a variant: its rename, else its identifier.
pub open spec fn variant_name(v: VariantDecl) -> Seq<char> {
    match rename_of(v.annotations@) {
        Some(r) => r,
        None => v.ident@,
    }
}

pub open spec fn flagged(v: VariantDecl, which: VariantFlag) -> bool {
    match which {
        VariantFlag::CarriesData => !v.is_unit,
        VariantFlag::HasDiscriminant => v.discriminant is Some,
        VariantFlag::Described => kept(v) && description_of(v.annotations@) is Some,
    }
}

/// The first position at or after `from` whose variant has the flag.
pub open spec fn first_flagged(vs: Seq<VariantDecl>, which: VariantFlag, from: int) -> Option<int>
    decreases vs.len() - from,
{
    if from < 0 || from >= vs.len() {
        None
    } else if flagged(vs[from], which) {
        Some(from)
    } else {
        first_flagged(vs, which, from + 1)
    }
}

/// The emitted names of the kept variants, in declaration order.
pub open spec fn kept_names(vs: Seq<VariantDecl>) -> Seq<Seq<char>>
    decreases vs.len(),
{
    if vs.len() == 0 {
        seq![]
    } else if kept(vs.last()) {
        kept_names(vs.drop_last()).push(variant_name(vs.last()))
    } else {
        kept_names(vs.drop_last())
    }
}

/// The discriminants of the kept variants, in declaration order.
pub open spec fn kept_discriminants(vs: Seq<VariantDecl>) -> Seq<i64>
    decreases vs.len(),
{
    if vs.len() == 0 {
        seq![]
    } else if kept(vs.last()) {
        kept_discriminants(vs.drop_last()).push(
            match vs.last().discriminant {
                Some(n) => n,
                None => 0,
            },
        )
    } else {
        kept_discriminants(vs.drop_last())
    }
}

/// Whether every variant has an explicit discriminant.
pub open spec fn all_discriminants(vs: Seq<VariantDecl>) -> bool {
    forall|i: int| 0 <= i < vs.len() ==> (#[trigger] vs[i]).discriminant is Some
}

/// The numeric fragment over the given discriminants.
pub open spec fn number_fragment(ds: Seq<i64>, description: Option<Seq<char>>) -> Seq<char> {
    "{\"type\":\"number\",\"enum\":"@ + int_array(ds) + description_member(description) + "}"@
}

/// The string fragment over the given names.
pub open spec fn string_fragment(ns: Seq<Seq<char>>, description: Option<Seq<char>>) -> Seq<
    char,
> {
    "{\"type\":\"string\",\"enum\":"@ + string_array(ns) + description_member(description) + "}"@
}

/// The fragment of an enum, or the first reason it has none: a variant that
/// carries data; a discriminant without an integer `repr`; a description on a
/// kept variant. With an integer `repr` and a discriminant on every variant the
/// fragment is numeric; otherwise it lists names. Skipped variants are left
/// out of either; an enum whose variants are all skipped has an empty list.
pub open spec fn enum_schema_of(
    vs: Seq<VariantDecl>,
    has_repr: bool,
    description: Option<Seq<char>>,
) -> Result<Seq<char>, (ErrorKind, Seq<char>)> {
    match first_flagged(vs, VariantFlag::CarriesData, 0) {
        Some(i) => Err((ErrorKind::NonUnitVariant, vs[i].ident@)),
        None => match (if has_repr {
            None
        } else {
            first_flagged(vs, VariantFlag::HasDiscriminant, 0)
        }) {
            Some(i) => Err((ErrorKind::NumericWithoutRepresentation, vs[i].ident@)),
            None => match first_flagged(vs, VariantFlag::Described, 0) {
                Some(i) => Err((ErrorKind::MisplacedDescription, vs[i].ident@)),
                None => if has_repr && all_discriminants(vs) {
                    Ok(number_fragment(kept_discriminants(vs), description))
                } else {
                    Ok(string_fragment(kept_names(vs), description))
                },
            },
        },
    }
}

proof fn lemma_first_flagged_bounds(vs: Seq<VariantDecl>, which: VariantFlag, from: int)
    ensures
        first_flagged(vs, which, from) matches Some(i) ==> from <= i < vs.len() && flagged(
            vs[i],
            which,
        ),
        first_flagged(vs, which, from) is None && 0 <= from ==> forall|k: int|
            from <= k < vs.len() ==> !flagged(#[trigger] vs[k], which),
    decreases vs.len() - from,
{
    if from < 0 || from >= vs.len() {
    } else if flagged(vs[from], which) {
    } else {
        lemma_first_flagged_bounds(vs, which, from + 1);
    }
}

fn has_flag(v: &VariantDecl, which: VariantFlag) -> (r: bool)
    ensures
        r == flagged(*v, which),
{
    match which {
        VariantFlag::CarriesData => !v.is_unit,
        VariantFlag::HasDiscriminant => v.discriminant.is_some(),
        VariantFlag::Described => !get_serde_skip(&v.annotations) && get_description(
            &v.annotations,
        ).is_some(),
    }
}

fn find_flagged(vs: &Vec<VariantDecl>, which: VariantFlag) -> (r: Option<usize>)
    ensures
        match r {
            Some(i) => first_flagged(vs@, which, 0) == Some(i as int) && i < vs.len(),
            None => first_flagged(vs@, which, 0) is None,
        },
{
    let mut i: usize = 0;
    while i < vs.len()
        invariant
            i <= vs.len(),
            first_flagged(vs@, which, 0) == first_flagged(vs@, which, i as int),
        decreases vs.len() - i,
    {
        if has_flag(&vs[i], which) {
            return Some(i);
        }
        i = i + 1;
    }
    None
}

fn every_discriminant(vs: &Vec<VariantDecl>) -> (r: bool)
    ensures
        r == all_discriminants(vs@),
{
    let mut i: usize = 0;
    while i < vs.len()
        invariant
            i <= vs.len(),
            forall|k: int| 0 <= k < i ==> (#[trigger] vs@[k]).discriminant is Some,
        decreases vs.len() - i,
    {
        if vs[i].discriminant.is_none() {
            return false;
        }
        i = i + 1;
    }
    true
}

fn collect_kept_names(vs: &Vec<VariantDecl>) -> (r: Vec<String>)
    ensures
        string_views(r@) == kept_names(vs@),
{
    let mut names: Vec<String> = Vec::new();
    let mut i: usize = 0;
    assert(vs@.subrange(0, 0) =~= Seq::<VariantDecl>::empty());
    assert(string_views(names@) =~= Seq::<Seq<char>>::empty());
    while i < vs.len()
        invariant
            i <= vs.len(),
            string_views(names@) == kept_names(vs@.subrange(0, i as int)),
        decreases vs.len() - i,
    {
        let ghost sub = vs@.subrange(0, i + 1);
        assert(sub.drop_last() =~= vs@.subrange(0, i as int));
        assert(sub.last() == vs@[i as int]);
        let v = &vs[i];
        if !get_serde_skip(&v.annotations) {
            let name = match get_serde_rename(&v.annotations) {
                Some(r) => r,
                None => v.ident.clone(),
            };
            let ghost prev = names@;
            names.push(name);
            assert(string_views(names@) =~= string_views(prev).push(name@));
        }
        i = i + 1;
    }
    assert(vs@.subrange(0, i as int) =~= vs@);
    names
}

fn collect_kept_discriminants(vs: &Vec<VariantDecl>) -> (r: Vec<i64>)
    ensures
        r@ == kept_discriminants(vs@),
{
    let mut values: Vec<i64> = Vec::new();
    let mut i: usize = 0;
    assert(vs@.subrange(0, 0) =~= Seq::<VariantDecl>::empty());
    while i < vs.len()
        invariant
            i <= vs.len(),
            values@ == kept_discriminants(vs@.subrange(0, i as int)),
        decreases vs.len() - i,
    {
        let ghost sub = vs@.subrange(0, i + 1);
        assert(sub.drop_last() =~= vs@.subrange(0, i as int));
        assert(sub.last() == vs@[i as int]);
        let v = &vs[i];
        if !get_serde_skip(&v.annotations) {
            let n = match v.discriminant {
                Some(n) => n,
                None => 0,
            };
            values.push(n);
        }
        i = i + 1;
    }
    assert(vs@.subrange(0, i as int) =~= vs@);
    values
}

/// The fragment of an enum with the given variants: numeric when `has_repr`
/// and every variant has a discriminant, a list of names otherwise, with the
/// enum's description as its last member.
pub fn handle_enum(variants: &Vec<VariantDecl>, has_repr: bool, description: Option<String>) -> (r:
    Result<String, SchemaError>)
    ensures
        match r {
            Ok(t) => enum_schema_of(variants@, has_repr, opt_view(description)) == Ok::<
                _,
                (ErrorKind, Seq<char>),
            >(t@),
            Err(e) => enum_schema_of(variants@, has_repr, opt_view(description)) == Err::<
                Seq<char>,
                _,
            >(e@),
        },
{
    match find_flagged(variants, VariantFlag::CarriesData) {
        Some(i) => {
            return Err(SchemaError::new(ErrorKind::NonUnitVariant, variants[i].ident.as_str()));
        },
        None => {},
    }
    if !has_repr {
        match find_flagged(variants, VariantFlag::HasDiscriminant) {
            Some(i) => {
                return Err(
                    SchemaError::new(
                        ErrorKind::NumericWithoutRepresentation,
                        variants[i].ident.as_str(),
                    ),
                );
            },
            None => {},
        }
    }
    match find_flagged(variants, VariantFlag::Described) {
        Some(i) => {
            return Err(
                SchemaError::new(ErrorKind::MisplacedDescription, variants[i].ident.as_str()),
            );
        },
        None => {},
    }
    let d = match &description {
        Some(t) => Some(t.as_str()),
        None => None,
    };
    let mut out = String::new();
    if has_repr && every_discriminant(variants) {
        out.append("{\"type\":\"number\",\"enum\":");
        let values = collect_kept_discriminants(variants);
        let list = int_array_text(&values);
        out.append(list.as_str());
    } else {
        out.append("{\"type\":\"string\",\"enum\":");
        let names = collect_kept_names(variants);
        let list = string_array_text(&names);
        out.append(list.as_str());
    }
    append_description(&mut out, d);
    out.append("}");
    Ok(out)
}

/// The names of a string enum are those of its kept variants, in declaration
/// order: skipping variants removes them and reorders nothing.
pub proof fn lemma_kept_names_in_order(vs: Seq<VariantDecl>)
    ensures
        kept_names(vs) == vs.filter(|v: VariantDecl| kept(v)).map_values(
            |v: VariantDecl| variant_name(v),
        ),
    decreases vs.len(),
{
    reveal(Seq::filter);
    if vs.len() > 0 {
        lemma_kept_names_in_order(vs.drop_last());
        let prev = vs.drop_last().filter(|v: VariantDecl| kept(v));
        if kept(vs.last()) {
            assert(prev.push(vs.last()).map_values(|v: VariantDecl| variant_name(v))
                =~= prev.map_values(|v: VariantDecl| variant_name(v)).push(
                variant_name(vs.last()),
            ));
        }
    } else {
        assert(vs.filter(|v: VariantDecl| kept(v)).map_values(|v: VariantDecl| variant_name(v))
            =~= Seq::<Seq<char>>::empty());
    }
}

proof fn lemma_no_flag_from_zero(vs: Seq<VariantDecl>, which: VariantFlag)
    requires
        forall|i: int| 0 <= i < vs.len() ==> !flagged(#[trigger] vs[i], which),
    ensures
        first_flagged(vs, which, 0) is None,
{
    lemma_first_flagged_bounds(vs, which, 0);
}

proof fn lemma_discriminants_in_order(vs: Seq<VariantDecl>)
    requires
        forall|i: int| 0 <= i < vs.len() ==> kept(#[trigger] vs[i]),
        all_discriminants(vs),
    ensures
        kept_discriminants(vs) == vs.map_values(|v: VariantDecl| v.discriminant->Some_0),
    decreases vs.len(),
{
    if vs.len() > 0 {
        let init = vs.drop_last();
        assert forall|i: int| 0 <= i < init.len() implies kept(#[trigger] init[i]) by {
            assert(init[i] == vs[i]);
        }
        assert forall|i: int| 0 <= i < init.len() implies (#[trigger] init[i]).discriminant is Some by {
            assert(init[i] == vs[i]);
        }
        lemma_discriminants_in_order(init);
        assert(vs.last() == vs[vs.len() - 1]);
        assert(vs.map_values(|v: VariantDecl| v.discriminant->Some_0) =~= init.map_values(
            |v: VariantDecl| v.discriminant->Some_0,
        ).push(vs.last().discriminant->Some_0));
    } else {
        assert(vs.map_values(|v: VariantDecl| v.discriminant->Some_0) =~= Seq::<i64>::empty());
    }
}

/// Among unit variants, a discriminant without an integer `repr` is an error;
/// with the `repr` and a discriminant on every variant, the fragment is the
/// numeric one, listing the discriminants of the kept variants in declaration
/// order (all of them, when none is skipped).
pub proof fn lemma_numeric_requires_representation(
    vs: Seq<VariantDecl>,
    has_repr: bool,
    description: Option<Seq<char>>,
)
    requires
        forall|i: int| 0 <= i < vs.len() ==> (#[trigger] vs[i]).is_unit,
    ensures
        !has_repr && (exists|i: int| 0 <= i < vs.len() && (#[trigger] vs[i]).discriminant is Some)
            ==> (enum_schema_of(vs, has_repr, description) matches Err(e) && e.0
            == ErrorKind::NumericWithoutRepresentation),
        has_repr && all_discriminants(vs) && (forall|i: int|
            0 <= i < vs.len() ==> !flagged(#[trigger] vs[i], VariantFlag::Described))
            ==> enum_schema_of(vs, has_repr, description) == Ok::<_, (ErrorKind, Seq<char>)>(
            number_fragment(kept_discriminants(vs), description),
        ),
        has_repr && all_discriminants(vs) && (forall|i: int|
            0 <= i < vs.len() ==> kept(#[trigger] vs[i])) ==> kept_discriminants(vs)
            == vs.map_values(|v: VariantDecl| v.discriminant->Some_0),
{
    assert forall|i: int| 0 <= i < vs.len() implies !flagged(
        #[trigger] vs[i],
        VariantFlag::CarriesData,
    ) by {}
    lemma_no_flag_from_zero(vs, VariantFlag::CarriesData);
    if !has_repr && (exists|i: int| 0 <= i < vs.len() && (#[trigger] vs[i]).discriminant is Some) {
        let i = choose|i: int| 0 <= i < vs.len() && (#[trigger] vs[i]).discriminant is Some;
        lemma_first_flagged_bounds(vs, VariantFlag::HasDiscriminant, 0);
        assert(flagged(vs[i], VariantFlag::HasDiscriminant));
    }
    if has_repr && all_discriminants(vs) && (forall|i: int|
        0 <= i < vs.len() ==> !flagged(#[trigger] vs[i], VariantFlag::Described)) {
        lemma_no_flag_from_zero(vs, VariantFlag::Described);
    }
    if has_repr && all_discriminants(vs) && (forall|i: int|
        0 <= i < vs.len() ==> kept(#[trigger] vs[i])) {
        lemma_discriminants_in_order(vs);
    }
}

} // verus!
