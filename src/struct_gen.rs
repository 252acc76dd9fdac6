//! Object schemas of structs: one property per kept field, in declaration order.

use vstd::prelude::*;

use crate::attributes::{
    description_of, get_description, get_serde_rename, get_serde_skip, rename_of, skip_of,
    Annotation,
};
use crate::error::{ErrorKind, SchemaError};
use crate::json_text::{append_count, decimal};
use crate::text::opt_view;
use crate::type_model::{
    append_inline, field_schema_of, get_field_type, inline_text, shape_of, Schema, SchemaView,
    TypeExpr, TypeShape,
};

verus! {

/// One field of a struct declaration.
pub struct FieldDecl {
    /// The field's identifier; `None` for a tuple-struct field.
    pub ident: Option<String>,
    pub ty: TypeExpr,
    pub annotations: Vec<Annotation>,
}

/// A kept field with everything its property needs.
pub struct FieldInfo {
    /// The emitted key: the rename if there is one, else the declared name.
    pub name: String,
    pub schema: Schema,
    /// Whether the key belongs in `required`: the type is not `Option<T>`.
    pub required: bool,
    pub description: Option<String>,
}

/// The view of a [`FieldInfo`].
pub struct FieldInfoView {
    pub name: Seq<char>,
    pub schema: SchemaView,
    pub required: bool,
    pub description: Option<Seq<char>>,
}

impl View for FieldInfo {
    type V = FieldInfoView;

    open spec fn view(&self) -> FieldInfoView {
        FieldInfoView {
            name: self.name@,
            schema: self.schema@,
            required: self.required,
            description: opt_view(self.description),
        }
    }
}

/// The declared name of the field at position `i`: its identifier, or `i` in decimal.
pub open spec fn declared_name(f: FieldDecl, i: int) -> Seq<char> {
    match f.ident {
        Some(n) => n@,
        None => decimal(i),
    }
}

/// The key under which the field at position `i` is emitted.
pub open spec fn emitted_name(f: FieldDecl, i: int) -> Seq<char> {
    match rename_of(f.annotations@) {
        Some(r) => r,
        None => declared_name(f, i),
    }
}

/// The information of the field at position `i`: `None` when it is skipped.
pub open spec fn field_info_of(f: FieldDecl, i: int) -> Result<
    Option<FieldInfoView>,
    (ErrorKind, Seq<char>),
> {
    if skip_of(f.annotations@) {
        Ok(None)
    } else {
        match field_schema_of(f.ty) {
            Err(e) => Err(e),
            Ok(s) => Ok(
                Some(
                    FieldInfoView {
                        name: emitted_name(f, i),
                        schema: s,
                        required: !(shape_of(f.ty) matches Ok(TypeShape::Optional(_))),
                        description: description_of(f.annotations@),
                    },
                ),
            ),
        }
    }
}

/// The information of the kept fields, in order; the first field error otherwise.
pub open spec fn field_infos(fields: Seq<FieldDecl>) -> Result<
    Seq<FieldInfoView>,
    (ErrorKind, Seq<char>),
>
    decreases fields.len(),
{
    if fields.len() == 0 {
        Ok(seq![])
    } else {
        match field_infos(fields.drop_last()) {
            Err(e) => Err(e),
            Ok(prev) => match field_info_of(fields.last(), fields.len() - 1) {
                Err(e) => Err(e),
                Ok(None) => Ok(prev),
                Ok(Some(fi)) => Ok(prev.push(fi)),
            },
        }
    }
}

pub open spec fn infos_view(v: Seq<FieldInfo>) -> Seq<FieldInfoView> {
    v.map_values(|f: FieldInfo| f@)
}

pub open spec fn infos_result_view(r: Result<Vec<FieldInfo>, SchemaError>) -> Result<
    Seq<FieldInfoView>,
    (ErrorKind, Seq<char>),
> {
    match r {
        Ok(v) => Ok(infos_view(v@)),
        Err(e) => Err(e@),
    }
}

fn is_optional(ty: &TypeExpr) -> (r: bool)
    ensures
        r == (shape_of(*ty) matches Ok(TypeShape::Optional(_))),
{
    match crate::type_model::extract_type(ty) {
        Ok(crate::type_model::TypeDescriptor::Optional(_)) => true,
        _ => false,
    }
}

/// The information of the field at position `i`, or `None` when it is skipped.
fn field_info(f: &FieldDecl, i: usize) -> (r: Result<Option<FieldInfo>, SchemaError>)
    ensures
        match r {
            Ok(Some(fi)) => field_info_of(*f, i as int) == Ok::<_, (ErrorKind, Seq<char>)>(
                Some(fi@),
            ),
            Ok(None) => field_info_of(*f, i as int) == Ok::<_, (ErrorKind, Seq<char>)>(
                None::<FieldInfoView>,
            ),
            Err(e) => field_info_of(*f, i as int) == Err::<Option<FieldInfoView>, _>(e@),
        },
{
    if get_serde_skip(&f.annotations) {
        return Ok(None);
    }
    let schema = match get_field_type(&f.ty) {
        Ok(s) => s,
        Err(e) => {
            return Err(e);
        },
    };
    let description = get_description(&f.annotations);
    let name = match get_serde_rename(&f.annotations) {
        Some(r) => r,
        None => match &f.ident {
            Some(n) => n.clone(),
            None => {
                let mut s = String::new();
                append_count(&mut s, i);
                assert(s@ =~= decimal(i as int));
                s
            },
        },
    };
    let required = !is_optional(&f.ty);
    Ok(Some(FieldInfo { name, schema, required, description }))
}

/// A field error stays the result when more fields follow.
pub proof fn lemma_field_infos_error_persists(fields: Seq<FieldDecl>, k: int)
    requires
        0 <= k <= fields.len(),
        field_infos(fields.subrange(0, k)) is Err,
    ensures
        field_infos(fields) == field_infos(fields.subrange(0, k)),
    decreases fields.len() - k,
{
    if k == fields.len() {
        assert(fields.subrange(0, k) =~= fields);
    } else {
        let next = fields.subrange(0, k + 1);
        assert(next.drop_last() =~= fields.subrange(0, k));
        lemma_field_infos_error_persists(fields, k + 1);
    }
}

/// The information of the kept fields of a struct, in declaration order.
pub fn collect_field_infos(fields: &Vec<FieldDecl>) -> (r: Result<Vec<FieldInfo>, SchemaError>)
    ensures
        infos_result_view(r) == field_infos(fields@),
{
    let mut infos: Vec<FieldInfo> = Vec::new();
    let mut i: usize = 0;
    assert(fields@.subrange(0, 0) =~= Seq::<FieldDecl>::empty());
    assert(infos_view(infos@) =~= Seq::<FieldInfoView>::empty());
    while i < fields.len()
        invariant
            i <= fields.len(),
            field_infos(fields@.subrange(0, i as int)) == Ok::<_, (ErrorKind, Seq<char>)>(
                infos_view(infos@),
            ),
        decreases fields.len() - i,
    {
        let ghost sub = fields@.subrange(0, i + 1);
        assert(sub.drop_last() =~= fields@.subrange(0, i as int));
        assert(sub.last() == fields@[i as int]);
        match field_info(&fields[i], i) {
            Err(e) => {
                proof {
                    lemma_field_infos_error_persists(fields@, i + 1);
                }
                return Err(e);
            },
            Ok(None) => {},
            Ok(Some(fi)) => {
                let ghost prev = infos@;
                infos.push(fi);
                assert(infos_view(infos@) =~= infos_view(prev).push(fi@));
            },
        }
        i = i + 1;
    }
    assert(fields@.subrange(0, i as int) =~= fields@);
    Ok(infos)
}

/// The value of a property: finished JSON text, or the fragment of another
/// declared type, looked up when the document is rendered.
pub enum PropertyValue {
    Inline(String),
    Reference(String),
}

/// One member of an object schema's `"properties"`.
pub struct Property {
    pub key: String,
    pub value: PropertyValue,
}

/// The object schema of a struct: its properties and its required keys, in
/// declaration order.
pub struct ObjectSchema {
    pub properties: Vec<Property>,
    pub required: Vec<String>,
}

/// The view of a [`PropertyValue`].
pub enum PropertyValueView {
    Inline(Seq<char>),
    Reference(Seq<char>),
}

/// The view of a [`Property`].
pub struct PropertyView {
    pub key: Seq<char>,
    pub value: PropertyValueView,
}

/// The view of an [`ObjectSchema`].
pub struct ObjectView {
    pub properties: Seq<PropertyView>,
    pub required: Seq<Seq<char>>,
}

impl View for Property {
    type V = PropertyView;

    open spec fn view(&self) -> PropertyView {
        PropertyView {
            key: self.key@,
            value: match self.value {
                PropertyValue::Inline(t) => PropertyValueView::Inline(t@),
                PropertyValue::Reference(n) => PropertyValueView::Reference(n@),
            },
        }
    }
}

pub open spec fn properties_view(v: Seq<Property>) -> Seq<PropertyView> {
    v.map_values(|p: Property| p@)
}

impl View for ObjectSchema {
    type V = ObjectView;

    open spec fn view(&self) -> ObjectView {
        ObjectView {
            properties: properties_view(self.properties@),
            required: self.required@.map_values(|s: String| s@),
        }
    }
}

/// The property of a kept field. A referenced type brings its own description,
/// so a description on such a field is an error.
pub open spec fn property_of(fi: FieldInfoView) -> Result<PropertyView, (ErrorKind, Seq<char>)> {
    match fi.schema {
        SchemaView::Inlined(s) => Ok(
            PropertyView {
                key: fi.name,
                value: PropertyValueView::Inline(inline_text(s, fi.description)),
            },
        ),
        SchemaView::Subordinate(n) => if fi.description is Some {
            Err((ErrorKind::MisplacedDescription, fi.name))
        } else {
            Ok(PropertyView { key: fi.name, value: PropertyValueView::Reference(n) })
        },
    }
}

/// The properties of the kept fields, in order; the first error otherwise.
pub open spec fn properties_of(infos: Seq<FieldInfoView>) -> Result<
    Seq<PropertyView>,
    (ErrorKind, Seq<char>),
>
    decreases infos.len(),
{
    if infos.len() == 0 {
        Ok(seq![])
    } else {
        match properties_of(infos.drop_last()) {
            Err(e) => Err(e),
            Ok(prev) => match property_of(infos.last()) {
                Err(e) => Err(e),
                Ok(p) => Ok(prev.push(p)),
            },
        }
    }
}

/// The keys of the required fields, in order.
pub open spec fn required_keys(infos: Seq<FieldInfoView>) -> Seq<Seq<char>>
    decreases infos.len(),
{
    if infos.len() == 0 {
        seq![]
    } else if infos.last().required {
        required_keys(infos.drop_last()).push(infos.last().name)
    } else {
        required_keys(infos.drop_last())
    }
}

/// The object schema of a struct with the given fields.
pub open spec fn object_of(fields: Seq<FieldDecl>) -> Result<ObjectView, (ErrorKind, Seq<char>)> {
    match field_infos(fields) {
        Err(e) => Err(e),
        Ok(infos) => match properties_of(infos) {
            Err(e) => Err(e),
            Ok(props) => Ok(ObjectView { properties: props, required: required_keys(infos) }),
        },
    }
}

pub open spec fn object_result_view(r: Result<ObjectSchema, SchemaError>) -> Result<
    ObjectView,
    (ErrorKind, Seq<char>),
> {
    match r {
        Ok(o) => Ok(o@),
        Err(e) => Err(e@),
    }
}

/// A property error stays the result when more fields follow.
pub proof fn lemma_properties_error_persists(infos: Seq<FieldInfoView>, k: int)
    requires
        0 <= k <= infos.len(),
        properties_of(infos.subrange(0, k)) is Err,
    ensures
        properties_of(infos) == properties_of(infos.subrange(0, k)),
    decreases infos.len() - k,
{
    if k == infos.len() {
        assert(infos.subrange(0, k) =~= infos);
    } else {
        let next = infos.subrange(0, k + 1);
        assert(next.drop_last() =~= infos.subrange(0, k));
        lemma_properties_error_persists(infos, k + 1);
    }
}

/// The object schema of a struct: for each kept field, in declaration order,
/// a property under its emitted key, and the keys of non-optional fields as
/// `required`.
pub fn handle_struct(fields: &Vec<FieldDecl>) -> (r: Result<ObjectSchema, SchemaError>)
    ensures
        object_result_view(r) == object_of(fields@),
{
    let infos = match collect_field_infos(fields) {
        Ok(v) => v,
        Err(e) => {
            return Err(e);
        },
    };
    let ghost iv = infos_view(infos@);
    let mut properties: Vec<Property> = Vec::new();
    let mut required: Vec<String> = Vec::new();
    let mut i: usize = 0;
    assert(iv.subrange(0, 0) =~= Seq::<FieldInfoView>::empty());
    assert(properties_view(properties@) =~= Seq::<PropertyView>::empty());
    assert(required@.map_values(|s: String| s@) =~= Seq::<Seq<char>>::empty());
    while i < infos.len()
        invariant
            i <= infos.len(),
            iv == infos_view(infos@),
            field_infos(fields@) == Ok::<_, (ErrorKind, Seq<char>)>(iv),
            properties_of(iv.subrange(0, i as int)) == Ok::<_, (ErrorKind, Seq<char>)>(
                properties_view(properties@),
            ),
            required@.map_values(|s: String| s@) == required_keys(iv.subrange(0, i as int)),
        decreases infos.len() - i,
    {
        let ghost sub = iv.subrange(0, i + 1);
        assert(sub.drop_last() =~= iv.subrange(0, i as int));
        assert(sub.last() == infos@[i as int]@);
        let fi = &infos[i];
        let value = match &fi.schema {
            Schema::Inlined(s) => {
                let mut text = String::new();
                let description = match &fi.description {
                    Some(d) => Some(d.as_str()),
                    None => None,
                };
                append_inline(&mut text, s, description);
                assert(text@ =~= inline_text(*s, fi@.description));
                PropertyValue::Inline(text)
            },
            Schema::Subordinate(n) => {
                if fi.description.is_some() {
                    proof {
                        lemma_properties_error_persists(iv, i + 1);
                    }
                    return Err(SchemaError::new(ErrorKind::MisplacedDescription, fi.name.as_str()));
                }
                PropertyValue::Reference(n.clone())
            },
        };
        let ghost prev_props = properties@;
        let ghost prev_required = required@;
        properties.push(Property { key: fi.name.clone(), value });
        assert(properties_view(properties@) =~= properties_view(prev_props).push(
            properties@.last()@,
        ));
        if fi.required {
            required.push(fi.name.clone());
            assert(required@.map_values(|s: String| s@) =~= prev_required.map_values(
                |s: String| s@,
            ).push(fi.name@));
        }
        i = i + 1;
    }
    assert(iv.subrange(0, i as int) =~= iv);
    Ok(ObjectSchema { properties, required })
}

/// The emitted names of the kept fields, in declaration order.
pub open spec fn kept_field_names(fields: Seq<FieldDecl>) -> Seq<Seq<char>>
    decreases fields.len(),
{
    if fields.len() == 0 {
        seq![]
    } else if skip_of(fields.last().annotations@) {
        kept_field_names(fields.drop_last())
    } else {
        kept_field_names(fields.drop_last()).push(emitted_name(fields.last(), fields.len() - 1))
    }
}

/// The keys of properties, in order.
pub open spec fn keys_of(props: Seq<PropertyView>) -> Seq<Seq<char>> {
    props.map_values(|p: PropertyView| p.key)
}

/// The emitted names of field information, in order.
pub open spec fn names_of(infos: Seq<FieldInfoView>) -> Seq<Seq<char>> {
    infos.map_values(|f: FieldInfoView| f.name)
}

proof fn lemma_info_names(fields: Seq<FieldDecl>)
    ensures
        field_infos(fields) matches Ok(infos) ==> names_of(infos) == kept_field_names(fields),
    decreases fields.len(),
{
    if fields.len() > 0 {
        lemma_info_names(fields.drop_last());
        if let Ok(prev) = field_infos(fields.drop_last()) {
            if let Ok(Some(fi)) = field_info_of(fields.last(), fields.len() - 1) {
                assert(names_of(prev.push(fi)) =~= names_of(prev).push(fi.name));
            }
        }
    }
}

proof fn lemma_property_keys(infos: Seq<FieldInfoView>)
    ensures
        properties_of(infos) matches Ok(props) ==> keys_of(props) == names_of(infos),
    decreases infos.len(),
{
    if infos.len() > 0 {
        lemma_property_keys(infos.drop_last());
        assert(names_of(infos) =~= names_of(infos.drop_last()).push(infos.last().name));
        if let Ok(prev) = properties_of(infos.drop_last()) {
            if let Ok(p) = property_of(infos.last()) {
                assert(keys_of(prev.push(p)) =~= keys_of(prev).push(p.key));
            }
        }
    }
}

proof fn lemma_infos_all_required(fields: Seq<FieldDecl>)
    requires
        forall|i: int|
            0 <= i < fields.len() ==> !skip_of((#[trigger] fields[i]).annotations@) && !(shape_of(
                fields[i].ty,
            ) matches Ok(TypeShape::Optional(_))),
    ensures
        field_infos(fields) matches Ok(infos) ==> infos.len() == fields.len() && forall|k: int|
            0 <= k < infos.len() ==> (#[trigger] infos[k]).required,
    decreases fields.len(),
{
    if fields.len() > 0 {
        let init = fields.drop_last();
        assert forall|i: int| 0 <= i < init.len() implies !skip_of(
            (#[trigger] init[i]).annotations@,
        ) && !(shape_of(init[i].ty) matches Ok(TypeShape::Optional(_))) by {
            assert(init[i] == fields[i]);
        }
        lemma_infos_all_required(init);
        assert(fields.last() == fields[fields.len() - 1]);
    }
}

proof fn lemma_all_required_keys(infos: Seq<FieldInfoView>)
    requires
        forall|k: int| 0 <= k < infos.len() ==> (#[trigger] infos[k]).required,
    ensures
        required_keys(infos) == names_of(infos),
    decreases infos.len(),
{
    if infos.len() > 0 {
        let init = infos.drop_last();
        assert forall|k: int| 0 <= k < init.len() implies (#[trigger] init[k]).required by {
            assert(init[k] == infos[k]);
        }
        lemma_all_required_keys(init);
        assert(infos.last() == infos[infos.len() - 1]);
        assert(names_of(infos) =~= names_of(init).push(infos.last().name));
    }
}

/// Skipped fields leave no property behind, and every kept field appears
/// exactly under its emitted key (its rename, if it has one), in declaration
/// order.
pub proof fn lemma_keys_are_kept_emitted_names(fields: Seq<FieldDecl>)
    ensures
        object_of(fields) matches Ok(o) ==> keys_of(o.properties) == kept_field_names(fields),
{
    lemma_info_names(fields);
    if let Ok(infos) = field_infos(fields) {
        lemma_property_keys(infos);
    }
}

/// For a struct of N fields, none optional and none skipped, `required` holds
/// N keys, the property keys in their order.
pub proof fn lemma_required_matches_properties(fields: Seq<FieldDecl>)
    requires
        forall|i: int|
            0 <= i < fields.len() ==> !skip_of((#[trigger] fields[i]).annotations@) && !(shape_of(
                fields[i].ty,
            ) matches Ok(TypeShape::Optional(_))),
    ensures
        object_of(fields) matches Ok(o) ==> o.required.len() == fields.len() && o.required
            == keys_of(o.properties),
{
    lemma_infos_all_required(fields);
    if let Ok(infos) = field_infos(fields) {
        lemma_all_required_keys(infos);
        lemma_property_keys(infos);
    }
}

} // verus!
