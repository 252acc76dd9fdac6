//! The type model of a field: its declared type, the shape extracted from it,
//! and the inline schema that the shape renders to.

use vstd::prelude::*;

use crate::attributes::is_int_repr;
use crate::error::{ErrorKind, SchemaError};
use crate::json_text::{json_quoted, quote_json};
use crate::text::same_text;

verus! {

/// A field's declared type, as written.
pub enum TypeExpr {
    /// A path type, by the identifier of its last segment and the type
    /// arguments in that segment's angle brackets (empty when there are none).
    Path { ident: String, arguments: Vec<TypeExpr> },
    /// A type that is not a path (a tuple, a reference, an array, ...), or a
    /// generic argument that is not a type, by its source text.
    Unsupported(String),
}

/// The kinds of primitive values.
#[derive(Clone, Copy, Debug, PartialEq, Eq, Structural)]
pub enum PrimitiveKind {
    String,
    Integer,
    Number,
    Boolean,
}

/// The abstract shape of a field type.
pub enum TypeDescriptor {
    Primitive(PrimitiveKind),
    Array(Box<TypeDescriptor>),
    Optional(Box<TypeDescriptor>),
    /// Another declared type, by name; resolved only when a document is rendered.
    Reference(String),
}

/// The view of a [`TypeDescriptor`].
pub enum TypeShape {
    Primitive(PrimitiveKind),
    Array(Box<TypeShape>),
    Optional(Box<TypeShape>),
    Reference(Seq<char>),
}

impl View for TypeDescriptor {
    type V = TypeShape;

    open spec fn view(&self) -> TypeShape
        decreases self,
    {
        match self {
            TypeDescriptor::Primitive(k) => TypeShape::Primitive(*k),
            TypeDescriptor::Array(e) => TypeShape::Array(Box::new((**e).view())),
            TypeDescriptor::Optional(e) => TypeShape::Optional(Box::new((**e).view())),
            TypeDescriptor::Reference(n) => TypeShape::Reference(n@),
        }
    }
}

/// The primitive kind that a type identifier names, if any.
pub open spec fn primitive_of(n: Seq<char>) -> Option<PrimitiveKind> {
    if n == "String"@ {
        Some(PrimitiveKind::String)
    } else if is_int_repr(n) {
        Some(PrimitiveKind::Integer)
    } else if n == "f32"@ || n == "f64"@ {
        Some(PrimitiveKind::Number)
    } else if n == "bool"@ {
        Some(PrimitiveKind::Boolean)
    } else {
        None
    }
}

/// The shape of a declared type: primitives by name, `Vec<T>` and `Option<T>`
/// by their first argument, and any other path as a reference to the named type.
pub open spec fn shape_of(t: TypeExpr) -> Result<TypeShape, (ErrorKind, Seq<char>)>
    decreases t,
{
    match t {
        TypeExpr::Unsupported(text) => Err((ErrorKind::UnsupportedTypeShape, text@)),
        TypeExpr::Path { ident, arguments } => match primitive_of(ident@) {
            Some(k) => Ok(TypeShape::Primitive(k)),
            None => if ident@ == "Vec"@ || ident@ == "Option"@ {
                if arguments.len() == 0 {
                    Err((ErrorKind::UnsupportedTypeShape, ident@))
                } else {
                    match shape_of(arguments[0]) {
                        Ok(inner) => if ident@ == "Vec"@ {
                            Ok(TypeShape::Array(Box::new(inner)))
                        } else {
                            Ok(TypeShape::Optional(Box::new(inner)))
                        },
                        Err(e) => Err(e),
                    }
                }
            } else {
                Ok(TypeShape::Reference(ident@))
            },
        },
    }
}

pub open spec fn descriptor_view(r: Result<TypeDescriptor, SchemaError>) -> Result<
    TypeShape,
    (ErrorKind, Seq<char>),
> {
    match r {
        Ok(d) => Ok(d@),
        Err(e) => Err(e@),
    }
}

fn primitive_named(n: &str) -> (r: Option<PrimitiveKind>)
    ensures
        r == primitive_of(n@),
{
    if same_text(n, "String") {
        Some(PrimitiveKind::String)
    } else if same_text(n, "u8") || same_text(n, "u16") || same_text(n, "u32") || same_text(
        n,
        "u64",
    ) || same_text(n, "u128") || same_text(n, "usize") || same_text(n, "i8") || same_text(n, "i16")
        || same_text(n, "i32") || same_text(n, "i64") || same_text(n, "i128") || same_text(
        n,
        "isize",
    ) {
        Some(PrimitiveKind::Integer)
    } else if same_text(n, "f32") || same_text(n, "f64") {
        Some(PrimitiveKind::Number)
    } else if same_text(n, "bool") {
        Some(PrimitiveKind::Boolean)
    } else {
        None
    }
}

/// Extracts the shape of a declared type. A named type other than a primitive,
/// `Vec` or `Option` becomes a reference, unchecked here.
pub fn extract_type(ty: &TypeExpr) -> (r: Result<TypeDescriptor, SchemaError>)
    ensures
        descriptor_view(r) == shape_of(*ty),
    decreases ty,
{
    match ty {
        TypeExpr::Unsupported(text) => Err(
            SchemaError::new(ErrorKind::UnsupportedTypeShape, text.as_str()),
        ),
        TypeExpr::Path { ident, arguments } => match primitive_named(ident.as_str()) {
            Some(k) => Ok(TypeDescriptor::Primitive(k)),
            None => {
                let is_vec = same_text(ident.as_str(), "Vec");
                if is_vec || same_text(ident.as_str(), "Option") {
                    if arguments.len() == 0 {
                        Err(SchemaError::new(ErrorKind::UnsupportedTypeShape, ident.as_str()))
                    } else {
                        match extract_type(&arguments[0]) {
                            Ok(inner) => if is_vec {
                                Ok(TypeDescriptor::Array(Box::new(inner)))
                            } else {
                                Ok(TypeDescriptor::Optional(Box::new(inner)))
                            },
                            Err(e) => Err(e),
                        }
                    }
                } else {
                    Ok(TypeDescriptor::Reference(String::from_str(ident.as_str())))
                }
            },
        },
    }
}

/// The JSON Schema type names that inline schemas use.
#[derive(Clone, Copy, Debug, PartialEq, Eq, Structural)]
pub enum JsonType {
    String,
    Integer,
    Number,
    Boolean,
    Array,
}

/// The value of a `"type"` keyword: one name, or a name paired with `"null"`.
#[derive(Clone, Copy, Debug, PartialEq, Eq, Structural)]
pub enum TypeKeyword {
    One(JsonType),
    OrNull(JsonType),
}

/// A schema value built from a field type alone.
pub enum InlineSchema {
    /// `{"type": ty}`, with `"items"` for an array.
    Typed { ty: TypeKeyword, items: Option<Box<InlineSchema>> },
    /// `{"anyOf": [inner, {"type": "null"}]}`.
    AnyOfNull(Box<InlineSchema>),
}

/// The schema of a field: inline, or the fragment of another declared type.
pub enum Schema {
    Inlined(InlineSchema),
    Subordinate(String),
}

/// The view of a [`Schema`].
pub enum SchemaView {
    Inlined(InlineSchema),
    Subordinate(Seq<char>),
}

impl View for Schema {
    type V = SchemaView;

    open spec fn view(&self) -> SchemaView {
        match self {
            Schema::Inlined(s) => SchemaView::Inlined(*s),
            Schema::Subordinate(n) => SchemaView::Subordinate(n@),
        }
    }
}

pub open spec fn schema_result_view(r: Result<Schema, SchemaError>) -> Result<
    SchemaView,
    (ErrorKind, Seq<char>),
> {
    match r {
        Ok(s) => Ok(s@),
        Err(e) => Err(e@),
    }
}

pub open spec fn json_type_of(k: PrimitiveKind) -> JsonType {
    match k {
        PrimitiveKind::String => JsonType::String,
        PrimitiveKind::Integer => JsonType::Integer,
        PrimitiveKind::Number => JsonType::Number,
        PrimitiveKind::Boolean => JsonType::Boolean,
    }
}

/// A schema that also admits `null`: a single `"type"` name gains `"null"`
/// beside it; any other schema is wrapped in `anyOf` with `{"type": "null"}`.
pub open spec fn with_null(s: InlineSchema) -> InlineSchema {
    match s {
        InlineSchema::Typed { ty: TypeKeyword::One(t), items } => InlineSchema::Typed {
            ty: TypeKeyword::OrNull(t),
            items,
        },
        _ => InlineSchema::AnyOfNull(Box::new(s)),
    }
}

/// The schema of a shape. A reference stands alone as a subordinate schema;
/// inside an array or an option it is an unsupported shape.
pub open spec fn schema_of(d: TypeShape) -> Result<SchemaView, (ErrorKind, Seq<char>)>
    decreases d,
{
    match d {
        TypeShape::Primitive(k) => Ok(
            SchemaView::Inlined(
                InlineSchema::Typed { ty: TypeKeyword::One(json_type_of(k)), items: None },
            ),
        ),
        TypeShape::Reference(n) => Ok(SchemaView::Subordinate(n)),
        TypeShape::Array(e) => match schema_of(*e) {
            Ok(SchemaView::Inlined(s)) => Ok(
                SchemaView::Inlined(
                    InlineSchema::Typed {
                        ty: TypeKeyword::One(JsonType::Array),
                        items: Some(Box::new(s)),
                    },
                ),
            ),
            Ok(SchemaView::Subordinate(n)) => Err((ErrorKind::UnsupportedTypeShape, n)),
            Err(x) => Err(x),
        },
        TypeShape::Optional(e) => match schema_of(*e) {
            Ok(SchemaView::Inlined(s)) => Ok(SchemaView::Inlined(with_null(s))),
            Ok(SchemaView::Subordinate(n)) => Err((ErrorKind::UnsupportedTypeShape, n)),
            Err(x) => Err(x),
        },
    }
}

/// The schema of a declared type, or why it has none.
pub open spec fn field_schema_of(t: TypeExpr) -> Result<SchemaView, (ErrorKind, Seq<char>)> {
    match shape_of(t) {
        Ok(d) => schema_of(d),
        Err(e) => Err(e),
    }
}

/// Makes `schema` admit `null` as well.
pub fn merge_with_null(schema: InlineSchema) -> (r: InlineSchema)
    ensures
        r == with_null(schema),
{
    match schema {
        InlineSchema::Typed { ty: TypeKeyword::One(t), items } => InlineSchema::Typed {
            ty: TypeKeyword::OrNull(t),
            items,
        },
        _ => InlineSchema::AnyOfNull(Box::new(schema)),
    }
}

/// The schema of a shape.
pub fn schema_for(d: &TypeDescriptor) -> (r: Result<Schema, SchemaError>)
    ensures
        schema_result_view(r) == schema_of(d@),
    decreases d,
{
    match d {
        TypeDescriptor::Primitive(k) => {
            let t = match k {
                PrimitiveKind::String => JsonType::String,
                PrimitiveKind::Integer => JsonType::Integer,
                PrimitiveKind::Number => JsonType::Number,
                PrimitiveKind::Boolean => JsonType::Boolean,
            };
            Ok(Schema::Inlined(InlineSchema::Typed { ty: TypeKeyword::One(t), items: None }))
        },
        TypeDescriptor::Reference(n) => Ok(Schema::Subordinate(String::from_str(n.as_str()))),
        TypeDescriptor::Array(e) => match schema_for(e) {
            Ok(Schema::Inlined(s)) => Ok(
                Schema::Inlined(
                    InlineSchema::Typed {
                        ty: TypeKeyword::One(JsonType::Array),
                        items: Some(Box::new(s)),
                    },
                ),
            ),
            Ok(Schema::Subordinate(n)) => Err(
                SchemaError::new(ErrorKind::UnsupportedTypeShape, n.as_str()),
            ),
            Err(x) => Err(x),
        },
        TypeDescriptor::Optional(e) => match schema_for(e) {
            Ok(Schema::Inlined(s)) => Ok(Schema::Inlined(merge_with_null(s))),
            Ok(Schema::Subordinate(n)) => Err(
                SchemaError::new(ErrorKind::UnsupportedTypeShape, n.as_str()),
            ),
            Err(x) => Err(x),
        },
    }
}

/// The schema of a field's declared type: primitives, arrays and options
/// inline, another declared type as a subordinate reference.
pub fn get_field_type(ty: &TypeExpr) -> (r: Result<Schema, SchemaError>)
    ensures
        schema_result_view(r) == field_schema_of(*ty),
{
    match extract_type(ty) {
        Ok(d) => schema_for(&d),
        Err(e) => Err(e),
    }
}

/// The quoted name of a JSON type.
pub open spec fn type_name_text(t: JsonType) -> Seq<char> {
    match t {
        JsonType::String => "\"string\""@,
        JsonType::Integer => "\"integer\""@,
        JsonType::Number => "\"number\""@,
        JsonType::Boolean => "\"boolean\""@,
        JsonType::Array => "\"array\""@,
    }
}

/// The text of a `"type"` keyword's value.
pub open spec fn keyword_text(k: TypeKeyword) -> Seq<char> {
    match k {
        TypeKeyword::One(t) => type_name_text(t),
        TypeKeyword::OrNull(t) => "["@ + type_name_text(t) + ",\"null\"]"@,
    }
}

/// The `"description"` member that closes an object, if there is a description.
pub open spec fn description_member(d: Option<Seq<char>>) -> Seq<char> {
    match d {
        Some(t) => ",\"description\":"@ + json_quoted(t),
        None => seq![],
    }
}

/// The JSON text of an inline schema, with an optional description as its last member.
pub open spec fn inline_text(s: InlineSchema, description: Option<Seq<char>>) -> Seq<char>
    decreases s,
{
    match s {
        InlineSchema::Typed { ty, items } => "{\"type\":"@ + keyword_text(ty) + match items {
            Some(i) => ",\"items\":"@ + inline_text(*i, None),
            None => seq![],
        } + description_member(description) + "}"@,
        InlineSchema::AnyOfNull(i) => "{\"anyOf\":["@ + inline_text(*i, None)
            + ",{\"type\":\"null\"}]"@ + description_member(description) + "}"@,
    }
}

fn type_name_str(t: JsonType) -> (r: &'static str)
    ensures
        r@ == type_name_text(t),
{
    match t {
        JsonType::String => "\"string\"",
        JsonType::Integer => "\"integer\"",
        JsonType::Number => "\"number\"",
        JsonType::Boolean => "\"boolean\"",
        JsonType::Array => "\"array\"",
    }
}

pub(crate) fn append_description(out: &mut String, description: Option<&str>)
    ensures
        final(out)@ == old(out)@ + description_member(
            match description {
                Some(d) => Some(d@),
                None => None,
            },
        ),
{
    match description {
        Some(d) => {
            out.append(",\"description\":");
            let q = quote_json(d);
            out.append(q.as_str());
        },
        None => {
            assert(old(out)@ + seq![] =~= old(out)@);
        },
    }
}

fn append_keyword(out: &mut String, k: TypeKeyword)
    ensures
        final(out)@ == old(out)@ + keyword_text(k),
{
    match k {
        TypeKeyword::One(t) => {
            out.append(type_name_str(t));
        },
        TypeKeyword::OrNull(t) => {
            out.append("[");
            out.append(type_name_str(t));
            out.append(",\"null\"]");
            assert(final(out)@ =~= old(out)@ + keyword_text(k));
        },
    }
}

/// Appends the JSON text of an inline schema to `out`.
pub fn append_inline(out: &mut String, s: &InlineSchema, description: Option<&str>)
    ensures
        final(out)@ == old(out)@ + inline_text(
            *s,
            match description {
                Some(d) => Some(d@),
                None => None,
            },
        ),
    decreases s,
{
    let ghost dv = match description {
        Some(d) => Some(d@),
        None => None,
    };
    let ghost start = out@;
    match s {
        InlineSchema::Typed { ty, items } => {
            out.append("{\"type\":");
            append_keyword(out, *ty);
            let ghost head = out@;
            let ghost tail: Seq<char> = match items {
                Some(i) => ",\"items\":"@ + inline_text(**i, None),
                None => seq![],
            };
            match items {
                Some(i) => {
                    out.append(",\"items\":");
                    append_inline(out, i, None);
                    assert(out@ =~= head + tail);
                },
                None => {
                    assert(out@ =~= head + tail);
                },
            }
            append_description(out, description);
            out.append("}");
            assert(out@ =~= start + ("{\"type\":"@ + keyword_text(*ty) + tail
                + description_member(dv) + "}"@));
        },
        InlineSchema::AnyOfNull(i) => {
            out.append("{\"anyOf\":[");
            append_inline(out, i, None);
            out.append(",{\"type\":\"null\"}]");
            append_description(out, description);
            out.append("}");
            assert(out@ =~= start + ("{\"anyOf\":["@ + inline_text(**i, None)
                + ",{\"type\":\"null\"}]"@ + description_member(dv) + "}"@));
        },
    }
}

/// An optional primitive renders as an object whose `"type"` is the
/// two-element array of the primitive's name and `"null"`.
pub proof fn lemma_optional_primitive_is_nullable_pair(
    k: PrimitiveKind,
    description: Option<Seq<char>>,
)
    ensures
        schema_of(TypeShape::Optional(Box::new(TypeShape::Primitive(k)))) == Ok::<
            _,
            (ErrorKind, Seq<char>),
        >(
            SchemaView::Inlined(
                InlineSchema::Typed { ty: TypeKeyword::OrNull(json_type_of(k)), items: None },
            ),
        ),
        inline_text(
            InlineSchema::Typed { ty: TypeKeyword::OrNull(json_type_of(k)), items: None },
            description,
        ) == "{\"type\":"@ + ("["@ + type_name_text(json_type_of(k)) + ",\"null\"]"@)
            + description_member(description) + "}"@,
{
    let s = InlineSchema::Typed { ty: TypeKeyword::OrNull(json_type_of(k)), items: None };
    let base = InlineSchema::Typed { ty: TypeKeyword::One(json_type_of(k)), items: None };
    assert(schema_of(TypeShape::Primitive(k)) == Ok::<_, (ErrorKind, Seq<char>)>(
        SchemaView::Inlined(base),
    ));
    assert(with_null(base) == s);
    assert(inline_text(s, description) =~= "{\"type\":"@ + keyword_text(TypeKeyword::OrNull(json_type_of(k))) + seq![] + description_member(description) + "}"@);
}

} // verus!
