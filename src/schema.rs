//! Declarations, their compiled form, and the registry that renders root
//! documents and fragments.

use vstd::prelude::*;

use crate::attributes::{
    description_of, get_description, has_repr_attr, has_serde, has_top_level_serde_attr,
    repr_check, repr_names, Annotation,
};
use crate::enum_gen::{enum_schema_of, handle_enum, VariantDecl};
use crate::error::{ErrorKind, SchemaError};
use crate::json_text::{json_quoted, quote_json, string_array, string_array_text};
use crate::struct_gen::{
    handle_struct, object_of, FieldDecl, ObjectSchema, ObjectView, PropertyValue,
    PropertyValueView, PropertyView,
};
use crate::text::{joined, lemma_joined_snoc, opt_view, same_text};

verus! {

/// What a declaration declares.
pub enum DeclBody {
    /// A struct, by its fields in declaration order.
    Struct(Vec<FieldDecl>),
    /// An enum, by its variants in declaration order.
    Enum(Vec<VariantDecl>),
    /// A union.
    Union,
}

/// A type declaration with its annotations.
pub struct Declaration {
    pub ident: String,
    pub annotations: Vec<Annotation>,
    pub body: DeclBody,
}

/// A declaration compiled once into what its schemas need.
pub enum CompiledType {
    Struct { name: String, description: Option<String>, object: ObjectSchema },
    Enum { name: String, fragment: String },
}

/// The view of a [`CompiledType`].
pub enum CompiledView {
    Struct { name: Seq<char>, description: Option<Seq<char>>, object: ObjectView },
    Enum { name: Seq<char>, fragment: Seq<char> },
}

impl View for CompiledType {
    type V = CompiledView;

    open spec fn view(&self) -> CompiledView {
        match self {
            CompiledType::Struct { name, description, object } => CompiledView::Struct {
                name: name@,
                description: opt_view(*description),
                object: object@,
            },
            CompiledType::Enum { name, fragment } => CompiledView::Enum {
                name: name@,
                fragment: fragment@,
            },
        }
    }
}

/// The compiled form of a declaration, or the first reason it has none.
pub open spec fn compiled_of(d: Declaration) -> Result<CompiledView, (ErrorKind, Seq<char>)> {
    match repr_check(repr_names(d.annotations@)) {
        Err(e) => Err(e),
        Ok(repr) => if has_serde(d.annotations@) {
            Err((ErrorKind::TopLevelSerdeAttribute, d.ident@))
        } else {
            match d.body {
                DeclBody::Struct(fields) => match object_of(fields@) {
                    Err(e) => Err(e),
                    Ok(o) => Ok(
                        CompiledView::Struct {
                            name: d.ident@,
                            description: description_of(d.annotations@),
                            object: o,
                        },
                    ),
                },
                DeclBody::Enum(vs) => match enum_schema_of(
                    vs@,
                    repr,
                    description_of(d.annotations@),
                ) {
                    Err(e) => Err(e),
                    Ok(t) => Ok(CompiledView::Enum { name: d.ident@, fragment: t }),
                },
                DeclBody::Union => Err((ErrorKind::UnsupportedDeclaration, d.ident@)),
            }
        },
    }
}

pub open spec fn compiled_result_view(r: Result<CompiledType, SchemaError>) -> Result<
    CompiledView,
    (ErrorKind, Seq<char>),
> {
    match r {
        Ok(c) => Ok(c@),
        Err(e) => Err(e@),
    }
}

/// Compiles a declaration: a struct into its object schema, an enum into its
/// fragment, each with the description from its documentation.
pub fn generate_openai_schema(input: &Declaration) -> (r: Result<CompiledType, SchemaError>)
    ensures
        compiled_result_view(r) == compiled_of(*input),
{
    let description = get_description(&input.annotations);
    let repr = match has_repr_attr(&input.annotations) {
        Ok(b) => b,
        Err(e) => {
            return Err(e);
        },
    };
    if has_top_level_serde_attr(&input.annotations) {
        return Err(SchemaError::new(ErrorKind::TopLevelSerdeAttribute, input.ident.as_str()));
    }
    match &input.body {
        DeclBody::Struct(fields) => match handle_struct(fields) {
            Ok(object) => Ok(
                CompiledType::Struct { name: input.ident.clone(), description, object },
            ),
            Err(e) => Err(e),
        },
        DeclBody::Enum(variants) => match handle_enum(variants, repr, description) {
            Ok(fragment) => Ok(CompiledType::Enum { name: input.ident.clone(), fragment }),
            Err(e) => Err(e),
        },
        DeclBody::Union => Err(
            SchemaError::new(ErrorKind::UnsupportedDeclaration, input.ident.as_str()),
        ),
    }
}

/// The name under which a compiled type is registered.
pub open spec fn name_of(c: CompiledView) -> Seq<char> {
    match c {
        CompiledView::Struct { name, .. } => name,
        CompiledView::Enum { name, .. } => name,
    }
}

/// The first position at or after `from` of a type registered as `name`.
pub open spec fn lookup(reg: Seq<CompiledView>, name: Seq<char>, from: int) -> Option<int>
    decreases reg.len() - from,
{
    if from < 0 || from >= reg.len() {
        None
    } else if name_of(reg[from]) == name {
        Some(from)
    } else {
        lookup(reg, name, from + 1)
    }
}

/// The text of an object schema with the given member texts and required keys.
pub open spec fn object_text(members: Seq<Seq<char>>, required: Seq<Seq<char>>) -> Seq<char> {
    "{\"type\":\"object\",\"additionalProperties\":false,\"properties\":{"@ + joined(
        members,
        ","@,
    ) + "},\"required\":"@ + string_array(required) + "}"@
}

/// The member texts (`"key":value`) of the first `n` properties, with each
/// reference replaced by the fragment of the type it names.
pub open spec fn members_of(
    reg: Seq<CompiledView>,
    props: Seq<PropertyView>,
    fuel: nat,
    n: nat,
) -> Result<Seq<Seq<char>>, (ErrorKind, Seq<char>)>
    decreases fuel, 1int, n,
{
    if n == 0 || n > props.len() {
        Ok(seq![])
    } else {
        match members_of(reg, props, fuel, (n - 1) as nat) {
            Err(e) => Err(e),
            Ok(prev) => {
                let p = props[n - 1];
                match p.value {
                    PropertyValueView::Inline(t) => Ok(prev.push(json_quoted(p.key) + ":"@ + t)),
                    PropertyValueView::Reference(r) => match fragment_of(reg, r, fuel) {
                        Err(e) => Err(e),
                        Ok(t) => Ok(prev.push(json_quoted(p.key) + ":"@ + t)),
                    },
                }
            },
        }
    }
}

/// The text of an object schema, its references resolved.
pub open spec fn object_text_of(reg: Seq<CompiledView>, o: ObjectView, fuel: nat) -> Result<
    Seq<char>,
    (ErrorKind, Seq<char>),
>
    decreases fuel, 2int, 0nat,
{
    match members_of(reg, o.properties, fuel, o.properties.len()) {
        Err(e) => Err(e),
        Ok(m) => Ok(object_text(m, o.required)),
    }
}

/// The fragment of the type registered as `name`: an enum's own fragment, or
/// a struct's object schema. Each struct on the way uses up one unit of `fuel`;
/// a struct reached with none left is a recursive reference.
pub open spec fn fragment_of(reg: Seq<CompiledView>, name: Seq<char>, fuel: nat) -> Result<
    Seq<char>,
    (ErrorKind, Seq<char>),
>
    decreases fuel, 0int, 0nat,
{
    match lookup(reg, name, 0) {
        None => Err((ErrorKind::UnresolvedReference, name)),
        Some(i) => if 0 <= i < reg.len() {
            match reg[i] {
                CompiledView::Enum { fragment, .. } => Ok(fragment),
                CompiledView::Struct { object, .. } => if fuel == 0 {
                    Err((ErrorKind::RecursiveReference, name))
                } else {
                    object_text_of(reg, object, (fuel - 1) as nat)
                },
            }
        } else {
            Err((ErrorKind::UnresolvedReference, name))
        },
    }
}

/// The root document text of a struct.
pub open spec fn root_text(name: Seq<char>, description: Option<Seq<char>>, schema: Seq<char>) -> Seq<
    char,
> {
    "{\"name\":"@ + json_quoted(name) + ",\"description\":"@ + match description {
        Some(d) => json_quoted(d),
        None => "null"@,
    } + ",\"strict\":true,\"schema\":"@ + schema + "}"@
}

/// The root document of the type registered as `name`; only a struct can be one.
pub open spec fn root_of(reg: Seq<CompiledView>, name: Seq<char>) -> Result<
    Seq<char>,
    (ErrorKind, Seq<char>),
> {
    match lookup(reg, name, 0) {
        None => Err((ErrorKind::UnresolvedReference, name)),
        Some(i) => if 0 <= i < reg.len() {
            match reg[i] {
                CompiledView::Enum { .. } => Err((ErrorKind::UnsupportedRootType, name)),
                CompiledView::Struct { name: n, description, object } => match object_text_of(
                    reg,
                    object,
                    reg.len(),
                ) {
                    Err(e) => Err(e),
                    Ok(t) => Ok(root_text(n, description, t)),
                },
            }
        } else {
            Err((ErrorKind::UnresolvedReference, name))
        },
    }
}

pub open spec fn text_result_view(r: Result<String, SchemaError>) -> Result<
    Seq<char>,
    (ErrorKind, Seq<char>),
> {
    match r {
        Ok(t) => Ok(t@),
        Err(e) => Err(e@),
    }
}

/// A root schema document, as JSON text.
pub struct GeneratedOpenAISchema {
    pub text: String,
}

impl View for GeneratedOpenAISchema {
    type V = Seq<char>;

    open spec fn view(&self) -> Seq<char> {
        self.text@
    }
}

impl GeneratedOpenAISchema {
    /// The document's JSON text.
    pub fn as_str(&self) -> (r: &str)
        ensures
            r@ == self@,
    {
        self.text.as_str()
    }

    /// A copy of the document's JSON text.
    pub fn to_string(&self) -> (r: String)
        ensures
            r@ == self@,
    {
        String::from_str(self.text.as_str())
    }
}

impl From<String> for GeneratedOpenAISchema {
    fn from(schema: String) -> (r: GeneratedOpenAISchema) {
        GeneratedOpenAISchema { text: schema }
    }
}

impl vstd::std_specs::convert::FromSpecImpl<String> for GeneratedOpenAISchema {
    open spec fn obeys_from_spec() -> bool {
        true
    }

    open spec fn from_spec(v: String) -> GeneratedOpenAISchema {
        GeneratedOpenAISchema { text: v }
    }
}

/// A type that can be handed to a structured completion as its root schema.
pub trait OpenAISchema {
    fn openai_schema() -> GeneratedOpenAISchema;
}

/// A type that can stand as a field of a root schema but not as one itself.
pub trait SubordinateOpenAISchema {
    /// The fragment that is spliced in where a field has this type.
    fn subordinate_openai_schema() -> String;
}

/// The compiled types of a program, by name. When two share a name, the one
/// registered first is found.
pub struct Registry {
    types: Vec<CompiledType>,
}

impl View for Registry {
    type V = Seq<CompiledView>;

    closed spec fn view(&self) -> Seq<CompiledView> {
        self.types@.map_values(|c: CompiledType| c@)
    }
}

impl Registry {
    /// A registry of the given compiled types.
    pub fn new(types: Vec<CompiledType>) -> (r: Registry)
        ensures
            r@ == types@.map_values(|c: CompiledType| c@),
    {
        Registry { types }
    }

    /// Adds a compiled type.
    pub fn register(&mut self, t: CompiledType)
        ensures
            final(self)@ == old(self)@.push(t@),
    {
        self.types.push(t);
        assert(final(self)@ =~= old(self)@.push(t@));
    }

    /// The number of registered types.
    pub fn len(&self) -> (r: usize)
        ensures
            r == self@.len(),
    {
        self.types.len()
    }

    fn find(&self, name: &str) -> (r: Option<usize>)
        ensures
            match r {
                Some(i) => lookup(self@, name@, 0) == Some(i as int) && i < self@.len(),
                None => lookup(self@, name@, 0) is None,
            },
    {
        let mut i: usize = 0;
        while i < self.types.len()
            invariant
                i <= self.types.len(),
                lookup(self@, name@, 0) == lookup(self@, name@, i as int),
            decreases self.types.len() - i,
        {
            let n = match &self.types[i] {
                CompiledType::Struct { name, .. } => name,
                CompiledType::Enum { name, .. } => name,
            };
            assert(self@[i as int] == self.types@[i as int]@);
            if same_text(n.as_str(), name) {
                return Some(i);
            }
            i = i + 1;
        }
        None
    }

    fn fragment_text(&self, name: &str, fuel: usize) -> (r: Result<String, SchemaError>)
        ensures
            text_result_view(r) == fragment_of(self@, name@, fuel as nat),
        decreases fuel, 0int, 0nat,
    {
        match self.find(name) {
            None => Err(SchemaError::new(ErrorKind::UnresolvedReference, name)),
            Some(i) => {
                assert(self@[i as int] == self.types@[i as int]@);
                match &self.types[i] {
                    CompiledType::Enum { fragment, .. } => Ok(fragment.clone()),
                    CompiledType::Struct { object, .. } => {
                        if fuel == 0 {
                            Err(SchemaError::new(ErrorKind::RecursiveReference, name))
                        } else {
                            self.object_text(object, fuel - 1)
                        }
                    },
                }
            },
        }
    }

    fn object_text(&self, o: &ObjectSchema, fuel: usize) -> (r: Result<String, SchemaError>)
        ensures
            text_result_view(r) == object_text_of(self@, o@, fuel as nat),
        decreases fuel, 2int, 0nat,
    {
        let ghost props = o@.properties;
        let ghost members: Seq<Seq<char>> = seq![];
        let mut body = String::new();
        let mut i: usize = 0;
        while i < o.properties.len()
            invariant
                i <= o.properties.len(),
                props == o@.properties,
                props.len() == o.properties.len(),
                members_of(self@, props, fuel as nat, i as nat) == Ok::<
                    _,
                    (ErrorKind, Seq<char>),
                >(members),
                body@ == joined(members, ","@),
                members.len() == i,
            decreases o.properties.len() - i,
        {
            let p = &o.properties[i];
            assert(props[i as int] == p@);
            let value = match &p.value {
                PropertyValue::Inline(t) => t.clone(),
                PropertyValue::Reference(r) => match self.fragment_text(r.as_str(), fuel) {
                    Ok(t) => t,
                    Err(e) => {
                        proof {
                            lemma_members_error_persists(self@, props, fuel as nat, (i + 1) as nat);
                        }
                        return Err(e);
                    },
                },
            };
            let mut member = quote_json(p.key.as_str());
            member.append(":");
            member.append(value.as_str());
            proof {
                lemma_joined_snoc(members, member@, ","@);
            }
            if i > 0 {
                body.append(",");
            }
            body.append(member.as_str());
            proof {
                members = members.push(member@);
            }
            i = i + 1;
        }
        let mut out = String::from_str(
            "{\"type\":\"object\",\"additionalProperties\":false,\"properties\":{",
        );
        out.append(body.as_str());
        out.append("},\"required\":");
        let required = string_array_text(&o.required);
        out.append(required.as_str());
        out.append("}");
        Ok(out)
    }

    /// The fragment of the type registered as `name`: an enum's fragment, or a
    /// struct's object schema with its references resolved.
    pub fn as_fragment(&self, name: &str) -> (r: Result<String, SchemaError>)
        ensures
            text_result_view(r) == fragment_of(self@, name@, self@.len()),
    {
        self.fragment_text(name, self.types.len())
    }

    /// The root document of the struct registered as `name`.
    pub fn as_root_document(&self, name: &str) -> (r: Result<GeneratedOpenAISchema, SchemaError>)
        ensures
            match r {
                Ok(g) => root_of(self@, name@) == Ok::<_, (ErrorKind, Seq<char>)>(g@),
                Err(e) => root_of(self@, name@) == Err::<Seq<char>, _>(e@),
            },
    {
        match self.find(name) {
            None => Err(SchemaError::new(ErrorKind::UnresolvedReference, name)),
            Some(i) => {
                assert(self@[i as int] == self.types@[i as int]@);
                match &self.types[i] {
                    CompiledType::Enum { .. } => Err(
                        SchemaError::new(ErrorKind::UnsupportedRootType, name),
                    ),
                    CompiledType::Struct { name: n, description, object } => {
                        let schema = match self.object_text(object, self.types.len()) {
                            Ok(t) => t,
                            Err(e) => {
                                return Err(e);
                            },
                        };
                        let mut out = String::from_str("{\"name\":");
                        let qn = quote_json(n.as_str());
                        out.append(qn.as_str());
                        out.append(",\"description\":");
                        match description {
                            Some(d) => {
                                let qd = quote_json(d.as_str());
                                out.append(qd.as_str());
                            },
                            None => {
                                out.append("null");
                            },
                        }
                        out.append(",\"strict\":true,\"schema\":");
                        out.append(schema.as_str());
                        out.append("}");
                        Ok(GeneratedOpenAISchema { text: out })
                    },
                }
            },
        }
    }
}

/// A member error stays the result when more properties follow.
pub proof fn lemma_members_error_persists(
    reg: Seq<CompiledView>,
    props: Seq<PropertyView>,
    fuel: nat,
    k: nat,
)
    requires
        k <= props.len(),
        members_of(reg, props, fuel, k) is Err,
    ensures
        members_of(reg, props, fuel, props.len()) == members_of(reg, props, fuel, k),
    decreases props.len() - k,
{
    if k < props.len() {
        lemma_members_error_persists(reg, props, fuel, k + 1);
    }
}

/// A property whose type is a registered enum holds that enum's fragment
/// verbatim, however much fuel is left.
pub proof fn lemma_reference_splices_fragment(reg: Seq<CompiledView>, name: Seq<char>, fuel: nat)
    ensures
        lookup(reg, name, 0) matches Some(i) ==> (0 <= i < reg.len() && reg[i] is Enum
            ==> fragment_of(reg, name, fuel) == Ok::<_, (ErrorKind, Seq<char>)>(
            reg[i]->Enum_fragment,
        )),
{
}

} // verus!
