use kind_openai::attributes::Annotation;
use kind_openai::enum_gen::VariantDecl;
use kind_openai::error::{ErrorKind, SchemaError};
use kind_openai::schema::{
    generate_openai_schema, CompiledType, DeclBody, Declaration, GeneratedOpenAISchema, Registry,
};
use kind_openai::struct_gen::FieldDecl;
use kind_openai::type_model::TypeExpr;

fn path(ident: &str) -> TypeExpr {
    TypeExpr::Path { ident: ident.to_string(), arguments: Vec::new() }
}

fn generic(ident: &str, inner: TypeExpr) -> TypeExpr {
    TypeExpr::Path { ident: ident.to_string(), arguments: vec![inner] }
}

fn doc(line: &str) -> Annotation {
    Annotation::Doc(line.to_string())
}

fn serde(tokens: &str) -> Annotation {
    Annotation::Serde(tokens.to_string())
}

fn field(name: &str, ty: TypeExpr, annotations: Vec<Annotation>) -> FieldDecl {
    FieldDecl { ident: Some(name.to_string()), ty, annotations }
}

fn unit(name: &str, annotations: Vec<Annotation>) -> VariantDecl {
    VariantDecl { ident: name.to_string(), annotations, is_unit: true, discriminant: None }
}

fn valued(name: &str, value: i64) -> VariantDecl {
    VariantDecl { ident: name.to_string(), annotations: Vec::new(), is_unit: true, discriminant: Some(value) }
}

fn structure(name: &str, annotations: Vec<Annotation>, fields: Vec<FieldDecl>) -> Declaration {
    Declaration { ident: name.to_string(), annotations, body: DeclBody::Struct(fields) }
}

fn enumeration(name: &str, annotations: Vec<Annotation>, variants: Vec<VariantDecl>) -> Declaration {
    Declaration { ident: name.to_string(), annotations, body: DeclBody::Enum(variants) }
}

fn compile(d: &Declaration) -> CompiledType {
    match generate_openai_schema(d) {
        Ok(c) => c,
        Err(e) => panic!("{:?} {}", e.kind, e.subject),
    }
}

fn compile_err(d: &Declaration) -> SchemaError {
    match generate_openai_schema(d) {
        Ok(_) => panic!("expected an error"),
        Err(e) => e,
    }
}

fn registry(decls: Vec<Declaration>) -> Registry {
    let mut reg = Registry::new(Vec::new());
    for d in &decls {
        reg.register(compile(d));
    }
    reg
}

fn root(reg: &Registry, name: &str) -> String {
    match reg.as_root_document(name) {
        Ok(g) => g.to_string(),
        Err(e) => panic!("{:?} {}", e.kind, e.subject),
    }
}

fn fragment(reg: &Registry, name: &str) -> String {
    match reg.as_fragment(name) {
        Ok(t) => t,
        Err(e) => panic!("{:?} {}", e.kind, e.subject),
    }
}

fn object(properties: &str, required: &str) -> String {
    format!(
        r#"{{"type":"object","additionalProperties":false,"properties":{{{}}},"required":[{}]}}"#,
        properties, required
    )
}

fn category() -> Declaration {
    enumeration(
        "Category",
        Vec::new(),
        vec![unit("Question", Vec::new()), unit("Statement", Vec::new()), unit("Answer", Vec::new())],
    )
}

fn niceness_score() -> Declaration {
    let names = ["One", "Two", "Three", "Four", "Five", "Six", "Seven", "Eight", "Nine", "Ten"];
    let variants = names.iter().enumerate().map(|(i, n)| valued(n, i as i64 + 1)).collect();
    Declaration {
        ident: "NicenessScore".to_string(),
        annotations: vec![Annotation::Repr(vec!["u8".to_string()])],
        body: DeclBody::Enum(variants),
    }
}

#[test]
fn it_generates_complex_schema_correctly() {
    let schema = structure(
        "SuperComplexSchema",
        vec![doc(" Hello friends")],
        vec![
            field("optional_string", generic("Option", path("String")), vec![doc(" The first one.")]),
            field("regular_string", path("String"), Vec::new()),
            field("int", path("i32"), Vec::new()),
            field("basic_enum", path("BasicEnum"), Vec::new()),
        ],
    );
    let basic_enum = enumeration(
        "BasicEnum",
        Vec::new(),
        vec![
            unit("Variant1", vec![serde(r#"rename = "variant1""#)]),
            unit("Variant2", Vec::new()),
            unit(
                "ReallyLong",
                vec![serde(
                    r#"rename = "this-has-a-really-really-long-name-that-strangely-broke-some-thing-with-this-maybe-the-attrs-have-a-max-len-i-dont-really-know""#,
                )],
            ),
        ],
    );
    let reg = registry(vec![schema, basic_enum]);
    assert_eq!(
        root(&reg, "SuperComplexSchema"),
        String::from(
            r#"{"name":"SuperComplexSchema","description":"Hello friends","strict":true,"schema":{"type":"object","additionalProperties":false,"properties":{"optional_string":{"type":["string","null"],"description":"The first one."},"regular_string":{"type":"string"},"int":{"type":"integer"},"basic_enum":{"type":"string","enum":["variant1","Variant2","this-has-a-really-really-long-name-that-strangely-broke-some-thing-with-this-maybe-the-attrs-have-a-max-len-i-dont-really-know"]}},"required":["regular_string","int","basic_enum"]}}"#
        )
    );
}

#[test]
fn optional_fields_renamed_and_skipped() {
    let name = structure(
        "Name",
        Vec::new(),
        vec![
            field("first_name", generic("Option", path("String")), Vec::new()),
            field(
                "last_name",
                generic("Option", path("String")),
                vec![serde(r#"rename = "last_name_renamed""#)],
            ),
            field("absolutely_nothing", path("String"), vec![serde("skip")]),
        ],
    );
    let reg = registry(vec![name]);
    let expected = format!(
        r#"{{"name":"Name","description":null,"strict":true,"schema":{}}}"#,
        object(
            r#""first_name":{"type":["string","null"]},"last_name_renamed":{"type":["string","null"]}"#,
            ""
        )
    );
    assert_eq!(root(&reg, "Name"), expected);
}

#[test]
fn string_enum_lists_variant_names() {
    let reg = registry(vec![category()]);
    assert_eq!(
        fragment(&reg, "Category"),
        r#"{"type":"string","enum":["Question","Statement","Answer"]}"#
    );
}

#[test]
fn numeric_enum_lists_discriminants() {
    let reg = registry(vec![niceness_score()]);
    assert_eq!(
        fragment(&reg, "NicenessScore"),
        r#"{"type":"number","enum":[1,2,3,4,5,6,7,8,9,10]}"#
    );
}

#[test]
fn reference_field_splices_fragment_verbatim() {
    let container = structure(
        "Container",
        vec![doc(" The category of a message.")],
        vec![field("category", path("Category"), Vec::new())],
    );
    let reg = registry(vec![container, category()]);
    let frag = fragment(&reg, "Category");
    let doc_text = root(&reg, "Container");
    let expected = format!(
        r#"{{"name":"Container","description":"The category of a message.","strict":true,"schema":{}}}"#,
        object(&format!(r#""category":{}"#, frag), r#""category""#)
    );
    assert_eq!(doc_text, expected);
    assert!(doc_text.contains(&format!(r#""category":{}}}"#, frag)));
}

#[test]
fn required_lists_every_plain_field_in_order() {
    let s = structure(
        "Plain",
        Vec::new(),
        vec![
            field("b", path("bool"), Vec::new()),
            field("a", path("f64"), Vec::new()),
            field("c", generic("Vec", path("u8")), Vec::new()),
        ],
    );
    let reg = registry(vec![s]);
    let expected = format!(
        r#"{{"name":"Plain","description":null,"strict":true,"schema":{}}}"#,
        object(
            r#""b":{"type":"boolean"},"a":{"type":"number"},"c":{"type":"array","items":{"type":"integer"}}"#,
            r#""b","a","c""#
        )
    );
    assert_eq!(root(&reg, "Plain"), expected);
}

#[test]
fn skipped_field_is_absent_and_rename_replaces_key() {
    let s = structure(
        "S",
        Vec::new(),
        vec![
            field("kept", path("String"), vec![serde(r#"rename = "other""#)]),
            field("hidden", path("Unknown"), vec![serde("skip")]),
        ],
    );
    let reg = registry(vec![s]);
    let text = root(&reg, "S");
    assert!(!text.contains("hidden"));
    assert!(!text.contains("\"kept\""));
    assert_eq!(
        text,
        format!(
            r#"{{"name":"S","description":null,"strict":true,"schema":{}}}"#,
            object(r#""other":{"type":"string"}"#, r#""other""#)
        )
    );
}

#[test]
fn optional_primitives_pair_type_with_null() {
    let s = structure(
        "Opt",
        Vec::new(),
        vec![
            field("i", generic("Option", path("i64")), Vec::new()),
            field("f", generic("Option", path("f32")), Vec::new()),
            field("b", generic("Option", path("bool")), Vec::new()),
            field("s", generic("Option", path("String")), Vec::new()),
        ],
    );
    let reg = registry(vec![s]);
    let expected = format!(
        r#"{{"name":"Opt","description":null,"strict":true,"schema":{}}}"#,
        object(
            r#""i":{"type":["integer","null"]},"f":{"type":["number","null"]},"b":{"type":["boolean","null"]},"s":{"type":["string","null"]}"#,
            ""
        )
    );
    assert_eq!(root(&reg, "Opt"), expected);
}

#[test]
fn nested_optional_and_array_shapes() {
    let s = structure(
        "Nested",
        Vec::new(),
        vec![
            field("a", generic("Option", generic("Vec", path("i32"))), Vec::new()),
            field("b", generic("Option", generic("Option", path("String"))), Vec::new()),
            field("c", generic("Vec", generic("Option", path("usize"))), Vec::new()),
        ],
    );
    let reg = registry(vec![s]);
    let expected = object(
        r#""a":{"type":["array","null"],"items":{"type":"integer"}},"b":{"anyOf":[{"type":["string","null"]},{"type":"null"}]},"c":{"type":"array","items":{"type":["integer","null"]}}"#,
        r#""c""#,
    );
    assert_eq!(fragment(&reg, "Nested"), expected);
}

#[test]
fn discriminants_without_repr_fail() {
    let d = enumeration("Score", Vec::new(), vec![valued("Low", 1), valued("High", 2)]);
    let e = compile_err(&d);
    assert_eq!(e.kind, ErrorKind::NumericWithoutRepresentation);
    assert_eq!(e.subject, "Low");
}

#[test]
fn numeric_enum_keeps_order_and_drops_skipped() {
    let mut skipped = valued("Mid", 5);
    skipped.annotations = vec![serde("skip")];
    let d = Declaration {
        ident: "Score".to_string(),
        annotations: vec![Annotation::Repr(vec!["i32".to_string()])],
        body: DeclBody::Enum(vec![valued("High", 9), skipped, valued("Low", -3)]),
    };
    let reg = registry(vec![d]);
    assert_eq!(fragment(&reg, "Score"), r#"{"type":"number","enum":[9,-3]}"#);
}

#[test]
fn repr_without_every_discriminant_gives_names() {
    let d = Declaration {
        ident: "Mixed".to_string(),
        annotations: vec![Annotation::Repr(vec!["u8".to_string()])],
        body: DeclBody::Enum(vec![valued("A", 1), unit("B", Vec::new())]),
    };
    let reg = registry(vec![d]);
    assert_eq!(fragment(&reg, "Mixed"), r#"{"type":"string","enum":["A","B"]}"#);
}

#[test]
fn string_enum_order_survives_skips() {
    let d = enumeration(
        "E",
        vec![doc(" A basic enum.")],
        vec![
            unit("Variant1", vec![serde(r#"rename = "variant1""#)]),
            unit("Variant4", vec![serde("skip")]),
            unit("Variant2", Vec::new()),
            unit("Variant3", vec![serde("skip")]),
            unit("Variant0", Vec::new()),
        ],
    );
    let reg = registry(vec![d]);
    assert_eq!(
        fragment(&reg, "E"),
        r#"{"type":"string","enum":["variant1","Variant2","Variant0"],"description":"A basic enum."}"#
    );
}

#[test]
fn enum_with_every_variant_skipped_is_empty() {
    let d = enumeration("E", Vec::new(), vec![unit("A", vec![serde("skip")])]);
    let reg = registry(vec![d]);
    assert_eq!(fragment(&reg, "E"), r#"{"type":"string","enum":[]}"#);
}

#[test]
fn data_variant_fails() {
    let mut v = unit("Payload", Vec::new());
    v.is_unit = false;
    let d = enumeration("E", Vec::new(), vec![unit("A", Vec::new()), v]);
    let e = compile_err(&d);
    assert_eq!(e.kind, ErrorKind::NonUnitVariant);
    assert_eq!(e.subject, "Payload");
}

#[test]
fn described_variant_fails() {
    let d = enumeration("E", Vec::new(), vec![unit("A", vec![doc(" about A")])]);
    let e = compile_err(&d);
    assert_eq!(e.kind, ErrorKind::MisplacedDescription);
    assert_eq!(e.subject, "A");
}

#[test]
fn described_reference_field_fails() {
    let d = structure(
        "S",
        Vec::new(),
        vec![field("category", path("Category"), vec![doc(" the category")])],
    );
    let e = compile_err(&d);
    assert_eq!(e.kind, ErrorKind::MisplacedDescription);
    assert_eq!(e.subject, "category");
}

#[test]
fn unsupported_shapes_fail() {
    let tuple = structure(
        "S",
        Vec::new(),
        vec![field("pair", TypeExpr::Unsupported("(i32, i32)".to_string()), Vec::new())],
    );
    let e = compile_err(&tuple);
    assert_eq!(e.kind, ErrorKind::UnsupportedTypeShape);
    assert_eq!(e.subject, "(i32, i32)");

    let bare_vec = structure("S", Vec::new(), vec![field("v", path("Vec"), Vec::new())]);
    let e = compile_err(&bare_vec);
    assert_eq!(e.kind, ErrorKind::UnsupportedTypeShape);
    assert_eq!(e.subject, "Vec");

    let wrapped_ref =
        structure("S", Vec::new(), vec![field("v", generic("Option", path("Category")), Vec::new())]);
    let e = compile_err(&wrapped_ref);
    assert_eq!(e.kind, ErrorKind::UnsupportedTypeShape);
    assert_eq!(e.subject, "Category");
}

#[test]
fn enum_is_not_a_root() {
    let reg = registry(vec![category()]);
    match reg.as_root_document("Category") {
        Ok(_) => panic!("expected an error"),
        Err(e) => {
            assert_eq!(e.kind, ErrorKind::UnsupportedRootType);
            assert_eq!(e.subject, "Category");
        }
    }
}

#[test]
fn missing_reference_fails_when_rendered() {
    let s = structure("S", Vec::new(), vec![field("m", path("Missing"), Vec::new())]);
    let reg = registry(vec![s]);
    match reg.as_root_document("S") {
        Ok(_) => panic!("expected an error"),
        Err(e) => {
            assert_eq!(e.kind, ErrorKind::UnresolvedReference);
            assert_eq!(e.subject, "Missing");
        }
    }
    match reg.as_fragment("Nothing") {
        Ok(_) => panic!("expected an error"),
        Err(e) => assert_eq!(e.kind, ErrorKind::UnresolvedReference),
    }
}

#[test]
fn forward_reference_to_struct_is_inlined() {
    let outer = structure("Outer", Vec::new(), vec![field("inner", path("Inner"), Vec::new())]);
    let inner = structure("Inner", Vec::new(), vec![field("n", path("u64"), Vec::new())]);
    let reg = registry(vec![outer, inner]);
    let inner_text = object(r#""n":{"type":"integer"}"#, r#""n""#);
    assert_eq!(fragment(&reg, "Inner"), inner_text);
    assert_eq!(
        fragment(&reg, "Outer"),
        object(&format!(r#""inner":{}"#, inner_text), r#""inner""#)
    );
}

#[test]
fn self_containing_struct_fails() {
    let a = structure("A", Vec::new(), vec![field("b", path("B"), Vec::new())]);
    let b = structure("B", Vec::new(), vec![field("a", path("A"), Vec::new())]);
    let reg = registry(vec![a, b]);
    match reg.as_root_document("A") {
        Ok(_) => panic!("expected an error"),
        Err(e) => assert_eq!(e.kind, ErrorKind::RecursiveReference),
    }
}

#[test]
fn unknown_repr_fails() {
    let d = Declaration {
        ident: "E".to_string(),
        annotations: vec![Annotation::Repr(vec!["C".to_string()])],
        body: DeclBody::Enum(vec![unit("A", Vec::new())]),
    };
    let e = compile_err(&d);
    assert_eq!(e.kind, ErrorKind::UnsupportedRepresentation);
    assert_eq!(e.subject, "C");
}

#[test]
fn layout_repr_is_not_numeric() {
    let d = Declaration {
        ident: "E".to_string(),
        annotations: vec![Annotation::Repr(vec!["align".to_string(), "packed".to_string()])],
        body: DeclBody::Enum(vec![unit("A", Vec::new())]),
    };
    let reg = registry(vec![d]);
    assert_eq!(fragment(&reg, "E"), r#"{"type":"string","enum":["A"]}"#);
}

#[test]
fn top_level_serde_fails() {
    let d = structure("S", vec![serde(r#"rename_all = "snake_case""#)], Vec::new());
    let e = compile_err(&d);
    assert_eq!(e.kind, ErrorKind::TopLevelSerdeAttribute);
    assert_eq!(e.subject, "S");
}

#[test]
fn union_fails() {
    let d = Declaration { ident: "U".to_string(), annotations: Vec::new(), body: DeclBody::Union };
    let e = compile_err(&d);
    assert_eq!(e.kind, ErrorKind::UnsupportedDeclaration);
}

#[test]
fn tuple_struct_fields_are_numbered() {
    let d = structure(
        "T",
        Vec::new(),
        vec![
            FieldDecl { ident: None, ty: path("String"), annotations: Vec::new() },
            FieldDecl { ident: None, ty: path("i8"), annotations: Vec::new() },
        ],
    );
    let reg = registry(vec![d]);
    assert_eq!(
        fragment(&reg, "T"),
        object(r#""0":{"type":"string"},"1":{"type":"integer"}"#, r#""0","1""#)
    );
}

#[test]
fn unit_struct_has_no_properties() {
    let reg = registry(vec![structure("Empty", Vec::new(), Vec::new())]);
    assert_eq!(
        root(&reg, "Empty"),
        format!(r#"{{"name":"Empty","description":null,"strict":true,"schema":{}}}"#, object("", ""))
    );
}

#[test]
fn description_lines_are_trimmed_and_joined() {
    let d = structure(
        "D",
        vec![doc("   First line.  "), Annotation::Other, doc("\tsecond line")],
        vec![field("x", path("String"), vec![doc(" A \"quoted\" word\\")])],
    );
    let reg = registry(vec![d]);
    let expected = format!(
        r#"{{"name":"D","description":"First line. second line","strict":true,"schema":{}}}"#,
        object(r#""x":{"type":"string","description":"A \"quoted\" word\\"}"#, r#""x""#)
    );
    assert_eq!(root(&reg, "D"), expected);
}

#[test]
fn blank_documentation_gives_no_description() {
    let d = structure("D", vec![doc("   ")], Vec::new());
    let reg = registry(vec![d]);
    assert!(root(&reg, "D").contains(r#""description":null"#));
}

#[test]
fn names_with_control_characters_are_escaped() {
    let d = structure("D", Vec::new(), vec![field("x", path("bool"), vec![serde("rename = \"a\nb\"")])]);
    let reg = registry(vec![d]);
    assert_eq!(fragment(&reg, "D"), object(r#""a\nb":{"type":"boolean"}"#, r#""a\nb""#));
}

#[test]
fn first_registration_wins() {
    let first = enumeration("E", Vec::new(), vec![unit("First", Vec::new())]);
    let second = enumeration("E", Vec::new(), vec![unit("Second", Vec::new())]);
    let reg = registry(vec![first, second]);
    assert_eq!(reg.len(), 2);
    assert_eq!(fragment(&reg, "E"), r#"{"type":"string","enum":["First"]}"#);
}

#[test]
fn generated_schema_keeps_its_text() {
    let g = GeneratedOpenAISchema::from(String::from("{}"));
    assert_eq!(g.as_str(), "{}");
    assert_eq!(g.to_string(), "{}");
}
