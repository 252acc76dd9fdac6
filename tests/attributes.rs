use kind_openai::attributes::{
    get_description, get_serde_rename, get_serde_skip, has_repr_attr, has_top_level_serde_attr,
    Annotation,
};
use kind_openai::error::ErrorKind;
use kind_openai::json_text::{int_array_text, quote_json, string_array_text};
use kind_openai::text::{find_from, same_text, trim_text};
use kind_openai::type_model::{get_field_type, Schema, TypeExpr};

#[test]
fn rename_takes_text_between_quotes() {
    let attrs = vec![
        Annotation::Doc(" doc".to_string()),
        Annotation::Serde("default".to_string()),
        Annotation::Serde(r#"rename = "x y", default"#.to_string()),
        Annotation::Serde(r#"rename = "z""#.to_string()),
    ];
    assert_eq!(get_serde_rename(&attrs), Some("x y".to_string()));
    assert_eq!(get_serde_rename(&Vec::new()), None);
    let unterminated = vec![Annotation::Serde(r#"rename = "open"#.to_string())];
    assert_eq!(get_serde_rename(&unterminated), None);
}

#[test]
fn skip_is_found_in_serde_tokens() {
    assert!(get_serde_skip(&vec![Annotation::Serde("skip".to_string())]));
    assert!(get_serde_skip(&vec![Annotation::Serde("skip_deserializing".to_string())]));
    assert!(!get_serde_skip(&vec![Annotation::Serde("default".to_string()), Annotation::Other]));
}

#[test]
fn description_absent_without_docs() {
    assert_eq!(get_description(&vec![Annotation::Other]), None);
    assert_eq!(
        get_description(&vec![Annotation::Doc(" a ".to_string()), Annotation::Doc("b".to_string())]),
        Some("a b".to_string())
    );
}

#[test]
fn repr_items_are_checked() {
    assert_eq!(has_repr_attr(&vec![Annotation::Repr(vec!["u16".to_string()])]).ok(), Some(true));
    assert_eq!(has_repr_attr(&vec![Annotation::Other]).ok(), Some(false));
    match has_repr_attr(&vec![Annotation::Repr(vec!["u8".to_string(), "transparent".to_string()])]) {
        Ok(_) => panic!("expected an error"),
        Err(e) => {
            assert_eq!(e.kind, ErrorKind::UnsupportedRepresentation);
            assert_eq!(e.subject, "transparent");
        }
    }
    assert!(has_top_level_serde_attr(&vec![Annotation::Serde(String::new())]));
    assert!(!has_top_level_serde_attr(&vec![Annotation::Doc(String::new())]));
}

#[test]
fn text_helpers() {
    assert_eq!(quote_json("a\"b\\c\td"), r#""a\"b\\c\td""#);
    assert_eq!(quote_json("plain é"), "\"plain é\"");
    assert_eq!(trim_text(" \u{3000}x y\n"), "x y");
    assert_eq!(find_from("abcabc", "bc", 2), Some(4));
    assert_eq!(find_from("abc", "x", 0), None);
    assert!(same_text("ab", "ab"));
    assert!(!same_text("ab", "abc"));
    assert_eq!(
        string_array_text(&vec!["a".to_string(), "b\"".to_string()]),
        r#"["a","b\""]"#
    );
    assert_eq!(int_array_text(&vec![0, -12, i64::MAX, i64::MIN]), "[0,-12,9223372036854775807,-9223372036854775808]");
    assert_eq!(int_array_text(&Vec::new()), "[]");
}

#[test]
fn field_type_of_named_type_is_subordinate() {
    let ty = TypeExpr::Path { ident: "Category".to_string(), arguments: Vec::new() };
    match get_field_type(&ty) {
        Ok(Schema::Subordinate(n)) => assert_eq!(n, "Category"),
        _ => panic!("expected a subordinate schema"),
    }
}
