use std::collections::HashMap;

use qrt_rust_utils::decimal::u64_to_decimal;
use qrt_rust_utils::hashmap_keys::{hashmap_keys, FieldAttr, FieldDecl, KeyError, NestedArg};

fn plain(name: &str) -> FieldDecl {
    FieldDecl { name: name.to_string(), attrs: vec![] }
}

fn rename_attr(to: &str) -> FieldAttr {
    FieldAttr::List(vec![NestedArg::NameValue {
        path: Some("rename".to_string()),
        literal: Some(to.to_string()),
    }])
}

#[test]
fn test_into() {
    let fields = vec![plain("name"), plain("number")];
    let keys = hashmap_keys(&fields).unwrap();
    let values = vec!["".to_string(), u64_to_decimal(123)];
    let x: HashMap<String, String> = keys.into_iter().zip(values).collect();
    assert_eq!(x.get("name").unwrap().as_str(), "");
    assert_eq!(x.get("number").unwrap().as_str(), "123");
}

#[test]
fn rename_gives_the_key() {
    let fields = vec![
        FieldDecl { name: "name".to_string(), attrs: vec![rename_attr("title")] },
        FieldDecl { name: "count".to_string(), attrs: vec![FieldAttr::Other] },
    ];
    assert_eq!(hashmap_keys(&fields).unwrap(), vec!["title".to_string(), "count".to_string()]);
}

#[test]
fn first_name_value_argument_decides() {
    let attr = FieldAttr::List(vec![
        NestedArg::Other,
        NestedArg::NameValue { path: Some("default".to_string()), literal: Some("x".to_string()) },
        NestedArg::NameValue { path: Some("rename".to_string()), literal: Some("y".to_string()) },
    ]);
    let fields = vec![FieldDecl { name: "a".to_string(), attrs: vec![attr] }];
    assert_eq!(hashmap_keys(&fields).unwrap(), vec!["a".to_string()]);
    let attr = FieldAttr::List(vec![NestedArg::NameValue {
        path: Some("rename".to_string()),
        literal: None,
    }]);
    let fields = vec![FieldDecl { name: "b".to_string(), attrs: vec![attr] }];
    assert_eq!(hashmap_keys(&fields).unwrap(), vec!["b".to_string()]);
}

#[test]
fn attribute_after_rename_is_an_error() {
    let fields = vec![
        plain("ok"),
        FieldDecl { name: "twice".to_string(), attrs: vec![rename_attr("t"), FieldAttr::Other] },
    ];
    match hashmap_keys(&fields) {
        Err(KeyError::AlreadyDefined(name)) => assert_eq!(name, "twice"),
        other => panic!("unexpected {:?}", other),
    }
}

#[test]
fn path_that_is_not_an_identifier_is_an_error() {
    let attr = FieldAttr::List(vec![NestedArg::NameValue { path: None, literal: Some("x".to_string()) }]);
    let fields = vec![FieldDecl { name: "p".to_string(), attrs: vec![attr] }];
    match hashmap_keys(&fields) {
        Err(KeyError::PathNotIdent(name)) => assert_eq!(name, "p"),
        other => panic!("unexpected {:?}", other),
    }
}
