use cargo_template::errors::Error;
use cargo_template::manifest::{edit_cargo_toml, find_cargo_toml, personalize_document};
use std::collections::BTreeMap;

#[test]
fn personalize_sets_name_and_single_author() {
    let text = "[package]\nname = \"old\"\nauthors = [\"x\"]\n";
    let email = Some("ada@example.com".to_string());
    let out = edit_cargo_toml(text, "Cargo.toml", "foo", "Ada", &email).unwrap();
    assert_eq!(
        out,
        "[package]\nauthors = [\"Ada <ada@example.com>\"]\nname = \"foo\"\n"
    );
}

#[test]
fn personalize_keeps_every_other_field() {
    let text = "title = \"t\"\n\n[package]\nname = \"old\"\nversion = \"0.1.0\"\nauthors = [\"x\", \"y\"]\n\n[dependencies]\nlog = \"0.4\"\n\n[[bin]]\nname = \"b\"\n";
    let out = edit_cargo_toml(text, "Cargo.toml", "foo", "Ada", &None).unwrap();
    let before = toml::Parser::new(text).parse().unwrap();
    let after = toml::Parser::new(&out).parse().unwrap();
    assert_eq!(after.len(), before.len());
    for (key, value) in before.iter() {
        if key != "package" {
            assert_eq!(after.get(key), Some(value));
        }
    }
    let package = after.get("package").unwrap().as_table().unwrap();
    assert_eq!(package.len(), 3);
    assert_eq!(package.get("name").unwrap().as_str(), Some("foo"));
    assert_eq!(package.get("version").unwrap().as_str(), Some("0.1.0"));
    let authors = package.get("authors").unwrap().as_slice().unwrap();
    assert_eq!(authors.len(), 1);
    assert_eq!(authors[0].as_str(), Some("Ada"));
}

#[test]
fn personalize_adds_fields_that_are_missing() {
    let out = edit_cargo_toml("[package]\n", "Cargo.toml", "foo", "Ada", &None).unwrap();
    assert_eq!(out, "[package]\nauthors = [\"Ada\"]\nname = \"foo\"\n");
}

#[test]
fn personalize_rejects_text_that_does_not_parse() {
    let out = edit_cargo_toml("[package", "p/Cargo.toml", "foo", "Ada", &None);
    assert!(matches!(out, Err(Error::ManifestParseError(ref f)) if f == "p/Cargo.toml"));
}

#[test]
fn personalize_rejects_a_manifest_without_package() {
    let out = edit_cargo_toml("[dependencies]\nlog = \"0.4\"\n", "m", "foo", "Ada", &None);
    assert!(matches!(out, Err(Error::ManifestParseError(ref f)) if f == "m"));
    let out = edit_cargo_toml("", "m", "foo", "Ada", &None);
    assert!(matches!(out, Err(Error::ManifestParseError(_))));
}

#[test]
fn personalize_rejects_a_package_that_is_no_table() {
    let out = edit_cargo_toml("package = \"x\"\n", "m", "foo", "Ada", &None);
    assert!(matches!(out, Err(Error::ManifestParseError(ref f)) if f == "m"));
}

#[test]
fn personalize_document_edits_a_parsed_value() {
    let mut package = BTreeMap::new();
    package.insert("name".to_string(), toml::Value::String("old".to_string()));
    package.insert("edition".to_string(), toml::Value::Integer(2021));
    let mut root = BTreeMap::new();
    root.insert("package".to_string(), toml::Value::Table(package));
    root.insert("flag".to_string(), toml::Value::Boolean(true));
    let out = personalize_document(Some(toml::Value::Table(root)), "m", "foo", "Ada <a@b>").unwrap();
    let table = out.as_table().unwrap();
    assert_eq!(table.len(), 2);
    assert_eq!(table.get("flag"), Some(&toml::Value::Boolean(true)));
    let package = table.get("package").unwrap().as_table().unwrap();
    assert_eq!(package.len(), 3);
    assert_eq!(package.get("edition"), Some(&toml::Value::Integer(2021)));
    assert_eq!(package.get("name"), Some(&toml::Value::String("foo".to_string())));
    assert_eq!(
        package.get("authors"),
        Some(&toml::Value::Array(vec![toml::Value::String("Ada <a@b>".to_string())]))
    );
}

#[test]
fn personalize_document_rejects_what_is_no_manifest() {
    assert!(matches!(
        personalize_document(None, "m", "foo", "Ada"),
        Err(Error::ManifestParseError(ref f)) if f == "m"
    ));
    assert!(matches!(
        personalize_document(Some(toml::Value::Integer(1)), "m", "foo", "Ada"),
        Err(Error::ManifestParseError(_))
    ));
    let mut root = BTreeMap::new();
    root.insert("package".to_string(), toml::Value::Integer(1));
    assert!(matches!(
        personalize_document(Some(toml::Value::Table(root)), "m", "foo", "Ada"),
        Err(Error::ManifestParseError(_))
    ));
}

#[test]
fn manifest_is_a_file_of_the_exact_name() {
    assert!(find_cargo_toml("Cargo.toml", true));
    assert!(!find_cargo_toml("Cargo.toml", false));
    assert!(!find_cargo_toml("cargo.toml", true));
    assert!(!find_cargo_toml("Cargo.toml.orig", true));
    assert!(!find_cargo_toml("", true));
}
