use omni_manifest::parser::{
    finish_parse_v1, parse_cargo_toml, parse_toml, push_ignored_path, stringify_ignored_path, Error,
    IgnoredPathStep, TOML_WITHOUT_NEWLINES,
};
use omni_manifest::schema::manifest::Manifest;

#[test]
fn parse_valid_minimal_manifest() {
    let result = parse_cargo_toml(
        r#"
            [package]
            name = "foo"
            version = "0.1.0"
        "#,
    );

    println!("Result:\n{:?}\n", result);

    assert!(result.is_ok(), "should have parsed valid toml");
}

#[test]
fn wrap_invalid_toml_error() {
    match parse_toml(
        r#"
            [package
        "#,
    ) {
        Ok(_) => assert!(false, "should not have parsed invalid toml"),
        Err(err) => match err {
            Error::FailedToParseToml(_) => {}
            _ => assert!(false, "should have wrapped response in correct local error"),
        },
    }
}

#[test]
fn fail_with_custom_error_for_missing_newline_after_header() {
    match parse_cargo_toml(r#"[header]foo = 1"#) {
        Ok(_) => assert!(false, "should have failed to parse toml with customer error message"),
        Err(err) => assert_eq!(
            format!("{:?}", err),
            format!("{:?}", Error::FailedToParseToml(TOML_WITHOUT_NEWLINES.to_owned()))
        ),
    }
}

#[test]
fn parse_toml_reports_toml_crate_error_for_other_failures() {
    match parse_cargo_toml("a = ") {
        Ok(_) => panic!("should not parse"),
        Err(Error::FailedToParseToml(report)) => assert_ne!(report, TOML_WITHOUT_NEWLINES),
        Err(other) => panic!("unexpected error {:?}", other),
    }
}

#[test]
fn parse_toml_accepts_header_with_newline() {
    assert!(parse_toml("[header]\nfoo = 1\n").is_ok());
    assert!(parse_cargo_toml("[header]\nfoo = 1\n").is_ok());
    assert!(parse_toml("[header]foo = 1").is_err());
}

#[test]
fn stringify_root_key() {
    let path = vec![IgnoredPathStep::Key("invalid".to_string())];
    assert_eq!(stringify_ignored_path(&path), "invalid");
}

#[test]
fn stringify_nested_path_with_index_and_wrappers() {
    let path = vec![
        IgnoredPathStep::Optional,
        IgnoredPathStep::Key("package".to_string()),
        IgnoredPathStep::NewtypeStruct,
        IgnoredPathStep::Key("authors".to_string()),
        IgnoredPathStep::Index(12),
        IgnoredPathStep::NewtypeVariant,
    ];
    assert_eq!(stringify_ignored_path(&path), "package.authors.12");
}

#[test]
fn stringify_empty_key_adds_no_separator() {
    let path = vec![
        IgnoredPathStep::Key(String::new()),
        IgnoredPathStep::Key("a".to_string()),
        IgnoredPathStep::Index(0),
    ];
    assert_eq!(stringify_ignored_path(&path), "a.0");
    assert_eq!(stringify_ignored_path(&Vec::new()), "");
}

#[test]
fn unused_key_is_reported_by_its_path() {
    let ignored = vec![vec![IgnoredPathStep::Key("invalid".to_string())]];
    match finish_parse_v1(Ok(Manifest::default()), &ignored) {
        Err(Error::UnusedKeys(keys)) => {
            assert_eq!(1, keys.len());
            assert_eq!("invalid", keys[0]);
        }
        other => panic!("unexpected result {:?}", other),
    }
}

#[test]
fn nothing_ignored_keeps_the_manifest() {
    match finish_parse_v1(Ok(Manifest::default()), &Vec::new()) {
        Ok(m) => {
            assert_eq!(None, m.package);
            assert_eq!(None, m.workspace);
        }
        Err(e) => panic!("unexpected error {:?}", e),
    }
}

#[test]
fn deserializer_error_stands_even_with_ignored_keys() {
    let e = toml::from_str::<toml::Value>("x = ").unwrap_err();
    let ignored = vec![vec![IgnoredPathStep::Key("k".to_string())]];
    match finish_parse_v1(Err(e), &ignored) {
        Err(Error::DeserializerError(_)) => {}
        other => panic!("unexpected result {:?}", other),
    }
}

#[test]
fn error_messages() {
    let e = Error::FailedToParseToml("boom".to_string());
    assert_eq!(e.message(), "Failed to parse toml: boom");
    let e = Error::UnusedKeys(vec!["a".to_string(), "b.c".to_string()]);
    assert_eq!(e.message(), "Unused keys:\n- a\n- b.c");
    let e = Error::UnusedKeys(Vec::new());
    assert_eq!(e.message(), "Unused keys:");
    let de = toml::from_str::<toml::Value>("x = ").unwrap_err();
    let text = format!("{}", de);
    let e = Error::DeserializerError(de);
    assert_eq!(e.message(), format!("Failed to Deserialize TOML into Manifest: {}", text));
}

#[test]
fn parse_toml_returns_the_value_read() {
    let text = "a = 1\n[t]\nb = \"x\"\n";
    let v = parse_toml(text).unwrap();
    assert_eq!(v, text.parse::<toml::Value>().unwrap());
    assert_eq!(v.get("a").and_then(|x| x.as_integer()), Some(1));
    assert_eq!(v.get("t").and_then(|t| t.get("b")).and_then(|b| b.as_str()), Some("x"));
    let w = parse_cargo_toml(text).unwrap();
    assert_eq!(w, v);
}

#[test]
fn push_ignored_path_appends_to_given_text() {
    let steps = vec![
        IgnoredPathStep::Optional,
        IgnoredPathStep::Key("dependencies".to_owned()),
        IgnoredPathStep::NewtypeStruct,
        IgnoredPathStep::Index(2),
    ];
    let mut dst = "package".to_owned();
    push_ignored_path(&mut dst, &steps);
    assert_eq!(dst, "package.dependencies.2");
    let mut empty = String::new();
    push_ignored_path(&mut empty, &steps);
    assert_eq!(empty, stringify_ignored_path(&steps));
    let mut same = "root".to_owned();
    push_ignored_path(&mut same, &vec![IgnoredPathStep::NewtypeVariant]);
    assert_eq!(same, "root");
    let mut untouched = "x".to_owned();
    push_ignored_path(&mut untouched, &Vec::new());
    assert_eq!(untouched, "x");
}
