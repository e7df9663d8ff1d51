use omni_manifest::convert::{convert, Error as ConvertError, Warning};
use omni_manifest::schema::dependency_map::DependencyMap;
use omni_manifest::schema::manifest::{Manifest as SchemaManifest, Workspace as SchemaWorkspace};
use omni_manifest::schema::opt_level::{OptLevel, OptLevelValue};
use omni_manifest::schema::values::{DetailedDependency, Dependency as SchemaDependency};
use omni_manifest::v1::error::Error;
use omni_manifest::v1::git::{canonicalize_url, canonicalize_url_checked, GitReference, GitRepository};
use omni_manifest::v1::into_url::IntoUrl;
use omni_manifest::v1::model::{Dependency, Manifest, OptionVec, ValidationError, Validator};
use omni_manifest::v1::url_text::Url;

fn url(s: &str) -> Url {
    Url::parse(s).unwrap()
}

#[test]
fn convert_workspace_manifest() {
    let man = SchemaManifest {
        workspace: Some(SchemaWorkspace {
            members: Some(vec!["a".to_owned(), "b".to_owned()]),
            default_members: None,
            exclude: Some(vec![]),
        }),
        ..Default::default()
    };
    match convert(&man) {
        Ok((Manifest::Workspace(w), warnings)) => {
            assert_eq!(warnings, None);
            assert_eq!(w.members, Some(vec!["a".to_owned(), "b".to_owned()]));
            assert_eq!(w.default_members, None);
            assert_eq!(w.exclude, Some(vec![]));
        }
        other => panic!("unexpected {:?}", other),
    }
}

#[test]
fn convert_workspace() {
    // A default manifest has no workspace table, so it is not converted: it
    // comes back, unchanged, in the error.
    let man = SchemaManifest { ..Default::default() };
    match convert(&man) {
        Err(ConvertError::Unsupported(m)) => assert_eq!(m, man),
        Ok((Manifest::Project, _)) => panic!("a default manifest is not a project"),
        Ok((Manifest::Workspace(w), _)) => panic!("a default manifest has no workspace: {:?}", w),
    }
}

#[test]
fn convert_hands_back_a_copy_of_every_table() {
    let mut deps = DependencyMap::new();
    deps.insert("serde".to_owned(), SchemaDependency::Simple("1".to_owned()));
    deps.insert(
        "toml".to_owned(),
        SchemaDependency::Detailed(DetailedDependency {
            version: Some("0.5".to_owned()),
            features: Some(vec!["preserve_order".to_owned()]),
            ..Default::default()
        }),
    );
    let man = SchemaManifest {
        cargo_features: Some(vec!["edition".to_owned()]),
        dependencies: Some(deps),
        ..Default::default()
    };
    match convert(&man) {
        Err(ConvertError::Unsupported(m)) => {
            assert_eq!(m, man);
            let d = m.dependencies.as_ref().unwrap();
            assert_eq!(d.keys(), vec!["serde".to_owned(), "toml".to_owned()]);
            assert_eq!(d.get("toml"), man.dependencies.as_ref().unwrap().get("toml"));
        }
        other => panic!("unexpected {:?}", other),
    }
}

#[test]
fn convert_refuses_manifest_without_workspace() {
    let man = SchemaManifest { cargo_features: Some(vec!["x".to_owned()]), ..Default::default() };
    match convert(&man) {
        Err(ConvertError::Unsupported(m)) => assert_eq!(m, man),
        other => panic!("unexpected {:?}", other),
    }
    let e = convert(&SchemaManifest::default()).unwrap_err();
    assert_eq!(e.message(), format!("None: {:?}", SchemaManifest::default()));
    assert_eq!(Warning::Nothing.message(), "none");
}

#[test]
fn option_vec_collects() {
    let mut v: OptionVec<u32> = OptionVec::new();
    assert_eq!(v.as_option(), &None);
    v.push(1);
    assert_eq!(v.as_option(), &Some(vec![1]));
    v.push(2);
    assert_eq!(v.as_option(), &Some(vec![1, 2]));
}

#[test]
fn dependencies_validate_without_errors() {
    let deps = vec![
        Dependency::CustomRegistry("reg".to_owned()),
        Dependency::DefaultRegistry(semver::VersionReq::parse("^1.0").unwrap()),
        Dependency::LocalPath(std::path::PathBuf::from("../x")),
        Dependency::Directory(std::path::PathBuf::from("vendor")),
    ];
    for d in deps.iter() {
        let errors: OptionVec<ValidationError> = d.validate();
        assert!(errors.as_option().is_none());
    }
}

#[test]
fn opt_level_reading_and_writing() {
    assert_eq!(OptLevel::from_integer(3), OptLevel("3".to_owned()));
    assert_eq!(OptLevel::from_integer(-12), OptLevel("-12".to_owned()));
    assert_eq!(OptLevel::from_integer(i64::MIN), OptLevel(i64::MIN.to_string()));
    assert_eq!(OptLevel::from_integer(i64::MAX), OptLevel(i64::MAX.to_string()));
    assert_eq!(OptLevel::from_text("s"), Ok(OptLevel("s".to_owned())));
    assert_eq!(OptLevel::from_text("z"), Ok(OptLevel("z".to_owned())));
    assert_eq!(
        OptLevel::from_text("fast"),
        Err("must be an integer, `z`, or `s`, but found: fast".to_owned())
    );
    assert_eq!(OptLevel::from_integer(2).written_form(), OptLevelValue::Integer(2));
    assert_eq!(OptLevel("+7".to_owned()).written_form(), OptLevelValue::Integer(7));
    assert_eq!(OptLevel("4294967295".to_owned()).written_form(), OptLevelValue::Integer(u32::MAX));
    assert_eq!(
        OptLevel("4294967296".to_owned()).written_form(),
        OptLevelValue::Text("4294967296".to_owned())
    );
    assert_eq!(OptLevel("s".to_owned()).written_form(), OptLevelValue::Text("s".to_owned()));
    assert_eq!(OptLevel("-1".to_owned()).written_form(), OptLevelValue::Text("-1".to_owned()));
    assert_eq!(OptLevel("+".to_owned()).written_form(), OptLevelValue::Text("+".to_owned()));
    assert_eq!(OptLevel("".to_owned()).written_form(), OptLevelValue::Text("".to_owned()));
}

#[test]
fn dependency_map_insert_get_and_equality() {
    let mut a = DependencyMap::new();
    assert_eq!(a.len(), 0);
    assert!(a.insert("serde".to_owned(), SchemaDependency::Simple("1".to_owned())).is_none());
    assert!(a.insert("toml".to_owned(), SchemaDependency::Simple("0.5".to_owned())).is_none());
    let old = a.insert("serde".to_owned(), SchemaDependency::Simple("2".to_owned()));
    assert_eq!(old, Some(SchemaDependency::Simple("1".to_owned())));
    assert_eq!(a.len(), 2);
    assert_eq!(a.keys(), vec!["serde".to_owned(), "toml".to_owned()]);
    assert_eq!(a.get("serde"), Some(&SchemaDependency::Simple("2".to_owned())));
    assert!(a.contains_key("toml"));
    assert!(!a.contains_key("url"));
    assert_eq!(a.get("url"), None);

    let mut b = DependencyMap::new();
    b.insert("toml".to_owned(), SchemaDependency::Detailed(DetailedDependency::default()));
    assert!(a != b);
    b.insert("serde".to_owned(), SchemaDependency::Simple("9".to_owned()));
    assert!(a == b);
    b.insert("url".to_owned(), SchemaDependency::Simple("2".to_owned()));
    assert!(a != b);
    assert!(DependencyMap::new() == DependencyMap::new());
    let c = a.clone();
    assert!(c == a);
    assert_eq!(c.keys(), a.keys());
}

#[test]
fn dependency_map_keys_ascend_whatever_the_insertion_order() {
    let mut a = DependencyMap::new();
    for name in ["toml", "serde", "url", "semver", "serde_ignored"] {
        a.insert(name.to_owned(), SchemaDependency::Simple("1".to_owned()));
    }
    let mut b = DependencyMap::new();
    for name in ["url", "serde_ignored", "toml", "semver", "serde"] {
        b.insert(name.to_owned(), SchemaDependency::Simple("2".to_owned()));
    }
    let expected: Vec<String> =
        ["semver", "serde", "serde_ignored", "toml", "url"].iter().map(|s| s.to_string()).collect();
    assert_eq!(a.keys(), expected);
    assert_eq!(b.keys(), expected);
    assert!(a == b);
}

#[test]
fn canonicalize_github_url() {
    let u = url("https://github.com/Rust-Lang/Cargo.git");
    assert_eq!(canonicalize_url(&u).unwrap().as_str(), "https://github.com/rust-lang/cargo");
    let u = url("http://github.com/a/B");
    assert_eq!(canonicalize_url(&u).unwrap().as_str(), "https://github.com/a/b");
}

#[test]
fn canonicalize_strips_trailing_slash_and_git_suffix() {
    let u = url("https://example.com/foo/");
    assert_eq!(canonicalize_url(&u).unwrap().as_str(), "https://example.com/foo");
    let u = url("https://example.com/Foo/Bar.git");
    assert_eq!(canonicalize_url(&u).unwrap().as_str(), "https://example.com/Foo/Bar");
    let u = url("https://example.com/Foo/");
    assert_eq!(canonicalize_url(&u).unwrap().as_str(), "https://example.com/Foo");
}

#[test]
fn canonicalize_refuses_cannot_be_a_base() {
    let u = url("mailto:someone@example.com");
    match canonicalize_url(&u) {
        Err(Error::GitBaseUrlNotSupported(v)) => assert_eq!(v, u),
        other => panic!("unexpected {:?}", other),
    }
    let e = canonicalize_url(&u).unwrap_err();
    assert_eq!(
        e.message(),
        "invalid url `mailto:someone@example.com`: cannot-be-a-base-URLs are not supported"
    );
}

#[test]
fn canonicalize_cannot_switch_git_scheme_to_https() {
    let u = url("git://github.com/rust-lang/cargo.git");
    assert!(canonicalize_url_checked(&u).is_none());
}

#[test]
fn repository_from_url_string() {
    let r = GitRepository::from_url_string(
        "https://github.com/Rust-Lang/Cargo.git?rev=abc123#deadbeef".to_owned(),
    )
    .unwrap();
    assert_eq!(r.repo.as_str(), "https://github.com/rust-lang/cargo");
    assert_eq!(r.reference, GitReference::Rev("abc123".to_owned()));
    assert_eq!(r.precise, Some("deadbeef".to_owned()));

    let r = GitRepository::from_url_string("https://example.com/repo".to_owned()).unwrap();
    assert_eq!(r.reference, GitReference::Branch("master".to_owned()));
    assert_eq!(r.precise, None);

    let r = GitRepository::from_url_string(
        "https://example.com/repo?tag=v1&ref=dev&other=x".to_owned(),
    )
    .unwrap();
    assert_eq!(r.reference, GitReference::Branch("dev".to_owned()));
    let r = GitRepository::from_url_string("https://example.com/repo?branch=b&tag=v2".to_owned())
        .unwrap();
    assert_eq!(r.reference, GitReference::Tag("v2".to_owned()));
}

#[test]
fn repository_from_invalid_url_string() {
    match GitRepository::from_url_string("not a url".to_owned()) {
        Err(Error::InvalidStringUrl(s, e)) => {
            assert_eq!(s, "not a url");
            assert_eq!(e, url::ParseError::RelativeUrlWithoutBase);
        }
        other => panic!("unexpected {:?}", other),
    }
    let e = Error::InvalidStringUrl("not a url".to_owned(), url::ParseError::RelativeUrlWithoutBase);
    assert_eq!(
        e.message(),
        format!("invalid url `{:?}`: {}", "not a url", url::ParseError::RelativeUrlWithoutBase)
    );
    assert!(GitRepository::from_url_string_checked("git://github.com/a/b".to_owned()).is_none());
}

#[test]
fn repository_refused_exactly_for_cannot_be_a_base_urls() {
    match GitRepository::from_url_string("github.com:rust-lang/cargo.git".to_owned()) {
        Err(Error::GitBaseUrlNotSupported(u)) => {
            assert_eq!(u.as_str(), "github.com:rust-lang/cargo.git")
        }
        other => panic!("unexpected {:?}", other),
    }
    match GitRepository::from_url_string("mailto:someone?branch=x#frag".to_owned()) {
        Err(Error::GitBaseUrlNotSupported(u)) => assert_eq!(u.as_str(), "mailto:someone"),
        other => panic!("unexpected {:?}", other),
    }
    match GitRepository::from_url_string("ssh://host/a/b.git?branch=x#frag".to_owned()) {
        Ok(r) => {
            assert_eq!(r.repo.as_str(), "ssh://host/a/b");
            assert_eq!(r.reference, GitReference::Branch("x".to_owned()));
            assert_eq!(r.precise, Some("frag".to_owned()));
        }
        other => panic!("unexpected {:?}", other),
    }
    match GitRepository::from_url_string("http://[::1".to_owned()) {
        Err(Error::InvalidStringUrl(s, e)) => {
            assert_eq!(s, "http://[::1");
            assert_eq!(e, url::ParseError::InvalidIpv6Address);
        }
        other => panic!("unexpected {:?}", other),
    }
}

#[test]
fn into_url_conversions() {
    assert_eq!("https://example.com".into_url().unwrap().as_str(), "https://example.com/");
    match "::".into_url() {
        Err(Error::InvalidStringUrl(s, _)) => assert_eq!(s, "::"),
        other => panic!("unexpected {:?}", other),
    }
    match String::from("x").into_url() {
        Err(Error::InvalidStringUrl(s, _)) => assert_eq!(s, "x"),
        other => panic!("unexpected {:?}", other),
    }
    let rel = std::path::PathBuf::from("relative/path");
    match (&rel).into_url() {
        Err(Error::InvalidPathUrl(p)) => assert_eq!(p, rel),
        other => panic!("unexpected {:?}", other),
    }
    let abs = std::path::Path::new("/tmp/x");
    assert_eq!(abs.into_url().unwrap().as_str(), "file:///tmp/x");
}

#[test]
fn model_error_messages() {
    assert_eq!(
        Error::InvalidDependencyName("a b".to_owned()).message(),
        "invalid dependency name `a b`"
    );
    let p = std::path::PathBuf::from("x/y");
    assert_eq!(Error::InvalidPathUrl(p.clone()).message(), format!("invalid path url `{:?}`", p));
}
