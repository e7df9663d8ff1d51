use omni_manifest::convert::profile::{convert_profile, Error};
use omni_manifest::schema::profile::{Profile, ProfileOverrides};
use omni_manifest::schema::values::{ProfilePackageSpec, StringOrBool};

#[test]
fn fail_to_convert_with_nested_build_override() {
    let invalid_nested = Profile { ..Default::default() };
    let profile_with_override =
        Profile { build_override: Some(Box::new(invalid_nested)), ..Default::default() };
    let p = Profile { build_override: Some(Box::new(profile_with_override)), ..Default::default() };
    match convert_profile(p) {
        Ok(p) => assert!(false, "should not convert with nested override: {:?}", p),
        Err(err) => assert_eq!(Error::NestedProfileOverride, err),
    }
}

#[test]
fn fail_to_convert_with_nested_overrides() {
    let invalid_nested = Profile { ..Default::default() };
    let profile_with_override =
        Profile { build_override: Some(Box::new(invalid_nested)), ..Default::default() };
    let mut map = ProfileOverrides::new();
    map.insert(ProfilePackageSpec::All, profile_with_override);
    let p = Profile { overrides: Some(map), ..Default::default() };
    match convert_profile(p) {
        Ok(p) => assert!(false, "should not convert with nested override: {:?}", p),
        Err(err) => assert_eq!(Error::NestedProfileOverride, err),
    }
}

#[test]
fn fail_to_convert_with_panic_in_override() {
    let sub_profile = Profile { panic: Some("unwind".to_owned()), ..Default::default() };
    let p = Profile { build_override: Some(Box::new(sub_profile)), ..Default::default() };
    match convert_profile(p) {
        Ok(p) => assert!(false, "should not convert with panic in override: {:?}", p),
        Err(err) => assert_eq!(Error::PanicNotAllowedInOverride, err),
    }
}

#[test]
fn fail_to_convert_with_lto_in_override() {
    let sub_profile =
        Profile { lto: Some(StringOrBool::String("foo".to_owned())), ..Default::default() };
    let p = Profile { build_override: Some(Box::new(sub_profile)), ..Default::default() };
    match convert_profile(p) {
        Ok(p) => assert!(false, "should not convert with lto in override: {:?}", p),
        Err(err) => assert_eq!(Error::LtoNotAllowedInOverride, err),
    }
}

#[test]
fn fail_to_convert_with_rpath_in_override() {
    let sub_profile = Profile { rpath: Some(false), ..Default::default() };
    let p = Profile { build_override: Some(Box::new(sub_profile)), ..Default::default() };
    match convert_profile(p) {
        Ok(p) => assert!(false, "should not convert with rpath in override: {:?}", p),
        Err(err) => assert_eq!(Error::RPathNotAllowedInOverride, err),
    }
}

#[test]
fn fail_to_convert_invalid_panic() {
    let p = Profile { panic: Some("foo".to_owned()), ..Default::default() };
    match convert_profile(p) {
        Ok(p) => assert!(false, "should not convert with invalid panic setting: {:?}", p),
        Err(err) => assert_eq!(Error::InvalidPanicSetting("foo".to_owned()), err),
    }
}

#[test]
fn plain_profiles_convert() {
    assert!(convert_profile(Profile::default()).is_ok());
    let p = Profile { panic: Some("abort".to_owned()), ..Default::default() };
    assert_eq!(convert_profile(p).unwrap().1, None);
    let p = Profile { panic: Some("unwind".to_owned()), ..Default::default() };
    assert!(convert_profile(p).is_ok());
    let mut map = ProfileOverrides::new();
    map.insert(ProfilePackageSpec::Spec("foo".to_owned()), Profile::default());
    let p = Profile { overrides: Some(map), ..Default::default() };
    assert!(convert_profile(p).is_ok());
}

#[test]
fn build_override_is_checked_before_overrides_and_panic() {
    let sub = Profile { rpath: Some(true), ..Default::default() };
    let mut map = ProfileOverrides::new();
    map.insert(ProfilePackageSpec::All, Profile { lto: Some(StringOrBool::Bool(true)), ..Default::default() });
    let p = Profile {
        build_override: Some(Box::new(sub)),
        overrides: Some(map),
        panic: Some("bad".to_owned()),
        ..Default::default()
    };
    assert_eq!(convert_profile(p).unwrap_err(), Error::RPathNotAllowedInOverride);
}

#[test]
fn first_failing_override_in_order_is_reported() {
    let mut map = ProfileOverrides::new();
    map.insert(ProfilePackageSpec::Spec("a".to_owned()), Profile::default());
    map.insert(ProfilePackageSpec::Spec("b".to_owned()), Profile { panic: Some("abort".to_owned()), ..Default::default() });
    map.insert(ProfilePackageSpec::All, Profile { rpath: Some(true), ..Default::default() });
    let p = Profile { overrides: Some(map), panic: Some("bad".to_owned()), ..Default::default() };
    assert_eq!(convert_profile(p).unwrap_err(), Error::PanicNotAllowedInOverride);
}

#[test]
fn overrides_insert_replaces_same_selector() {
    let mut map = ProfileOverrides::new();
    assert!(map.insert(ProfilePackageSpec::All, Profile::default()).is_none());
    let replaced = map.insert(ProfilePackageSpec::All, Profile { rpath: Some(true), ..Default::default() });
    assert_eq!(replaced, Some(Profile::default()));
    assert_eq!(map.len(), 1);
    assert!(map.insert(ProfilePackageSpec::Spec("x".to_owned()), Profile::default()).is_none());
    assert_eq!(map.len(), 2);
    assert_eq!(map.entry(0).0, ProfilePackageSpec::Spec("x".to_owned()));
    assert_eq!(map.entry(1).0, ProfilePackageSpec::All);
    assert_eq!(map.entry(1).1.rpath, Some(true));
}

#[test]
fn overrides_keep_selectors_in_ascending_order() {
    let mut map = ProfileOverrides::new();
    map.insert(ProfilePackageSpec::All, Profile::default());
    map.insert(ProfilePackageSpec::Spec("zeta".to_owned()), Profile::default());
    map.insert(ProfilePackageSpec::Spec("alpha".to_owned()), Profile::default());
    map.insert(ProfilePackageSpec::Spec("alp".to_owned()), Profile::default());
    assert_eq!(map.len(), 4);
    assert_eq!(map.entry(0).0, ProfilePackageSpec::Spec("alp".to_owned()));
    assert_eq!(map.entry(1).0, ProfilePackageSpec::Spec("alpha".to_owned()));
    assert_eq!(map.entry(2).0, ProfilePackageSpec::Spec("zeta".to_owned()));
    assert_eq!(map.entry(3).0, ProfilePackageSpec::All);
}

#[test]
fn overrides_are_checked_in_selector_order_not_insertion_order() {
    let mut map = ProfileOverrides::new();
    map.insert(ProfilePackageSpec::All, Profile { rpath: Some(true), ..Default::default() });
    map.insert(ProfilePackageSpec::Spec("b".to_owned()), Profile { lto: Some(StringOrBool::Bool(true)), ..Default::default() });
    let p = Profile { overrides: Some(map), ..Default::default() };
    assert_eq!(convert_profile(p).unwrap_err(), Error::LtoNotAllowedInOverride);
}

#[test]
fn profile_error_messages() {
    assert_eq!(Error::NestedProfileOverride.message(), "Profile overrides cannot be nested.");
    assert_eq!(
        Error::PanicNotAllowedInOverride.message(),
        "`panic` may not be specified in a profile override."
    );
    assert_eq!(
        Error::LtoNotAllowedInOverride.message(),
        "`lto` may not be specified in a profile override."
    );
    assert_eq!(
        Error::RPathNotAllowedInOverride.message(),
        "`rpath` may not be specified in a profile override."
    );
    assert_eq!(
        Error::InvalidPanicSetting("foo".to_owned()).message(),
        "`panic` setting of `foo` is not a valid setting, must be `unwind` or `abort`"
    );
    let inner = omni_manifest::v1::error::Error::InvalidDependencyName("x".to_owned());
    let e: Error = Error::from(inner);
    assert_eq!(e.message(), "invalid dependency name `x`");
}

#[test]
fn package_spec_text() {
    assert_eq!(ProfilePackageSpec::from_text("*"), ProfilePackageSpec::All);
    assert_eq!(ProfilePackageSpec::from_text("foo:1.0"), ProfilePackageSpec::Spec("foo:1.0".to_owned()));
    assert_eq!(ProfilePackageSpec::All.text(), "*");
    assert!(ProfilePackageSpec::All.same_as(&ProfilePackageSpec::All));
    assert!(!ProfilePackageSpec::All.same_as(&ProfilePackageSpec::Spec("*".to_owned())));
}

#[test]
fn model_error_message_is_passed_through() {
    let e = Error::V1(omni_manifest::v1::error::Error::InvalidDependencyName("a b".to_owned()));
    assert_eq!(e.message(), "invalid dependency name `a b`");
}
