use customs::manifest::{
    is_valid_name, is_valid_version, load_manifest, Field, ManifestError, RawManifest,
};

fn raw(name: Option<&str>, version: Option<&str>) -> RawManifest {
    RawManifest {
        name: name.map(String::from),
        version: version.map(String::from),
        authors: vec![String::from("ana")],
        target: None,
        dependencies: Vec::new(),
    }
}

#[test]
fn valid_manifest_keeps_fields() {
    let mut r = raw(Some("demo"), Some("1.2.0"));
    r.dependencies = vec![(String::from("core"), String::from(">=1.0.4"))];
    let m = load_manifest(r).unwrap();
    assert_eq!(m.name, "demo");
    assert_eq!(m.version, "1.2.0");
    assert_eq!(m.authors, vec![String::from("ana")]);
    assert_eq!(m.target, "target");
    assert_eq!(m.dependencies, vec![(String::from("core"), String::from(">=1.0.4"))]);
}

#[test]
fn explicit_target_is_kept() {
    let mut r = raw(Some("demo"), Some("1.2.0"));
    r.target = Some(String::from("build"));
    assert_eq!(load_manifest(r).unwrap().target, "build");
}

#[test]
fn relative_target_paths_are_accepted() {
    for t in ["out/dir", "build", "dist/v1.2", ".out"] {
        let mut r = raw(Some("demo"), Some("1.2.0"));
        r.target = Some(String::from(t));
        assert_eq!(load_manifest(r).unwrap().target, t);
    }
}

#[test]
fn unsafe_target_paths_are_invalid() {
    for t in ["", "/abs", "../up", "a/../b", "a//b", "a/", ".", "./a", "a b"] {
        let mut r = raw(Some("demo"), Some("1.2.0"));
        r.target = Some(String::from(t));
        assert_eq!(
            load_manifest(r).err(),
            Some(ManifestError::FieldInvalid(Field::Target)),
            "{t}"
        );
    }
}

#[test]
fn duplicate_dependency_names_are_invalid() {
    let mut r = raw(Some("demo"), Some("1.0.0"));
    r.dependencies = vec![
        (String::from("a"), String::from("^1.0")),
        (String::from("b"), String::from("^2.0")),
        (String::from("a"), String::from("^1.1")),
    ];
    assert_eq!(load_manifest(r).err(), Some(ManifestError::FieldInvalid(Field::Dependencies)));
}

#[test]
fn prerelease_and_build_versions_are_accepted() {
    let m = load_manifest(raw(Some("demo2"), Some("1.2.3-alpha.1+build.5"))).unwrap();
    assert_eq!(m.version, "1.2.3-alpha.1+build.5");
}

#[test]
fn missing_name_is_reported() {
    assert_eq!(
        load_manifest(raw(None, Some("1.0.0"))).err(),
        Some(ManifestError::FieldMissing(Field::Name))
    );
}

#[test]
fn missing_version_is_reported() {
    assert_eq!(
        load_manifest(raw(Some("demo"), None)).err(),
        Some(ManifestError::FieldMissing(Field::Version))
    );
}

#[test]
fn missing_field_comes_before_invalid_name() {
    assert_eq!(
        load_manifest(raw(Some("bad name"), None)).err(),
        Some(ManifestError::FieldMissing(Field::Version))
    );
}

#[test]
fn two_component_version_is_invalid() {
    assert_eq!(
        load_manifest(raw(Some("demo"), Some("1.2"))).err(),
        Some(ManifestError::FieldInvalid(Field::Version))
    );
}

#[test]
fn malformed_versions_are_invalid() {
    for v in ["", "1", "1.2.3.4", "v1.2.3", "01.2.3", "1.2.x", "1.2.3-", " 1.2.3"] {
        assert_eq!(
            load_manifest(raw(Some("demo"), Some(v))).err(),
            Some(ManifestError::FieldInvalid(Field::Version)),
            "{v}"
        );
    }
}

#[test]
fn names_outside_letters_and_digits_are_invalid() {
    for n in ["", "my-plugin", "a b", "x/y", "naïve"] {
        assert_eq!(
            load_manifest(raw(Some(n), Some("1.0.0"))).err(),
            Some(ManifestError::FieldInvalid(Field::Name)),
            "{n}"
        );
    }
    assert!(is_valid_name("Plugin42"));
}

#[test]
fn bad_requirement_is_invalid() {
    let mut r = raw(Some("demo"), Some("1.0.0"));
    r.dependencies = vec![
        (String::from("a"), String::from("^1.0")),
        (String::from("b"), String::from(">=x.y")),
    ];
    assert_eq!(load_manifest(r).err(), Some(ManifestError::FieldInvalid(Field::Dependencies)));
}

#[test]
fn version_check_follows_semver() {
    assert!(is_valid_version("0.1.0"));
    assert!(is_valid_version("10.20.30"));
    assert!(!is_valid_version("1.2"));
    assert!(!is_valid_version("1.02.3"));
}

#[test]
fn field_names() {
    assert_eq!(Field::Name.as_str(), "name");
    assert_eq!(Field::Version.as_str(), "version");
    assert_eq!(Field::Target.as_str(), "target");
    assert_eq!(Field::Dependencies.as_str(), "dependencies");
}
