use localsetup::version::{
    parse_version, release_version, update_available, version_lt, VersionError,
};

#[test]
fn components_parse() {
    assert_eq!(parse_version("1.2.0"), Some(vec![1, 2, 0]));
    assert_eq!(parse_version("0"), Some(vec![0]));
    assert_eq!(parse_version("1..2"), None);
    assert_eq!(parse_version("1.x.2"), None);
    assert_eq!(parse_version(""), None);
}

#[test]
fn comparison_is_numeric_not_lexicographic() {
    let a = parse_version("1.2.0").unwrap();
    let b = parse_version("1.10.0").unwrap();
    assert!(version_lt(&a, &b));
    assert!(!version_lt(&b, &a));
}

#[test]
fn equal_versions_are_not_newer() {
    let a = parse_version("0.0.2").unwrap();
    let b = parse_version("0.0.2").unwrap();
    assert!(!version_lt(&a, &b));
}

#[test]
fn shorter_prefix_is_older() {
    let a = parse_version("1.2").unwrap();
    let b = parse_version("1.2.0").unwrap();
    assert!(version_lt(&a, &b));
    assert!(!version_lt(&b, &a));
}

#[test]
fn release_name_stripping() {
    assert_eq!(release_version("Release v0.0.2"), "0.0.2");
    assert_eq!(release_version("0.0.3"), "0.0.3");
    assert_eq!(release_version("v0.0.3"), "v0.0.3");
}

#[test]
fn up_to_date_release_means_no_update() {
    assert_eq!(update_available("0.0.2", "Release v0.0.2"), Ok(false));
}

#[test]
fn newer_release_means_update() {
    assert_eq!(update_available("0.0.2", "Release v0.0.3"), Ok(true));
    assert_eq!(update_available("0.0.2", "0.1.0"), Ok(true));
    assert_eq!(update_available("1.0.0", "Release v0.9.9"), Ok(false));
}

#[test]
fn malformed_versions_are_reported() {
    assert_eq!(update_available("junk", "Release v0.0.2"), Err(VersionError::CurrentMalformed));
    assert_eq!(update_available("0.0.2", "Release vNext"), Err(VersionError::LatestMalformed));
}
