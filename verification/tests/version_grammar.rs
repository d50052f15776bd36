use enarx::is_semver;

#[test]
fn plain_versions_accepted() {
    assert!(is_semver("0.1.0"));
    assert!(is_semver("1.2.3"));
    assert!(is_semver("0.0.0"));
    assert!(is_semver("10.20.30"));
    assert!(is_semver("18446744073709551615.0.0"));
}

#[test]
fn prerelease_and_build_accepted() {
    assert!(is_semver("1.2.3-test"));
    assert!(is_semver("1.2.3-rc.1"));
    assert!(is_semver("1.2.3-0"));
    assert!(is_semver("1.2.3-0a.1"));
    assert!(is_semver("1.2.3-alpha-2.x"));
    assert!(is_semver("1.2.3+build"));
    assert!(is_semver("1.2.3+build.01"));
    assert!(is_semver("1.2.3-rc.1+build.7"));
}

#[test]
fn malformed_versions_rejected() {
    assert!(!is_semver(""));
    assert!(!is_semver("="));
    assert!(!is_semver("/"));
    assert!(!is_semver("v1.2.3"));
    assert!(!is_semver("1.2/3"));
    assert!(!is_semver("1"));
    assert!(!is_semver("1.2"));
    assert!(!is_semver("1.2.3.4"));
    assert!(!is_semver("1.2.3 "));
    assert!(!is_semver(" 1.2.3"));
}

#[test]
fn leading_zeroes_rejected() {
    assert!(!is_semver("01.2.3"));
    assert!(!is_semver("1.02.3"));
    assert!(!is_semver("1.2.03"));
    assert!(!is_semver("1.2.3-01"));
    assert!(is_semver("1.2.3+01"));
}

#[test]
fn numeric_overflow_rejected() {
    assert!(!is_semver("18446744073709551616.0.0"));
    assert!(!is_semver("0.99999999999999999999999.0"));
}

#[test]
fn empty_segments_rejected() {
    assert!(!is_semver("1.2.3-"));
    assert!(!is_semver("1.2.3+"));
    assert!(!is_semver("1.2.3-a..b"));
    assert!(!is_semver("1.2.3-a."));
    assert!(!is_semver("1.2.3-.a"));
    assert!(!is_semver("1.2.3-a.+b"));
}

#[test]
fn strange_characters_rejected() {
    assert!(!is_semver("1.2.3-a_b"));
    assert!(!is_semver("1.2.3-ä"));
    assert!(!is_semver("1.2.3+b:d"));
}
