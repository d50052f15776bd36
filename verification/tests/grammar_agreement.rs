//! The library's context grammars against the registry client library's own
//! parsers: both must accept and reject the same strings.

use enarx::{is_semver, RepositoryContext, SlugTarget, TagContext, UserContext};

const SAMPLES: &[&str] = &[
    "",
    " ",
    "testuser",
    "n4M3",
    "na.me",
    "bad name",
    "user/repo",
    "user/",
    "/repo",
    "user/re_po",
    "user:repo",
    "user/repo:0.1.0",
    "user/repo:1.2.3-rc.1+build.7",
    "user/repo:v1.2.3",
    "us$er/repo",
    "-n4M3",
    "a/b/c",
    "a:b:c",
];

const VERSIONS: &[&str] = &[
    "",
    "=",
    "/",
    "v1.2.3",
    "1.2/3",
    "1.2.3",
    "0.1.0",
    "1.2.3-test",
    "1",
    "1.2",
    "1.2.3.4",
    "01.2.3",
    "1.2.3-01",
    "1.2.3+01",
    "1.2.3-",
    "1.2.3+",
    "1.2.3-a..b",
    "1.2.3-a.+b",
    "1.2.3-a_b",
    "1.2.3-0a.1",
    "1.2.3-rc.1+build.7",
    "18446744073709551615.0.0",
    "18446744073709551616.0.0",
    "1.2.3 ",
    " 1.2.3",
    "1.2.3-ä",
];

#[test]
fn version_grammar_agrees_with_semver() {
    for s in VERSIONS {
        assert_eq!(
            is_semver(s),
            semver::Version::parse(s).is_ok(),
            "disagreement on version {:?}",
            s
        );
    }
    for s in SAMPLES {
        assert_eq!(
            is_semver(s),
            semver::Version::parse(s).is_ok(),
            "disagreement on version {:?}",
            s
        );
    }
}

#[test]
fn user_grammar_agrees_with_registry_types() {
    for s in SAMPLES {
        assert_eq!(
            UserContext::from_name(s).is_ok(),
            s.parse::<drawbridge_type::UserContext>().is_ok(),
            "disagreement on user context {:?}",
            s
        );
    }
}

#[test]
fn repository_grammar_agrees_with_registry_types() {
    for s in SAMPLES {
        assert_eq!(
            RepositoryContext::from_name(s).is_ok(),
            s.parse::<drawbridge_type::RepositoryContext>().is_ok(),
            "disagreement on repository context {:?}",
            s
        );
    }
}

#[test]
fn tag_grammar_agrees_with_registry_types() {
    for s in SAMPLES {
        assert_eq!(
            TagContext::from_name(s).is_ok(),
            s.parse::<drawbridge_type::TagContext>().is_ok(),
            "disagreement on tag context {:?}",
            s
        );
    }
    for v in VERSIONS {
        let s = format!("user/repo:{v}");
        assert_eq!(
            TagContext::from_name(&s).is_ok(),
            s.parse::<drawbridge_type::TagContext>().is_ok(),
            "disagreement on tag context {:?}",
            s
        );
    }
}

#[test]
fn parsed_values_agree_with_registry_types() {
    let ours = RepositoryContext::from_name("testuser/privaterepo").unwrap();
    let theirs: drawbridge_type::RepositoryContext = "testuser/privaterepo".parse().unwrap();
    assert_eq!(ours.owner.name.text, *theirs.owner.name);
    assert_eq!(ours.name.text, *theirs.name);
}
