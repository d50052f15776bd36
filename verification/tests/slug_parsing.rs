use enarx::{
    parse_slug, RepoSpec, SlugParseError, TagSpec, UserContext, UserSpec,
};

#[test]
fn user_slug_with_host() {
    let spec = UserSpec::from_str("example.org+testuser").unwrap();
    assert_eq!(spec.host, "example.org");
    assert_eq!(spec.ctx.name.text, "testuser");
}

#[test]
fn user_slug_default_host() {
    let spec = UserSpec::from_str("testuser").unwrap();
    assert_eq!(spec.host, "example.com");
    assert_eq!(spec.ctx.name.text, "testuser");
}

#[test]
fn user_slug_host_with_port() {
    let spec = UserSpec::from_str("localhost:1234+testuser").unwrap();
    assert_eq!(spec.host, "localhost:1234");
    assert_eq!(spec.ctx.name.text, "testuser");
}

#[test]
fn repo_slug_parses() {
    let spec = RepoSpec::from_str("localhost:1234+testuser/privaterepo").unwrap();
    assert_eq!(spec.host, "localhost:1234");
    assert_eq!(spec.ctx.owner.name.text, "testuser");
    assert_eq!(spec.ctx.name.text, "privaterepo");
}

#[test]
fn repo_slug_accepts_colon_separator() {
    let spec = RepoSpec::from_str("testuser:otherrepo").unwrap();
    assert_eq!(spec.host, "example.com");
    assert_eq!(spec.ctx.owner.name.text, "testuser");
    assert_eq!(spec.ctx.name.text, "otherrepo");
}

#[test]
fn tag_slug_parses() {
    let spec = TagSpec::from_str("localhost:1234+testuser/privaterepo:0.1.0").unwrap();
    assert_eq!(spec.host, "localhost:1234");
    assert_eq!(spec.ctx.repository.owner.name.text, "testuser");
    assert_eq!(spec.ctx.repository.name.text, "privaterepo");
    assert_eq!(spec.ctx.name.text, "0.1.0");
}

#[test]
fn tag_slug_build_metadata_keeps_first_plus_as_host_split() {
    let spec = TagSpec::from_str("myhost+testuser/repo:1.2.3+build").unwrap();
    assert_eq!(spec.host, "myhost");
    assert_eq!(spec.ctx.name.text, "1.2.3+build");
}

#[test]
fn user_slug_invalid_name() {
    assert_eq!(
        UserSpec::from_str("bad name").unwrap_err(),
        SlugParseError::InvalidUserName
    );
    assert_eq!(
        UserSpec::from_str("").unwrap_err(),
        SlugParseError::InvalidUserName
    );
    assert_eq!(
        UserSpec::from_str("host+na.me").unwrap_err(),
        SlugParseError::InvalidUserName
    );
}

#[test]
fn repo_slug_missing_separator() {
    assert_eq!(
        RepoSpec::from_str("justuser").unwrap_err(),
        SlugParseError::MissingSeparator
    );
}

#[test]
fn repo_slug_invalid_segments() {
    assert_eq!(
        RepoSpec::from_str("us$er/repo").unwrap_err(),
        SlugParseError::InvalidUserName
    );
    assert_eq!(
        RepoSpec::from_str("user/re_po").unwrap_err(),
        SlugParseError::InvalidRepositoryName
    );
    assert_eq!(
        RepoSpec::from_str("user/").unwrap_err(),
        SlugParseError::InvalidRepositoryName
    );
}

#[test]
fn tag_slug_errors() {
    assert_eq!(
        TagSpec::from_str("notag").unwrap_err(),
        SlugParseError::MissingSeparator
    );
    assert_eq!(
        TagSpec::from_str("user/repo:notaversion").unwrap_err(),
        SlugParseError::InvalidTagName
    );
    assert_eq!(
        TagSpec::from_str("us$er/repo:1.0.0").unwrap_err(),
        SlugParseError::InvalidUserName
    );
}

#[test]
fn generic_parse_slug_splits_on_first_plus() {
    let (host, ctx) = parse_slug::<UserContext>("a+buser").unwrap();
    assert_eq!(host, "a");
    assert_eq!(ctx.name.text, "buser");
}

#[test]
fn user_slug_round_trip() {
    let spec = UserSpec::from_str("example.org+testuser").unwrap();
    let again = UserSpec::from_str(&spec.to_slug()).unwrap();
    assert_eq!(again.host, spec.host);
    assert_eq!(again.ctx.name.text, spec.ctx.name.text);
}

#[test]
fn repo_slug_round_trip_canonicalizes_colon() {
    let spec = RepoSpec::from_str("h+user:repo").unwrap();
    let slug = spec.to_slug();
    assert_eq!(slug, "h+user/repo");
    let again = RepoSpec::from_str(&slug).unwrap();
    assert_eq!(again.host, spec.host);
    assert_eq!(again.ctx.owner.name.text, spec.ctx.owner.name.text);
    assert_eq!(again.ctx.name.text, spec.ctx.name.text);
}

#[test]
fn tag_slug_round_trip() {
    let spec = TagSpec::from_str("localhost:9+u/r:1.2.3-rc.1+b7").unwrap();
    let slug = spec.to_slug();
    assert_eq!(slug, "localhost:9+u/r:1.2.3-rc.1+b7");
    let again = TagSpec::from_str(&slug).unwrap();
    assert_eq!(again.host, spec.host);
    assert_eq!(again.ctx.name.text, spec.ctx.name.text);
    assert_eq!(again.ctx.repository.name.text, spec.ctx.repository.name.text);
}
