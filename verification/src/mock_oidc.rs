//! The mock identity provider of the test harness: a responder that answers
//! exactly three routes. The discovery document derives every endpoint from
//! the provider's own bound address; the JWKS route serves one fixed
//! test-only key; the user-info route requires an `Authorization: Bearer
//! <token>` header matching the expected token and then returns a claims
//! document with the configured subject. Any other path is a protocol
//! violation: a scenario-authoring bug, not a runtime error.
//!
//! The fixtures (expected token, subject) are explicit parameters, not
//! compile-time constants, so isolated test runs can use distinct fixtures.

use vstd::prelude::*;

use crate::version::{lemma_seek, scan_to, seek};

verus! {

/// View of an optional header value.
pub open spec fn opt_str_view(o: Option<&str>) -> Option<Seq<char>> {
    match o {
        None => None,
        Some(s) => Some(s@),
    }
}

/// The value of an `Authorization` header presenting `token` as a bearer
/// credential.
pub open spec fn bearer_line(token: Seq<char>) -> Seq<char> {
    "Bearer "@ + token
}

/// Format an `Authorization` header value for a bearer token.
pub fn format_bearer(token: &str) -> (r: String)
    ensures
        r@ == bearer_line(token@),
{
    let mut out = bearer_scheme().to_owned();
    out.append(token);
    out
}

/// The bearer scheme prefix of an `Authorization` header.
fn bearer_scheme() -> (r: &'static str)
    ensures
        r@ == "Bearer "@,
{
    "Bearer "
}

/// Does the header grant the user-info request? It must split on its first
/// space into the literal `Bearer` and exactly the expected token.
pub open spec fn mock_grants(header: Option<Seq<char>>, expected: Seq<char>) -> bool {
    match header {
        None => false,
        Some(h) => {
            let i = seek(h, 0, ' ');
            &&& i < h.len()
            &&& h.subrange(0, i) == "Bearer"@
            &&& h.subrange(i + 1, h.len() as int) == expected
        },
    }
}

/// The subject the mock's user-info route answers with: the configured one
/// when the header grants the request, none otherwise.
pub open spec fn mock_userinfo_subject(
    header: Option<Seq<char>>,
    expected: Seq<char>,
    sub: Seq<char>,
) -> Option<Seq<char>> {
    if mock_grants(header, expected) {
        Some(sub)
    } else {
        None
    }
}

/// Exec string equality by view.
fn str_eq(a: &str, b: &str) -> (r: bool)
    ensures
        r == (a@ == b@),
{
    let na = a.unicode_len();
    let nb = b.unicode_len();
    if na != nb {
        return false;
    }
    let mut i: usize = 0;
    while i < na
        invariant
            i <= na,
            na == a@.len(),
            na == b@.len(),
            forall|k: int| 0 <= k < i ==> a@[k] == b@[k],
        decreases na - i,
    {
        if a.get_char(i) != b.get_char(i) {
            return false;
        }
        i = i + 1;
    }
    assert(a@ =~= b@);
    true
}

/// Exec mirror of [`mock_grants`].
fn auth_grants(authorization: Option<&str>, expected: &str) -> (b: bool)
    ensures
        b == mock_grants(opt_str_view(authorization), expected@),
{
    match authorization {
        None => false,
        Some(h) => {
            let n = h.unicode_len();
            let i = scan_to(h, 0, n, ' ');
            if i == n {
                return false;
            }
            str_eq(h.substring_char(0, i), "Bearer") && str_eq(
                h.substring_char(i + 1, n),
                expected,
            )
        },
    }
}

/// The provider metadata the mock serves: every endpoint derived from its
/// own bound address, one declared signing algorithm and one declared
/// subject-identifier type.
#[derive(Debug, Clone)]
pub struct DiscoveryDocument {
    pub issuer: String,
    pub authorization_endpoint: String,
    pub jwks_uri: String,
    pub userinfo_endpoint: Option<String>,
    pub signing_algorithm: String,
    pub subject_type: String,
}

/// The discovery document a provider bound at `addr` must serve.
pub open spec fn discovery_doc_wf(d: DiscoveryDocument, addr: Seq<char>) -> bool {
    let base = "http://"@ + addr + "/"@;
    &&& d.issuer@ == base
    &&& d.authorization_endpoint@ == base + "authorize"@
    &&& d.jwks_uri@ == base + "jwks"@
    &&& d.userinfo_endpoint matches Some(u) && u@ == base + "userinfo"@
    &&& d.signing_algorithm@ == "PS256"@
    &&& d.subject_type@ == "pairwise"@
}

/// Build the discovery document for a provider bound at `addr`.
pub fn discovery_document(addr: &str) -> (d: DiscoveryDocument)
    ensures
        discovery_doc_wf(d, addr@),
{
    let mut base = http_scheme().to_owned();
    base.append(addr);
    base.append("/");
    let issuer = base.clone();
    let mut authorization_endpoint = base.clone();
    authorization_endpoint.append("authorize");
    let mut jwks_uri = base.clone();
    jwks_uri.append("jwks");
    let mut userinfo = base.clone();
    userinfo.append("userinfo");
    proof {
        reveal_strlit("/");
        reveal_strlit("authorize");
        reveal_strlit("jwks");
        reveal_strlit("userinfo");
    }
    DiscoveryDocument {
        issuer,
        authorization_endpoint,
        jwks_uri,
        userinfo_endpoint: Some(userinfo),
        signing_algorithm: ps256_name().to_owned(),
        subject_type: pairwise_name().to_owned(),
    }
}

/// The one signing algorithm the mock declares.
fn ps256_name() -> (r: &'static str)
    ensures
        r@ == "PS256"@,
{
    "PS256"
}

/// The one subject-identifier type the mock declares.
fn pairwise_name() -> (r: &'static str)
    ensures
        r@ == "pairwise"@,
{
    "pairwise"
}

/// The plain scheme the mock provider serves over.
fn http_scheme() -> (r: &'static str)
    ensures
        r@ == "http://"@,
{
    "http://"
}

/// The three routes the mock answers, and everything else.
#[derive(Debug, Clone, Copy, PartialEq, Eq, Structural)]
pub enum MockRoute {
    Discovery,
    Jwks,
    UserInfo,
    Unknown,
}

/// Which route a request path names.
pub open spec fn route_of(path: Seq<char>) -> MockRoute {
    if path == "/.well-known/openid-configuration"@ {
        MockRoute::Discovery
    } else if path == "/jwks"@ {
        MockRoute::Jwks
    } else if path == "/userinfo"@ {
        MockRoute::UserInfo
    } else {
        MockRoute::Unknown
    }
}

/// Exec mirror of [`route_of`].
pub fn route_path(path: &str) -> (r: MockRoute)
    ensures
        r == route_of(path@),
{
    if str_eq(path, "/.well-known/openid-configuration") {
        MockRoute::Discovery
    } else if str_eq(path, "/jwks") {
        MockRoute::Jwks
    } else if str_eq(path, "/userinfo") {
        MockRoute::UserInfo
    } else {
        MockRoute::Unknown
    }
}

/// What the mock answers a request with.
#[derive(Debug, Clone)]
pub enum MockReply {
    /// The discovery document.
    Discovery(DiscoveryDocument),
    /// The fixed test-only key set.
    Jwks,
    /// A claims document with this subject.
    UserInfo { subject: String },
    /// The user-info request presented no acceptable bearer credential.
    Unauthorized,
    /// An unexpected path: a scenario-authoring bug, fatal to the harness.
    ProtocolViolation,
}

/// Decide the mock's answer to one request.
pub fn handle_request(
    path: &str,
    authorization: Option<&str>,
    addr: &str,
    expected_token: &str,
    subject: &str,
) -> (r: MockReply)
    ensures
        route_of(path@) is Discovery ==> (r matches MockReply::Discovery(d) && discovery_doc_wf(
            d,
            addr@,
        )),
        route_of(path@) is Jwks ==> r is Jwks,
        route_of(path@) is UserInfo ==> (mock_grants(opt_str_view(authorization), expected_token@)
            ==> (r matches MockReply::UserInfo { subject: s } && s@ == subject@)),
        route_of(path@) is UserInfo ==> (!mock_grants(opt_str_view(authorization), expected_token@)
            ==> r is Unauthorized),
        route_of(path@) is Unknown ==> r is ProtocolViolation,
{
    match route_path(path) {
        MockRoute::Discovery => MockReply::Discovery(discovery_document(addr)),
        MockRoute::Jwks => MockReply::Jwks,
        MockRoute::UserInfo => {
            if auth_grants(authorization, expected_token) {
                MockReply::UserInfo { subject: subject.to_owned() }
            } else {
                MockReply::Unauthorized
            }
        },
        MockRoute::Unknown => MockReply::ProtocolViolation,
    }
}

/// A well-formed bearer line grants the user-info request exactly when the
/// presented token is the expected one.
pub proof fn lemma_mock_grants_iff(presented: Seq<char>, expected: Seq<char>)
    ensures
        mock_grants(Some(bearer_line(presented)), expected) <==> presented == expected,
{
    reveal_strlit("Bearer ");
    reveal_strlit("Bearer");
    let h = bearer_line(presented);
    lemma_seek(h, 0, ' ');
    let i = seek(h, 0, ' ');
    assert(h[6] == ' ');
    assert(i == 6) by {
        if i < 6 {
            assert(h[i] == "Bearer "@[i]);
        }
    }
    assert(h.subrange(0, 6) =~= "Bearer"@);
    assert(h.subrange(7, h.len() as int) =~= presented);
}

/// Correctness of the bootstrap against the mock provider: presenting the
/// expected bearer token yields the configured subject; presenting any
/// other token, or none, yields no subject, so the user-info exchange fails
/// and the bootstrap with it.
pub proof fn lemma_flow_against_mock(presented: Seq<char>, expected: Seq<char>, sub: Seq<char>)
    ensures
        presented == expected ==> mock_userinfo_subject(
            Some(bearer_line(presented)),
            expected,
            sub,
        ) == Some(sub),
        presented != expected ==> mock_userinfo_subject(
            Some(bearer_line(presented)),
            expected,
            sub,
        ) is None,
        mock_userinfo_subject(None, expected, sub) is None,
{
    lemma_mock_grants_iff(presented, expected);
}

} // verus!
