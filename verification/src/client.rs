//! Client configuration: how a host, a credential and a trust policy are
//! combined into the configuration of a registry client. The configuration
//! is immutable once built; the network client itself is assembled outside
//! the library from exactly these values.

use vstd::prelude::*;

use crate::credential::{trimmed, trim_token, CredentialError};
use crate::trust::{
    all_anchors_ok, build_trust_store, is_local_host, pem_certs_of, pem_parse_ok,
    root_store_certs, TrustStore, TrustStoreError,
};

verus! {

/// Whether the text parses as an absolute URL.
pub uninterp spec fn url_ok(s: Seq<char>) -> bool;

/// Relies on url::Url::parse: whether the text is a valid absolute URL, a
/// function of the text alone.
#[verifier::external_body]
fn url_parses(s: &str) -> (b: bool)
    ensures
        b == url_ok(s@),
{
    url::Url::parse(s).is_ok()
}

/// Building a client failed; wraps the first failing step's cause.
#[derive(Debug, Clone, Copy, PartialEq, Eq, Structural)]
pub enum ClientBuildError {
    /// The credential could not be resolved.
    Credential(CredentialError),
    /// `https://{host}` is not a valid URL.
    InvalidUrl,
    /// The trust store could not be built.
    TrustStore(TrustStoreError),
}

/// The full configuration of a registry client: base URL, bearer token and
/// trust store. Immutable after construction; safe to reuse for several
/// resource handles within one invocation.
#[derive(Debug)]
pub struct ClientConfig {
    pub base_url: String,
    pub token: String,
    pub trust: TrustStore,
}

/// Combine a host, the raw credential text and the test CA bundle into a
/// client configuration: base URL `https://{host}`, token trimmed of
/// surrounding whitespace, and the trust store of [`build_trust_store`].
/// Building succeeds exactly when the base URL is valid and -- for a
/// local-development host -- the bundle reads as PEM with every certificate
/// accepted as a trust anchor; each failure wraps the first failing step's
/// cause.
pub fn build_client_config(host: &str, token_raw: &str, ca_pem: &[u8]) -> (r: Result<
    ClientConfig,
    ClientBuildError,
>)
    ensures
        r matches Ok(c) ==> {
            &&& c.base_url@ == "https://"@ + host@
            &&& url_ok(c.base_url@)
            &&& c.token@ == trimmed(token_raw@)
            &&& (!is_local_host(host@) ==> c.trust is PlatformDefault)
            &&& (is_local_host(host@) ==> (c.trust matches TrustStore::Augmented { roots }
                && root_store_certs(roots) == pem_certs_of(ca_pem@)))
        },
        (r matches Err(ClientBuildError::InvalidUrl)) <==> !url_ok("https://"@ + host@),
        (r matches Err(ClientBuildError::TrustStore(TrustStoreError::MalformedBundle))) <==> (
        url_ok("https://"@ + host@) && is_local_host(host@) && !pem_parse_ok(ca_pem@)),
        (r matches Err(ClientBuildError::TrustStore(TrustStoreError::RejectedCertificate))) <==> (
        url_ok("https://"@ + host@) && is_local_host(host@) && pem_parse_ok(ca_pem@)
            && !all_anchors_ok(pem_certs_of(ca_pem@))),
        url_ok("https://"@ + host@) && !is_local_host(host@) ==> r is Ok,
        url_ok("https://"@ + host@) && is_local_host(host@) && pem_parse_ok(ca_pem@)
            && all_anchors_ok(pem_certs_of(ca_pem@)) ==> r is Ok,
{
    let mut base_url = https_prefix().to_owned();
    base_url.append(host);
    if !url_parses(base_url.as_str()) {
        return Err(ClientBuildError::InvalidUrl);
    }
    let trust = match build_trust_store(host, ca_pem) {
        Err(e) => {
            return Err(ClientBuildError::TrustStore(e));
        },
        Ok(t) => t,
    };
    let token = trim_token(token_raw);
    Ok(ClientConfig { base_url, token, trust })
}

/// The scheme every registry base URL uses.
fn https_prefix() -> (r: &'static str)
    ensures
        r@ == "https://"@,
{
    "https://"
}

} // verus!
