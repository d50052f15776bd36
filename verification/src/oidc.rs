//! The OIDC bootstrap: the strictly ordered decisions that turn a bearer
//! token into a verified identity record. Discovery and the user-info
//! request are network calls made outside the library; the library decides,
//! from each outcome, what happens next: discovery failure stops the flow, a
//! provider without a user-info endpoint stops it, and a granted user-info
//! response mints the record from the returned subject. Every invocation
//! performs full discovery: nothing is cached.

use vstd::prelude::*;

verus! {

/// The OIDC bootstrap failed.
#[derive(Debug, Clone, Copy, PartialEq, Eq, Structural)]
pub enum OidcError {
    /// Provider discovery failed (network failure or malformed document).
    Discovery,
    /// The provider declares no user-info endpoint.
    UserInfoEndpointMissing,
    /// The user-info request failed (transport or response failure).
    UserInfoRequest,
}

/// What the bootstrap reads from discovered provider metadata.
#[derive(Debug, Clone)]
pub struct ProviderEndpoints {
    pub userinfo_endpoint: Option<String>,
}

/// The user-info request the bootstrap asks for after discovery.
#[derive(Debug, Clone)]
pub struct UserInfoRequest {
    pub endpoint: String,
    pub bearer_token: String,
}

/// A verified identity record: the subject claim of the user-info response.
/// Constructed only here or by the non-OIDC stub path, and consumed exactly
/// once by a create-user call.
#[derive(Debug, Clone)]
pub struct UserRecord {
    pub subject: String,
}

/// The inputs of one bootstrap invocation: issuer, public client id (no
/// client secret is required) and the bearer token to present.
#[derive(Debug, Clone)]
pub struct OidcBootstrap {
    pub issuer: String,
    pub client_id: String,
    pub access_token: String,
}

impl OidcBootstrap {
    /// Decide what follows discovery: a failed discovery stops the flow; a
    /// provider without a user-info endpoint stops it; otherwise the
    /// user-info request presents the access token as bearer credential
    /// against the discovered endpoint.
    pub fn on_discovery(&self, discovered: &Option<ProviderEndpoints>) -> (r: Result<
        UserInfoRequest,
        OidcError,
    >)
        ensures
            discovered is None ==> r == Err::<UserInfoRequest, OidcError>(OidcError::Discovery),
            discovered matches Some(m) ==> (m.userinfo_endpoint is None ==> r == Err::<
                UserInfoRequest,
                OidcError,
            >(OidcError::UserInfoEndpointMissing)),
            discovered matches Some(m) ==> (m.userinfo_endpoint matches Some(e) ==> (r matches Ok(
                req,
            ) && req.endpoint@ == e@ && req.bearer_token@ == self.access_token@)),
    {
        match discovered {
            None => Err(OidcError::Discovery),
            Some(m) => match &m.userinfo_endpoint {
                None => Err(OidcError::UserInfoEndpointMissing),
                Some(e) => Ok(UserInfoRequest {
                    endpoint: e.clone(),
                    bearer_token: self.access_token.clone(),
                }),
            },
        }
    }

    /// Decide what follows the user-info exchange: a granted response mints
    /// the record from its subject claim; a failed request stops the flow.
    pub fn on_userinfo(&self, subject: &Option<String>) -> (r: Result<UserRecord, OidcError>)
        ensures
            subject matches Some(s) ==> (r matches Ok(rec) && rec.subject@ == s@),
            subject is None ==> r == Err::<UserRecord, OidcError>(OidcError::UserInfoRequest),
            r is Ok <==> subject is Some,
    {
        match subject {
            None => Err(OidcError::UserInfoRequest),
            Some(s) => Ok(UserRecord { subject: s.clone() }),
        }
    }
}

} // verus!
