//! Client-side addressing and authentication layer for a package registry
//! CLI: it parses address slugs into structured identifiers, decides how a
//! request is authenticated and which certificate authorities are trusted,
//! models the OIDC bootstrap that turns a bearer token into a verified
//! subject, and models the dual mock-server harness that exercises the flow.

mod client;
mod commands;
mod context;
mod credential;
mod harness;
mod mock_oidc;
mod oidc;
mod slug;
mod trust;
mod version;

pub use client::{build_client_config, url_ok, ClientBuildError, ClientConfig};
pub use commands::{
    format_package_info, format_repo_info, format_user_info, package_info_outcome,
    package_info_text, repo_info_outcome, repo_info_text, seq_views, tag_lines,
    user_info_outcome, user_info_text, visibility_label, RegistryOperationError,
};
pub use context::{
    RepoName, RepositoryContext, SlugParseError, SlugTarget, TagContext, TagName, UserContext,
    UserName,
};
pub use credential::{
    credential_from_raw, credential_source, keyring_account, keyring_service, trim_token,
    trimmed, Credential, CredentialError, CredentialSource,
};
pub use harness::{registry_issuer, Orchestrator, RunPhase, ServerPhase, ServerState};
pub use mock_oidc::{
    bearer_line, discovery_doc_wf, discovery_document, format_bearer, handle_request,
    lemma_flow_against_mock, lemma_mock_grants_iff, mock_grants, mock_userinfo_subject,
    opt_str_view, route_of, route_path, DiscoveryDocument, MockReply, MockRoute,
};
pub use oidc::{OidcBootstrap, OidcError, ProviderEndpoints, UserInfoRequest, UserRecord};
pub use slug::{lemma_slug_round_trip, parse_slug, RepoSpec, TagSpec, UserSpec};
pub use trust::{
    all_anchors_ok, anchor_parse_ok, build_trust_store, host_is_local, is_local_host,
    pem_certs_of, pem_parse_ok, root_store_certs, TrustStore, TrustStoreError,
};
pub use version::{is_semver, semver_ok};
