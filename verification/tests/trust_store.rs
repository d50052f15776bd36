use enarx::{build_trust_store, host_is_local, TrustStore, TrustStoreError};

/// A self-signed test CA certificate.
const CA_ONE: &str = "-----BEGIN CERTIFICATE-----
MIIBgjCCASegAwIBAgIUar6Cs1dsVn8pFt0LUL1EkeIAol4wCgYIKoZIzj0EAwIw
FjEUMBIGA1UEAwwLdGVzdCBjYSBvbmUwHhcNMjYxMDEyMDQ0NDExWhcNMzYxMDA5
MDQ0NDExWjAWMRQwEgYDVQQDDAt0ZXN0IGNhIG9uZTBZMBMGByqGSM49AgEGCCqG
SM49AwEHA0IABHe/1EZ42emlBKAnMko5OYrPVIsWYBsaA+yEzoO/7vwlFYN5MNSi
pQKXypS5x0fDPlOYXxfrBU+rFLxrkVWzqLWjUzBRMB0GA1UdDgQWBBQlK0uyhECL
MyhmaclJvqRXGkI6fzAfBgNVHSMEGDAWgBQlK0uyhECLMyhmaclJvqRXGkI6fzAP
BgNVHRMBAf8EBTADAQH/MAoGCCqGSM49BAMCA0kAMEYCIQCC6ZZXzoNp+ErOJ2pd
aauC+sBR7kXCgQxfK1bDbbkFSwIhAJx/4igl/D13l5HNgJzFWfWV5lzlXuOi6Pcs
FO6QRclu
-----END CERTIFICATE-----
";

/// A second self-signed test CA certificate.
const CA_TWO: &str = "-----BEGIN CERTIFICATE-----
MIIBgjCCASegAwIBAgIURJM5fGfTby+AM2B5Ex23qmgoEDcwCgYIKoZIzj0EAwIw
FjEUMBIGA1UEAwwLdGVzdCBjYSB0d28wHhcNMjYxMDEyMDQ0NDExWhcNMzYxMDA5
MDQ0NDExWjAWMRQwEgYDVQQDDAt0ZXN0IGNhIHR3bzBZMBMGByqGSM49AgEGCCqG
SM49AwEHA0IABJ6lhPfLS1qkqtfQeNYafHXMy0s0HuFQKi7mW5RS6zggHQ076AdS
XEEevzy5AEsoa5aQH+AIcc1a3Aqu1ZVp2QijUzBRMB0GA1UdDgQWBBS6hr4150v5
OeupnnZJwQEtH8cgljAfBgNVHSMEGDAWgBS6hr4150v5OeupnnZJwQEtH8cgljAP
BgNVHRMBAf8EBTADAQH/MAoGCCqGSM49BAMCA0kAMEYCIQDffkS4kDlOKi/gdarv
G+R6q64eEqd2T3eUltgGS7pIKwIhAKR2goW+iNEzejYSM1Ia39hL+hfK5jF4wXB/
U3tMigrU
-----END CERTIFICATE-----
";

#[test]
fn local_development_pattern() {
    assert!(host_is_local("localhost:1234"));
    assert!(host_is_local("localhost:1"));
    assert!(!host_is_local("localhost"));
    assert!(!host_is_local("example.com"));
    assert!(!host_is_local("notlocalhost:1234"));
    assert!(!host_is_local(""));
    assert!(!host_is_local("LOCALHOST:1"));
}

#[test]
fn remote_host_gets_platform_defaults_only() {
    let store = build_trust_store("example.com", CA_ONE.as_bytes()).unwrap();
    assert!(matches!(store, TrustStore::PlatformDefault));
    assert_eq!(store.extra_root_count(), 0);
}

#[test]
fn local_host_gets_bundle_added() {
    let store = build_trust_store("localhost:8443", CA_ONE.as_bytes()).unwrap();
    assert!(matches!(store, TrustStore::Augmented { .. }));
    assert_eq!(store.extra_root_count(), 1);
}

#[test]
fn every_bundle_certificate_is_added() {
    let bundle = format!("{}{}", CA_ONE, CA_TWO);
    let store = build_trust_store("localhost:8443", bundle.as_bytes()).unwrap();
    assert!(matches!(store, TrustStore::Augmented { .. }));
    assert_eq!(store.extra_root_count(), 2);
}

#[test]
fn bundle_without_certificates_adds_nothing() {
    let store = build_trust_store("localhost:8443", b"no pem blocks here").unwrap();
    assert!(matches!(store, TrustStore::Augmented { .. }));
    assert_eq!(store.extra_root_count(), 0);
}

#[test]
fn malformed_bundle_is_an_error_for_local_hosts_only() {
    let bad = b"-----BEGIN CERTIFICATE-----\n%%%%\n-----END CERTIFICATE-----\n";
    let err = build_trust_store("localhost:8443", bad).unwrap_err();
    assert_eq!(err, TrustStoreError::MalformedBundle);
    // A remote host never touches the bundle.
    let store = build_trust_store("example.com", bad).unwrap();
    assert!(matches!(store, TrustStore::PlatformDefault));
}

#[test]
fn non_certificate_block_is_rejected() {
    let bad = b"-----BEGIN CERTIFICATE-----\nbm90IGEgY2VydGlmaWNhdGU=\n-----END CERTIFICATE-----\n";
    let err = build_trust_store("localhost:8443", bad).unwrap_err();
    assert_eq!(err, TrustStoreError::RejectedCertificate);
}
