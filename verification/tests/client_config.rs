use enarx::{build_client_config, ClientBuildError, TrustStore};

const CA: &str = "-----BEGIN CERTIFICATE-----
MIIBgjCCASegAwIBAgIUar6Cs1dsVn8pFt0LUL1EkeIAol4wCgYIKoZIzj0EAwIw
FjEUMBIGA1UEAwwLdGVzdCBjYSBvbmUwHhcNMjYxMDEyMDQ0NDExWhcNMzYxMDA5
MDQ0NDExWjAWMRQwEgYDVQQDDAt0ZXN0IGNhIG9uZTBZMBMGByqGSM49AgEGCCqG
SM49AwEHA0IABHe/1EZ42emlBKAnMko5OYrPVIsWYBsaA+yEzoO/7vwlFYN5MNSi
pQKXypS5x0fDPlOYXxfrBU+rFLxrkVWzqLWjUzBRMB0GA1UdDgQWBBQlK0uyhECL
MyhmaclJvqRXGkI6fzAfBgNVHSMEGDAWgBQlK0uyhECLMyhmaclJvqRXGkI6fzAP
BgNVHRMBAf8EBTADAQH/MAoGCCqGSM49BAMCA0kAMEYCIQCC6ZZXzoNp+ErOJ2pd
aauC+sBR7kXCgQxfK1bDbbkFSwIhAJx/4igl/D13l5HNgJzFWfWV5lzlXuOi6Pcs
FO6QRclu
-----END CERTIFICATE-----
";

#[test]
fn remote_config_assembled() {
    let cfg = build_client_config("example.com", " my-token \n", CA.as_bytes()).unwrap();
    assert_eq!(cfg.base_url, "https://example.com");
    assert_eq!(cfg.token, "my-token");
    assert!(matches!(cfg.trust, TrustStore::PlatformDefault));
}

#[test]
fn local_config_gets_augmented_trust() {
    let cfg = build_client_config("localhost:8443", "tok", CA.as_bytes()).unwrap();
    assert_eq!(cfg.base_url, "https://localhost:8443");
    assert!(matches!(cfg.trust, TrustStore::Augmented { .. }));
}

#[test]
fn invalid_host_is_rejected() {
    let err = build_client_config("bad host", "tok", CA.as_bytes()).unwrap_err();
    assert_eq!(err, ClientBuildError::InvalidUrl);
}

#[test]
fn trust_failure_is_wrapped() {
    let bad = b"-----BEGIN CERTIFICATE-----\n%%%%\n-----END CERTIFICATE-----\n";
    let err = build_client_config("localhost:8443", "tok", bad).unwrap_err();
    assert!(matches!(err, ClientBuildError::TrustStore(_)));
}
