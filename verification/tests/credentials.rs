use enarx::{
    credential_from_raw, credential_source, keyring_account, keyring_service, trim_token,
    CredentialSource,
};

#[test]
fn file_takes_precedence_over_store() {
    let source = credential_source(&Some(String::from("tests/client/token")));
    assert_eq!(
        source,
        CredentialSource::File {
            path: String::from("tests/client/token")
        }
    );
}

#[test]
fn store_used_only_without_file() {
    let source = credential_source(&None);
    assert_eq!(
        source,
        CredentialSource::SecureStore {
            service: String::from("enarx"),
            account: String::from("drawbridge"),
        }
    );
}

#[test]
fn fixed_store_entry_names() {
    assert_eq!(keyring_service(), "enarx");
    assert_eq!(keyring_account(), "drawbridge");
}

#[test]
fn token_trimming() {
    assert_eq!(trim_token("test-token\n"), "test-token");
    assert_eq!(trim_token("  tok  "), "tok");
    assert_eq!(trim_token("tok"), "tok");
    assert_eq!(trim_token(" \t\r\n "), "");
    assert_eq!(trim_token(""), "");
    assert_eq!(trim_token("a b"), "a b");
    assert_eq!(trim_token("\u{00A0}tok\u{3000}"), "tok");
}

#[test]
fn credential_holds_trimmed_token_and_source() {
    let source = credential_source(&Some(String::from("f")));
    let cred = credential_from_raw(" secret \n", source.clone());
    assert_eq!(cred.token, "secret");
    assert_eq!(cred.source, source);
}
