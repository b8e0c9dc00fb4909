use ccm_core::credential::BackendReply;
use ccm_core::error::CcmError;
use ccm_core::profile::model::CredentialSource;

fn keychain() -> CredentialSource {
    CredentialSource::Keychain { service: "ccm-example".to_string() }
}

fn environment() -> CredentialSource {
    CredentialSource::Environment { var_name: "X".to_string() }
}

fn encrypted() -> CredentialSource {
    CredentialSource::Encrypted { path: "/secrets/token.enc".to_string() }
}

fn read_variable(variables: &std::collections::BTreeMap<String, String>, name: &str) -> BackendReply {
    match variables.get(name) {
        Some(value) => BackendReply::Secret(value.clone()),
        None => BackendReply::Absent,
    }
}

#[test]
fn environment_is_read_anew_each_time() {
    let source = environment();
    let mut variables = std::collections::BTreeMap::new();
    let unset = source.resolve("work", read_variable(&variables, source.key()));
    assert!(matches!(unset, Err(CcmError::EnvVarNotSet { ref var }) if var == "X"));
    variables.insert("X".to_string(), "secret".to_string());
    let set = source.resolve("work", read_variable(&variables, source.key()));
    assert_eq!(set.unwrap(), "secret");
    variables.remove("X");
    let again = source.resolve("work", read_variable(&variables, source.key()));
    assert!(matches!(again, Err(CcmError::EnvVarNotSet { ref var }) if var == "X"));
}

#[test]
fn key_is_what_the_backend_is_asked_for() {
    assert_eq!(keychain().key(), "ccm-example");
    assert_eq!(environment().key(), "X");
    assert_eq!(encrypted().key(), "/secrets/token.enc");
}

#[test]
fn secret_is_handed_out_unchanged() {
    for source in [keychain(), environment(), encrypted()] {
        let resolved = source.resolve("work", BackendReply::Secret(" tok en\n".to_string()));
        assert_eq!(resolved.unwrap(), " tok en\n");
    }
}

#[test]
fn absent_secret_has_the_error_of_its_backend() {
    assert!(matches!(
        keychain().resolve("work", BackendReply::Absent),
        Err(CcmError::CredentialNotFound { ref profile }) if profile == "work"
    ));
    assert!(matches!(
        environment().resolve("work", BackendReply::Absent),
        Err(CcmError::EnvVarNotSet { ref var }) if var == "X"
    ));
    assert!(matches!(
        encrypted().resolve("work", BackendReply::Absent),
        Err(CcmError::FileNotFound { ref path }) if path == "/secrets/token.enc"
    ));
}

#[test]
fn failed_backend_has_the_error_of_its_backend() {
    assert!(matches!(
        keychain().resolve("work", BackendReply::Failed("no secret service".to_string())),
        Err(CcmError::KeychainUnavailable(ref message)) if message == "no secret service"
    ));
    assert!(matches!(
        environment().resolve("work", BackendReply::Failed("not unicode".to_string())),
        Err(CcmError::EnvVarNotSet { ref var }) if var == "X"
    ));
    assert!(matches!(
        encrypted().resolve("work", BackendReply::Failed("bad tag".to_string())),
        Err(CcmError::DecryptionFailed(ref message)) if message == "bad tag"
    ));
}

#[test]
fn unreadable_backend_has_the_error_of_its_backend() {
    match encrypted().resolve("work", BackendReply::Unreadable("permission denied".to_string())) {
        Err(CcmError::Io { path, message }) => {
            assert_eq!(path, "/secrets/token.enc");
            assert_eq!(message, "permission denied");
        }
        other => panic!("unexpected outcome: {:?}", other),
    }
    assert!(matches!(
        keychain().resolve("work", BackendReply::Unreadable("locked".to_string())),
        Err(CcmError::KeychainUnavailable(ref message)) if message == "locked"
    ));
    assert!(matches!(
        environment().resolve("work", BackendReply::Unreadable("not unicode".to_string())),
        Err(CcmError::EnvVarNotSet { ref var }) if var == "X"
    ));
}
