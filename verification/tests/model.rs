use ccm_core::profile::model::{CredentialSource, ProviderConfig};

fn provider(extra_env: Vec<(String, String)>) -> ProviderConfig {
    ProviderConfig {
        base_url: "u".to_string(),
        model: "m".to_string(),
        small_fast_model: None,
        auth_token_source: CredentialSource::Keychain { service: "s".to_string() },
        extra_env,
    }
}

fn pair(key: &str, value: &str) -> (String, String) {
    (key.to_string(), value.to_string())
}

#[test]
fn setting_is_found_by_its_key() {
    let config = provider(vec![pair("A", "1"), pair("B", "2")]);
    assert_eq!(config.env_value("A"), Some(&"1".to_string()));
    assert_eq!(config.env_value("B"), Some(&"2".to_string()));
    assert_eq!(config.env_value("C"), None);
    assert_eq!(config.env_value(""), None);
    assert_eq!(config.env_value("a"), None);
}

#[test]
fn later_setting_replaces_an_earlier_one() {
    let config = provider(vec![pair("A", "1"), pair("B", "2"), pair("A", "3")]);
    assert_eq!(config.env_value("A"), Some(&"3".to_string()));
    assert_eq!(config.env_value("B"), Some(&"2".to_string()));
}

#[test]
fn no_setting_is_found_among_none() {
    assert_eq!(provider(Vec::new()).env_value("A"), None);
}
