use ccm_core::profile::codec::{
    decode_profile, encode_profile, profile_from_parsed, profile_from_table, profile_to_table,
    FAULT_BASE_URL, FAULT_EXTRA_ENV, FAULT_MODEL, FAULT_NAME, FAULT_PROVIDER,
    FAULT_SMALL_FAST_MODEL, FAULT_SOURCE,
};
use ccm_core::profile::model::{CredentialSource, Profile, ProviderConfig};

fn work() -> Profile {
    Profile {
        name: "work".to_string(),
        provider: ProviderConfig {
            base_url: "https://api.example.com".to_string(),
            model: "large".to_string(),
            small_fast_model: Some("small".to_string()),
            auth_token_source: CredentialSource::Keychain { service: "ccm-example".to_string() },
            extra_env: vec![
                ("REGION".to_string(), "eu".to_string()),
                ("DEBUG".to_string(), "1".to_string()),
            ],
        },
    }
}

const WORK_TEXT: &str = "name = \"work\"

[provider]
base_url = \"https://api.example.com\"
model = \"large\"
small_fast_model = \"small\"

[provider.auth_token_source.keychain]
service = \"ccm-example\"

[provider.extra_env]
DEBUG = \"1\"
REGION = \"eu\"
";

#[test]
fn record_is_written_as_this_text() {
    assert_eq!(encode_profile(&work()).unwrap(), WORK_TEXT);
}

#[test]
fn bare_record_is_written_as_this_text() {
    let bare = Profile {
        name: "bare".to_string(),
        provider: ProviderConfig {
            base_url: "u".to_string(),
            model: "m".to_string(),
            small_fast_model: None,
            auth_token_source: CredentialSource::Environment { var_name: "TOKEN".to_string() },
            extra_env: Vec::new(),
        },
    };
    assert_eq!(
        encode_profile(&bare).unwrap(),
        "name = \"bare\"

[provider]
base_url = \"u\"
model = \"m\"

[provider.auth_token_source.environment]
var_name = \"TOKEN\"

[provider.extra_env]
"
    );
}

#[test]
fn text_is_read_as_this_record() {
    let read = decode_profile(WORK_TEXT).unwrap();
    assert_eq!(read.name, "work");
    assert_eq!(read.provider.base_url, "https://api.example.com");
    assert_eq!(read.provider.model, "large");
    assert_eq!(read.provider.small_fast_model, Some("small".to_string()));
    assert!(matches!(
        read.provider.auth_token_source,
        CredentialSource::Keychain { ref service } if service == "ccm-example"
    ));
    let mut env = read.provider.extra_env.clone();
    env.sort();
    assert_eq!(
        env,
        vec![("DEBUG".to_string(), "1".to_string()), ("REGION".to_string(), "eu".to_string())]
    );
}

#[test]
fn inline_tables_and_unknown_keys_are_read() {
    let text = "
name = 'p'
comment = 'not part of the format'
created = 2024-01-01
provider = { base_url = 'u', model = 'm', retries = 3, auth_token_source = { encrypted = { path = '/k.enc', cipher = 'x' } } }
";
    let read = decode_profile(text).unwrap();
    assert_eq!(read.name, "p");
    assert_eq!(read.provider.small_fast_model, None);
    assert!(read.provider.extra_env.is_empty());
    assert!(matches!(
        read.provider.auth_token_source,
        CredentialSource::Encrypted { ref path } if path == "/k.enc"
    ));
}

#[test]
fn text_that_is_no_toml_gives_the_message_of_the_parser() {
    let fault = decode_profile("name = ").unwrap_err();
    assert!(!fault.is_empty());
    assert!(![
        FAULT_NAME,
        FAULT_PROVIDER,
        FAULT_BASE_URL,
        FAULT_MODEL,
        FAULT_SMALL_FAST_MODEL,
        FAULT_SOURCE,
        FAULT_EXTRA_ENV
    ]
    .contains(&fault.as_str()));
    let same = profile_from_parsed(Err("bad text".to_string())).unwrap_err();
    assert_eq!(same, "bad text");
}

fn fault_of(text: &str) -> String {
    decode_profile(text).unwrap_err()
}

const SOURCE: &str = "auth_token_source = { keychain = { service = 's' } }";

#[test]
fn each_key_that_does_not_fit_has_its_diagnostic() {
    assert_eq!(fault_of(""), FAULT_NAME);
    assert_eq!(fault_of("name = 1"), FAULT_NAME);
    assert_eq!(fault_of("name = 'p'"), FAULT_PROVIDER);
    assert_eq!(fault_of("name = 'p'\nprovider = 'x'"), FAULT_PROVIDER);
    assert_eq!(fault_of("name = 'p'\n[provider]\nmodel = 'm'"), FAULT_BASE_URL);
    assert_eq!(fault_of("name = 'p'\n[provider]\nbase_url = 'u'"), FAULT_MODEL);
    assert_eq!(fault_of("name = 'p'\n[provider]\nbase_url = 'u'\nmodel = true"), FAULT_MODEL);
    assert_eq!(
        fault_of(&format!(
            "name = 'p'\n[provider]\nbase_url = 'u'\nmodel = 'm'\nsmall_fast_model = 3\n{}",
            SOURCE
        )),
        FAULT_SMALL_FAST_MODEL
    );
    assert_eq!(
        fault_of("name = 'p'\n[provider]\nbase_url = 'u'\nmodel = 'm'"),
        FAULT_SOURCE
    );
    assert_eq!(
        fault_of(&format!(
            "name = 'p'\n[provider]\nbase_url = 'u'\nmodel = 'm'\nextra_env = ['a']\n{}",
            SOURCE
        )),
        FAULT_EXTRA_ENV
    );
    assert_eq!(
        fault_of(&format!(
            "name = 'p'\n[provider]\nbase_url = 'u'\nmodel = 'm'\nextra_env = {{ A = 'x', B = 2 }}\n{}",
            SOURCE
        )),
        FAULT_EXTRA_ENV
    );
}

fn source_fault(source: &str) -> Result<Profile, String> {
    decode_profile(&format!(
        "name = 'p'\n[provider]\nbase_url = 'u'\nmodel = 'm'\nauth_token_source = {}",
        source
    ))
}

#[test]
fn credential_source_needs_exactly_one_known_variant() {
    assert_eq!(source_fault("'keychain'").unwrap_err(), FAULT_SOURCE);
    assert_eq!(source_fault("{}").unwrap_err(), FAULT_SOURCE);
    assert_eq!(source_fault("{ vault = { id = 'x' } }").unwrap_err(), FAULT_SOURCE);
    assert_eq!(source_fault("{ keychain = 'svc' }").unwrap_err(), FAULT_SOURCE);
    assert_eq!(source_fault("{ keychain = { } }").unwrap_err(), FAULT_SOURCE);
    assert_eq!(source_fault("{ keychain = { service = 1 } }").unwrap_err(), FAULT_SOURCE);
    assert_eq!(source_fault("{ keychain = { var_name = 'V' } }").unwrap_err(), FAULT_SOURCE);
    assert_eq!(
        source_fault("{ keychain = { service = 's' }, environment = { var_name = 'V' } }")
            .unwrap_err(),
        FAULT_SOURCE
    );
    assert!(matches!(
        source_fault("{ environment = { var_name = 'V' } }").unwrap().provider.auth_token_source,
        CredentialSource::Environment { ref var_name } if var_name == "V"
    ));
}

#[test]
fn record_becomes_this_table() {
    let table = profile_to_table(&work());
    assert_eq!(table.len(), 2);
    assert_eq!(table["name"].as_str(), Some("work"));
    let provider = table["provider"].as_table().unwrap();
    assert_eq!(provider.len(), 5);
    assert_eq!(provider["base_url"].as_str(), Some("https://api.example.com"));
    assert_eq!(provider["model"].as_str(), Some("large"));
    assert_eq!(provider["small_fast_model"].as_str(), Some("small"));
    let source = provider["auth_token_source"].as_table().unwrap();
    assert_eq!(source.len(), 1);
    let keychain = source["keychain"].as_table().unwrap();
    assert_eq!(keychain.len(), 1);
    assert_eq!(keychain["service"].as_str(), Some("ccm-example"));
    let env = provider["extra_env"].as_table().unwrap();
    assert_eq!(env.len(), 2);
    assert_eq!(env["REGION"].as_str(), Some("eu"));
    assert_eq!(env["DEBUG"].as_str(), Some("1"));
}

#[test]
fn table_becomes_this_record() {
    let mut path = toml::Table::new();
    path.insert("path".to_string(), toml::Value::String("/k.enc".to_string()));
    let mut source = toml::Table::new();
    source.insert("encrypted".to_string(), toml::Value::Table(path));
    let mut env = toml::Table::new();
    env.insert("A".to_string(), toml::Value::String("1".to_string()));
    let mut provider = toml::Table::new();
    provider.insert("base_url".to_string(), toml::Value::String("u".to_string()));
    provider.insert("model".to_string(), toml::Value::String("m".to_string()));
    provider.insert("auth_token_source".to_string(), toml::Value::Table(source));
    provider.insert("extra_env".to_string(), toml::Value::Table(env));
    let mut table = toml::Table::new();
    table.insert("name".to_string(), toml::Value::String("p".to_string()));
    table.insert("provider".to_string(), toml::Value::Table(provider.clone()));
    let read = profile_from_table(&table).unwrap();
    assert_eq!(read.name, "p");
    assert_eq!(read.provider.base_url, "u");
    assert_eq!(read.provider.model, "m");
    assert_eq!(read.provider.small_fast_model, None);
    assert_eq!(read.provider.extra_env, vec![("A".to_string(), "1".to_string())]);
    assert!(matches!(
        read.provider.auth_token_source,
        CredentialSource::Encrypted { ref path } if path == "/k.enc"
    ));
    provider.insert("model".to_string(), toml::Value::Integer(7));
    table.insert("provider".to_string(), toml::Value::Table(provider));
    assert_eq!(profile_from_table(&table).unwrap_err(), FAULT_MODEL);
    assert_eq!(profile_from_parsed(Ok(table)).unwrap_err(), FAULT_MODEL);
}
