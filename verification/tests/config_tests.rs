use nimbuscode::config::{
    apply_config_update, get_api_key, get_config_dir, get_config_file, mask_api_key,
    resolve_config, resolve_credential, set_api_key, Config, ConfigSources, DEFAULT_MAX_TOKENS,
    DEFAULT_TEMPERATURE_MILLI,
};
use nimbuscode::decode::{load_config, parse_config_json};
use nimbuscode::encode::config_to_json;
use nimbuscode::errors::ClientError;

#[test]
fn test_config_default() {
    let config = Config::default();
    assert_eq!(config.api_key, "");
    assert_eq!(config.model, "openrouter/auto");
    assert_eq!(config.max_tokens, 1024);
    assert_eq!(config.temperature_milli, 700);
}

fn s(v: &str) -> Option<String> {
    Some(v.to_string())
}

#[test]
fn test_credential_precedence_all_combinations() {
    // all eight combinations of {override, stored, env} x {present, absent}:
    // the highest-precedence present source wins
    let cases: Vec<(Option<String>, Option<String>, Option<String>, Option<&str>)> = vec![
        (s("o"), s("s"), s("e"), Some("o")),
        (s("o"), s("s"), None, Some("o")),
        (s("o"), None, s("e"), Some("o")),
        (s("o"), None, None, Some("o")),
        (None, s("s"), s("e"), Some("s")),
        (None, s("s"), None, Some("s")),
        (None, None, s("e"), Some("e")),
        (None, None, None, None),
    ];
    for (explicit, stored, env, expected) in cases {
        let got = resolve_credential(explicit, stored, env);
        match expected {
            Some(want) => assert_eq!(got.unwrap(), want),
            None => assert!(matches!(got.unwrap_err(), ClientError::CredentialMissing)),
        }
    }
}

#[test]
fn test_empty_source_counts_as_absent() {
    let got = resolve_credential(s(""), s(""), s("from-env"));
    assert_eq!(got.unwrap(), "from-env");
    let got = resolve_credential(s(""), s(""), s(""));
    assert!(matches!(got.unwrap_err(), ClientError::CredentialMissing));
}

#[test]
fn test_resolve_config_precedence_per_field() {
    let sources = ConfigSources {
        explicit_api_key: None,
        explicit_model: s("explicit-model"),
        explicit_max_tokens: None,
        explicit_temperature_milli: Some(250),
        stored_api_key: s("stored-key"),
        stored_model: s("stored-model"),
        stored_max_tokens: Some(2048),
        stored_temperature_milli: Some(900),
        env_api_key: s("env-key"),
    };
    let config = resolve_config(sources).unwrap();
    assert_eq!(config.api_key, "stored-key");
    assert_eq!(config.model, "explicit-model");
    assert_eq!(config.max_tokens, 2048);
    assert_eq!(config.temperature_milli, 250);
}

#[test]
fn test_resolve_config_defaults() {
    let sources = ConfigSources {
        explicit_api_key: s("k"),
        explicit_model: None,
        explicit_max_tokens: None,
        explicit_temperature_milli: None,
        stored_api_key: None,
        stored_model: None,
        stored_max_tokens: None,
        stored_temperature_milli: None,
        env_api_key: None,
    };
    let config = resolve_config(sources).unwrap();
    assert_eq!(config.api_key, "k");
    assert_eq!(config.model, "openrouter/auto");
    assert_eq!(config.max_tokens, DEFAULT_MAX_TOKENS);
    assert_eq!(config.temperature_milli, DEFAULT_TEMPERATURE_MILLI);
}

#[test]
fn test_get_api_key_stored_beats_env() {
    let mut config = Config::default();
    config.api_key = "stored".to_string();
    assert_eq!(get_api_key(&config, s("env")).unwrap(), "stored");
}

#[test]
fn test_get_api_key_env_fallback() {
    let config = Config::default();
    assert_eq!(get_api_key(&config, s("env")).unwrap(), "env");
}

#[test]
fn test_get_api_key_missing() {
    // no stored credential, no override, no environment variable: the failure
    // is CredentialMissing, found before anything could touch the network
    let config = Config::default();
    let err = get_api_key(&config, None).unwrap_err();
    assert!(matches!(err, ClientError::CredentialMissing));
}

#[test]
fn test_apply_config_update() {
    let mut config = Config::default();
    apply_config_update(&mut config, Some("k".to_string()), None, Some(99), None);
    assert_eq!(config.api_key, "k");
    assert_eq!(config.model, "openrouter/auto");
    assert_eq!(config.max_tokens, 99);
    assert_eq!(config.temperature_milli, 700);
}

#[test]
fn test_set_api_key_applies_on_successful_store() {
    let mut config = Config::default();
    let r = set_api_key(&mut config, "new-key".to_string(), Ok(()));
    assert!(r.is_ok());
    assert_eq!(config.api_key, "new-key");
    assert_eq!(config.model, "openrouter/auto");
}

#[test]
fn test_set_api_key_unchanged_on_failed_store() {
    let mut config = Config::default();
    let r = set_api_key(&mut config, "new-key".to_string(), Err("disk full".to_string()));
    match r.unwrap_err() {
        ClientError::ConfigError(m) => assert_eq!(m, "disk full"),
        other => panic!("unexpected error: {:?}", other),
    }
    assert_eq!(config.api_key, "");
}

#[test]
fn test_mask_api_key() {
    assert_eq!(mask_api_key(""), "");
    assert_eq!(mask_api_key("abcd"), "********");
    assert_eq!(mask_api_key("sk-or-v1-abcd"), "********abcd");
}

#[test]
fn test_config_paths() {
    assert_eq!(get_config_dir("/home/me"), "/home/me/.nimbuscode");
    assert_eq!(get_config_file("/home/me"), "/home/me/.nimbuscode/config.json");
}

#[test]
fn test_config_json_round_trip() {
    let mut config = Config::default();
    config.api_key = "se\"cret".to_string();
    config.model = "mistralai/mistral-7b-instruct:free".to_string();
    let json = config_to_json(&config);
    assert_eq!(
        json,
        "{\"api_key\":\"se\\\"cret\",\"model\":\"mistralai/mistral-7b-instruct:free\",\"max_tokens\":1024,\"temperature_milli\":700}"
    );
    let back = parse_config_json(&json).unwrap();
    assert_eq!(back.api_key, "se\"cret");
    assert_eq!(back.model, "mistralai/mistral-7b-instruct:free");
    assert_eq!(back.max_tokens, 1024);
    assert_eq!(back.temperature_milli, 700);
}

#[test]
fn test_load_config_without_store_is_default() {
    let config = load_config(None).unwrap();
    assert_eq!(config.api_key, "");
    assert_eq!(config.model, "openrouter/auto");
    assert_eq!(config.max_tokens, 1024);
    assert_eq!(config.temperature_milli, 700);
}

#[test]
fn test_load_config_corrupt_store_is_config_error() {
    let err = load_config(Some("{not json")).unwrap_err();
    assert!(matches!(err, ClientError::ConfigError(_)));
    let err = load_config(Some("{\"api_key\":3}")).unwrap_err();
    assert!(matches!(err, ClientError::ConfigError(_)));
}
