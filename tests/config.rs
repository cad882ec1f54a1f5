use pocket_cli::config::{
    handle, parse_key, resolve_access_token, resolve_consumer_key, Config, ConfigError, ConfigKey,
    ConfigOpts, ConfigReply,
};

fn empty() -> Config {
    Config { consumer_key: None, access_token: None }
}

#[test]
fn default_config_is_empty() {
    assert_eq!(Config::default(), empty());
}

#[test]
fn config_set_then_get_returns_value() {
    let mut cfg = empty();
    let set = ConfigOpts::Assign { key: "consumer_key".to_string(), value: Some("abc123".to_string()) };
    assert_eq!(handle(&set, &mut cfg), Ok(ConfigReply::Text("Success".to_string())));
    assert_eq!(cfg.consumer_key, Some("abc123".to_string()));
    assert_eq!(cfg.access_token, None);
    let get = ConfigOpts::Get { key: "consumer_key".to_string() };
    assert_eq!(handle(&get, &mut cfg), Ok(ConfigReply::Text("abc123".to_string())));
}

#[test]
fn config_get_unknown_key_fails() {
    let mut cfg = empty();
    let get = ConfigOpts::Get { key: "colour".to_string() };
    let e = handle(&get, &mut cfg).unwrap_err();
    assert_eq!(e, ConfigError::InvalidKey("colour".to_string()));
    assert_eq!(e.message(), "Invalid key: `colour`");
}

#[test]
fn config_set_unknown_key_changes_nothing() {
    let mut cfg = Config { consumer_key: Some("k".to_string()), access_token: None };
    let set = ConfigOpts::Assign { key: "token".to_string(), value: Some("x".to_string()) };
    assert_eq!(handle(&set, &mut cfg), Err(ConfigError::InvalidKey("token".to_string())));
    assert_eq!(cfg, Config { consumer_key: Some("k".to_string()), access_token: None });
}

#[test]
fn config_get_absent_value_is_empty_text() {
    let mut cfg = empty();
    let get = ConfigOpts::Get { key: "access_token".to_string() };
    assert_eq!(handle(&get, &mut cfg), Ok(ConfigReply::Text(String::new())));
}

#[test]
fn config_set_without_value_clears() {
    let mut cfg = Config { consumer_key: None, access_token: Some("t".to_string()) };
    let set = ConfigOpts::Assign { key: "access_token".to_string(), value: None };
    handle(&set, &mut cfg).unwrap();
    assert_eq!(cfg, empty());
}

#[test]
fn config_view_shows_everything() {
    let stored = Config { consumer_key: Some("k".to_string()), access_token: Some("t".to_string()) };
    let mut cfg = stored.clone();
    assert_eq!(handle(&ConfigOpts::View, &mut cfg), Ok(ConfigReply::Config(stored.clone())));
    assert_eq!(cfg, stored);
}

#[test]
fn keys_parse() {
    assert_eq!(parse_key("consumer_key"), Ok(ConfigKey::ConsumerKey));
    assert_eq!(parse_key("access_token"), Ok(ConfigKey::AccessToken));
    assert_eq!(parse_key("Consumer_Key"), Err(ConfigError::InvalidKey("Consumer_Key".to_string())));
}

#[test]
fn flag_wins_over_stored_credential() {
    assert_eq!(resolve_consumer_key(Some("flag".to_string()), Some("cfg".to_string())), Ok("flag".to_string()));
    assert_eq!(resolve_consumer_key(None, Some("cfg".to_string())), Ok("cfg".to_string()));
    assert_eq!(resolve_access_token(Some("a".to_string()), None), Ok("a".to_string()));
}

#[test]
fn missing_credentials_are_errors() {
    let e = resolve_consumer_key(None, None).unwrap_err();
    assert_eq!(e, ConfigError::MissingConsumerKey);
    assert_eq!(e.message(), "Consumer key missing.");
    let e = resolve_access_token(None, None).unwrap_err();
    assert_eq!(e, ConfigError::MissingAccessToken);
    assert_eq!(e.message(), "Access token missing.");
}
