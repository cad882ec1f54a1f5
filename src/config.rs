//! The stored configuration (consumer key and access token), the `config`
//! subcommand, and how credentials are resolved from flags and the store.
use vstd::prelude::*;
use crate::text::{str_eq, owned, copy_opt, opt_view};

verus! {

/// The `config` subcommand.
#[derive(Debug, Clone, PartialEq, Eq)]
pub enum ConfigOpts {
    /// Prints the stored value of a key.
    Get { key: String },
    /// Stores a value under a key, or clears it when no value is given.
    Assign { key: String, value: Option<String> },
    /// Prints the whole stored configuration.
    View,
}

/// The stored configuration; both fields are absent by default.
#[derive(Debug, Clone, PartialEq, Eq)]
pub struct Config {
    pub consumer_key: Option<String>,
    pub access_token: Option<String>,
}

/// What a configuration holds, as characters.
pub ghost struct ConfigView {
    pub consumer_key: Option<Seq<char>>,
    pub access_token: Option<Seq<char>>,
}

impl View for Config {
    type V = ConfigView;

    open spec fn view(&self) -> ConfigView {
        ConfigView {
            consumer_key: opt_view(self.consumer_key),
            access_token: opt_view(self.access_token),
        }
    }
}

impl Default for Config {
    fn default() -> (r: Config)
        ensures
            r.consumer_key is None,
            r.access_token is None,
    {
        Config { consumer_key: None, access_token: None }
    }
}

/// The keys of the stored configuration.
#[derive(Clone, Copy, Debug, PartialEq, Eq, Structural)]
pub enum ConfigKey {
    ConsumerKey,
    AccessToken,
}

/// The name of the consumer key in the configuration.
pub const CFG_KEY_CONSUMER_KEY: &'static str = "consumer_key";

/// The name of the access token in the configuration.
pub const CFG_KEY_ACCESS_TOKEN: &'static str = "access_token";

/// The key a name denotes, if any.
pub open spec fn key_of_name(name: Seq<char>) -> Option<ConfigKey> {
    if name == CFG_KEY_CONSUMER_KEY@ {
        Some(ConfigKey::ConsumerKey)
    } else if name == CFG_KEY_ACCESS_TOKEN@ {
        Some(ConfigKey::AccessToken)
    } else {
        None
    }
}

/// The value stored under a key.
pub open spec fn lookup(c: ConfigView, k: ConfigKey) -> Option<Seq<char>> {
    match k {
        ConfigKey::ConsumerKey => c.consumer_key,
        ConfigKey::AccessToken => c.access_token,
    }
}

/// The configuration with the value under one key replaced.
pub open spec fn update(c: ConfigView, k: ConfigKey, v: Option<Seq<char>>) -> ConfigView {
    match k {
        ConfigKey::ConsumerKey => ConfigView { consumer_key: v, ..c },
        ConfigKey::AccessToken => ConfigView { access_token: v, ..c },
    }
}

/// A failure of the `config` subcommand or of credential resolution.
#[derive(Debug, Clone, PartialEq, Eq)]
pub enum ConfigError {
    /// The named key is not one of the configuration's keys.
    InvalidKey(String),
    /// No consumer key was given by flag, environment or store.
    MissingConsumerKey,
    /// No access token was given by flag, environment or store.
    MissingAccessToken,
}

impl ConfigError {
    /// The message shown to the user.
    pub fn message(&self) -> (r: String)
        ensures
            self is InvalidKey ==> r@ == "Invalid key: `"@ + self->InvalidKey_0@ + "`"@,
            self is MissingConsumerKey ==> r@ == "Consumer key missing."@,
            self is MissingAccessToken ==> r@ == "Access token missing."@,
    {
        match self {
            ConfigError::InvalidKey(k) => {
                let mut m = String::from_str("Invalid key: `");
                m.append(k.as_str());
                m.append("`");
                m
            },
            ConfigError::MissingConsumerKey => String::from_str("Consumer key missing."),
            ConfigError::MissingAccessToken => String::from_str("Access token missing."),
        }
    }
}

/// Reads a key name.
pub fn parse_key(name: &str) -> (r: Result<ConfigKey, ConfigError>)
    ensures
        key_of_name(name@) is Some ==> r == Ok::<ConfigKey, ConfigError>(
            key_of_name(name@).unwrap(),
        ),
        key_of_name(name@) is None ==> r is Err && r->Err_0 is InvalidKey && r->Err_0->InvalidKey_0@
            == name@,
{
    if str_eq(name, CFG_KEY_CONSUMER_KEY) {
        Ok(ConfigKey::ConsumerKey)
    } else if str_eq(name, CFG_KEY_ACCESS_TOKEN) {
        Ok(ConfigKey::AccessToken)
    } else {
        Err(ConfigError::InvalidKey(owned(name)))
    }
}

impl Config {
    /// The value stored under `key`.
    pub fn get(&self, key: ConfigKey) -> (r: Option<String>)
        ensures
            opt_view(r) == lookup(self@, key),
    {
        match key {
            ConfigKey::ConsumerKey => copy_opt(&self.consumer_key),
            ConfigKey::AccessToken => copy_opt(&self.access_token),
        }
    }

    /// Stores `value` under `key`, or clears the key when `value` is absent.
    pub fn set(&mut self, key: ConfigKey, value: Option<String>)
        ensures
            final(self)@ == update(old(self)@, key, opt_view(value)),
    {
        match key {
            ConfigKey::ConsumerKey => self.consumer_key = value,
            ConfigKey::AccessToken => self.access_token = value,
        }
    }

    /// A copy of the configuration.
    pub fn copy(&self) -> (r: Config)
        ensures
            r@ == self@,
    {
        Config { consumer_key: copy_opt(&self.consumer_key), access_token: copy_opt(&self.access_token) }
    }
}

/// What the `config` subcommand prints.
#[derive(Debug, Clone, PartialEq, Eq)]
pub enum ConfigReply {
    /// A single string.
    Text(String),
    /// The whole configuration.
    Config(Config),
}

/// Runs the `config` subcommand on the loaded configuration `cfg`. On `Assign`
/// the caller stores `cfg` afterwards. A key name that is not a
/// configuration key is an error, and leaves `cfg` as it was.
pub fn handle(opts: &ConfigOpts, cfg: &mut Config) -> (r: Result<ConfigReply, ConfigError>)
    ensures
        match opts {
            ConfigOpts::Get { key } => match key_of_name(key@) {
                Some(k) => final(cfg)@ == old(cfg)@ && r is Ok && r->Ok_0 is Text
                    && r->Ok_0->Text_0@ == lookup(old(cfg)@, k).unwrap_or(Seq::empty()),
                None => final(cfg)@ == old(cfg)@ && r is Err && r->Err_0 == ConfigError::InvalidKey(
                    *key,
                ),
            },
            ConfigOpts::Assign { key, value } => match key_of_name(key@) {
                Some(k) => final(cfg)@ == update(old(cfg)@, k, opt_view(*value)) && r is Ok
                    && r->Ok_0 is Text && r->Ok_0->Text_0@ == "Success"@,
                None => final(cfg)@ == old(cfg)@ && r is Err && r->Err_0 == ConfigError::InvalidKey(
                    *key,
                ),
            },
            ConfigOpts::View => final(cfg)@ == old(cfg)@ && r is Ok && r->Ok_0 is Config
                && r->Ok_0->Config_0@ == old(cfg)@,
        },
{
    match opts {
        ConfigOpts::Get { key } => {
            match parse_key(key.as_str()) {
                Ok(k) => {
                    let v = match cfg.get(k) {
                        Some(s) => s,
                        None => String::new(),
                    };
                    Ok(ConfigReply::Text(v))
                },
                Err(_) => Err(ConfigError::InvalidKey(key.clone())),
            }
        },
        ConfigOpts::Assign { key, value } => {
            match parse_key(key.as_str()) {
                Ok(k) => {
                    cfg.set(k, copy_opt(value));
                    Ok(ConfigReply::Text(String::from_str("Success")))
                },
                Err(_) => Err(ConfigError::InvalidKey(key.clone())),
            }
        },
        ConfigOpts::View => Ok(ConfigReply::Config(cfg.copy())),
    }
}

/// A credential given by flag or environment wins over the stored one.
pub open spec fn resolved(flag: Option<Seq<char>>, stored: Option<Seq<char>>) -> Option<Seq<char>> {
    match flag {
        Some(v) => Some(v),
        None => stored,
    }
}

/// The consumer key to use: the one given by flag or environment, else the
/// stored one; an error when neither is there.
pub fn resolve_consumer_key(flag: Option<String>, stored: Option<String>) -> (r: Result<String, ConfigError>)
    ensures
        resolved(opt_view(flag), opt_view(stored)) is Some ==> r is Ok && r->Ok_0@ == resolved(
            opt_view(flag),
            opt_view(stored),
        ).unwrap(),
        resolved(opt_view(flag), opt_view(stored)) is None ==> r == Err::<String, ConfigError>(
            ConfigError::MissingConsumerKey,
        ),
{
    match flag {
        Some(v) => Ok(v),
        None => match stored {
            Some(v) => Ok(v),
            None => Err(ConfigError::MissingConsumerKey),
        },
    }
}

/// The access token to use: the one given by flag or environment, else the
/// stored one; an error when neither is there.
pub fn resolve_access_token(flag: Option<String>, stored: Option<String>) -> (r: Result<String, ConfigError>)
    ensures
        resolved(opt_view(flag), opt_view(stored)) is Some ==> r is Ok && r->Ok_0@ == resolved(
            opt_view(flag),
            opt_view(stored),
        ).unwrap(),
        resolved(opt_view(flag), opt_view(stored)) is None ==> r == Err::<String, ConfigError>(
            ConfigError::MissingAccessToken,
        ),
{
    match flag {
        Some(v) => Ok(v),
        None => match stored {
            Some(v) => Ok(v),
            None => Err(ConfigError::MissingAccessToken),
        },
    }
}

/// After `config set <key> <value>`, `config get <key>` prints `<value>`,
/// and the other key keeps what it held.
pub proof fn lemma_set_then_get(c: ConfigView, name: Seq<char>, value: Seq<char>, other: ConfigKey)
    requires
        key_of_name(name) is Some,
        other != key_of_name(name).unwrap(),
    ensures
        lookup(update(c, key_of_name(name).unwrap(), Some(value)), key_of_name(name).unwrap())
            == Some(value),
        lookup(update(c, key_of_name(name).unwrap(), Some(value)), other) == lookup(c, other),
{
}

} // verus!
