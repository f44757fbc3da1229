//! The configuration loader: turns the raw JSON payload the host hands over
//! into validated settings.
//!
//! The recognized schema is a JSON object with one optional string field,
//! `importSource`; unrecognized extra fields are ignored, a missing or null
//! field means the default source. Configuration errors are fatal for the
//! whole transform stage, so the loader reports them and performs nothing
//! partially: a missing payload, a payload that is not a JSON object, and an
//! `importSource` that is present but not a string are all rejected.

use vstd::prelude::*;

verus! {

/// Validated settings for one transform invocation.
pub struct Config {
    /// The module source the injected import should point at; `None` means
    /// the default, `"react"`.
    pub import_source: Option<String>,
}

/// Why a configuration payload was rejected. Every variant is fatal: the
/// transform stage does not run without a valid configuration.
pub enum ConfigError {
    /// The host supplied no payload at all.
    MissingPayload,
    /// The payload is not a JSON object, or the recognized field is present
    /// with a non-string, non-null value.
    InvalidConfig,
}

/// What reading the string field `key` out of the JSON text `payload` yields:
/// `None` when `payload` is not a JSON object or holds `key` with a value
/// that is neither a string nor null; `Some(None)` when `payload` is a JSON
/// object in which `key` is absent or null; `Some(Some(t))` when it holds
/// `key` with the string value `t`. The outcome is a function of the two
/// texts alone.
pub uninterp spec fn json_str_field(payload: Seq<char>, key: Seq<char>) -> Option<Option<Seq<char>>>;

/// Relies on serde_json: `from_str::<Value>` parses the payload, and
/// `Map::get` looks the key up in the resulting JSON object; both results
/// depend on their text arguments alone.
#[verifier::external_body]
fn read_json_str_field(payload: &str, key: &str) -> (r: Option<Option<String>>)
    ensures
        match r {
            None => json_str_field(payload@, key@) is None,
            Some(None) => json_str_field(payload@, key@) == Some(Option::<Seq<char>>::None),
            Some(Some(s)) => json_str_field(payload@, key@) == Some(Some(s@)),
        },
{
    match serde_json::from_str::<serde_json::Value>(payload) {
        Ok(serde_json::Value::Object(map)) => match map.get(key) {
            None => Some(None),
            Some(serde_json::Value::Null) => Some(None),
            Some(serde_json::Value::String(s)) => Some(Some(s.clone())),
            Some(_) => None,
        },
        _ => None,
    }
}

/// Whether the loaded settings `c` faithfully carry the field value `field`
/// that the payload held.
pub open spec fn config_matches_field(c: Config, field: Option<Seq<char>>) -> bool {
    match c.import_source {
        Some(s) => field == Some(s@),
        None => field is None,
    }
}

/// Parse a raw configuration payload into validated settings.
///
/// Succeeds exactly when the host supplied a payload that is a JSON object
/// whose `importSource` field, if present, is a string or null; the loaded
/// settings carry that field value. Every failure is fatal to the stage.
pub fn load_config(payload: Option<&str>) -> (r: Result<Config, ConfigError>)
    ensures
        match payload {
            None => r == Err::<Config, ConfigError>(ConfigError::MissingPayload),
            Some(p) => match json_str_field(p@, "importSource"@) {
                None => r == Err::<Config, ConfigError>(ConfigError::InvalidConfig),
                Some(field) => r matches Ok(c) && config_matches_field(c, field),
            },
        },
{
    match payload {
        None => Err(ConfigError::MissingPayload),
        Some(p) => match read_json_str_field(p, "importSource") {
            None => Err(ConfigError::InvalidConfig),
            Some(field) => Ok(Config { import_source: field }),
        },
    }
}

/// The module source a payload field value resolves to: the field's own
/// string where the payload held one, the default `"react"` otherwise.
pub open spec fn resolved_field_source(field: Option<Seq<char>>) -> Seq<char> {
    match field {
        Some(t) => t,
        None => "react"@,
    }
}

/// The module source a configuration resolves to: its own `importSource`
/// where one was configured, the default `"react"` otherwise.
pub open spec fn spec_import_source(c: Config) -> Seq<char> {
    match c.import_source {
        Some(s) => s@,
        None => "react"@,
    }
}

/// Resolve the import source of `config`, applying the default.
pub fn resolve_import_source(config: &Config) -> (r: String)
    ensures
        r@ == spec_import_source(*config),
{
    match &config.import_source {
        Some(s) => s.clone(),
        None => "react".to_owned(),
    }
}

} // verus!
