//! The application's configuration: OAuth client credentials, the token
//! endpoint, and a timeout, decoded from a JSON object.

use vstd::prelude::*;
use crate::json::{json_of, member, member_of, parse_json, str_of, u64_of};

verus! {

/// Client credentials and the endpoint to request a token from.
pub struct AppConfig {
    pub client_id: String,
    pub client_secret: String,
    pub token_endpoint: String,
    /// Read from the configuration, but applied to no request.
    pub timeout_seconds: u64,
}

/// The value of an [`AppConfig`], with its strings as character sequences.
pub ghost struct AppConfigView {
    pub client_id: Seq<char>,
    pub client_secret: Seq<char>,
    pub token_endpoint: Seq<char>,
    pub timeout_seconds: u64,
}

impl View for AppConfig {
    type V = AppConfigView;

    open spec fn view(&self) -> AppConfigView {
        AppConfigView {
            client_id: self.client_id@,
            client_secret: self.client_secret@,
            token_endpoint: self.token_endpoint@,
            timeout_seconds: self.timeout_seconds,
        }
    }
}

/// One of the four members that a configuration object must have.
#[derive(Clone, Copy, Debug, PartialEq, Eq, Structural)]
pub enum ConfigField {
    ClientId,
    ClientSecret,
    TokenEndpoint,
    TimeoutSeconds,
}

impl ConfigField {
    /// The member name under which the field is stored.
    pub open spec fn spec_key(self) -> Seq<char> {
        match self {
            ConfigField::ClientId => "client_id"@,
            ConfigField::ClientSecret => "client_secret"@,
            ConfigField::TokenEndpoint => "token_endpoint"@,
            ConfigField::TimeoutSeconds => "timeout_seconds"@,
        }
    }

    /// The member name under which the field is stored.
    pub fn key(&self) -> (r: &'static str)
        ensures
            r@ == self.spec_key(),
    {
        match self {
            ConfigField::ClientId => "client_id",
            ConfigField::ClientSecret => "client_secret",
            ConfigField::TokenEndpoint => "token_endpoint",
            ConfigField::TimeoutSeconds => "timeout_seconds",
        }
    }
}

/// Why a parsed document is not a configuration.
#[derive(Clone, Copy, Debug, PartialEq, Eq, Structural)]
pub enum FieldError {
    /// The document has no member under the field's name (or is no object).
    Missing(ConfigField),
    /// The member is there but is not of the field's type.
    WrongType(ConfigField),
}

/// Why a configuration text could not be loaded.
#[derive(Debug)]
pub enum ConfigError {
    /// The text is not JSON.
    Syntax(serde_json::Error),
    /// The JSON does not have the configuration's shape.
    Field(FieldError),
}

/// The string member for `f` in `doc`, or why there is none.
pub open spec fn string_member(doc: serde_json::Value, f: ConfigField) -> Result<Seq<char>, FieldError> {
    match member_of(doc, f.spec_key()) {
        None => Err(FieldError::Missing(f)),
        Some(m) => match str_of(m) {
            Some(s) => Ok(s),
            None => Err(FieldError::WrongType(f)),
        },
    }
}

/// The unsigned integer member for `f` in `doc`, or why there is none.
pub open spec fn uint_member(doc: serde_json::Value, f: ConfigField) -> Result<u64, FieldError> {
    match member_of(doc, f.spec_key()) {
        None => Err(FieldError::Missing(f)),
        Some(m) => match u64_of(m) {
            Some(n) => Ok(n),
            None => Err(FieldError::WrongType(f)),
        },
    }
}

/// The configuration that `doc` describes. Members are checked in the order
/// client_id, client_secret, token_endpoint, timeout_seconds, and the first
/// that is missing or mistyped is the error; other members are ignored.
pub open spec fn config_of(doc: serde_json::Value) -> Result<AppConfigView, FieldError> {
    match string_member(doc, ConfigField::ClientId) {
        Err(e) => Err(e),
        Ok(client_id) => match string_member(doc, ConfigField::ClientSecret) {
            Err(e) => Err(e),
            Ok(client_secret) => match string_member(doc, ConfigField::TokenEndpoint) {
                Err(e) => Err(e),
                Ok(token_endpoint) => match uint_member(doc, ConfigField::TimeoutSeconds) {
                    Err(e) => Err(e),
                    Ok(timeout_seconds) => Ok(
                        AppConfigView { client_id, client_secret, token_endpoint, timeout_seconds },
                    ),
                },
            },
        },
    }
}

fn string_field(doc: &serde_json::Value, f: ConfigField) -> (r: Result<String, FieldError>)
    ensures
        match r {
            Ok(s) => string_member(*doc, f) == Ok::<Seq<char>, FieldError>(s@),
            Err(e) => string_member(*doc, f) == Err::<Seq<char>, FieldError>(e),
        },
{
    match member(doc, f.key()) {
        None => Err(FieldError::Missing(f)),
        Some(m) => match m.as_str() {
            Some(s) => Ok(s.to_owned()),
            None => Err(FieldError::WrongType(f)),
        },
    }
}

fn uint_field(doc: &serde_json::Value, f: ConfigField) -> (r: Result<u64, FieldError>)
    ensures
        r == uint_member(*doc, f),
{
    match member(doc, f.key()) {
        None => Err(FieldError::Missing(f)),
        Some(m) => match m.as_u64() {
            Some(n) => Ok(n),
            None => Err(FieldError::WrongType(f)),
        },
    }
}

/// Decodes a parsed JSON document into a configuration.
pub fn config_from_value(doc: &serde_json::Value) -> (r: Result<AppConfig, FieldError>)
    ensures
        match r {
            Ok(c) => config_of(*doc) == Ok::<AppConfigView, FieldError>(c@),
            Err(e) => config_of(*doc) == Err::<AppConfigView, FieldError>(e),
        },
{
    let client_id = match string_field(doc, ConfigField::ClientId) {
        Ok(s) => s,
        Err(e) => return Err(e),
    };
    let client_secret = match string_field(doc, ConfigField::ClientSecret) {
        Ok(s) => s,
        Err(e) => return Err(e),
    };
    let token_endpoint = match string_field(doc, ConfigField::TokenEndpoint) {
        Ok(s) => s,
        Err(e) => return Err(e),
    };
    let timeout_seconds = match uint_field(doc, ConfigField::TimeoutSeconds) {
        Ok(n) => n,
        Err(e) => return Err(e),
    };
    Ok(AppConfig { client_id, client_secret, token_endpoint, timeout_seconds })
}

/// Parses a configuration text: a JSON object with string members
/// client_id, client_secret and token_endpoint and an unsigned integer member
/// timeout_seconds.
pub fn parse_config(text: &str) -> (r: Result<AppConfig, ConfigError>)
    ensures
        match json_of(text@) {
            None => r matches Err(ConfigError::Syntax(_)),
            Some(doc) => match config_of(doc) {
                Ok(c) => r matches Ok(x) && x@ == c,
                Err(e) => r matches Err(ConfigError::Field(g)) && g == e,
            },
        },
{
    match parse_json(text) {
        Err(e) => Err(ConfigError::Syntax(e)),
        Ok(doc) => match config_from_value(&doc) {
            Ok(c) => Ok(c),
            Err(e) => Err(ConfigError::Field(e)),
        },
    }
}

/// A document with all four members present and of the right type decodes to
/// a configuration whose fields are exactly those members.
pub proof fn lemma_complete_config_decodes(
    doc: serde_json::Value,
    client_id: Seq<char>,
    client_secret: Seq<char>,
    token_endpoint: Seq<char>,
    timeout_seconds: u64,
)
    requires
        string_member(doc, ConfigField::ClientId) == Ok::<Seq<char>, FieldError>(client_id),
        string_member(doc, ConfigField::ClientSecret) == Ok::<Seq<char>, FieldError>(client_secret),
        string_member(doc, ConfigField::TokenEndpoint) == Ok::<Seq<char>, FieldError>(token_endpoint),
        uint_member(doc, ConfigField::TimeoutSeconds) == Ok::<u64, FieldError>(timeout_seconds),
    ensures
        config_of(doc) == Ok::<AppConfigView, FieldError>(
            AppConfigView { client_id, client_secret, token_endpoint, timeout_seconds },
        ),
{
}

/// A document that lacks any of the four members, or whose timeout_seconds
/// is not an unsigned integer, yields no configuration.
pub proof fn lemma_incomplete_config_fails(doc: serde_json::Value, f: ConfigField)
    requires
        ({
            ||| member_of(doc, f.spec_key()) is None
            ||| {
                &&& f == ConfigField::TimeoutSeconds
                &&& member_of(doc, f.spec_key()) matches Some(m)
                &&& u64_of(m) is None
            }
        }),
    ensures
        config_of(doc) is Err,
{
}

} // verus!
