//! The client-credentials token request and the reading of its reply.

use vstd::prelude::*;
use crate::config::{AppConfig, AppConfigView};
use crate::json::{json_of, member, member_of, parse_json, str_of};

verus! {

/// The OAuth2 grant this library requests.
pub const GRANT_TYPE: &'static str = "client_credentials";

/// The audience the requested token is scoped to.
pub const SCOPE: &'static str = "https://management.azure.com/.default";

/// The form fields of a token request for the given credentials, in order.
pub open spec fn token_form(client_id: Seq<char>, client_secret: Seq<char>) -> Seq<(Seq<char>, Seq<char>)> {
    seq![
        ("client_id"@, client_id),
        ("client_secret"@, client_secret),
        ("grant_type"@, "client_credentials"@),
        ("scope"@, "https://management.azure.com/.default"@),
    ]
}

/// The form fields of the token request that a configuration leads to.
pub open spec fn config_form(c: AppConfigView) -> Seq<(Seq<char>, Seq<char>)> {
    token_form(c.client_id, c.client_secret)
}

/// A sequence of form fields with its strings as character sequences.
pub open spec fn form_view(fields: Seq<(String, String)>) -> Seq<(Seq<char>, Seq<char>)> {
    fields.map_values(|p: (String, String)| (p.0@, p.1@))
}

/// The access token in a parsed reply: the `access_token` member where it is
/// a string, and the empty string otherwise.
pub open spec fn token_in(doc: serde_json::Value) -> Seq<char> {
    match member_of(doc, "access_token"@) {
        Some(m) => match str_of(m) {
            Some(s) => s,
            None => Seq::empty(),
        },
        None => Seq::empty(),
    }
}

/// A POST to `endpoint` with `form` as its form-urlencoded body.
pub struct TokenRequest {
    pub endpoint: String,
    pub form: Vec<(String, String)>,
}

/// Why a token endpoint's reply could not be read.
#[derive(Debug)]
pub enum TokenError {
    /// The reply body is not JSON.
    MalformedResponse(serde_json::Error),
}

/// The form fields of a client-credentials token request.
pub fn token_form_fields(client_id: &str, client_secret: &str) -> (r: Vec<(String, String)>)
    ensures
        r@.len() == 4,
        form_view(r@) == token_form(client_id@, client_secret@),
{
    let mut fields: Vec<(String, String)> = Vec::new();
    fields.push(("client_id".to_owned(), client_id.to_owned()));
    fields.push(("client_secret".to_owned(), client_secret.to_owned()));
    fields.push(("grant_type".to_owned(), GRANT_TYPE.to_owned()));
    fields.push(("scope".to_owned(), SCOPE.to_owned()));
    assert(form_view(fields@) =~= token_form(client_id@, client_secret@));
    fields
}

/// The token request that a configuration leads to.
pub fn token_request(config: &AppConfig) -> (r: TokenRequest)
    ensures
        r.endpoint@ == config.token_endpoint@,
        r.form@.len() == 4,
        form_view(r.form@) == config_form(config@),
{
    TokenRequest {
        endpoint: config.token_endpoint.clone(),
        form: token_form_fields(config.client_id.as_str(), config.client_secret.as_str()),
    }
}

/// Reads the access token out of a parsed reply.
pub fn access_token_from_value(doc: &serde_json::Value) -> (r: String)
    ensures
        r@ == token_in(*doc),
{
    match member(doc, "access_token") {
        Some(m) => match m.as_str() {
            Some(s) => s.to_owned(),
            None => String::new(),
        },
        None => String::new(),
    }
}

/// Reads the access token out of a reply body. The reply's status is not
/// consulted: a JSON body without a string `access_token` gives the empty
/// token, and only a body that is not JSON is an error.
pub fn access_token_from_body(body: &str) -> (r: Result<String, TokenError>)
    ensures
        match json_of(body@) {
            None => r matches Err(TokenError::MalformedResponse(_)),
            Some(doc) => r matches Ok(t) && t@ == token_in(doc),
        },
{
    match parse_json(body) {
        Err(e) => Err(TokenError::MalformedResponse(e)),
        Ok(doc) => Ok(access_token_from_value(&doc)),
    }
}

/// A token request carries exactly four form fields: client_id and
/// client_secret from the configuration, grant_type `client_credentials` and
/// the fixed scope. Nothing else in the configuration changes them.
pub proof fn lemma_request_form(a: AppConfigView, b: AppConfigView)
    ensures
        config_form(a).len() == 4,
        config_form(a).map_values(|p: (Seq<char>, Seq<char>)| p.0)
            == seq!["client_id"@, "client_secret"@, "grant_type"@, "scope"@],
        config_form(a)[0].1 == a.client_id,
        config_form(a)[1].1 == a.client_secret,
        config_form(a)[2].1 == "client_credentials"@,
        config_form(a)[3].1 == "https://management.azure.com/.default"@,
        a.client_id == b.client_id && a.client_secret == b.client_secret
            ==> config_form(a) == config_form(b),
{
    assert(config_form(a).map_values(|p: (Seq<char>, Seq<char>)| p.0)
        =~= seq!["client_id"@, "client_secret"@, "grant_type"@, "scope"@]);
}

/// A reply that parses as JSON but has no `access_token` member yields the
/// empty token, not an error.
pub proof fn lemma_absent_token_is_empty(body: Seq<char>)
    requires
        json_of(body) is Some,
        member_of(json_of(body)->Some_0, "access_token"@) is None,
    ensures
        token_in(json_of(body)->Some_0) == Seq::<char>::empty(),
{
}

} // verus!
