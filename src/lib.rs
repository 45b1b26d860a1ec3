//! Loading OAuth client credentials from a JSON configuration document,
//! building the client-credentials token request, and reading the access
//! token out of the token endpoint's reply.

pub mod config;
pub mod json;
pub mod token;
