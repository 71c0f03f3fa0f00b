//! An adapter between a JSON-RPC tool transport, one message per line, and
//! the Raworc REST API.
//!
//! The library decides and computes; it does not read, write or send. A
//! line that came in is told apart by [`server::classify`]. A tool call is
//! validated and turned into an API call by [`mcp::RaworcMcpServer`], which
//! hands out the HTTP requests to send one by one and takes the outcome of
//! each; [`client::RaworcClient`] stands behind it, with one login and one
//! more attempt after an answer of 401. What comes back is read by the
//! shapes of [`models`] and shown as the tool's result.
//!
//! Every function states what it returns over the mathematical models of
//! its arguments; the few places where an outside crate computes are marked
//! as such, and say what is taken on trust.

pub mod catalog;
pub mod client;
pub mod error;
pub mod json;
pub mod mcp;
pub mod models;
pub mod operations;
pub mod server;
pub mod shape;
pub mod text;
pub mod time;
pub mod tools;

pub use crate::catalog::CAPABILITIES;
use vstd::prelude::*;

verus! {

/// Settings from which a client is built.
#[derive(Debug, Clone)]
pub struct Config {
    /// The address of the API; the public API where absent.
    pub api_url: Option<String>,
    /// The bearer token to start with.
    pub auth_token: Option<String>,
    /// With a password, what to log in with.
    pub username: Option<String>,
    pub password: Option<String>,
    /// The space of calls that name none; `default` where absent.
    pub default_space: Option<String>,
    /// The time allowed for a request in seconds; 30 where absent.
    pub timeout_seconds: Option<u64>,
}

impl Default for Config {
    /// The configuration of a server that is told nothing: the API at its
    /// usual address, the space `default`, and 30 seconds for a request.
    fn default() -> (r: Config)
        ensures
            r.api_url is Some,
            r.api_url->Some_0@ == "http://raworc.remoteagent.com:9000/api/v0"@,
            r.auth_token is None,
            r.username is None,
            r.password is None,
            r.default_space is Some,
            r.default_space->Some_0@ == "default"@,
            r.timeout_seconds == Some(30u64),
    {
        Config {
            api_url: Some("http://raworc.remoteagent.com:9000/api/v0".to_owned()),
            auth_token: None,
            username: None,
            password: None,
            default_space: Some("default".to_owned()),
            timeout_seconds: Some(30),
        }
    }
}

impl Config {
    /// A configuration that names the API root and nothing else.
    pub fn new(api_url: String) -> (r: Config)
        ensures
            r.api_url == Some(api_url),
            r.auth_token is None,
            r.username is None,
            r.password is None,
            r.default_space is None,
            r.timeout_seconds is None,
    {
        Config {
            api_url: Some(api_url),
            auth_token: None,
            username: None,
            password: None,
            default_space: None,
            timeout_seconds: None,
        }
    }

    /// The configuration with a bearer token.
    pub fn with_auth_token(self, token: String) -> (r: Config)
        ensures
            r == (Config { auth_token: Some(token), ..self }),
    {
        let mut config = self;
        config.auth_token = Some(token);
        config
    }

    /// The configuration with a name and a password to log in with.
    pub fn with_credentials(self, username: String, password: String) -> (r: Config)
        ensures
            r == (Config { username: Some(username), password: Some(password), ..self }),
    {
        let mut config = self;
        config.username = Some(username);
        config.password = Some(password);
        config
    }

    /// The configuration with a default space.
    pub fn with_default_space(self, space: String) -> (r: Config)
        ensures
            r == (Config { default_space: Some(space), ..self }),
    {
        let mut config = self;
        config.default_space = Some(space);
        config
    }

    /// The configuration with a time allowed for each request, in seconds.
    pub fn with_timeout(self, timeout: u64) -> (r: Config)
        ensures
            r == (Config { timeout_seconds: Some(timeout), ..self }),
    {
        let mut config = self;
        config.timeout_seconds = Some(timeout);
        config
    }
}

} // verus!
