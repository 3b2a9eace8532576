//! Where the service lives and how a client identifies itself.

use vstd::prelude::*;

verus! {

/// The deployments of the service.
#[derive(Debug, Clone, PartialEq, Eq)]
pub enum Environment {
    /// A deployment of one's own, at the given addresses.
    Local { http_base_url: String, ws_base_url: String },
    Development,
    Production,
}

impl Environment {
    /// The address of the deployment's REST endpoints.
    pub open spec fn http_base(self) -> Seq<char> {
        match self {
            Environment::Local { http_base_url, ws_base_url } => http_base_url@,
            Environment::Development => "https://api.devnet.pragma.build"@,
            Environment::Production => "https://api.production.pragma.build"@,
        }
    }

    /// The address of the deployment's WebSocket endpoints.
    pub open spec fn ws_base(self) -> Seq<char> {
        match self {
            Environment::Local { http_base_url, ws_base_url } => ws_base_url@,
            Environment::Development => "wss://api.devnet.pragma.build"@,
            Environment::Production => "wss://api.production.pragma.build"@,
        }
    }
}

/// A configuration as a mathematical value.
pub struct ConfigView {
    pub api_key: Seq<char>,
    pub base_url: Seq<char>,
    pub ws_url: Seq<char>,
}

/// The API key and the addresses that a client works with.
#[derive(Debug, Clone, PartialEq, Eq)]
pub struct Config {
    api_key: String,
    base_url: String,
    ws_url: String,
}

impl View for Config {
    type V = ConfigView;

    closed spec fn view(&self) -> ConfigView {
        ConfigView { api_key: self.api_key@, base_url: self.base_url@, ws_url: self.ws_url@ }
    }
}

impl Config {
    /// Creates the configuration for `environment` with the given API key.
    pub fn new(api_key: String, environment: Environment) -> (config: Self)
        ensures
            config@ == (ConfigView {
                api_key: api_key@,
                base_url: environment.http_base(),
                ws_url: environment.ws_base(),
            }),
    {
        let (base_url, ws_url) = match environment {
            Environment::Local { http_base_url, ws_base_url } => (http_base_url, ws_base_url),
            Environment::Development => (
                "https://api.devnet.pragma.build".to_owned(),
                "wss://api.devnet.pragma.build".to_owned(),
            ),
            Environment::Production => (
                "https://api.production.pragma.build".to_owned(),
                "wss://api.production.pragma.build".to_owned(),
            ),
        };
        Config { api_key, base_url, ws_url }
    }

    /// The API key.
    pub fn api_key(&self) -> (key: &str)
        ensures
            key@ == self@.api_key,
    {
        self.api_key.as_str()
    }

    /// The address of the REST endpoints.
    pub fn base_url(&self) -> (url: &str)
        ensures
            url@ == self@.base_url,
    {
        self.base_url.as_str()
    }

    /// The address of the WebSocket endpoints.
    pub fn ws_url(&self) -> (url: &str)
        ensures
            url@ == self@.ws_url,
    {
        self.ws_url.as_str()
    }
}

} // verus!
