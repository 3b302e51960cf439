//! Where the remote account service is found.

use vstd::prelude::*;
use vstd::string::*;

verus! {

/// The base URL used where none is configured.
pub const DEFAULT_BASE_URL: &'static str = "http://localhost:80";

pub const AUTH_PATH: &'static str = "/api/v1/auth/";

pub const API_PATH: &'static str = "/api/v1/";

pub const CLIENT_ERRORS_PATH: &'static str = "/monitoring/client-errors";

/// The address of the remote service.
pub struct ApiConfig {
    pub base_url: String,
}

impl ApiConfig {
    /// The base URL that a configured value stands for: the value itself, or
    /// the default where there is none.
    pub open spec fn base_url_for(configured: Option<Seq<char>>) -> Seq<char> {
        match configured {
            Some(url) => url,
            None => DEFAULT_BASE_URL@,
        }
    }

    /// The configuration for the base URL that the environment gave, if it
    /// gave one.
    pub fn new(configured: Option<String>) -> (config: ApiConfig)
        ensures
            config.base_url@ == Self::base_url_for(
                match configured {
                    Some(url) => Some(url@),
                    None => None,
                },
            ),
    {
        match configured {
            Some(base_url) => ApiConfig { base_url },
            None => ApiConfig { base_url: DEFAULT_BASE_URL.to_owned() },
        }
    }

    /// The URL of an endpoint of the authentication API.
    pub fn auth_url(&self, endpoint: &str) -> (url: String)
        ensures
            url@ == self.base_url@ + AUTH_PATH@ + endpoint@,
    {
        let mut url = self.base_url.clone();
        url.append(AUTH_PATH);
        url.append(endpoint);
        url
    }

    /// The URL of an endpoint of the API.
    pub fn api_url(&self, endpoint: &str) -> (url: String)
        ensures
            url@ == self.base_url@ + API_PATH@ + endpoint@,
    {
        let mut url = self.base_url.clone();
        url.append(API_PATH);
        url.append(endpoint);
        url
    }

    /// The URL of the telemetry sink.
    pub fn client_errors_url(&self) -> (url: String)
        ensures
            url@ == self.base_url@ + CLIENT_ERRORS_PATH@,
    {
        let mut url = self.base_url.clone();
        url.append(CLIENT_ERRORS_PATH);
        url
    }
}

impl Default for ApiConfig {
    /// The configuration where nothing is configured.
    fn default() -> (config: ApiConfig)
        ensures
            config.base_url@ == DEFAULT_BASE_URL@,
    {
        ApiConfig::new(None)
    }
}

} // verus!
