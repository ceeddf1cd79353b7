//! Resolution of the client's base URL and API token.
//!
//! The embedding application reads `MAILINATOR_API_URL` and
//! `MAILINATOR_API_TOKEN` from the environment (optionally via a dotfile)
//! and hands the raw values in; everything decided about them is decided
//! here. The base URL falls back to the vendor's public endpoint; a client
//! cannot be configured without a token from somewhere.

use vstd::prelude::*;

verus! {

/// What the environment provides: a base URL defaulted when unset, and a
/// token if one was set.
#[derive(Debug, Clone)]
pub struct EnvCfg {
    pub api_url: String,
    pub api_token: Option<String>,
}

/// The vendor's public endpoint, used when no base URL is configured.
pub open spec fn spec_default_api_url() -> Seq<char> {
    "https://mailinator.com"@
}

pub fn default_api_url() -> (r: &'static str)
    ensures
        r@ == spec_default_api_url(),
{
    "https://mailinator.com"
}

impl EnvCfg {
    /// Settles the environment's two values: an unset URL becomes the
    /// default endpoint, the token is kept as found.
    pub fn resolve(api_url: Option<String>, api_token: Option<String>) -> (r: EnvCfg)
        ensures
            match api_url {
                Some(u) => r.api_url == u,
                None => r.api_url@ == spec_default_api_url(),
            },
            r.api_token == api_token,
    {
        let url = match api_url {
            Some(u) => u,
            None => default_api_url().to_owned(),
        };
        EnvCfg { api_url: url, api_token }
    }
}

/// A fully resolved client configuration: where to send requests, and the
/// token sent with each of them.
#[derive(Debug, Clone)]
pub struct ClientConfig {
    pub api_url: String,
    pub api_token: String,
}

/// Building a configuration fails only when no token is available at all.
#[derive(Debug, Clone, Copy, PartialEq, Eq, Structural)]
pub enum ConfigError {
    MissingApiToken,
}

impl ClientConfig {
    /// Settles the client's configuration from explicit overrides and the
    /// environment: an explicit value wins over the environment's, and a
    /// missing token on both sides is refused.
    pub fn resolve(api_url: Option<String>, api_token: Option<String>, env: EnvCfg) -> (r: Result<
        ClientConfig,
        ConfigError,
    >)
        ensures
            match r {
                Ok(c) => {
                    &&& (api_token is Some || env.api_token is Some)
                    &&& c.api_token == if api_token is Some {
                        api_token.unwrap()
                    } else {
                        env.api_token.unwrap()
                    }
                    &&& c.api_url == if api_url is Some {
                        api_url.unwrap()
                    } else {
                        env.api_url
                    }
                },
                Err(e) => {
                    &&& e == ConfigError::MissingApiToken
                    &&& api_token is None
                    &&& env.api_token is None
                },
            },
    {
        let token = match api_token {
            Some(t) => t,
            None => match env.api_token {
                Some(t) => t,
                None => {
                    return Err(ConfigError::MissingApiToken);
                },
            },
        };
        let url = match api_url {
            Some(u) => u,
            None => env.api_url,
        };
        Ok(ClientConfig { api_url: url, api_token: token })
    }
}

} // verus!
