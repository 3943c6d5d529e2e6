//! Server configuration.

pub mod client;

use vstd::prelude::*;

verus! {

/// Settings of the server: where Neon Auth and the Neon Data API live, and
/// where the server listens.
#[derive(Debug, Clone)]
pub struct Config {
    pub auth_url: String,
    pub data_api_url: String,
    pub port: u16,
    pub host: String,
}

/// Why a configuration was refused.
#[derive(Debug, Clone, PartialEq, Eq)]
pub enum ConfigError {
    /// The port setting is no decimal number in `0..=65535`.
    InvalidPort(String),
}

/// The host the server binds to when none is configured.
pub open spec fn default_host() -> Seq<char> {
    "0.0.0.0"@
}

/// The port the server listens on when none is configured.
pub open spec fn default_port() -> u16 {
    8080
}

impl Config {
    /// Builds the configuration from the values of the settings `AUTH_URL`,
    /// `DATA_API_URL`, `PORT` and `HOST` (the last two may be unset). An unset
    /// port means 8080 and an unset host `0.0.0.0`; a set port must parse as a
    /// `u16`.
    pub fn from_values(
        auth_url: String,
        data_api_url: String,
        port: Option<String>,
        host: Option<String>,
    ) -> (res: Result<Config, ConfigError>)
        ensures
            match port {
                None => res is Ok,
                Some(p) => res is Ok <==> crate::text::parse_u16_spec(p@) is Some,
            },
            res matches Ok(c) ==> {
                &&& c.auth_url@ == auth_url@
                &&& c.data_api_url@ == data_api_url@
                &&& c.port == match port {
                    None => default_port(),
                    Some(p) => crate::text::parse_u16_spec(p@)->0,
                }
                &&& c.host@ == match host {
                    None => default_host(),
                    Some(h) => h@,
                }
            },
            res matches Err(ConfigError::InvalidPort(text)) ==> port matches Some(p) && text@ == p@,
    {
        let port_number: u16 = match &port {
            None => 8080,
            Some(p) => {
                let chars = crate::text::chars_of(p.as_str());
                match crate::text::parse_u16(&chars) {
                    Some(n) => n,
                    None => {
                        return Err(ConfigError::InvalidPort(p.clone()));
                    },
                }
            },
        };
        let host = match host {
            None => String::from_str("0.0.0.0"),
            Some(h) => h,
        };
        Ok(Config { auth_url, data_api_url, port: port_number, host })
    }
}

} // verus!
