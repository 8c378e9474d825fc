//! Service configuration: listen address, upstream base URLs, timeouts.

use vstd::prelude::*;

verus! {

/// Configuration surface of the service. Each field has a documented
/// default, given by `Default::default()`; the binary may override any
/// of them from its environment before constructing the services.
#[derive(Debug, Clone)]
pub struct Config {
    /// Address the inbound listener binds to.
    pub host: String,
    /// Port the inbound listener binds to.
    pub port: u16,
    /// Base URL of the upstream species catalog API.
    pub pokeapi_base_url: String,
    /// Base URL of the upstream style-transform API.
    pub translation_api_base_url: String,
    /// Timeout for each outbound HTTP call, in seconds.
    pub http_timeout_secs: u64,
    /// Timeout for each inbound request, in seconds.
    pub request_timeout_secs: u64,
}

impl Default for Config {
    /// The documented defaults.
    fn default() -> (c: Config)
        ensures
            c.host@ == "0.0.0.0"@,
            c.port == 5000u16,
            c.pokeapi_base_url@ == "https://pokeapi.co/api/v2"@,
            c.translation_api_base_url@ == "https://api.funtranslations.com/translate"@,
            c.http_timeout_secs == 10u64,
            c.request_timeout_secs == 30u64,
    {
        Config {
            host: "0.0.0.0".to_owned(),
            port: 5000,
            pokeapi_base_url: "https://pokeapi.co/api/v2".to_owned(),
            translation_api_base_url: "https://api.funtranslations.com/translate".to_owned(),
            http_timeout_secs: 10,
            request_timeout_secs: 30,
        }
    }
}

} // verus!
