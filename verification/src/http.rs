//! HTTP provider clients. The transport itself lives outside the
//! library; these clients are stubs that reject all calls, so absence
//! of a provider surfaces as an ordinary configuration error.

use vstd::prelude::*;

use crate::error::AppError;

verus! {

/// Connection settings for a provider client.
#[derive(Debug, Clone)]
pub struct ClientConfig {
    /// Endpoint URL; empty selects the provider's default.
    pub endpoint: String,
    /// API key sent with each request.
    pub api_key: String,
    /// Request timeout in seconds.
    pub timeout_secs: u64,
    /// Additional headers as name/value pairs.
    pub headers: Vec<(String, String)>,
}

/// Anthropic API client: a stub that rejects all calls.
pub struct AnthropicClient {
    config: ClientConfig,
}

impl AnthropicClient {
    /// Construction always fails: the client is not implemented.
    pub fn new(config: ClientConfig) -> (r: Result<AnthropicClient, AppError>)
        ensures
            r is Err,
            r->Err_0 matches AppError::Config(m) && m@ == "Anthropic client not yet implemented"@,
    {
        let _ = config;
        Err(AppError::Config("Anthropic client not yet implemented".to_owned()))
    }
}

/// Generic REST API client: a stub that rejects all calls.
pub struct GenericClient {
    config: ClientConfig,
}

impl GenericClient {
    /// Construction always fails: the client is not implemented.
    pub fn new(config: ClientConfig) -> (r: Result<GenericClient, AppError>)
        ensures
            r is Err,
            r->Err_0 matches AppError::Config(m) && m@ == "Generic client not yet implemented"@,
    {
        let _ = config;
        Err(AppError::Config("Generic client not yet implemented".to_owned()))
    }
}

} // verus!
