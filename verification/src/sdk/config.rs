//! Client configuration: relay endpoints and identity location.

use vstd::prelude::*;
use vstd::string::*;

use super::error;
use super::error::{config_error, SdkErrorView, SdkResult};
use crate::agent::config;
use crate::text::starts_with;

verus! {

/// Persisted client configuration.
#[derive(Debug)]
pub struct ClientConfig {
    /// Relay WebSocket URL (e.g. `ws://192.168.1.10:8080/ws`).
    pub relay_ws_url: String,
    /// Relay HTTP base URL (e.g. `http://192.168.1.10:8080`).
    pub relay_http_url: String,
    /// Path to the client's Ed25519 identity file.
    pub identity_path: String,
}

impl ClientConfig {
    /// What is wrong with the configuration; the first fault counts.
    pub open spec fn fault(&self) -> Option<SdkErrorView> {
        if !config::is_ws_url(self.relay_ws_url@) {
            Some(SdkErrorView::Config("relay_ws_url must start with ws:// or wss://"@))
        } else if !config::is_http_url(self.relay_http_url@) {
            Some(SdkErrorView::Config("relay_http_url must start with http:// or https://"@))
        } else {
            None
        }
    }

    /// Reject malformed URLs early.
    pub fn validate(&self) -> (r: SdkResult<()>)
        ensures
            error::fails_with(r, self.fault()),
    {
        if !starts_with(self.relay_ws_url.as_str(), "ws://") && !starts_with(
            self.relay_ws_url.as_str(),
            "wss://",
        ) {
            return Err(config_error("relay_ws_url must start with ws:// or wss://"));
        }
        if !starts_with(self.relay_http_url.as_str(), "http://") && !starts_with(
            self.relay_http_url.as_str(),
            "https://",
        ) {
            return Err(config_error("relay_http_url must start with http:// or https://"));
        }
        Ok(())
    }
}

/// A client's configuration is good exactly if both URLs have their schemes.
pub proof fn good_client_configurations(config: ClientConfig)
    ensures
        config.fault() is None <==> {
            &&& "ws://"@.is_prefix_of(config.relay_ws_url@) || "wss://"@.is_prefix_of(
                config.relay_ws_url@,
            )
            &&& "http://"@.is_prefix_of(config.relay_http_url@) || "https://"@.is_prefix_of(
                config.relay_http_url@,
            )
        },
        config.fault() matches Some(fault) ==> fault is Config,
{
}

} // verus!
