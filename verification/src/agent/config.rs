//! Agent configuration: relay endpoint, device identity, keystore location.

use vstd::prelude::*;
use vstd::string::*;

use super::error;
use super::error::{config_error, AgentErrorView, AgentResult};
use crate::text::starts_with;
use crate::types::DeviceId;

verus! {

/// Persisted agent configuration.
#[derive(Debug)]
pub struct AgentConfig {
    /// Relay server WebSocket URL (e.g. `wss://relay.example.com/ws`).
    pub relay_url: String,
    /// Relay server HTTP base URL (e.g. `https://relay.example.com`).
    /// Used for one-shot REST calls like device registration.
    pub relay_http_url: String,
    /// Display name reported to the relay server when registering.
    pub device_name: String,
    /// Path to the keystore directory holding signing and encryption keys.
    pub keystore_path: String,
    /// Device ID assigned by the relay after a successful registration.
    pub device_id: Option<DeviceId>,
    /// Heartbeat interval in seconds.
    pub heartbeat_secs: u64,
    /// Reconnect backoff cap in seconds.
    pub reconnect_cap_secs: u64,
    /// Explicit owner-controlled limits and opt-in for an unattended physical
    /// console. Disabled by default: a background service must never turn a
    /// previously trusted key into unattended access by accident.
    pub unattended_console: UnattendedConsoleConfig,
}

/// Limits and consent opt-in for an unattended physical-console host.
#[derive(Debug, Clone, Copy)]
pub struct UnattendedConsoleConfig {
    /// Enables explicit unattended-console access.
    pub enabled: bool,
    /// The local owner's explicit permission for an already trusted,
    /// view-authorized client to start a headless session. Unknown clients are
    /// always rejected; this is deliberately not a general auto-accept flag.
    pub allow_trusted_clients: bool,
    /// Maximum time a one-shot screenshot capture may occupy the agent.
    pub capture_timeout_secs: u64,
    /// Minimum gap between captures within one encrypted session.
    pub min_capture_interval_secs: u64,
    /// Refuse a screenshot larger than this after PNG encoding.
    pub max_capture_bytes: usize,
}

/// Limits of a host that serves screenshots of a headless session on the local
/// network.
#[derive(Debug, Clone, Copy)]
pub struct HeadlessConfig {
    /// Maximum time a screenshot capture may take.
    pub capture_timeout_secs: u64,
    /// Minimum gap between captures within one session.
    pub min_capture_interval_secs: u64,
    /// Refuse a screenshot larger than this after PNG encoding.
    pub max_capture_bytes: usize,
}

/// Heartbeat interval of a configuration that names none, in seconds.
pub const DEFAULT_HEARTBEAT_SECS: u64 = 10;

/// Reconnect backoff cap of a configuration that names none, in seconds.
pub const DEFAULT_RECONNECT_CAP_SECS: u64 = 60;

/// Capture timeout of a configuration that names none, in seconds.
pub const DEFAULT_CAPTURE_TIMEOUT_SECS: u64 = 10;

/// Capture interval of a configuration that names none, in seconds.
pub const DEFAULT_CAPTURE_INTERVAL_SECS: u64 = 2;

/// Capture size limit of a configuration that names none: 8 MiB.
pub const DEFAULT_MAX_CAPTURE_BYTES: usize = 8388608;

impl Default for UnattendedConsoleConfig {
    /// No access, and the default limits.
    fn default() -> (config: Self)
        ensures
            !config.enabled,
            !config.allow_trusted_clients,
            config.capture_timeout_secs == DEFAULT_CAPTURE_TIMEOUT_SECS,
            config.min_capture_interval_secs == DEFAULT_CAPTURE_INTERVAL_SECS,
            config.max_capture_bytes == DEFAULT_MAX_CAPTURE_BYTES,
            config.capture_timeout_secs == 10,
            config.min_capture_interval_secs == 2,
            config.max_capture_bytes == 8 * 1024 * 1024,
    {
        UnattendedConsoleConfig {
            enabled: false,
            allow_trusted_clients: false,
            capture_timeout_secs: DEFAULT_CAPTURE_TIMEOUT_SECS,
            min_capture_interval_secs: DEFAULT_CAPTURE_INTERVAL_SECS,
            max_capture_bytes: DEFAULT_MAX_CAPTURE_BYTES,
        }
    }
}

/// Whether `url` has the WebSocket scheme.
pub open spec fn is_ws_url(url: Seq<char>) -> bool {
    "ws://"@.is_prefix_of(url) || "wss://"@.is_prefix_of(url)
}

/// Whether `url` has the HTTP scheme.
pub open spec fn is_http_url(url: Seq<char>) -> bool {
    "http://"@.is_prefix_of(url) || "https://"@.is_prefix_of(url)
}

impl AgentConfig {
    /// What is wrong with the configuration; the first fault counts.
    pub open spec fn fault(&self) -> Option<AgentErrorView> {
        if !is_ws_url(self.relay_url@) {
            Some(AgentErrorView::Config("relay_url must start with ws:// or wss://"@))
        } else if !is_http_url(self.relay_http_url@) {
            Some(AgentErrorView::Config("relay_http_url must start with http:// or https://"@))
        } else if self.device_name@.len() == 0 {
            Some(AgentErrorView::Config("device_name is required"@))
        } else if self.heartbeat_secs == 0 {
            Some(AgentErrorView::Config("heartbeat_secs must be > 0"@))
        } else if self.unattended_console.capture_timeout_secs == 0 {
            Some(AgentErrorView::Config("unattended_console.capture_timeout_secs must be > 0"@))
        } else if self.unattended_console.min_capture_interval_secs == 0 {
            Some(
                AgentErrorView::Config("unattended_console.min_capture_interval_secs must be > 0"@),
            )
        } else if self.unattended_console.max_capture_bytes == 0 {
            Some(AgentErrorView::Config("unattended_console.max_capture_bytes must be > 0"@))
        } else {
            None
        }
    }

    /// Reject obviously broken values before they reach networking code.
    pub fn validate(&self) -> (r: AgentResult<()>)
        ensures
            error::fails_with(r, self.fault()),
    {
        if !starts_with(self.relay_url.as_str(), "ws://") && !starts_with(
            self.relay_url.as_str(),
            "wss://",
        ) {
            return Err(config_error("relay_url must start with ws:// or wss://"));
        }
        if !starts_with(self.relay_http_url.as_str(), "http://") && !starts_with(
            self.relay_http_url.as_str(),
            "https://",
        ) {
            return Err(config_error("relay_http_url must start with http:// or https://"));
        }
        if self.device_name.as_str().is_empty() {
            return Err(config_error("device_name is required"));
        }
        if self.heartbeat_secs == 0 {
            return Err(config_error("heartbeat_secs must be > 0"));
        }
        if self.unattended_console.capture_timeout_secs == 0 {
            return Err(config_error("unattended_console.capture_timeout_secs must be > 0"));
        }
        if self.unattended_console.min_capture_interval_secs == 0 {
            return Err(config_error("unattended_console.min_capture_interval_secs must be > 0"));
        }
        if self.unattended_console.max_capture_bytes == 0 {
            return Err(config_error("unattended_console.max_capture_bytes must be > 0"));
        }
        Ok(())
    }
}

/// The direct-LAN transport of the physical console.
#[derive(Debug)]
pub struct LanConsoleTransportConfig {
    pub enabled: bool,
    /// The address to listen on.
    pub bind_address: String,
    pub port: u16,
}

/// The relay transport of the physical console.
#[derive(Debug, Clone, Copy)]
pub struct RelayConsoleTransportConfig {
    pub enabled: bool,
}

/// The transports by which the physical console can be reached.
#[derive(Debug)]
pub struct ConsoleTransportConfig {
    pub lan: LanConsoleTransportConfig,
    pub relay: RelayConsoleTransportConfig,
}

/// A configuration is good exactly if both URLs have their schemes, the device has a
/// name, and the heartbeat and every limit are above zero; the reconnect cap may be
/// anything.
pub proof fn good_configurations(config: AgentConfig)
    ensures
        config.fault() is None <==> {
            &&& "ws://"@.is_prefix_of(config.relay_url@) || "wss://"@.is_prefix_of(
                config.relay_url@,
            )
            &&& "http://"@.is_prefix_of(config.relay_http_url@) || "https://"@.is_prefix_of(
                config.relay_http_url@,
            )
            &&& config.device_name@.len() > 0
            &&& config.heartbeat_secs > 0
            &&& config.unattended_console.capture_timeout_secs > 0
            &&& config.unattended_console.min_capture_interval_secs > 0
            &&& config.unattended_console.max_capture_bytes > 0
        },
        config.fault() matches Some(fault) ==> fault is Config,
{
}

} // verus!
