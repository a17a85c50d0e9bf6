//! The decisions behind the agent's commands.

use std::time::Duration;
use vstd::prelude::*;
use vstd::string::*;

use super::config;
use super::config::{
    AgentConfig, ConsoleTransportConfig, LanConsoleTransportConfig, RelayConsoleTransportConfig,
    UnattendedConsoleConfig, DEFAULT_HEARTBEAT_SECS, DEFAULT_RECONNECT_CAP_SECS,
};
use super::error;
use super::error::{config_error, AgentError, AgentErrorView, AgentResult};
use super::session::host::ConsentPolicy;
use super::trusted::TrustedEntry;
use crate::crypto::identity::VerifyingKey;
use crate::crypto::primitives;
use crate::encoding;
use crate::encoding::{decode_fixed_32, FixedBytesError};
use crate::text;
use crate::text::{joined, trim};
use crate::time;
use crate::types::DeviceId;

verus! {

/// Seconds to wait after so many failed attempts in a row: 1, 2, 4, 8, 16, then 30.
pub open spec fn delay_secs(failed_attempts: u32) -> nat {
    if failed_attempts == 0 {
        1
    } else if failed_attempts == 1 {
        2
    } else if failed_attempts == 2 {
        4
    } else if failed_attempts == 3 {
        8
    } else if failed_attempts == 4 {
        16
    } else {
        30
    }
}

/// Bounded exponential reconnect delay: 1, 2, 4, 8, 16, then 30 seconds.
/// Keeping this deterministic makes the recovery behavior testable and avoids
/// a tight reconnect loop when a relay is intentionally offline.
pub fn reconnect_delay(failed_attempts: u32) -> (delay: Duration)
    ensures
        time::nanos(delay) == delay_secs(failed_attempts) * time::NANOS_PER_SEC,
{
    let seconds: u64 = match failed_attempts {
        0..=4 => {
            assert(1u64 << 0u32 == 1) by (bit_vector);
            assert(1u64 << 1u32 == 2) by (bit_vector);
            assert(1u64 << 2u32 == 4) by (bit_vector);
            assert(1u64 << 3u32 == 8) by (bit_vector);
            assert(1u64 << 4u32 == 16) by (bit_vector);
            1u64 << failed_attempts
        },
        _ => 30,
    };
    Duration::from_secs(seconds)
}

/// The wait never shrinks while attempts keep failing, and lies between one and
/// thirty seconds.
pub proof fn reconnect_delay_is_bounded(fewer: u32, more: u32)
    requires
        fewer <= more,
    ensures
        1 <= delay_secs(fewer) <= delay_secs(more) <= 30,
{
}

/// Seconds to wait after so many failed attempts in a row, where no wait may be
/// longer than `cap_secs`.
pub open spec fn capped_delay_secs(failed_attempts: u32, cap_secs: u64) -> nat {
    if delay_secs(failed_attempts) <= cap_secs {
        delay_secs(failed_attempts)
    } else {
        cap_secs as nat
    }
}

/// A capped wait never shrinks while attempts keep failing, and is never longer
/// than the cap or than thirty seconds. A cap of at least one second leaves a wait
/// of at least one second, and a cap of thirty seconds or more changes no wait.
pub proof fn capped_delay_is_bounded(fewer: u32, more: u32, cap_secs: u64)
    requires
        fewer <= more,
    ensures
        capped_delay_secs(fewer, cap_secs) <= capped_delay_secs(more, cap_secs) <= cap_secs,
        capped_delay_secs(more, cap_secs) <= 30,
        cap_secs >= 1 ==> capped_delay_secs(fewer, cap_secs) >= 1,
        cap_secs >= 30 ==> capped_delay_secs(more, cap_secs) == delay_secs(more),
{
}

/// How long to wait, in seconds, before a LAN listener that failed is started
/// again.
pub const LAN_RETRY_SECS: u64 = 5;

/// The count of failed attempts of a supervisor that reconnects for ever.
pub struct ReconnectBackoff {
    failed_attempts: u32,
}

impl ReconnectBackoff {
    /// The failed attempts in a row.
    pub closed spec fn failures(&self) -> u32 {
        self.failed_attempts
    }

    /// No attempt has failed yet.
    pub fn new() -> (backoff: Self)
        ensures
            backoff.failures() == 0,
    {
        ReconnectBackoff { failed_attempts: 0 }
    }

    /// A connection was made: the count starts over.
    pub fn connected(&mut self)
        ensures
            final(self).failures() == 0,
    {
        self.failed_attempts = 0;
    }

    /// The wait before the next attempt, at most `cap_secs` seconds.
    pub fn next_delay(&mut self, cap_secs: u64) -> (delay: Duration)
        ensures
            time::nanos(delay) == capped_delay_secs(old(self).failures(), cap_secs)
                * time::NANOS_PER_SEC,
            final(self).failures() == (if old(self).failures() == u32::MAX {
                u32::MAX
            } else {
                (old(self).failures() + 1) as u32
            }),
    {
        let uncapped = reconnect_delay(self.failed_attempts);
        let delay = if uncapped.as_secs() <= cap_secs {
            uncapped
        } else {
            Duration::from_secs(cap_secs)
        };
        self.failed_attempts = self.failed_attempts.saturating_add(1);
        delay
    }
}

/// Whether `policy` bounds captures as the configuration says.
pub open spec fn bounds_like(policy: ConsentPolicy, limits: UnattendedConsoleConfig) -> bool {
    match policy {
        ConsentPolicy::Prompt => false,
        ConsentPolicy::HeadlessTrustedOnly {
            min_capture_interval,
            capture_timeout,
            max_capture_bytes,
        } => {
            &&& time::nanos(min_capture_interval) == limits.min_capture_interval_secs
                * time::NANOS_PER_SEC
            &&& time::nanos(capture_timeout) == limits.capture_timeout_secs * time::NANOS_PER_SEC
            &&& max_capture_bytes == limits.max_capture_bytes
        },
        ConsentPolicy::UnattendedConsole {
            min_capture_interval,
            capture_timeout,
            max_capture_bytes,
        } => {
            &&& time::nanos(min_capture_interval) == limits.min_capture_interval_secs
                * time::NANOS_PER_SEC
            &&& time::nanos(capture_timeout) == limits.capture_timeout_secs * time::NANOS_PER_SEC
            &&& max_capture_bytes == limits.max_capture_bytes
        },
    }
}

/// The policy of a physical-console host.
pub fn physical_console_policy(limits: &UnattendedConsoleConfig) -> (policy: ConsentPolicy)
    ensures
        policy is UnattendedConsole,
        bounds_like(policy, *limits),
{
    ConsentPolicy::UnattendedConsole {
        min_capture_interval: Duration::from_secs(limits.min_capture_interval_secs),
        capture_timeout: Duration::from_secs(limits.capture_timeout_secs),
        max_capture_bytes: limits.max_capture_bytes,
    }
}

/// The policy of a host. An unattended one needs both opt-ins of its owner.
pub fn host_policy(limits: &UnattendedConsoleConfig, headless: bool, physical_console: bool) -> (r:
    AgentResult<ConsentPolicy>)
    ensures
        error::fails_with(
            r,
            if headless && !(limits.enabled && limits.allow_trusted_clients) {
                Some(
                    AgentErrorView::Config(
                        "unattended console requires local config with unattended_console.enabled and unattended_console.allow_trusted_clients both set to true"@,
                    ),
                )
            } else {
                None
            },
        ),
        r matches Ok(policy) ==> if !headless {
            policy is Prompt
        } else if physical_console {
            policy is UnattendedConsole && bounds_like(policy, *limits)
        } else {
            policy is HeadlessTrustedOnly && bounds_like(policy, *limits)
        },
        r is Err <==> needs_opt_in(*limits, headless),
        r matches Ok(policy) ==> is_policy_of(policy, *limits, headless, physical_console),
{
    if !headless {
        return Ok(ConsentPolicy::Prompt);
    }
    if !limits.enabled || !limits.allow_trusted_clients {
        return Err(
            config_error(
                "unattended console requires local config with unattended_console.enabled and unattended_console.allow_trusted_clients both set to true",
            ),
        );
    }
    if physical_console {
        return Ok(physical_console_policy(limits));
    }
    Ok(
        ConsentPolicy::HeadlessTrustedOnly {
            min_capture_interval: Duration::from_secs(limits.min_capture_interval_secs),
            capture_timeout: Duration::from_secs(limits.capture_timeout_secs),
            max_capture_bytes: limits.max_capture_bytes,
        },
    )
}

/// The device ID with which a host authenticates.
pub fn host_device_id(config: &AgentConfig) -> (r: AgentResult<DeviceId>)
    ensures
        error::fails_with(
            r,
            match config.device_id {
                Some(_) => None,
                None => Some(
                    AgentErrorView::Config("device_id missing — run `rivet-agent register` first"@),
                ),
            },
        ),
        r matches Ok(id) ==> config.device_id == Some(id),
{
    match config.device_id {
        Some(id) => Ok(id),
        None => Err(config_error("device_id missing — run `rivet-agent register` first")),
    }
}

/// The device ID, for showing it.
pub fn device_id(config: &AgentConfig) -> (r: AgentResult<DeviceId>)
    ensures
        error::fails_with(
            r,
            match config.device_id {
                Some(_) => None,
                None => Some(AgentErrorView::Config("device_id is not registered yet"@)),
            },
        ),
        r matches Ok(id) ==> config.device_id == Some(id),
{
    match config.device_id {
        Some(id) => Ok(id),
        None => Err(config_error("device_id is not registered yet")),
    }
}

/// Which transports of the physical console to start.
#[derive(Debug, Clone, Copy)]
pub struct BrokerPlan {
    pub lan: bool,
    /// The device ID to authenticate with at the relay.
    pub relay: Option<DeviceId>,
}

/// What keeps the physical-console broker from starting.
pub open spec fn broker_fault(config: AgentConfig, transports: ConsoleTransportConfig) -> Option<
    AgentErrorView,
> {
    if !(config.unattended_console.enabled && config.unattended_console.allow_trusted_clients) {
        Some(
            AgentErrorView::Config(
                "physical console requires local unattended_console.enabled and unattended_console.allow_trusted_clients"@,
            ),
        )
    } else if transports.relay.enabled && config.device_id is None {
        Some(
            AgentErrorView::Config(
                "device_id missing — register the relay transport before enabling it"@,
            ),
        )
    } else if !transports.lan.enabled && !transports.relay.enabled {
        Some(AgentErrorView::Config("no physical-console transport enabled"@))
    } else {
        None
    }
}

/// Which transports of the physical console to start.
pub fn plan_physical_console(config: &AgentConfig, transports: &ConsoleTransportConfig) -> (r:
    AgentResult<BrokerPlan>)
    ensures
        error::fails_with(r, broker_fault(*config, *transports)),
        r matches Ok(plan) ==> {
            &&& plan.lan == transports.lan.enabled
            &&& plan.relay == (if transports.relay.enabled {
                config.device_id
            } else {
                None
            })
        },
{
    if !config.unattended_console.enabled || !config.unattended_console.allow_trusted_clients {
        return Err(
            config_error(
                "physical console requires local unattended_console.enabled and unattended_console.allow_trusted_clients",
            ),
        );
    }
    let relay = if transports.relay.enabled {
        match config.device_id {
            Some(id) => Some(id),
            None => {
                return Err(
                    config_error(
                        "device_id missing — register the relay transport before enabling it",
                    ),
                );
            },
        }
    } else {
        None
    };
    if !transports.lan.enabled && !transports.relay.enabled {
        return Err(config_error("no physical-console transport enabled"));
    }
    Ok(BrokerPlan { lan: transports.lan.enabled, relay })
}

/// Select the transports of the physical console: at least one, on a
/// configuration without fault.
pub fn configure_console_transports(
    config: &AgentConfig,
    transports: &mut ConsoleTransportConfig,
    lan: bool,
    relay: bool,
    lan_port: u16,
) -> (r: AgentResult<()>)
    ensures
        error::fails_with(
            r,
            if !lan && !relay {
                Some(AgentErrorView::Config("select at least one console transport"@))
            } else {
                config.fault()
            },
        ),
        r is Ok ==> {
            &&& final(transports).lan.enabled == lan
            &&& final(transports).lan.port == lan_port
            &&& final(transports).lan.bind_address == old(transports).lan.bind_address
            &&& final(transports).relay.enabled == relay
        },
        r is Err ==> *final(transports) == *old(transports),
{
    if !lan && !relay {
        return Err(config_error("select at least one console transport"));
    }
    match config.validate() {
        Ok(()) => {
            transports.lan.enabled = lan;
            transports.lan.port = lan_port;
            transports.relay.enabled = relay;
            Ok(())
        },
        Err(e) => Err(e),
    }
}

/// What a new configuration is made of.
pub struct InitOptions {
    pub relay_url: String,
    pub relay_http_url: String,
    pub device_name: String,
    pub keystore_path: String,
    pub unattended_console: bool,
    pub allow_trusted_unattended_console: bool,
    pub enable_lan: bool,
    pub disable_relay: bool,
    pub lan_port: u16,
    /// The address to listen on for the LAN transport.
    pub lan_bind_address: String,
}

/// A new configuration, with the default limits.
pub fn initial_config(options: InitOptions) -> (r: AgentResult<
    (AgentConfig, ConsoleTransportConfig),
>)
    ensures
        r is Ok == (config::is_ws_url(options.relay_url@) && config::is_http_url(
            options.relay_http_url@,
        ) && options.device_name@.len() > 0),
        r matches Ok((config, _)) ==> config.heartbeat_secs == 10 && config.reconnect_cap_secs == 60,
        r matches Ok((config, transports)) ==> {
            &&& config.fault() is None
            &&& config.relay_url == options.relay_url
            &&& config.relay_http_url == options.relay_http_url
            &&& config.device_name == options.device_name
            &&& config.keystore_path == options.keystore_path
            &&& config.device_id is None
            &&& config.heartbeat_secs == DEFAULT_HEARTBEAT_SECS
            &&& config.reconnect_cap_secs == DEFAULT_RECONNECT_CAP_SECS
            &&& config.unattended_console.enabled == options.unattended_console
            &&& config.unattended_console.allow_trusted_clients
                == options.allow_trusted_unattended_console
            &&& config.unattended_console.capture_timeout_secs
                == config::DEFAULT_CAPTURE_TIMEOUT_SECS
            &&& config.unattended_console.min_capture_interval_secs
                == config::DEFAULT_CAPTURE_INTERVAL_SECS
            &&& config.unattended_console.max_capture_bytes == config::DEFAULT_MAX_CAPTURE_BYTES
            &&& transports.lan.enabled == options.enable_lan
            &&& transports.lan.port == options.lan_port
            &&& transports.lan.bind_address == options.lan_bind_address
            &&& transports.relay.enabled == !options.disable_relay
        },
        r matches Err(e) ==> e@ == AgentErrorView::Config(
            if !config::is_ws_url(options.relay_url@) {
                "relay_url must start with ws:// or wss://"@
            } else if !config::is_http_url(options.relay_http_url@) {
                "relay_http_url must start with http:// or https://"@
            } else {
                "device_name is required"@
            },
        ),
{
    let mut unattended_console = UnattendedConsoleConfig::default();
    unattended_console.enabled = options.unattended_console;
    unattended_console.allow_trusted_clients = options.allow_trusted_unattended_console;
    let config = AgentConfig {
        relay_url: options.relay_url,
        relay_http_url: options.relay_http_url,
        device_name: options.device_name,
        keystore_path: options.keystore_path,
        device_id: None,
        heartbeat_secs: DEFAULT_HEARTBEAT_SECS,
        reconnect_cap_secs: DEFAULT_RECONNECT_CAP_SECS,
        unattended_console,
    };
    match config.validate() {
        Ok(()) => {},
        Err(e) => {
            return Err(e);
        },
    }
    let transports = ConsoleTransportConfig {
        lan: LanConsoleTransportConfig {
            enabled: options.enable_lan,
            bind_address: options.lan_bind_address,
            port: options.lan_port,
        },
        relay: RelayConsoleTransportConfig { enabled: !options.disable_relay },
    };
    Ok((config, transports))
}

/// What keeps a client from being trusted under a name.
pub open spec fn trust_fault(public_key: Seq<char>, name: Seq<char>) -> Option<AgentErrorView> {
    if text::trimmed(name).len() == 0 {
        Some(AgentErrorView::Config("trusted client name is required"@))
    } else {
        match encoding::base64_decoded(text::trimmed(public_key)) {
            Err(fault) => Some(AgentErrorView::Base64(fault)),
            Ok(raw) => if raw.len() != 32 {
                Some(
                    AgentErrorView::Config(
                        "trusted client identity must be a 32-byte Ed25519 public key"@,
                    ),
                )
            } else if !primitives::ed25519_is_key(raw) {
                Some(
                    AgentErrorView::Config(
                        "invalid trusted client identity: "@
                            + "signature error: Cannot decompress Edwards point"@,
                    ),
                )
            } else {
                None
            },
        }
    }
}

/// The entry with which the owner trusts a client, once its key and its name
/// are found good.
pub fn trusted_client_entry(
    public_key: &str,
    name: &str,
    allow_unattended_console: bool,
    allow_console_control: bool,
) -> (r: AgentResult<TrustedEntry>)
    ensures
        error::fails_with(r, trust_fault(public_key@, name@)),
        r matches Ok(entry) ==> {
            &&& entry.name@ == text::trimmed(name@)
            &&& entry.can_view
            &&& entry.can_control == allow_console_control
            &&& entry.can_unattended_console == allow_unattended_console
        },
{
    let label = trim(name);
    if label.as_str().is_empty() {
        return Err(config_error("trusted client name is required"));
    }
    let key = match decode_fixed_32(public_key) {
        Ok(key) => key,
        Err(FixedBytesError::Base64(fault)) => {
            return Err(AgentError::Base64(fault));
        },
        Err(FixedBytesError::Length(_)) => {
            return Err(
                config_error("trusted client identity must be a 32-byte Ed25519 public key"),
            );
        },
    };
    match VerifyingKey::from_bytes(&key) {
        Ok(_) => {},
        Err(fault) => {
            return Err(
                AgentError::Config(joined("invalid trusted client identity: ", fault.as_str())),
            );
        },
    }
    Ok(
        TrustedEntry {
            name: label,
            can_view: true,
            can_control: allow_console_control,
            can_unattended_console: allow_unattended_console,
        },
    )
}

/// Whether `policy` is that of a host that was started so.
pub open spec fn is_policy_of(
    policy: ConsentPolicy,
    limits: UnattendedConsoleConfig,
    headless: bool,
    physical_console: bool,
) -> bool {
    if !headless {
        policy is Prompt
    } else if physical_console {
        policy is UnattendedConsole && bounds_like(policy, limits)
    } else {
        policy is HeadlessTrustedOnly && bounds_like(policy, limits)
    }
}

/// A host with somebody at it asks; an unattended one is of the physical console or
/// takes screenshots, and has the configured limits, in seconds and bytes.
pub proof fn unattended_hosts_have_the_configured_limits(
    policy: ConsentPolicy,
    limits: UnattendedConsoleConfig,
    headless: bool,
    physical_console: bool,
)
    requires
        is_policy_of(policy, limits, headless, physical_console),
    ensures
        policy is Prompt <==> !headless,
        policy is UnattendedConsole <==> headless && physical_console,
        policy is HeadlessTrustedOnly <==> headless && !physical_console,
        policy matches ConsentPolicy::UnattendedConsole {
            min_capture_interval,
            capture_timeout,
            max_capture_bytes,
        } ==> time::nanos(min_capture_interval) == limits.min_capture_interval_secs * 1000000000
            && time::nanos(capture_timeout) == limits.capture_timeout_secs * 1000000000
            && max_capture_bytes == limits.max_capture_bytes,
        policy matches ConsentPolicy::HeadlessTrustedOnly {
            min_capture_interval,
            capture_timeout,
            max_capture_bytes,
        } ==> time::nanos(min_capture_interval) == limits.min_capture_interval_secs * 1000000000
            && time::nanos(capture_timeout) == limits.capture_timeout_secs * 1000000000
            && max_capture_bytes == limits.max_capture_bytes,
{
}

/// What keeps an unattended host from starting.
pub open spec fn needs_opt_in(limits: UnattendedConsoleConfig, headless: bool) -> bool {
    headless && !(limits.enabled && limits.allow_trusted_clients)
}

/// An unattended host needs both opt-ins of its owner, one with somebody at it none.
pub proof fn unattended_hosts_need_both_opt_ins(limits: UnattendedConsoleConfig, headless: bool)
    ensures
        !headless ==> !needs_opt_in(limits, headless),
        headless ==> (needs_opt_in(limits, headless) <==> !limits.enabled
            || !limits.allow_trusted_clients),
{
}

/// The broker of the physical console starts exactly if the owner opted in twice, at
/// least one transport is enabled, and the relay, where it is, knows the device.
pub proof fn broker_starts_when_opted_in(
    config: AgentConfig,
    transports: ConsoleTransportConfig,
)
    ensures
        broker_fault(config, transports) is None <==> {
            &&& config.unattended_console.enabled
            &&& config.unattended_console.allow_trusted_clients
            &&& transports.lan.enabled || transports.relay.enabled
            &&& transports.relay.enabled ==> config.device_id is Some
        },
        broker_fault(config, transports) matches Some(fault) ==> fault is Config,
{
}

/// The owner trusts a client exactly under a name that is not blank and with a key
/// that is base64 of the 32 bytes of a point.
pub proof fn trust_needs_a_name_and_a_key(public_key: Seq<char>, name: Seq<char>)
    ensures
        trust_fault(public_key, name) is None <==> {
            &&& text::trimmed(name).len() > 0
            &&& encoding::base64_decoded(text::trimmed(public_key)) matches Ok(raw)
            &&& raw.len() == 32
            &&& primitives::ed25519_is_key(raw)
        },
{
}

/// The waits double from one second, and are thirty seconds from the sixth on.
pub proof fn reconnect_delay_doubles(failed_attempts: u32)
    ensures
        delay_secs(0) == 1,
        failed_attempts < 4 ==> delay_secs((failed_attempts + 1) as u32) == 2 * delay_secs(
            failed_attempts,
        ),
        failed_attempts >= 5 ==> delay_secs(failed_attempts) == 30,
{
}

/// A capped wait is the uncapped one, or the cap where that is shorter.
pub proof fn capped_delay_is_the_shorter(failed_attempts: u32, cap_secs: u64)
    ensures
        capped_delay_secs(failed_attempts, cap_secs) <= delay_secs(failed_attempts),
        capped_delay_secs(failed_attempts, cap_secs) <= cap_secs,
        capped_delay_secs(failed_attempts, cap_secs) == delay_secs(failed_attempts)
            || capped_delay_secs(failed_attempts, cap_secs) == cap_secs,
{
}

/// A policy without an operator has the limits of the configuration, the times in whole
/// seconds; one that asks the operator has none.
pub proof fn policies_keep_the_configured_limits(
    policy: ConsentPolicy,
    limits: UnattendedConsoleConfig,
)
    ensures
        policy is Prompt ==> !bounds_like(policy, limits),
        bounds_like(policy, limits) ==> {
            let (interval, timeout, most) = match policy {
                ConsentPolicy::HeadlessTrustedOnly {
                    min_capture_interval,
                    capture_timeout,
                    max_capture_bytes,
                } => (min_capture_interval, capture_timeout, max_capture_bytes),
                ConsentPolicy::UnattendedConsole {
                    min_capture_interval,
                    capture_timeout,
                    max_capture_bytes,
                } => (min_capture_interval, capture_timeout, max_capture_bytes),
                ConsentPolicy::Prompt => arbitrary(),
            };
            &&& time::nanos(interval) == limits.min_capture_interval_secs * 1000000000
            &&& time::nanos(timeout) == limits.capture_timeout_secs * 1000000000
            &&& most == limits.max_capture_bytes
        },
{
}

} // verus!
