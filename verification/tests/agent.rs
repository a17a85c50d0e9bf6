//! The agent's configuration, keys, trust, registration and relay.

use std::time::Duration;

use base64::Engine;

use rivetlink::agent::config::{
    AgentConfig, ConsoleTransportConfig, LanConsoleTransportConfig, RelayConsoleTransportConfig,
    UnattendedConsoleConfig,
};
use rivetlink::agent::error::AgentError;
use rivetlink::agent::keystore::{
    generate_encryption, generate_signing, FileKeyStore, StoredKey,
};
use rivetlink::agent::registration::{
    body_of, parse_base_url, registered_device, registration_body, registration_head,
};
use rivetlink::agent::relay::{
    answer_challenge, check_ack, expect_text, pump, AuthAck, Awaiting, Inbound, Pump,
};
use rivetlink::agent::runner::{
    configure_console_transports, device_id, host_device_id, host_policy, initial_config,
    physical_console_policy, plan_physical_console, reconnect_delay, trusted_client_entry,
    InitOptions, ReconnectBackoff, LAN_RETRY_SECS,
};
use rivetlink::agent::session::host::ConsentPolicy;
use rivetlink::agent::trusted::{TrustedClients, TrustedEntry};
use rivetlink::crypto::identity::SigningKey;
use rivetlink::types::DeviceId;

fn sample() -> AgentConfig {
    AgentConfig {
        relay_url: "wss://relay.test/ws".into(),
        relay_http_url: "https://relay.test".into(),
        device_name: "host-1".into(),
        keystore_path: "/tmp/keys".into(),
        device_id: None,
        heartbeat_secs: 10,
        reconnect_cap_secs: 60,
        unattended_console: UnattendedConsoleConfig::default(),
    }
}

fn transports(lan: bool, relay: bool) -> ConsoleTransportConfig {
    ConsoleTransportConfig {
        lan: LanConsoleTransportConfig {
            enabled: lan,
            bind_address: "0.0.0.0".to_string(),
            port: 7000,
        },
        relay: RelayConsoleTransportConfig { enabled: relay },
    }
}

fn b64(bytes: &[u8]) -> String {
    base64::engine::general_purpose::STANDARD.encode(bytes)
}

fn text_of<T>(r: Result<T, AgentError>) -> String {
    match r {
        Ok(_) => "ok".to_string(),
        Err(e) => e.to_string(),
    }
}

#[test]
fn validate_rejects_bad_url_scheme() {
    let mut cfg = sample();
    cfg.relay_url = "http://relay.test".into();
    assert!(cfg.validate().is_err());
}

#[test]
fn validate_rejects_empty_device_name() {
    let mut cfg = sample();
    cfg.device_name = String::new();
    assert!(cfg.validate().is_err());
}

#[test]
fn validate_rejects_zero_heartbeat() {
    let mut cfg = sample();
    cfg.heartbeat_secs = 0;
    assert!(cfg.validate().is_err());
}

#[test]
fn default_unattended_console_never_allows_access() {
    let cfg = sample();
    assert!(!cfg.unattended_console.enabled);
    assert!(!cfg.unattended_console.allow_trusted_clients);
}

#[test]
fn validate_rejects_unlimited_unattended_capture_rate() {
    let mut cfg = sample();
    cfg.unattended_console.min_capture_interval_secs = 0;
    assert!(cfg.validate().is_err());
}

#[test]
fn each_broken_value_is_named() {
    assert!(sample().validate().is_ok());
    let mut cfg = sample();
    cfg.relay_http_url = "ftp://relay.test".into();
    assert_eq!(
        text_of(cfg.validate()),
        "config error: relay_http_url must start with http:// or https://"
    );
    let mut cfg = sample();
    cfg.unattended_console.capture_timeout_secs = 0;
    assert_eq!(
        text_of(cfg.validate()),
        "config error: unattended_console.capture_timeout_secs must be > 0"
    );
    let mut cfg = sample();
    cfg.unattended_console.max_capture_bytes = 0;
    assert_eq!(
        text_of(cfg.validate()),
        "config error: unattended_console.max_capture_bytes must be > 0"
    );
    let defaults = UnattendedConsoleConfig::default();
    assert_eq!(
        (
            defaults.capture_timeout_secs,
            defaults.min_capture_interval_secs,
            defaults.max_capture_bytes,
        ),
        (10, 2, 8 * 1024 * 1024)
    );
}

#[test]
fn signing_key_is_persistent() {
    let stored = generate_signing();
    let first = stored.decode().unwrap();
    let second = stored.decode().unwrap();
    assert_eq!(first.0, second.0);
    assert_eq!(first.1, second.1);
}

#[test]
fn encryption_key_is_persistent() {
    let stored = generate_encryption();
    let first = stored.decode().unwrap();
    let second = stored.decode().unwrap();
    assert_eq!(first.0, second.0);
}

#[test]
fn reset_clears_keys() {
    let before = generate_signing().decode().unwrap();
    let after = generate_signing().decode().unwrap();
    assert_ne!(before.0, after.0, "reset must produce fresh key");
}

#[test]
fn signing_and_encryption_are_independent() {
    let sig = generate_signing().decode().unwrap();
    let enc = generate_encryption().decode().unwrap();
    assert_ne!(sig.0, enc.0);
}

#[test]
fn generated_keys_belong_together() {
    let (secret, public) = generate_signing().decode().unwrap();
    assert_eq!(SigningKey::from_bytes(&secret).verifying_key().to_bytes(), public);
    let (secret, public) = generate_encryption().decode().unwrap();
    let secret = x25519_dalek::StaticSecret::from(secret);
    assert_eq!(x25519_dalek::PublicKey::from(&secret).to_bytes(), public);
}

#[test]
fn stored_keys_are_checked() {
    let stored = StoredKey::new(&[1; 32], &[2; 32]);
    assert_eq!(stored.secret_b64, b64(&[1; 32]));
    assert_eq!(stored.decode().unwrap(), ([1; 32], [2; 32]));
    let short = StoredKey { secret_b64: b64(&[1; 31]), public_b64: b64(&[2; 32]) };
    assert!(matches!(short.decode(), Err(AgentError::Keystore(_))));
    let broken = StoredKey { secret_b64: "?".to_string(), public_b64: b64(&[2; 32]) };
    assert!(matches!(broken.decode(), Err(AgentError::Base64(_))));
}

#[test]
fn keys_lie_in_the_store() {
    let store = FileKeyStore::new("/var/keys".to_string());
    assert_eq!(store.signing_path(), "/var/keys/signing.json");
    assert_eq!(store.encryption_path(), "/var/keys/encryption.json");
    assert_eq!(store.trusted_path(), "/var/keys/trusted_clients.json");
}

#[test]
fn parse_http_base_url() {
    let (host, port, prefix, tls) = parse_base_url("http://127.0.0.1:8080").unwrap();
    assert_eq!(host, "127.0.0.1");
    assert_eq!(port, 8080);
    assert_eq!(prefix, "");
    assert!(!tls);
}

#[test]
fn parse_http_base_url_with_path() {
    let (host, port, prefix, _) = parse_base_url("http://relay.test:9090/api").unwrap();
    assert_eq!(host, "relay.test");
    assert_eq!(port, 9090);
    assert_eq!(prefix, "/api");
}

#[test]
fn parse_http_default_port() {
    let (_, port, _, _) = parse_base_url("http://relay.test").unwrap();
    assert_eq!(port, 80);
}

#[test]
fn parse_https_rejected_for_now() {
    let result = parse_base_url("https://relay.test");
    assert!(result.is_err(), "https not yet supported");
}

#[test]
fn parse_rejects_other_schemes() {
    assert!(parse_base_url("ftp://relay.test").is_err());
}

#[test]
fn a_registration_is_requested_and_read() {
    assert_eq!(
        registration_head("/api", "relay.test", "TOKEN", 42),
        "POST /api/devices/register HTTP/1.1\r\nHost: relay.test\r\n\
         Authorization: Bearer TOKEN\r\nContent-Type: application/json\r\n\
         Content-Length: 42\r\nConnection: close\r\n\r\n"
    );
    let response = b"HTTP/1.1 200 OK\r\nX: y\r\n\r\n{\"id\":\"1\"}";
    assert_eq!(registration_body(response).unwrap(), "{\"id\":\"1\"}");
    assert_eq!(text_of(body_of("")), "relay connection error: empty response");
    assert_eq!(
        text_of(body_of("HTTP/1.1 403 Forbidden\r\n\r\n")),
        "relay connection error: registration failed: HTTP/1.1 403 Forbidden"
    );
    assert_eq!(
        text_of(body_of("HTTP/1.1 200 OK\r\n")),
        "relay connection error: malformed http response"
    );
}

#[test]
fn a_registered_device_has_an_id() {
    let id = "01890a5d-ac96-774b-bcce-b302099a8057";
    let device = registered_device(id).unwrap();
    assert_eq!(device.device_id, DeviceId(0x01890a5d_ac96_774b_bcce_b302099a8057));
    assert_eq!(device.device_id.to_string(), id);
    assert!(text_of(registered_device("none"))
        .starts_with("relay connection error: relay returned invalid device id: "));
}

#[test]
fn relay_reconnect_backoff_is_bounded() {
    assert_eq!(reconnect_delay(0), std::time::Duration::from_secs(1));
    assert_eq!(reconnect_delay(3), std::time::Duration::from_secs(8));
    assert_eq!(reconnect_delay(4), std::time::Duration::from_secs(16));
    assert_eq!(reconnect_delay(5), std::time::Duration::from_secs(30));
    assert_eq!(reconnect_delay(100), std::time::Duration::from_secs(30));
}

#[test]
fn a_connection_resets_the_backoff() {
    let mut backoff = ReconnectBackoff::new();
    let delays: Vec<u64> = (0..7).map(|_| backoff.next_delay(60).as_secs()).collect();
    assert_eq!(delays, [1, 2, 4, 8, 16, 30, 30]);
    backoff.connected();
    assert_eq!(backoff.next_delay(60), Duration::from_secs(1));
}

#[test]
fn the_configured_cap_bounds_the_backoff() {
    let mut backoff = ReconnectBackoff::new();
    let delays: Vec<u64> = (0..7).map(|_| backoff.next_delay(10).as_secs()).collect();
    assert_eq!(delays, [1, 2, 4, 8, 10, 10, 10]);
    assert_eq!(backoff.next_delay(30), Duration::from_secs(30));
    assert_eq!(backoff.next_delay(29), Duration::from_secs(29));
    assert_eq!(LAN_RETRY_SECS, 5);
}

#[test]
fn unattended_access_needs_both_opt_ins() {
    let mut limits = UnattendedConsoleConfig::default();
    assert_eq!(host_policy(&limits, false, false).unwrap(), ConsentPolicy::Prompt);
    for (enabled, allow) in [(false, false), (true, false), (false, true)] {
        limits.enabled = enabled;
        limits.allow_trusted_clients = allow;
        assert!(host_policy(&limits, true, false).is_err());
    }
    limits.enabled = true;
    limits.allow_trusted_clients = true;
    let console = ConsentPolicy::UnattendedConsole {
        min_capture_interval: Duration::from_secs(2),
        capture_timeout: Duration::from_secs(10),
        max_capture_bytes: 8388608,
    };
    assert_eq!(host_policy(&limits, true, true).unwrap(), console);
    assert_eq!(physical_console_policy(&limits), console);
    assert_eq!(
        host_policy(&limits, true, false).unwrap(),
        ConsentPolicy::HeadlessTrustedOnly {
            min_capture_interval: Duration::from_secs(2),
            capture_timeout: Duration::from_secs(10),
            max_capture_bytes: 8388608,
        }
    );
}

#[test]
fn a_device_must_be_registered() {
    let mut cfg = sample();
    assert_eq!(text_of(device_id(&cfg)), "config error: device_id is not registered yet");
    assert_eq!(
        text_of(host_device_id(&cfg)),
        "config error: device_id missing — run `rivet-agent register` first"
    );
    cfg.device_id = Some(DeviceId(7));
    assert_eq!(device_id(&cfg).unwrap(), DeviceId(7));
    assert_eq!(host_device_id(&cfg).unwrap(), DeviceId(7));
}

#[test]
fn a_physical_console_needs_a_transport() {
    let mut cfg = sample();
    assert_eq!(
        text_of(plan_physical_console(&cfg, &transports(true, false))),
        "config error: physical console requires local unattended_console.enabled and \
         unattended_console.allow_trusted_clients"
    );
    cfg.unattended_console.enabled = true;
    cfg.unattended_console.allow_trusted_clients = true;
    let plan = plan_physical_console(&cfg, &transports(true, false)).unwrap();
    assert!(plan.lan && plan.relay.is_none());
    assert_eq!(
        text_of(plan_physical_console(&cfg, &transports(true, true))),
        "config error: device_id missing — register the relay transport before enabling it"
    );
    assert_eq!(
        text_of(plan_physical_console(&cfg, &transports(false, false))),
        "config error: no physical-console transport enabled"
    );
    cfg.device_id = Some(DeviceId(7));
    let plan = plan_physical_console(&cfg, &transports(false, true)).unwrap();
    assert_eq!((plan.lan, plan.relay), (false, Some(DeviceId(7))));
}

#[test]
fn transports_are_selected() {
    let mut selected = transports(false, true);
    configure_console_transports(&sample(), &mut selected, true, false, 7100).unwrap();
    assert!(selected.lan.enabled && !selected.relay.enabled);
    assert_eq!(selected.lan.port, 7100);
    assert_eq!(
        text_of(configure_console_transports(&sample(), &mut selected, false, false, 1)),
        "config error: select at least one console transport"
    );
    assert_eq!(selected.lan.port, 7100);
}

#[test]
fn a_new_configuration_is_checked() {
    let options = || InitOptions {
        relay_url: "wss://relay.test/ws".to_string(),
        relay_http_url: "https://relay.test".to_string(),
        device_name: "host-1".to_string(),
        keystore_path: "/tmp/keys".to_string(),
        unattended_console: true,
        allow_trusted_unattended_console: false,
        enable_lan: true,
        disable_relay: true,
        lan_port: 7000,
        lan_bind_address: "0.0.0.0".to_string(),
    };
    let (cfg, transports) = initial_config(options()).unwrap();
    assert!(cfg.unattended_console.enabled && !cfg.unattended_console.allow_trusted_clients);
    assert_eq!((cfg.heartbeat_secs, cfg.reconnect_cap_secs), (10, 60));
    assert!(transports.lan.enabled && !transports.relay.enabled);
    let mut nameless = options();
    nameless.device_name = String::new();
    assert_eq!(text_of(initial_config(nameless)), "config error: device_name is required");
}

#[test]
fn only_a_key_can_be_trusted() {
    let key = b64(&SigningKey::from_bytes(&[5; 32]).verifying_key().to_bytes());
    let entry = trusted_client_entry(&format!(" {key} "), " Laptop ", true, false).unwrap();
    assert_eq!(entry.name, "Laptop");
    assert!(entry.can_view && !entry.can_control && entry.can_unattended_console);
    assert_eq!(
        text_of(trusted_client_entry(&key, "  ", true, false)),
        "config error: trusted client name is required"
    );
    assert!(text_of(trusted_client_entry("?", "x", true, false)).starts_with("invalid base64: "));
    assert_eq!(
        text_of(trusted_client_entry("AAAA", "x", true, false)),
        "config error: trusted client identity must be a 32-byte Ed25519 public key"
    );
    let mut off_curve = [0u8; 32];
    off_curve[0] = 2;
    assert!(text_of(trusted_client_entry(&b64(&off_curve), "x", true, false))
        .starts_with("config error: invalid trusted client identity: "));
}

fn entry() -> TrustedEntry {
    TrustedEntry {
        name: "laptop".to_string(),
        can_view: true,
        can_control: false,
        can_unattended_console: false,
    }
}

#[test]
fn empty_store_trusts_nobody() {
    let store = TrustedClients::new();
    assert!(store.is_empty());
    assert!(!store.is_trusted("abc"));
}

#[test]
fn trust_then_persist_and_reload() {
    let mut store = TrustedClients::new();
    store.trust("KEY123", entry());
    assert!(store.is_trusted("KEY123"));

    let mut reloaded = TrustedClients::new();
    for (key, entry) in store.entries() {
        reloaded.trust(key, entry.clone());
    }
    assert!(reloaded.is_trusted("KEY123"));
    assert_eq!(reloaded.get("KEY123").unwrap().name, "laptop");
}

#[test]
fn trim_is_applied() {
    let mut store = TrustedClients::new();
    store.trust("  KEY  ", entry());
    assert!(store.is_trusted("KEY"));
}

#[test]
fn revoke_removes() {
    let mut store = TrustedClients::new();
    store.trust("K", entry());
    store.revoke("K");
    assert!(!store.is_trusted("K"));
}

#[test]
fn console_permissions_are_separate() {
    let mut store = TrustedClients::new();
    store.trust("viewer", entry());
    assert!(!store.may_view_unattended_console("viewer"));
    store.trust("viewer", TrustedEntry { can_unattended_console: true, ..entry() });
    assert_eq!(store.len(), 1);
    assert!(store.may_view_unattended_console("viewer"));
    assert!(!store.may_control_unattended_console("viewer"));
    store.trust(
        "owner",
        TrustedEntry { can_control: true, can_unattended_console: true, ..entry() },
    );
    assert!(store.may_control_unattended_console(" owner"));
}

#[test]
fn a_frame_is_awaited() {
    let text = || Inbound::Text("t".to_string());
    assert_eq!(expect_text(text(), Awaiting::Challenge).unwrap(), "t");
    let cases = [
        (Inbound::Ended, Awaiting::AuthAck, "relay connection error: relay closed before AUTH ack"),
        (
            Inbound::Ended,
            Awaiting::Challenge,
            "relay connection error: relay closed before DEVICE_CHALLENGE",
        ),
        (
            Inbound::Ended,
            Awaiting::DeviceAck,
            "relay connection error: relay closed before AUTHENTICATED",
        ),
        (
            Inbound::Close("Close(None)".to_string()),
            Awaiting::AuthAck,
            "relay connection error: relay closed during AUTH",
        ),
        (
            Inbound::Close("Close(None)".to_string()),
            Awaiting::Challenge,
            "relay connection error: unexpected message awaiting challenge: Close(None)",
        ),
        (
            Inbound::Other("Ping".to_string()),
            Awaiting::DeviceAck,
            "relay connection error: unexpected message awaiting AUTHENTICATED: Ping",
        ),
        (Inbound::Failed("reset".to_string()), Awaiting::AuthAck, "websocket error: reset"),
    ];
    for (inbound, awaiting, text) in cases {
        assert_eq!(text_of(expect_text(inbound, awaiting)), text);
    }
}

#[test]
fn a_device_signs_its_challenge() {
    let key = SigningKey::from_bytes(&[5; 32]);
    let answer = answer_challenge(&key, &b64(b"nonce")).unwrap();
    assert_eq!(answer, b64(&key.sign(b"nonce").to_bytes()));
    assert!(text_of(answer_challenge(&key, "?")).starts_with("invalid base64: "));
    assert!(check_ack(AuthAck::Authenticated, "{}", Awaiting::DeviceAck).is_ok());
    assert_eq!(
        text_of(check_ack(AuthAck::Other, "no", Awaiting::AuthAck)),
        "relay connection error: AUTH rejected: no"
    );
    assert_eq!(
        text_of(check_ack(AuthAck::Other, "no", Awaiting::DeviceAck)),
        "relay connection error: DEVICE_AUTH rejected: no"
    );
}

#[test]
fn frames_are_pumped_until_the_end() {
    assert!(matches!(
        pump(Inbound::Text("t".to_string())).unwrap(),
        Pump::Dispatch(t) if t == "t"
    ));
    assert!(matches!(pump(Inbound::Other("Ping".to_string())).unwrap(), Pump::Ignore));
    assert!(matches!(pump(Inbound::Ended).unwrap(), Pump::Done));
    assert!(matches!(pump(Inbound::Close(String::new())).unwrap(), Pump::Done));
    assert_eq!(text_of(pump(Inbound::Failed("reset".to_string()))), "websocket error: reset");
}
