//! Discovery, sealed frames, and the LAN host.

use std::time::{Duration, Instant};

use rivetlink::agent::config::HeadlessConfig;
use rivetlink::agent::error::AgentError;
use rivetlink::agent::input::InputAction;
use rivetlink::agent::lan::{
    allowed_displays, command_auth, connected_event, control_now, end_reason, established,
    fallback_port, headless_client_is_allowed, on_consent, screenshot_response, share_all_now,
    CaptureEnd, CaptureOutcome, HeadlessSession, HeadlessStep, HostEvent, LanAuth, ServeStep,
    StreamEvent, StreamNext, StreamSession,
};
use rivetlink::agent::trusted::{TrustedClients, TrustedEntry};
use rivetlink::crypto::sealed::SealedChannel;
use rivetlink::sdk::direct::HostMode;
use rivetlink::sdk::identity::Identity;
use rivetlink::sdk::lan::{
    advertisement, device_from_info, open_frame, sanitize_hostname, screenshot_from, seal_frame,
    sealed_len, DiscoveredHosts, DisplayInfo, FrameDelta, LanDevice, LanRequest, LanResponse,
    PtrButton, ServiceAddress, ServiceRecord,
};

fn record() -> ServiceRecord {
    ServiceRecord {
        fullname: "Office._rivetlink._tcp.local.".to_string(),
        addresses: vec![
            ServiceAddress { text: "fe80::1".to_string(), is_ipv4: false },
            ServiceAddress { text: "192.168.1.5".to_string(), is_ipv4: true },
        ],
        port: 7000,
        name: None,
        public_key: None,
        version: None,
    }
}

fn device(name: &str) -> LanDevice {
    LanDevice {
        name: name.to_string(),
        address: "192.168.1.5".to_string(),
        port: 7000,
        public_key: None,
        protocol_version: Some(1),
    }
}

fn displays(n: u32) -> Vec<DisplayInfo> {
    (0..n).map(|id| DisplayInfo { id, name: format!("Screen {id}") }).collect()
}

fn message_of(response: &LanResponse) -> &str {
    match response {
        LanResponse::Error { message } => message,
        other => panic!("unexpected: {other:?}"),
    }
}

fn start_stream(name: Option<&str>, key: Option<&str>, sig: Option<&str>) -> LanRequest {
    LanRequest::StartStream {
        fps: 20,
        display: Some(1),
        name: name.map(|n| n.to_string()),
        identity_key: key.map(|k| k.to_string()),
        identity_sig: sig.map(|s| s.to_string()),
    }
}

#[test]
fn sanitize_hostname_is_dns_safe() {
    assert_eq!(sanitize_hostname("Jan's Laptop"), "jan-s-laptop");
    assert_eq!(sanitize_hostname("  --  "), "rivetlink");
    assert_eq!(sanitize_hostname("Café 42"), "caf--42");
}

#[test]
fn sealed_request_response_roundtrip() {
    let shared = [9u8; 32];
    let ch_c = SealedChannel::from_shared_secret(&shared);
    let ch_h = SealedChannel::from_shared_secret(&shared);

    let framed = seal_frame(&ch_c, br#"{"op":"Screenshot"}"#).unwrap();
    let header = [framed[0], framed[1], framed[2], framed[3]];
    let n = sealed_len(&header).unwrap();
    assert_eq!(n, framed.len() - 4);
    assert_eq!(open_frame(&ch_h, &framed[4..]).unwrap(), br#"{"op":"Screenshot"}"#);

    let answer = screenshot_response(Ok(b"PNGDATA".to_vec()));
    assert_eq!(screenshot_from(answer).unwrap(), b"PNGDATA");
}

#[test]
fn sealed_frames_tell_their_faults() {
    let channel = SealedChannel::from_shared_secret(&[9u8; 32]);
    assert_eq!(sealed_len(&[2, 0, 0, 0]).unwrap(), 33554432);
    assert_eq!(
        sealed_len(&[2, 0, 0, 1]).unwrap_err().to_string(),
        "crypto error: sealed frame too large"
    );
    assert_eq!(
        open_frame(&channel, b"garbage").unwrap_err().to_string(),
        "crypto error: decrypt failed"
    );
}

#[test]
fn a_screenshot_response_is_decoded_or_refused() {
    let spaced = LanResponse::Screenshot { png_b64: " UE5H\n".to_string() };
    assert_eq!(screenshot_from(spaced).unwrap(), b"PNG");
    let failed = LanResponse::Error { message: "no screen".to_string() };
    assert_eq!(screenshot_from(failed).unwrap_err().to_string(), "relay error: no screen");
    let bad = LanResponse::Screenshot { png_b64: "?".to_string() };
    assert!(screenshot_from(bad).unwrap_err().to_string().starts_with("invalid base64: "));
    let other = LanResponse::Displays { displays: vec![] };
    assert!(screenshot_from(other).is_err());
}

#[test]
fn a_device_prefers_ipv4_and_its_own_name() {
    let found = device_from_info(&record()).unwrap();
    assert_eq!(found.name, "Office");
    assert_eq!(found.address, "192.168.1.5");
    assert_eq!(found.port, 7000);
    assert_eq!(found.protocol_version, None);

    let mut named = record();
    named.name = Some("Jan's Laptop".to_string());
    named.version = Some("7".to_string());
    named.public_key = Some("KEY".to_string());
    named.addresses.pop();
    let found = device_from_info(&named).unwrap();
    assert_eq!(found.name, "Jan's Laptop");
    assert_eq!(found.address, "fe80::1");
    assert_eq!(found.protocol_version, Some(7));
    assert_eq!(found.public_key.as_deref(), Some("KEY"));

    named.version = Some("65536".to_string());
    assert_eq!(device_from_info(&named).unwrap().protocol_version, None);
    named.addresses.clear();
    assert!(device_from_info(&named).is_none());
}

#[test]
fn what_is_advertised_is_discovered() {
    let host = Identity::generate();
    let a = advertisement("Jan's Laptop", &host.public_key_b64(), 1);
    assert_eq!(a.hostname, "jan-s-laptop.local.");
    let mut seen = record();
    seen.name = Some(a.name);
    seen.public_key = Some(a.public_key);
    seen.version = Some(a.version);
    let found = device_from_info(&seen).unwrap();
    assert_eq!(found.name, "Jan's Laptop");
    assert_eq!(found.protocol_version, Some(1));
    let key = found.host_identity().unwrap();
    assert_eq!(key.to_bytes(), host.signing_key().verifying_key().to_bytes());
}

#[test]
fn a_host_identity_must_be_a_key() {
    let mut d = device("Host");
    assert!(d.host_identity().is_none());
    d.public_key = Some("AAAA".to_string());
    assert!(d.host_identity().is_none());
    d.public_key = Some("AgAAAAAAAAAAAAAAAAAAAAAAAAAAAAAAAAAAAAAAAAA=".to_string());
    assert!(d.host_identity().is_none());
}

#[test]
fn discovered_hosts_are_unique_and_ordered() {
    let mut hosts = DiscoveredHosts::new();
    hosts.insert("b.local.".to_string(), device("old b"));
    hosts.insert("c.local.".to_string(), device("c"));
    hosts.insert("a.local.".to_string(), device("a"));
    hosts.insert("b.local.".to_string(), device("new b"));
    let names: Vec<String> = hosts.into_devices().into_iter().map(|d| d.name).collect();
    assert_eq!(names, ["a", "new b", "c"]);
}

#[test]
fn share_all_now_defaults_open_only_without_channel() {
    assert!(share_all_now(None));
    let (_tx, rx) = tokio::sync::watch::channel(false);
    assert!(!share_all_now(Some(*rx.borrow())));
    let (_tx2, rx2) = tokio::sync::watch::channel(true);
    assert!(share_all_now(Some(*rx2.borrow())));
}

#[test]
fn control_is_open_only_without_a_gate() {
    assert!(control_now(None));
    assert!(!control_now(Some(false)));
    assert!(control_now(Some(true)));
}

#[test]
fn headless_lan_requires_a_view_trusted_client() {
    let mut trusted = TrustedClients::new();
    trusted.trust(
        "viewer",
        TrustedEntry {
            name: "Viewer".to_string(),
            can_view: true,
            can_control: false,
            can_unattended_console: false,
        },
    );
    trusted.trust(
        "control-only",
        TrustedEntry {
            name: "Control only".to_string(),
            can_view: false,
            can_control: true,
            can_unattended_console: false,
        },
    );

    assert!(headless_client_is_allowed(&trusted, "viewer"));
    assert!(!headless_client_is_allowed(&trusted, "control-only"));
    assert!(!headless_client_is_allowed(&trusted, "unknown"));
}

fn limits() -> HeadlessConfig {
    HeadlessConfig { capture_timeout_secs: 10, min_capture_interval_secs: 2, max_capture_bytes: 4 }
}

#[test]
fn a_headless_host_serves_screenshots_only() {
    let mut session = HeadlessSession::new(limits());
    match session.on_request(&LanRequest::ListDisplays) {
        HeadlessStep::Refuse(response) => assert_eq!(
            message_of(&response),
            "this headless host supports on-demand screenshots only"
        ),
        other => panic!("unexpected: {other:?}"),
    }
    assert!(matches!(
        session.on_request(&LanRequest::Screenshot),
        HeadlessStep::Capture { timeout_secs: 10 }
    ));
    match session.on_request(&LanRequest::Screenshot) {
        HeadlessStep::Limit(response) => assert_eq!(
            message_of(&response),
            "screenshot request rate limit reached; try again shortly"
        ),
        other => panic!("unexpected: {other:?}"),
    }
    let at_limit = Some(Duration::from_secs(2));
    assert!(matches!(
        session.step_after(&LanRequest::Screenshot, at_limit),
        HeadlessStep::Capture { .. }
    ));
}

#[test]
fn headless_captures_keep_their_distance() {
    let mut session = HeadlessSession::new(limits());
    let start = Instant::now();
    let at = |secs| start + Duration::from_secs(secs);
    let is_capture = |step| matches!(step, HeadlessStep::Capture { .. });
    assert!(is_capture(session.on_request_at(&LanRequest::Screenshot, &at(0))));
    assert!(!is_capture(session.on_request_at(&LanRequest::Screenshot, &at(1))));
    assert!(is_capture(session.on_request_at(&LanRequest::Screenshot, &at(2))));
    assert!(!is_capture(session.on_request_at(&LanRequest::Screenshot, &at(3))));
    assert!(is_capture(session.on_request_at(&LanRequest::Screenshot, &at(4))));
}

#[test]
fn trusted_keys_change_while_a_host_serves() {
    let mut auth = LanAuth::PinOrKey {
        pin: "1234".to_string(),
        trusted_keys: vec!["A".to_string()],
        auto_accept: false,
    };
    assert!(auth.admits("A") && !auth.admits("B"));
    auth.set_trusted_keys(vec!["B".to_string()]);
    assert!(!auth.admits("A") && auth.admits("B"));
    assert_eq!(auth.pin(), Some("1234"));
}

#[test]
fn a_headless_capture_is_bounded() {
    let session = HeadlessSession::new(limits());
    let small = session.capture_response(CaptureOutcome::Captured(b"PNG!".to_vec()));
    assert_eq!(screenshot_from(small).unwrap(), b"PNG!");
    let large = session.capture_response(CaptureOutcome::Captured(b"LARGE".to_vec()));
    assert_eq!(message_of(&large), "screenshot exceeds the 4 byte safety limit");
    let failed = session.capture_response(CaptureOutcome::Failed);
    assert_eq!(message_of(&failed), "headless screenshot capture failed");
    let late = session.capture_response(CaptureOutcome::TimedOut);
    assert_eq!(message_of(&late), "headless screenshot capture timed out");
}

#[test]
fn authentication_decides_who_is_let_in() {
    let password = command_auth(Some("4821".to_string()), TrustedClients::new(), true);
    assert_eq!(password.mode(), HostMode::Password);
    assert_eq!(password.pin(), Some("4821"));
    assert!(!password.admits("anyone"));

    let mut trusted = TrustedClients::new();
    trusted.trust(
        "friend",
        TrustedEntry {
            name: "Friend".to_string(),
            can_view: true,
            can_control: false,
            can_unattended_console: false,
        },
    );
    let key = command_auth(None, trusted, false);
    assert_eq!(key.mode(), HostMode::Key);
    assert_eq!(key.pin(), None);
    assert!(key.admits(" friend "));
    assert!(!key.admits("stranger"));
    assert!(command_auth(None, TrustedClients::new(), true).admits("stranger"));

    let either = LanAuth::PinOrKey {
        pin: "1".to_string(),
        trusted_keys: vec!["a".to_string(), "b".to_string()],
        auto_accept: false,
    };
    assert_eq!(either.mode(), HostMode::Auto);
    assert_eq!(either.pin(), Some("1"));
    assert!(either.admits("b"));
    assert!(!either.admits("c"));
}

#[test]
fn a_busy_port_falls_back_to_an_assigned_one() {
    assert_eq!(fallback_port(7000, true), Some(0));
    assert_eq!(fallback_port(7000, false), None);
    assert_eq!(fallback_port(0, true), None);
}

#[test]
fn displays_are_restricted_to_the_primary() {
    let ids = |shared: Vec<DisplayInfo>| shared.iter().map(|d| d.id).collect::<Vec<u32>>();
    assert_eq!(ids(allowed_displays(displays(3), true)), [0, 1, 2]);
    assert_eq!(ids(allowed_displays(displays(3), false)), [0]);
    assert!(allowed_displays(vec![], false).is_empty());
}

#[test]
fn a_pin_client_is_asked_about_before_it_views() {
    let session = established(None, "10.0.0.7", true);
    match session.on_request(start_stream(Some("  "), Some("K"), None), true, Some("K".into())) {
        ServeStep::AskConsent(plan) => {
            assert_eq!(plan.fps, 20);
            assert_eq!(plan.display, Some(1));
            assert_eq!(plan.who, "10.0.0.7");
            assert_eq!(plan.key, None);
            match on_consent(plan, false) {
                Err(response) => {
                    assert_eq!(message_of(&response), "the host declined the connection");
                }
                Ok(_) => panic!("declined"),
            }
        }
        other => panic!("unexpected: {other:?}"),
    }
}

#[test]
fn a_remembered_client_views_at_once() {
    let session = established(Some("IDENTITY".to_string()), "10.0.0.7", true);
    let request = start_stream(Some("Laptop"), Some("K"), Some("S"));
    match session.on_request(request, false, Some("K".to_string())) {
        ServeStep::Stream(plan) => {
            assert_eq!(plan.display, None);
            match connected_event(&plan) {
                HostEvent::ClientConnected { label, key } => {
                    assert_eq!(label, "Laptop");
                    assert_eq!(key.as_deref(), Some("K"));
                }
                other => panic!("unexpected: {other:?}"),
            }
            assert!(on_consent(plan, true).is_ok());
        }
        other => panic!("unexpected: {other:?}"),
    }
    assert!(matches!(
        session.on_request(start_stream(None, None, None), true, None),
        ServeStep::Stream(plan) if plan.who == "IDENTITY"
    ));
    assert!(matches!(
        session.on_request(LanRequest::Screenshot, true, None),
        ServeStep::Capture
    ));
    assert!(matches!(
        session.on_request(LanRequest::ListDisplays, true, None),
        ServeStep::ListDisplays
    ));
    assert!(matches!(
        session.on_request(LanRequest::SwitchDisplay { display: 1 }, true, None),
        ServeStep::Ignore
    ));
}

#[test]
fn nobody_to_ask_means_nobody_is_asked() {
    let session = established(None, "10.0.0.7", false);
    assert!(matches!(
        session.on_request(start_stream(None, None, None), true, None),
        ServeStep::Stream(_)
    ));
}

#[test]
fn a_failed_capture_is_reported() {
    let response = screenshot_response(Err(AgentError::Config("no screen".to_string())));
    assert_eq!(message_of(&response), "config error: no screen");
}

#[test]
fn frames_are_sent_until_sending_fails() {
    let mut stream = StreamSession { display: None };
    let delta = FrameDelta { w: 2, h: 2, tile: 128, keyframe: true, tiles: vec![] };
    let step = stream.on_event(StreamEvent::Frame(delta), true, true);
    assert!(matches!(step.send, Some(LanResponse::Frame(_))));
    assert!(matches!(step.next, StreamNext::ContinueIfSent));
}

#[test]
fn a_viewer_switches_only_while_everything_is_shared() {
    let mut stream = StreamSession { display: None };
    let switch = || StreamEvent::Request(LanRequest::SwitchDisplay { display: 2 });
    assert!(matches!(stream.on_event(switch(), false, true).next, StreamNext::Continue));
    assert_eq!(stream.display, None);
    assert!(matches!(stream.on_event(switch(), true, true).next, StreamNext::Restart(2)));
    assert_eq!(stream.display, Some(2));
    // Sharing is revoked: back to the first display that is offered.
    let step = stream.on_event(StreamEvent::ShareAllChanged(displays(1)), false, true);
    assert!(matches!(step.send, Some(LanResponse::Displays { displays }) if displays.len() == 1));
    assert!(matches!(step.next, StreamNext::Restart(0)));
    let again = stream.on_event(StreamEvent::ShareAllChanged(displays(1)), false, true);
    assert!(matches!(again.next, StreamNext::Continue));
    let granted = stream.on_event(StreamEvent::ShareAllChanged(displays(3)), true, true);
    assert!(matches!(granted.next, StreamNext::Continue));
}

#[test]
fn input_needs_the_owners_grant() {
    let mut stream = StreamSession { display: None };
    let press = || {
        StreamEvent::Request(LanRequest::PointerButton { button: PtrButton::Left, down: true })
    };
    assert!(matches!(stream.on_event(press(), true, false).next, StreamNext::Continue));
    assert!(matches!(
        stream.on_event(press(), true, true).next,
        StreamNext::Inject(InputAction::Button { button: PtrButton::Left, down: true })
    ));
    let key = StreamEvent::Request(LanRequest::Key { code: "KeyA".to_string(), down: false });
    assert!(matches!(
        stream.on_event(key, true, true).next,
        StreamNext::Inject(InputAction::Key { code, down: false }) if code == "KeyA"
    ));
    let moved = StreamEvent::Request(LanRequest::PointerMove { x: 1, y: 2 });
    assert!(matches!(
        stream.on_event(moved, true, true).next,
        StreamNext::Inject(InputAction::Move { x: 1, y: 2 })
    ));
    let scrolled = StreamEvent::Request(LanRequest::Scroll { dx: -1, dy: 2 });
    assert!(matches!(
        stream.on_event(scrolled, true, true).next,
        StreamNext::Inject(InputAction::Scroll { dx: -1, dy: 2 })
    ));
    let stray = StreamEvent::Request(LanRequest::Screenshot);
    assert!(matches!(stream.on_event(stray, true, true).next, StreamNext::Continue));
    let list = StreamEvent::Request(LanRequest::ListDisplays);
    assert!(matches!(stream.on_event(list, true, true).next, StreamNext::ListDisplays));
}

#[test]
fn a_stream_ends_with_its_reason() {
    let mut stream = StreamSession { display: None };
    let failed = CaptureEnd::Failed(AgentError::Lan("no monitors found to share".to_string()));
    let step = stream.on_event(StreamEvent::CaptureEnded(failed), true, true);
    assert_eq!(
        message_of(&step.send.unwrap()),
        "direct-LAN error: no monitors found to share"
    );
    assert!(matches!(step.next, StreamNext::End));
    assert_eq!(end_reason(CaptureEnd::Stopped), "capture stopped");
    assert_eq!(
        end_reason(CaptureEnd::Crashed("panic".to_string())),
        "capture task crashed: panic"
    );
    for event in [StreamEvent::Kicked, StreamEvent::ClientGone] {
        let step = stream.on_event(event, true, true);
        assert!(step.send.is_none());
        assert!(matches!(step.next, StreamNext::End));
    }
}
