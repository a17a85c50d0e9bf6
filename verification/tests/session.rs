//! Relayed sessions: the host, the client, and both against each other.

use std::time::{Duration, Instant};

use base64::Engine;

use rivetlink::agent::error::AgentError;
use rivetlink::agent::session::host::{
    decode_32, first_use, operator_approves, validate_console_input, Consent, ConsentPolicy, HostAction,
    ScreenshotHost,
};
use rivetlink::agent::trusted::{TrustedClients, TrustedEntry};
use rivetlink::chunks::{chunk_payload, CHUNK_CHARS};
use rivetlink::crypto::handshake;
use rivetlink::crypto::identity::SigningKey;
use rivetlink::crypto::sealed::SealedChannel;
use rivetlink::end_to_end::{capture_between, input_between};
use rivetlink::packets::{ConsoleInputPacket, HostConsoleState, SessionCapability, SignalPacket};
use rivetlink::sdk::client::RivetClient;
use rivetlink::sdk::config::ClientConfig;
use rivetlink::sdk::error::SdkError;
use rivetlink::sdk::identity::Identity;
use rivetlink::sdk::rest::{
    access_token, device_id_of, json_of, parse_base_url, response_json, token_of, Device,
};
use rivetlink::sdk::session::{
    check_authenticated, check_kind, finalize, received_text, CaptureAction, CaptureParams,
    CaptureSession,
    Received,
};
use rivetlink::types::{DeviceId, SessionId};

fn b64(bytes: &[u8]) -> String {
    base64::engine::general_purpose::STANDARD.encode(bytes)
}

fn key_of(seed: u8) -> (SigningKey, String) {
    let key = SigningKey::from_bytes(&[seed; 32]);
    let text = b64(&key.verifying_key().to_bytes());
    (key, text)
}

fn host(policy: ConsentPolicy) -> ScreenshotHost {
    let mut seed = [9u8; 32];
    seed[0] = 1;
    ScreenshotHost::new(SigningKey::from_bytes(&seed), TrustedClients::new(), policy)
}

fn headless(interval: u64) -> ConsentPolicy {
    ConsentPolicy::HeadlessTrustedOnly {
        min_capture_interval: Duration::from_secs(interval),
        capture_timeout: Duration::from_secs(1),
        max_capture_bytes: 1024,
    }
}

fn unattended(interval: u64) -> ConsentPolicy {
    ConsentPolicy::UnattendedConsole {
        min_capture_interval: Duration::from_secs(interval),
        capture_timeout: Duration::from_secs(1),
        max_capture_bytes: 1024,
    }
}

fn entry(name: &str, can_view: bool, can_control: bool, console: bool) -> TrustedEntry {
    TrustedEntry {
        name: name.to_string(),
        can_view,
        can_control,
        can_unattended_console: console,
    }
}

fn trust_viewer(host: &mut ScreenshotHost, public_key_b64: &str) {
    host.trust(public_key_b64, entry("test viewer", true, false, false));
}

fn reply(action: HostAction) -> Vec<SignalPacket> {
    match action {
        HostAction::Reply(packets) => packets,
        _ => panic!("reply expected"),
    }
}

/// Open a session of a capability, and derive the client's channel.
fn open_session(
    h: &mut ScreenshotHost,
    client: &SigningKey,
    client_b64: &str,
    capability: SessionCapability,
    session_id: SessionId,
) -> SealedChannel {
    let frames =
        reply(h.on_session_request(client_b64, capability, Some(session_id), None, None));
    let ephemeral = match &frames[1] {
        SignalPacket::SessionKeyExchange { ephemeral_public_key, .. } => ephemeral_public_key,
        _ => panic!("host did not send its key exchange"),
    };
    let client_kex = handshake::start(client);
    h.on_key_exchange(
        &b64(client_kex.ephemeral_public()),
        client_b64,
        &b64(client_kex.signature()),
    )
    .unwrap();
    client_kex.into_channel(&decode_32(ephemeral).unwrap())
}

fn text_of<T>(r: Result<T, AgentError>) -> String {
    match r {
        Ok(_) => "ok".to_string(),
        Err(e) => e.to_string(),
    }
}

fn sdk_text<T>(r: Result<T, SdkError>) -> String {
    match r {
        Ok(_) => "ok".to_string(),
        Err(e) => e.to_string(),
    }
}

fn reason(packets: &[SignalPacket]) -> &str {
    match packets {
        [SignalPacket::SessionRejected { reason, .. }] => reason,
        _ => panic!("rejection expected"),
    }
}

#[test]
fn chunking_marks_last_and_total() {
    let sid = SessionId::new();
    let frames = chunk_payload(sid, &"a".repeat(CHUNK_CHARS * 2 + 5)).unwrap();
    assert_eq!(frames.len(), 3);
    // Look at the last frame and confirm `last`/`total`.
    match frames.last().unwrap() {
        SignalPacket::ScreenshotData { total, last, sequence, .. } => {
            assert_eq!(*total, 3);
            assert_eq!(*sequence, 2);
            assert!(*last);
        }
        _ => panic!("wrong variant"),
    }
}

#[test]
fn single_chunk_for_small_payload() {
    let frames = chunk_payload(SessionId::new(), "tiny").unwrap();
    assert_eq!(frames.len(), 1);
}

#[test]
fn headless_rejects_unknown_client_without_creating_trust() {
    let h = host(headless(1));
    assert_eq!(h.consent("UNKNOWNKEY"), Consent::Deny);
    assert!(!h.trusted().is_trusted("UNKNOWNKEY"));
}

#[test]
fn headless_rejects_trusted_client_without_view_permission() {
    let mut h = host(headless(1));
    h.trust("KNOWN", entry("restricted", false, false, false));
    assert_eq!(h.consent("KNOWN"), Consent::Deny);
}

#[test]
fn physical_console_requires_its_own_owner_opt_in() {
    let mut h = host(unattended(1));
    h.trust("KNOWN", entry("ordinary viewer", true, true, false));
    assert_eq!(h.consent("KNOWN"), Consent::Deny);

    h.trust("KNOWN", entry("owner laptop", true, true, true));
    assert_eq!(h.consent("KNOWN"), Consent::Allow);
}

#[test]
fn console_input_validation_rejects_non_keycode_data() {
    assert!(validate_console_input(&ConsoleInputPacket::Key {
        code: "Enter".to_string(),
        down: true,
    })
    .is_ok());
    assert!(validate_console_input(&ConsoleInputPacket::Key {
        code: "password with spaces".to_string(),
        down: true,
    })
    .is_err());
    assert!(validate_console_input(&ConsoleInputPacket::Key {
        code: "x".repeat(65),
        down: true,
    })
    .is_err());
}

#[test]
fn rejects_bad_identity_key() {
    let mut h = host(headless(1));
    let out = reply(h.on_session_request(
        "not-base64-!!",
        SessionCapability::Screenshot,
        Some(SessionId::new()),
        None,
        None,
    ));
    assert_eq!(out.len(), 1);
    assert!(matches!(out[0], SignalPacket::SessionRejected { .. }));
}

#[test]
fn accept_emits_accept_and_key_exchange() {
    let mut h = host(headless(1));
    // A valid client identity key.
    let (_, client_b64) = key_of(5);
    trust_viewer(&mut h, &client_b64);

    let out = reply(h.on_session_request(
        &client_b64,
        SessionCapability::Screenshot,
        Some(SessionId::new()),
        None,
        None,
    ));
    assert_eq!(out.len(), 2);
    assert!(matches!(out[0], SignalPacket::SessionAccepted { .. }));
    assert!(matches!(out[1], SignalPacket::SessionKeyExchange { .. }));
}

#[test]
fn screenshot_host_rejects_console_control_even_for_a_trusted_client() {
    let mut h = host(headless(1));
    let (_, client_b64) = key_of(6);
    trust_viewer(&mut h, &client_b64);

    let out = reply(h.on_session_request(
        &client_b64,
        SessionCapability::ConsoleControl,
        Some(SessionId::new()),
        None,
        None,
    ));
    assert!(matches!(out[0], SignalPacket::SessionRejected { .. }));
    assert!(h.active_session().is_none());
}

#[test]
fn encrypted_console_input_reaches_only_an_authorized_physical_sink() {
    let (client, client_b64) = key_of(8);
    let mut h = host(unattended(0));
    h.trust(&client_b64, entry("owner", true, true, true));
    let session_id = SessionId::new();
    let channel = open_session(
        &mut h,
        &client,
        &client_b64,
        SessionCapability::ConsoleControl,
        session_id,
    );
    let encoded_event = br#"{"type":"key","code":"Enter","down":true}"#;
    let ciphertext = b64(&channel.seal(encoded_event).unwrap());
    let received = h.on_console_input(session_id, &ciphertext).unwrap();
    assert_eq!(received, encoded_event);
}

#[test]
fn headless_screenshot_is_sealed_before_it_is_chunked() {
    let (client, client_b64) = key_of(7);
    let mut h = host(headless(0));
    trust_viewer(&mut h, &client_b64);
    let sid = SessionId::new();
    let client_channel =
        open_session(&mut h, &client, &client_b64, SessionCapability::Screenshot, sid);

    h.on_screenshot_request(sid).unwrap();
    let frames = h.on_captured(sid, Ok(vec![b'R'; 128]));
    let encoded = frames
        .iter()
        .map(|frame| match frame {
            SignalPacket::ScreenshotData { payload, .. } => payload.as_str(),
            _ => panic!("expected encrypted screenshot data"),
        })
        .collect::<String>();
    let sealed = base64::engine::general_purpose::STANDARD.decode(encoded).unwrap();
    let plaintext = client_channel.open(&sealed).unwrap();
    assert_eq!(plaintext.len(), 128);
    assert_ne!(sealed, plaintext, "relay frames must not contain plaintext capture bytes");
}

#[test]
fn capture_failure_returns_a_session_error_without_failing_the_agent() {
    let mut h = host(headless(1));
    let sid = SessionId::new();
    let out = reply(h.handle(&SignalPacket::ScreenshotRequest { session_id: sid }, None).unwrap());
    assert_eq!(out.len(), 1);
    assert!(matches!(out[0], SignalPacket::SessionRejected { .. }));
}

#[test]
fn an_operator_is_asked_about_a_new_client() {
    let (_, client_b64) = key_of(5);
    let mut h = host(ConsentPolicy::Prompt);
    assert_eq!(h.consent(&client_b64), Consent::AskOperator);
    let sid = Some(SessionId::new());
    let ask = |h: &mut ScreenshotHost, answer| {
        h.on_session_request(&client_b64, SessionCapability::Screenshot, sid, answer, None)
    };
    assert!(matches!(ask(&mut h, None), HostAction::AskOperator));
    assert!(matches!(
        reply(ask(&mut h, Some(false)))[0],
        SignalPacket::SessionRejected { .. }
    ));
    assert!(!h.trusted().is_trusted(&client_b64));
    assert!(matches!(
        reply(ask(&mut h, Some(true)))[0],
        SignalPacket::SessionAccepted { .. }
    ));
    let remembered = h.trusted().get(&client_b64).unwrap();
    assert_eq!(remembered.name, "approved-on-connect");
    assert!(remembered.can_view && !remembered.can_control && !remembered.can_unattended_console);
}

#[test]
fn an_approval_kept_first_admits_the_client() {
    let (_, client_b64) = key_of(5);
    let mut h = host(ConsentPolicy::Prompt);
    h.trust(&client_b64, first_use());
    assert_eq!(h.consent(&client_b64), Consent::Allow);
    let action = h.on_session_request(
        &client_b64,
        SessionCapability::Screenshot,
        Some(SessionId::new()),
        Some(true),
        None,
    );
    assert!(matches!(reply(action)[0], SignalPacket::SessionAccepted { .. }));
    let remembered = h.trusted().get(&client_b64).unwrap();
    assert_eq!(remembered.name, "approved-on-connect");
    assert!(remembered.can_view && !remembered.can_control && !remembered.can_unattended_console);
}

#[test]
fn only_a_yes_admits_a_client() {
    for yes in ["y\n", "Y", " yes\r\n", "YeS"] {
        assert!(operator_approves(yes));
    }
    for no in ["", "\n", "n", "yess", "ye", "y e s", "да"] {
        assert!(!operator_approves(no));
    }
}

#[test]
fn the_console_state_is_announced() {
    let (_, client_b64) = key_of(5);
    let mut h = host(unattended(1));
    h.trust(&client_b64, entry("owner", true, false, true));
    let out = reply(h.on_session_request(
        &client_b64,
        SessionCapability::Screenshot,
        Some(SessionId::new()),
        None,
        Some((HostConsoleState::GdmLogin, 4)),
    ));
    assert!(out.iter().any(|packet| matches!(
        packet,
        SignalPacket::HostConsoleState {
            state: HostConsoleState::GdmLogin,
            generation: 4,
            ..
        }
    )));
}

#[test]
fn captures_are_limited() {
    let (client, client_b64) = key_of(7);
    let mut h = host(headless(60));
    trust_viewer(&mut h, &client_b64);
    let sid = SessionId::new();
    let _ = open_session(&mut h, &client, &client_b64, SessionCapability::Screenshot, sid);
    assert!(h.screenshot_after(sid, None).is_ok());
    assert!(h.screenshot_after(sid, Some(Duration::from_secs(59))).is_err());
    assert!(h.screenshot_after(sid, Some(Duration::from_secs(60))).is_ok());
    assert!(h.on_screenshot_request(SessionId::new()).is_err());
    let start = Instant::now();
    let _ = h.on_captured_at(sid, Ok(vec![1; 8]), &start);
    assert!(h.screenshot_at(sid, &(start + Duration::from_secs(59))).is_err());
    assert!(h.screenshot_at(sid, &(start + Duration::from_secs(60))).is_ok());
    let second = start + Duration::from_secs(61);
    let _ = h.on_captured_at(sid, Ok(vec![2; 8]), &second);
    assert!(h.screenshot_at(sid, &(start + Duration::from_secs(120))).is_err());
    assert!(h.seal_screenshot_at(sid, &[0; 1025], &(second + Duration::from_secs(60))).is_err());
    assert!(h.screenshot_at(sid, &(second + Duration::from_secs(60))).is_ok());
    let large = h.on_captured(sid, Ok(vec![0; 1025]));
    assert!(reason(&large).contains("captured screenshot exceeds configured size limit"));
    let failed = h.on_captured(sid, Err(AgentError::Config("no screen".to_string())));
    assert!(!reason(&failed).is_empty());
}

#[test]
fn input_is_refused_outside_a_control_session() {
    let (client, client_b64) = key_of(8);
    let mut h = host(unattended(0));
    h.trust(&client_b64, entry("owner", true, true, true));
    let sid = SessionId::new();
    let channel =
        open_session(&mut h, &client, &client_b64, SessionCapability::Screenshot, sid);
    let event = b64(&channel.seal(b"{}").unwrap());
    assert!(h.on_console_input(sid, &event).is_err());
    h.reset();
    assert!(h.active_session().is_none());
    let channel =
        open_session(&mut h, &client, &client_b64, SessionCapability::ConsoleControl, sid);
    assert!(h.on_console_input(SessionId::new(), &event).is_err());
    assert!(text_of(h.on_console_input(sid, "?")).starts_with("invalid base64: "));
    // Sealed under another key.
    assert!(h.on_console_input(sid, &event).is_err());
    // 6144 sealed bytes are 8192 characters, the most that is looked at.
    let limit = b64(&channel.seal(&[b' '; 6116]).unwrap());
    assert_eq!(limit.len(), 8192);
    assert_eq!(h.on_console_input(sid, &limit).unwrap().len(), 6116);
    let large = b64(&channel.seal(&[b' '; 6117]).unwrap());
    assert_eq!(
        text_of(h.on_console_input(sid, &large)),
        "relay connection error: console input exceeds size limit"
    );
}

fn identity(seed: u8) -> Identity {
    Identity::from_signing_key(SigningKey::from_bytes(&[seed; 32]))
}

fn params(client: u8, host_key: &str, console_input: Option<Vec<u8>>) -> CaptureParams {
    CaptureParams {
        identity: identity(client),
        device_id: DeviceId(1),
        host_public_key_b64: host_key.to_string(),
        requested_capability: match console_input {
            Some(_) => SessionCapability::ConsoleControl,
            None => SessionCapability::Screenshot,
        },
        console_input,
    }
}

/// What a host makes of packets, with an image for each capture and a list of
/// the injected events.
fn serve(
    h: &mut ScreenshotHost,
    packets: Vec<SignalPacket>,
    image: &[u8],
    injected: &mut Vec<Vec<u8>>,
) -> Vec<SignalPacket> {
    let mut out = vec![];
    for packet in packets {
        match h.handle(&packet, Some((HostConsoleState::DesktopReady, 3))).unwrap() {
            HostAction::Reply(packets) => out.extend(packets),
            HostAction::AskOperator => panic!("nobody to ask"),
            HostAction::Capture(sid) => out.extend(h.on_captured(sid, Ok(image.to_vec()))),
            HostAction::Inject(event) => injected.push(event),
        }
    }
    out
}

/// Run a whole session; what the client captured, and what the host injected.
fn run_session(
    policy: ConsentPolicy,
    image: &[u8],
    console_input: Option<Vec<u8>>,
    reorder: bool,
) -> (Vec<u8>, Vec<Vec<u8>>, CaptureSession) {
    let mut h = host(policy);
    let client = identity(7);
    h.trust(&client.public_key_b64(), entry("owner", true, true, true));
    let mut seed = [9u8; 32];
    seed[0] = 1;
    let host_key = b64(&SigningKey::from_bytes(&seed).verifying_key().to_bytes());
    let (mut session, request) =
        CaptureSession::begin(params(7, &host_key, console_input)).unwrap();
    // The relay assigns the session.
    let request = match request {
        SignalPacket::SessionRequest {
            device_id,
            client_public_key,
            requested_capability,
            session_id: None,
        } => SignalPacket::SessionRequest {
            device_id,
            client_public_key,
            requested_capability,
            session_id: Some(SessionId(5)),
        },
        _ => panic!("session request expected"),
    };
    let mut injected = vec![];
    let mut to_client = serve(&mut h, vec![request], image, &mut injected);
    loop {
        let mut to_host = vec![];
        if reorder && matches!(to_client[0], SignalPacket::ScreenshotData { .. }) {
            assert!(to_client.len() > 2);
            to_client.swap(0, 1);
        }
        for packet in to_client {
            match session.on_packet(&packet).unwrap() {
                CaptureAction::Send(packets) => to_host.extend(packets),
                CaptureAction::Finished { image, close } => {
                    assert!(matches!(
                        close,
                        Some(SignalPacket::SessionClosed { session_id: SessionId(5) })
                    ));
                    return (image, injected, session);
                }
            }
        }
        assert!(!to_host.is_empty());
        to_client = serve(&mut h, to_host, image, &mut injected);
    }
}

#[test]
fn a_capture_comes_through() {
    let (image, injected, session) = run_session(headless(0), &[42; 1000], None, false);
    assert_eq!(image, [42; 1000]);
    assert!(injected.is_empty());
    assert_eq!(session.console_state(), Some((HostConsoleState::DesktopReady, 3)));
}

#[test]
fn input_goes_before_the_capture() {
    let event = br#"{"type":"key"}"#.to_vec();
    let (image, injected, _) =
        run_session(unattended(0), b"PNG", Some(event.clone()), false);
    assert_eq!(image, b"PNG");
    assert_eq!(injected, [event]);
}

#[test]
fn chunks_are_put_in_order() {
    let policy = ConsentPolicy::HeadlessTrustedOnly {
        min_capture_interval: Duration::ZERO,
        capture_timeout: Duration::from_secs(1),
        max_capture_bytes: 1_000_000,
    };
    let image: Vec<u8> = (0..200_000u32).map(|i| (i % 251) as u8).collect();
    let (captured, _, _) = run_session(policy, &image, None, true);
    assert_eq!(captured, image);
}

#[test]
fn a_client_waits_for_text() {
    assert_eq!(received_text(Received::Text("t".to_string())).unwrap().as_deref(), Some("t"));
    assert_eq!(received_text(Received::Other).unwrap(), None);
    assert_eq!(sdk_text(received_text(Received::Close)), "relay error: connection closed");
    assert_eq!(sdk_text(received_text(Received::Ended)), "relay error: stream ended");
    assert_eq!(
        sdk_text(received_text(Received::Failed("reset".to_string()))),
        "websocket error: reset"
    );
}

#[test]
fn a_client_reads_the_answer_to_its_token() {
    let accepted = r#"{"user_id":"u","type":"AUTHENTICATED"}"#;
    assert!(check_authenticated(accepted).is_ok());
    for answer in [r#"{"type":"ERROR"}"#, r#"{"type":1}"#, "{}", "[]"] {
        assert_eq!(
            sdk_text(check_authenticated(answer)),
            format!("authentication failed: unexpected auth response: {answer}")
        );
    }
    assert!(matches!(check_authenticated("AUTHENTICATED"), Err(SdkError::Serde(_))));
    assert!(check_kind(Some("AUTHENTICATED".to_string()), "{}").is_ok());
    for kind in [None, Some("ERROR".to_string())] {
        assert_eq!(
            sdk_text(check_kind(kind, "no")),
            "authentication failed: unexpected auth response: no"
        );
    }
}

#[test]
fn responses_are_read_by_their_members() {
    assert_eq!(token_of(r#"{"access_token":"T","expires":3}"#).unwrap(), "T");
    assert_eq!(
        sdk_text(token_of(r#"{"token":"T"}"#)),
        "authentication failed: login response missing access_token"
    );
    assert!(matches!(token_of("T"), Err(SdkError::Serde(_))));
    assert_eq!(device_id_of(r#"{"id":"d"}"#).unwrap(), "d");
    assert_eq!(
        sdk_text(device_id_of(r#"{"id":7}"#)),
        "http error: registration response missing id"
    );
    assert!(matches!(device_id_of(""), Err(SdkError::Serde(_))));
    let response = b"HTTP/1.1 200 OK\r\n\r\n {\"id\":\"d\"}\n";
    assert_eq!(RivetClient::registered_device(response).unwrap(), "d");
}

#[test]
fn captured_chunks_must_be_complete() {
    let channel = SealedChannel::from_shared_secret(&[1; 32]);
    let text = b64(&channel.seal(b"image").unwrap());
    let (head, tail) = text.split_at(10);
    let mut chunks = vec![(1, tail.to_string()), (0, head.to_string())];
    assert_eq!(
        sdk_text(finalize(&mut chunks, 3, &channel)),
        "relay error: incomplete capture: 2 of 3 chunks"
    );
    assert_eq!(chunks[0].0, 1);
    assert_eq!(finalize(&mut chunks, 2, &channel).unwrap(), b"image");
    assert_eq!(chunks[0].0, 0);
    assert_eq!(finalize(&mut chunks, 2, &channel).unwrap(), b"image");
    let other = SealedChannel::from_shared_secret(&[2; 32]);
    assert_eq!(
        sdk_text(finalize(&mut chunks, 2, &other)),
        "crypto error: decrypt failed: decryption failed: aead::Error"
    );
    assert!(matches!(
        finalize(&mut vec![(0, "?".to_string())], 1, &channel),
        Err(SdkError::Base64(_))
    ));
}

fn exchange_of(session_id: SessionId, identity_key: &str, key: &SigningKey) -> SignalPacket {
    let kex = handshake::start(key);
    SignalPacket::SessionKeyExchange {
        session_id,
        ephemeral_public_key: b64(kex.ephemeral_public()),
        identity_public_key: identity_key.to_string(),
        signature: b64(kex.signature()),
    }
}

#[test]
fn a_client_refuses_what_is_out_of_turn() {
    let (_, host_key) = key_of(9);
    let (_, other_key) = key_of(10);
    let begin = || CaptureSession::begin(params(7, &host_key, None)).unwrap().0;
    let sid = SessionId(5);
    let rejected =
        SignalPacket::SessionRejected { session_id: sid, reason: "busy".to_string() };
    assert_eq!(sdk_text(begin().on_packet(&rejected)), "session rejected by host: busy");
    let closed = SignalPacket::SessionClosed { session_id: sid };
    assert_eq!(sdk_text(begin().on_packet(&closed)), "relay error: host closed the session");
    let mut waiting = begin();
    assert!(waiting.on_packet(&rejected).is_err() && waiting.on_packet(&closed).is_err());
    assert_eq!(
        sdk_text(waiting.on_packet(&exchange_of(sid, &host_key, &key_of(9).0))),
        "crypto error: host key exchange arrived before accept"
    );
    let exchange = |identity_key: &str, key: &SigningKey| exchange_of(sid, identity_key, key);
    assert_eq!(
        sdk_text(begin().on_packet(&exchange(&other_key, &key_of(10).0))),
        "crypto error: host identity key mismatch — possible MITM"
    );
    assert_eq!(
        sdk_text(begin().on_packet(&exchange(&host_key, &key_of(10).0))),
        "crypto error: host key exchange invalid: invalid signature"
    );
    assert_eq!(
        sdk_text(begin().on_packet(&exchange(&host_key, &key_of(9).0))),
        "crypto error: host key exchange arrived before accept"
    );
    let data = SignalPacket::ScreenshotData {
        session_id: sid,
        sequence: 0,
        total: 1,
        last: true,
        payload: String::new(),
    };
    assert_eq!(
        sdk_text(begin().on_packet(&data)),
        "crypto error: data before key exchange"
    );
    assert!(matches!(
        begin().on_packet(&SignalPacket::Heartbeat).unwrap(),
        CaptureAction::Send(packets) if packets.is_empty()
    ));
    assert_eq!(
        sdk_text(CaptureSession::begin(params(7, "AAAA", None))),
        "crypto error: expected 32 bytes, got 3"
    );
}

fn config() -> ClientConfig {
    ClientConfig {
        relay_ws_url: "ws://127.0.0.1:8080/ws".into(),
        relay_http_url: "http://127.0.0.1:8080".into(),
        identity_path: "/tmp/id.json".into(),
    }
}

#[test]
fn validate_rejects_bad_ws() {
    let mut cfg = config();
    cfg.relay_ws_url = "http://x".into();
    assert!(cfg.validate().is_err());
}

#[test]
fn validate_rejects_bad_http() {
    let mut cfg = config();
    cfg.relay_http_url = "ftp://x".into();
    assert!(cfg.validate().is_err());
}

#[test]
fn registration_requires_authenticated_session() {
    let client = RivetClient::new(config(), Identity::generate()).unwrap();
    let err = client.register_device(64).unwrap_err();
    assert!(matches!(err, SdkError::NotAuthenticated));
}

fn device(id: &str) -> Device {
    Device {
        id: id.to_string(),
        hostname: None,
        platform: None,
        last_seen: None,
        public_key: key_of(9).1,
    }
}

#[test]
fn a_client_logs_in_and_captures() {
    let mut client = RivetClient::new(config(), identity(7)).unwrap();
    assert_eq!(client.public_key(), identity(7).public_key_b64());
    assert!(!client.is_authenticated());
    assert!(matches!(client.list_devices(), Err(SdkError::NotAuthenticated)));
    assert_eq!(
        client.login_request(10).unwrap().head,
        "POST /auth/login HTTP/1.1\r\nHost: 127.0.0.1\r\nContent-Type: application/json\r\n\
         Content-Length: 10\r\nConnection: close\r\n\r\n"
    );
    assert_eq!(
        sdk_text(client.login(b"HTTP/1.1 200 OK\r\n\r\n{}")),
        "authentication failed: login response missing access_token"
    );
    assert_eq!(
        sdk_text(client.login(b"HTTP/1.1 401 Unauthorized\r\n\r\n")),
        "http error: request failed: HTTP/1.1 401 Unauthorized"
    );
    assert!(matches!(
        client.login(b"HTTP/1.1 200 OK\r\n\r\nTOKEN"),
        Err(SdkError::Serde(_))
    ));
    assert!(!client.is_authenticated());
    client
        .login(b"HTTP/1.1 200 OK\r\n\r\n{\"access_token\":\"TOKEN\"}")
        .unwrap();
    assert!(client.is_authenticated());
    let request = client.list_devices().unwrap();
    assert_eq!((request.host.as_str(), request.port), ("127.0.0.1", 8080));
    assert_eq!(
        request.head,
        "GET /devices HTTP/1.1\r\nHost: 127.0.0.1\r\nAuthorization: Bearer TOKEN\r\n\
         Connection: close\r\n\r\n"
    );

    let id = "01890a5d-ac96-774b-bcce-b302099a8057";
    let devices = vec![device("other"), device(id)];
    assert_eq!(RivetClient::find_device(&devices, id).unwrap(), 1);
    assert_eq!(
        sdk_text(RivetClient::find_device(&devices, "none")),
        "config error: device none not found in your org"
    );
    let shot = client.capture_screenshot(&devices[1]).unwrap();
    assert_eq!(shot.device_id.to_string(), id);
    assert_eq!(shot.requested_capability, SessionCapability::Screenshot);
    let control = client.console_input_and_capture(&devices[1], b"{}".to_vec()).unwrap();
    assert_eq!(control.requested_capability, SessionCapability::ConsoleControl);
    assert_eq!(control.console_input.unwrap(), b"{}");
    assert!(sdk_text(client.capture_screenshot(&devices[0]))
        .starts_with("config error: invalid device id: "));
}

#[test]
fn create_then_load_is_stable() {
    let a = Identity::generate();
    let pk_a = a.public_key_b64();

    let b = Identity::from_secret_b64(&a.secret_b64()).unwrap();
    assert_eq!(pk_a, b.public_key_b64(), "reload must yield same key");
}

#[test]
fn distinct_paths_distinct_keys() {
    let a = Identity::generate();
    let b = Identity::generate();
    assert_ne!(a.public_key_b64(), b.public_key_b64());
}

#[test]
fn public_key_is_32_bytes() {
    let id = Identity::generate();
    let raw = base64::engine::general_purpose::STANDARD.decode(id.public_key_b64()).unwrap();
    assert_eq!(raw.len(), 32);
}

#[test]
fn a_stored_identity_is_checked() {
    assert!(matches!(Identity::from_secret_b64("?"), Err(SdkError::Base64(_))));
    assert!(matches!(Identity::from_secret_b64("AAAA"), Err(SdkError::Identity(_))));
}

#[test]
fn parse_plain() {
    let (h, p, prefix) = parse_base_url("http://127.0.0.1:8080").unwrap();
    assert_eq!(h, "127.0.0.1");
    assert_eq!(p, 8080);
    assert_eq!(prefix, "");
}

#[test]
fn parse_default_port_and_prefix() {
    let (h, p, prefix) = parse_base_url("http://relay.lan/api").unwrap();
    assert_eq!(h, "relay.lan");
    assert_eq!(p, 80);
    assert_eq!(prefix, "/api");
}

#[test]
fn parse_rejects_https() {
    assert!(parse_base_url("https://relay.lan").is_err());
}

#[test]
fn responses_are_read() {
    assert_eq!(
        response_json(b"HTTP/1.1 200 OK\r\n\r\n {\"a\":\"\xff\"}\r\n").unwrap(),
        "{\"a\":\"\u{fffd}\"}"
    );
    assert_eq!(sdk_text(json_of("")), "http error: empty response");
    assert_eq!(
        sdk_text(json_of("HTTP/1.1 401 No\r\n\r\n")),
        "http error: request failed: HTTP/1.1 401 No"
    );
    assert_eq!(sdk_text(json_of("HTTP/1.1 200 OK\r\n")), "http error: malformed response");
    assert_eq!(access_token(Some("T".to_string())).unwrap(), "T");
}

#[test]
fn identifiers_have_their_text() {
    let id = SessionId::new();
    let text = id.to_string();
    assert_eq!(text.len(), 36);
    assert_eq!(&text[14..15], "7");
    assert_ne!(SessionId::new(), id);
    assert_eq!(uuid::Uuid::parse_str(&text).unwrap().as_u128(), id.0);
    let device = DeviceId::new();
    assert_eq!(DeviceId::parse(&device.to_string()).unwrap(), device);
    assert!(DeviceId::parse("nothing").is_err());
}

#[test]
fn capture_reaches_the_client() {
    let (host_key, host_b64) = key_of(21);
    let (_, client_b64) = key_of(22);
    let mut trusted = TrustedClients::new();
    trusted.trust(&client_b64, entry("viewer", true, false, false));
    let image: Vec<u8> = (0..200000u32).map(|i| (i % 251) as u8).collect();
    let received = capture_between(
        params(22, &host_b64, None),
        host_key,
        trusted,
        ConsentPolicy::Prompt,
        SessionId(5),
        image.clone(),
    )
    .unwrap();
    assert_eq!(received, image);
}

#[test]
fn console_event_reaches_the_host() {
    let (host_key, host_b64) = key_of(23);
    let (_, client_b64) = key_of(24);
    let mut trusted = TrustedClients::new();
    trusted.trust(&client_b64, entry("owner", true, true, true));
    let event = b"{\"Key\":{\"code\":\"KeyA\",\"down\":true}}".to_vec();
    let replayed = input_between(
        params(24, &host_b64, Some(event.clone())),
        host_key,
        trusted,
        unattended(0),
        SessionId(6),
    )
    .unwrap();
    assert_eq!(replayed, event);
}
