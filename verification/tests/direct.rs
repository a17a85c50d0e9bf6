//! Direct LAN sessions: both sides of the handshake, message by message.

use rivetlink::crypto::sealed::SealedChannel;
use rivetlink::sdk::direct::{
    decode_64, first_message, frame_message, key_session_between, message_len, open_token,
    parse_identity, password_session_between, seal_token, ClientKey, ClientPassword, FirstMessage,
    HostKey, HostMode, HostPassword, Wire,
};
use rivetlink::sdk::error::SdkError;
use rivetlink::sdk::identity::Identity;

fn text_of<T>(r: Result<T, SdkError>) -> String {
    match r {
        Ok(_) => "ok".to_string(),
        Err(e) => e.to_string(),
    }
}

/// A host that serves one client in memory.
fn host_password(
    mode: HostMode,
    password: &str,
    hello: Wire,
) -> Result<(HostPassword, Wire), SdkError> {
    match first_message(mode, hello)? {
        FirstMessage::Password { msg } => HostPassword::start(password, &msg),
        FirstMessage::Key { .. } => panic!("password expected"),
    }
}

/// A password session in memory: the client's channel and the host's.
fn password_session(
    mode: HostMode,
    client_pin: &str,
    host_pin: &str,
) -> (Result<SealedChannel, SdkError>, Result<SealedChannel, SdkError>) {
    let (client, hello) = ClientPassword::start(client_pin);
    let (host, answer) = host_password(mode, host_pin, hello).unwrap();
    let host = host.derive().unwrap();
    let (client, confirm) = client.on_pake(&answer).unwrap();
    match host.on_confirm(&confirm) {
        Ok((host_channel, confirm)) => (client.on_confirm(&confirm), Ok(host_channel)),
        // The host hangs up, and the client reads nothing more.
        Err(e) => (Err(SdkError::Io("unexpected end of file".to_string())), Err(e)),
    }
}

/// A key session in memory: the client's channel, and the host's with the
/// identity that it saw.
fn key_session(
    mode: HostMode,
    client_id: &Identity,
    host_id: &Identity,
    trusted: bool,
) -> (Result<SealedChannel, SdkError>, Result<(SealedChannel, String), SdkError>) {
    let (client, hello) = ClientKey::start(client_id, None);
    let host = match first_message(mode, hello).unwrap() {
        FirstMessage::Key { eph, id, sig } => HostKey::verify(&eph, &id, &sig).unwrap(),
        FirstMessage::Password { .. } => panic!("key exchange expected"),
    };
    match host.accept(host_id, trusted) {
        Ok((channel, id, answer)) => (client.on_kex(&answer), Ok((channel, id))),
        Err(e) => (Err(SdkError::Io("unexpected end of file".to_string())), Err(e)),
    }
}

#[test]
fn password_match_establishes_channel() {
    let (client, host) = password_session(HostMode::Password, "4821", "4821");
    let client_ch = client.unwrap();
    let host_ch = host.unwrap();

    let sealed = client_ch.seal(b"hi host").unwrap();
    assert_eq!(host_ch.open(&sealed).unwrap(), b"hi host");
}

#[test]
fn password_mismatch_is_rejected() {
    let (client, host) = password_session(HostMode::Password, "0000", "4821");
    assert!(client.is_err());
    assert_eq!(text_of(host), "crypto error: authentication failed");
}

#[test]
fn key_mode_trusted_establishes_channel() {
    let client_id = Identity::generate();
    let host_id = Identity::generate();
    let client_pub = client_id.public_key_b64();

    let (client, host) = key_session(HostMode::Key, &client_id, &host_id, true);
    let client_ch = client.unwrap();
    let (host_ch, seen) = host.unwrap();

    assert_eq!(seen, client_pub);
    let sealed = host_ch.seal(b"hi client").unwrap();
    assert_eq!(client_ch.open(&sealed).unwrap(), b"hi client");
}

#[test]
fn key_mode_untrusted_is_rejected() {
    let client_id = Identity::generate();
    let host_id = Identity::generate();

    let (client, host) = key_session(HostMode::Key, &client_id, &host_id, false);
    assert_eq!(text_of(host), "crypto error: client not trusted");
    assert!(client.is_err());
}

#[test]
fn auto_accepts_password_client() {
    let (client, host) = password_session(HostMode::Auto, "4821", "4821");
    let client_ch = client.unwrap();
    // Password mode reports no identity.
    let host_ch = host.unwrap();

    let sealed = client_ch.seal(b"hi").unwrap();
    assert_eq!(host_ch.open(&sealed).unwrap(), b"hi");
}

#[test]
fn auto_accepts_trusted_key_client() {
    let client_id = Identity::generate();
    let host_id = Identity::generate();
    let client_pub = client_id.public_key_b64();

    // No password is looked at: the trusted key is what lets it in.
    let (client, host) = key_session(HostMode::Auto, &client_id, &host_id, true);
    let client_ch = client.unwrap();
    let (host_ch, who) = host.unwrap();

    assert_eq!(who, client_pub);
    let sealed = host_ch.seal(b"yo").unwrap();
    assert_eq!(client_ch.open(&sealed).unwrap(), b"yo");
}

#[test]
fn auto_rejects_untrusted_key_client() {
    let client_id = Identity::generate();
    let host_id = Identity::generate();
    let (client, host) = key_session(HostMode::Auto, &client_id, &host_id, false);
    assert!(host.is_err());
    assert!(client.is_err());
}

#[test]
fn both_ends_agree_in_one_process() {
    let (client, host) = password_session_between("2468").unwrap();
    let sealed = client.seal(b"one key").unwrap();
    assert_eq!(host.open(&sealed).unwrap(), b"one key");

    let client_id = Identity::generate();
    let host_id = Identity::generate();
    let (client, host, learned) = key_session_between(&client_id, &host_id).unwrap();
    let sealed = client.seal(b"one key").unwrap();
    assert_eq!(host.open(&sealed).unwrap(), b"one key");
    assert_eq!(learned, client_id.public_key_b64());
}

#[test]
fn a_pinned_host_must_match() {
    let client_id = Identity::generate();
    let host_id = Identity::generate();
    let other = Identity::generate();
    let (client, hello) = ClientKey::start(&client_id, Some(other.signing_key().verifying_key()));
    let (eph, id, sig) = match hello {
        Wire::Kex { eph, id, sig } => (eph, id, sig),
        _ => panic!("key exchange expected"),
    };
    let host = HostKey::verify(&eph, &id, &sig).unwrap();
    assert_eq!(host.client_id(), client_id.public_key_b64());
    let (_, _, answer) = host.accept(&host_id, true).unwrap();
    assert_eq!(text_of(client.on_kex(&answer)), "crypto error: host identity mismatch");
}

#[test]
fn a_forged_key_exchange_is_refused() {
    let client_id = Identity::generate();
    let host_id = Identity::generate();
    let (_, hello) = ClientKey::start(&client_id, None);
    let (_, second) = ClientKey::start(&client_id, None);
    match (hello, second) {
        (Wire::Kex { eph, id, .. }, Wire::Kex { sig, .. }) => {
            assert_eq!(
                text_of(HostKey::verify(&eph, &id, &sig)),
                "crypto error: client key exchange invalid: invalid signature"
            );
        }
        _ => panic!("key exchange expected"),
    }
    let (client, hello) = ClientKey::start(&client_id, None);
    let (eph, id, sig) = match hello {
        Wire::Kex { eph, id, sig } => (eph, id, sig),
        _ => panic!("key exchange expected"),
    };
    let host = HostKey::verify(&eph, &id, &sig).unwrap();
    let (_, _, answer) = host.accept(&host_id, true).unwrap();
    let forged = match answer {
        Wire::Kex { id, sig, .. } => Wire::Kex { eph, id, sig },
        _ => panic!("key exchange expected"),
    };
    assert_eq!(
        text_of(client.on_kex(&forged)),
        "crypto error: host key exchange invalid: invalid signature"
    );
}

#[test]
fn messages_out_of_turn_are_refused() {
    let confirm = || Wire::Confirm { sealed: String::new() };
    let pake = || Wire::Pake { msg: String::new() };
    let kex = || Wire::Kex { eph: String::new(), id: String::new(), sig: String::new() };
    assert_eq!(
        text_of(first_message(HostMode::Password, kex())),
        "crypto error: expected pake message"
    );
    assert_eq!(
        text_of(first_message(HostMode::Key, pake())),
        "crypto error: expected key exchange"
    );
    assert_eq!(
        text_of(first_message(HostMode::Auto, confirm())),
        "crypto error: unexpected confirmation as first message"
    );
    let channel = SealedChannel::from_shared_secret(&[3u8; 32]);
    assert_eq!(text_of(open_token(&channel, &pake())), "crypto error: expected confirmation");
    let (client, _) = ClientPassword::start("1");
    assert_eq!(text_of(client.on_pake(&kex())), "crypto error: expected pake message");
    let (client, _) = ClientKey::start(&Identity::generate(), None);
    assert_eq!(text_of(client.on_kex(&pake())), "crypto error: expected key exchange");
}

#[test]
fn malformed_messages_are_refused() {
    let (client, _) = ClientPassword::start("1");
    let short = Wire::Pake { msg: "AAAA".to_string() };
    assert_eq!(text_of(client.on_pake(&short)), "crypto error: password authentication failed");
    assert!(matches!(HostPassword::start("1", "?"), Err(SdkError::Base64(_))));
    let (host, _) = HostPassword::start("1", "AAAA").unwrap();
    assert_eq!(text_of(host.derive()), "crypto error: password authentication failed");
    assert_eq!(text_of(parse_identity("AAAA")), "crypto error: expected 32 bytes");
    assert_eq!(text_of(decode_64("AAAA")), "crypto error: expected 64 bytes");
    // 2 is no coordinate of a point of the curve.
    assert_eq!(
        text_of(parse_identity("AgAAAAAAAAAAAAAAAAAAAAAAAAAAAAAAAAAAAAAAAAA=")),
        "crypto error: bad identity key: signature error: Cannot decompress Edwards point"
    );
}

#[test]
fn a_confirmation_is_bound_to_its_channel() {
    let channel = SealedChannel::from_shared_secret(&[3u8; 32]);
    let other = SealedChannel::from_shared_secret(&[4u8; 32]);
    let token = seal_token(&channel).unwrap();
    assert!(open_token(&channel, &token).is_ok());
    assert_eq!(text_of(open_token(&other, &token)), "crypto error: authentication failed");
}

#[test]
fn handshake_frames_are_bounded() {
    let framed = frame_message(&b"{}".to_vec()).unwrap();
    assert_eq!(framed, [0, 0, 0, 2, b'{', b'}']);
    assert_eq!(message_len(&[0, 0, 0x40, 0]).unwrap(), 16384);
    assert_eq!(
        text_of(message_len(&[0, 0, 0x40, 1])),
        "crypto error: handshake frame too large"
    );
}
