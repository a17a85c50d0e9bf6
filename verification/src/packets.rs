//! Packet definitions for signaling and input communication.
//!
//! The views replace each string by its characters, so that contracts can say
//! which packet a function gives.

use vstd::prelude::*;

use crate::types::{DeviceId, SessionId, SessionRole};

verus! {

/// The graphical-console state a Linux host reports to an authenticated
/// client. These states describe the *physical* console on seat0; they never
/// imply that the account password is known.
#[derive(Debug, Clone, Copy, PartialEq, Eq, Structural)]
pub enum HostConsoleState {
    /// The boot-time broker is up but the display manager is not ready yet.
    Booting,
    /// GDM owns the physical console and can be controlled by a trusted client.
    GdmLogin,
    /// GDM accepted credentials and is replacing the greeter with a desktop.
    SessionStarting,
    /// A normal graphical user session owns the physical console.
    DesktopReady,
    /// The graphical user session owns the console but is locked.
    SessionLocked,
    /// The console owner is changing (logout, user switch, or display restart).
    SessionSwitching,
    /// The host is intentionally not able to serve the physical console.
    Offline,
}

/// Privileged capability requested when opening a session.
///
/// The default deliberately remains screenshot-only, so that clients without
/// console support can never acquire pre-login input merely by upgrading the
/// host or relay. A host must make a second, local authorization decision for
/// [`ConsoleControl`](Self::ConsoleControl).
#[derive(Debug, Clone, Copy, PartialEq, Eq, Structural)]
pub enum SessionCapability {
    /// One or more encrypted on-demand captures, without remote input.
    Screenshot,
    /// View and input for the physical Linux console, including GDM.
    ConsoleControl,
}

impl Default for SessionCapability {
    fn default() -> (capability: Self)
        ensures
            capability == SessionCapability::Screenshot,
    {
        SessionCapability::Screenshot
    }
}

/// Session signaling packet for establishing and maintaining connections.
#[allow(inconsistent_fields)]
#[derive(Debug, Clone)]
pub enum SignalPacket {
    /// Initial request to establish a session with a device ID and client public key.
    ///
    /// The client sends this with `session_id = None`. The relay allocates a
    /// session, stamps `session_id`, and forwards the packet to the host.
    SessionRequest {
        device_id: DeviceId,
        client_public_key: String,
        requested_capability: SessionCapability,
        session_id: Option<SessionId>,
    },
    /// Authentication challenge issued by the server with a nonce.
    AuthChallenge { session_id: SessionId, nonce: String },
    /// Authentication response from client with signature proof.
    AuthResponse { session_id: SessionId, signature: String },
    /// Confirmation that session is accepted with assigned role.
    SessionAccepted { session_id: SessionId, role: SessionRole },
    /// Rejection of session request with reason.
    SessionRejected { session_id: SessionId, reason: String },
    /// ICE candidate for peer-to-peer connection negotiation.
    IceCandidate { session_id: SessionId, candidate: String },
    /// Ephemeral x25519 public key for deriving the end-to-end session secret.
    ///
    /// Both peers send one. `identity_public_key` is the sender's long-term
    /// Ed25519 key and `signature` is that key's signature over the raw
    /// ephemeral key bytes; all three are base64.
    SessionKeyExchange {
        session_id: SessionId,
        ephemeral_public_key: String,
        identity_public_key: String,
        signature: String,
    },
    /// Client to host: request a single screen capture over the sealed channel.
    ScreenshotRequest { session_id: SessionId },
    /// Host to client: one chunk of an encrypted screen capture.
    ///
    /// Large images are split across chunks ordered by `sequence`; the final
    /// chunk sets `last = true`. The payloads in order are base64 of a sealed blob.
    ScreenshotData {
        session_id: SessionId,
        /// Zero-based chunk index.
        sequence: u32,
        /// Total number of chunks in this capture.
        total: u32,
        /// True when this is the final chunk.
        last: bool,
        /// Base64 of the sealed chunk bytes.
        payload: String,
    },
    /// Host to client: non-sensitive physical-console lifecycle state.
    HostConsoleState {
        session_id: SessionId,
        state: HostConsoleState,
        /// Increments whenever console ownership changes. A client discards
        /// frames from an earlier generation.
        generation: u64,
    },
    /// Controller to host: a sealed, session-bound physical-console input event.
    ConsoleInput { session_id: SessionId, payload: String },
    /// Keepalive signal to maintain connection.
    Heartbeat,
    /// Notification that session has been closed.
    SessionClosed { session_id: SessionId },
}

/// A [`SignalPacket`] with its strings as characters.
#[allow(inconsistent_fields)]
pub enum SignalPacketView {
    SessionRequest {
        device_id: DeviceId,
        client_public_key: Seq<char>,
        requested_capability: SessionCapability,
        session_id: Option<SessionId>,
    },
    AuthChallenge { session_id: SessionId, nonce: Seq<char> },
    AuthResponse { session_id: SessionId, signature: Seq<char> },
    SessionAccepted { session_id: SessionId, role: SessionRole },
    SessionRejected { session_id: SessionId, reason: Seq<char> },
    IceCandidate { session_id: SessionId, candidate: Seq<char> },
    SessionKeyExchange {
        session_id: SessionId,
        ephemeral_public_key: Seq<char>,
        identity_public_key: Seq<char>,
        signature: Seq<char>,
    },
    ScreenshotRequest { session_id: SessionId },
    ScreenshotData {
        session_id: SessionId,
        sequence: u32,
        total: u32,
        last: bool,
        payload: Seq<char>,
    },
    HostConsoleState { session_id: SessionId, state: HostConsoleState, generation: u64 },
    ConsoleInput { session_id: SessionId, payload: Seq<char> },
    Heartbeat,
    SessionClosed { session_id: SessionId },
}

impl View for SignalPacket {
    type V = SignalPacketView;

    open spec fn view(&self) -> SignalPacketView {
        match *self {
            SignalPacket::SessionRequest {
                device_id,
                client_public_key,
                requested_capability,
                session_id,
            } => SignalPacketView::SessionRequest {
                device_id,
                client_public_key: client_public_key@,
                requested_capability,
                session_id,
            },
            SignalPacket::AuthChallenge { session_id, nonce } => SignalPacketView::AuthChallenge {
                session_id,
                nonce: nonce@,
            },
            SignalPacket::AuthResponse { session_id, signature } => SignalPacketView::AuthResponse {
                session_id,
                signature: signature@,
            },
            SignalPacket::SessionAccepted { session_id, role } => SignalPacketView::SessionAccepted {
                session_id,
                role,
            },
            SignalPacket::SessionRejected { session_id, reason } => SignalPacketView::SessionRejected {
                session_id,
                reason: reason@,
            },
            SignalPacket::IceCandidate { session_id, candidate } => SignalPacketView::IceCandidate {
                session_id,
                candidate: candidate@,
            },
            SignalPacket::SessionKeyExchange {
                session_id,
                ephemeral_public_key,
                identity_public_key,
                signature,
            } => SignalPacketView::SessionKeyExchange {
                session_id,
                ephemeral_public_key: ephemeral_public_key@,
                identity_public_key: identity_public_key@,
                signature: signature@,
            },
            SignalPacket::ScreenshotRequest { session_id } => SignalPacketView::ScreenshotRequest {
                session_id,
            },
            SignalPacket::ScreenshotData { session_id, sequence, total, last, payload } => {
                SignalPacketView::ScreenshotData {
                    session_id,
                    sequence,
                    total,
                    last,
                    payload: payload@,
                }
            },
            SignalPacket::HostConsoleState { session_id, state, generation } => {
                SignalPacketView::HostConsoleState { session_id, state, generation }
            },
            SignalPacket::ConsoleInput { session_id, payload } => SignalPacketView::ConsoleInput {
                session_id,
                payload: payload@,
            },
            SignalPacket::Heartbeat => SignalPacketView::Heartbeat,
            SignalPacket::SessionClosed { session_id } => SignalPacketView::SessionClosed {
                session_id,
            },
        }
    }
}

/// The packets of a reply, each by its view.
pub open spec fn packet_views(packets: Seq<SignalPacket>) -> Seq<SignalPacketView> {
    packets.map_values(|p: SignalPacket| p@)
}

/// User input packet for remote mouse, keyboard, and clipboard events.
#[derive(Debug, Clone)]
pub enum InputPacket {
    /// Mouse cursor movement with absolute coordinates.
    MouseMove { x: i32, y: i32 },
    /// Mouse button press or release event.
    MouseButton { button: MouseButton, state: ButtonState },
    /// Keyboard key press or release event.
    KeyboardInput { scan_code: u32, state: ButtonState },
    /// Clipboard content synchronization.
    ClipboardSync { content: String },
}

/// The deliberately small input vocabulary accepted for the physical console.
/// Clipboard and text-paste are excluded so the broker never becomes a generic
/// data-transfer channel; password entry remains ordinary key events in GDM.
#[derive(Debug, Clone)]
pub enum ConsoleInputPacket {
    PointerMove { x: u16, y: u16 },
    PointerButton { button: MouseButton, down: bool },
    Scroll { dx: i16, dy: i16 },
    Key { code: String, down: bool },
}

/// Mouse button identifier.
#[derive(Debug, Clone, Copy, PartialEq, Eq, Structural)]
pub enum MouseButton {
    /// Left mouse button.
    Left,
    /// Right mouse button.
    Right,
    /// Middle mouse button.
    Middle,
}

/// Button or key state for mouse and keyboard input.
#[derive(Debug, Clone, Copy, PartialEq, Eq, Structural)]
pub enum ButtonState {
    /// Button or key pressed down.
    Down,
    /// Button or key released.
    Up,
}

} // verus!
