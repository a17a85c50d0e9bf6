//! Agent error types.

use vstd::prelude::*;
use vstd::string::*;

use crate::text::joined;

verus! {

/// Errors emitted by the agent runtime.
#[derive(Debug)]
pub enum AgentError {
    Config(String),
    Keystore(String),
    Relay(String),
    /// The description of a failed input or output operation.
    Io(String),
    /// The description of a failed conversion to or from JSON.
    Serde(String),
    Base64(String),
    WebSocket(String),
    Lan(String),
    Input(String),
}

/// Result alias used throughout the agent.
pub type AgentResult<T> = Result<T, AgentError>;

impl AgentError {
    /// The text shown to a user.
    pub fn to_string(&self) -> (s: String)
        ensures
            s@ == self@.text(),
    {
        match self {
            AgentError::Config(m) => joined("config error: ", m.as_str()),
            AgentError::Keystore(m) => joined("keystore error: ", m.as_str()),
            AgentError::Relay(m) => joined("relay connection error: ", m.as_str()),
            AgentError::Io(m) => joined("io error: ", m.as_str()),
            AgentError::Serde(m) => joined("serialization error: ", m.as_str()),
            AgentError::Base64(m) => joined("invalid base64: ", m.as_str()),
            AgentError::WebSocket(m) => joined("websocket error: ", m.as_str()),
            AgentError::Lan(m) => joined("direct-LAN error: ", m.as_str()),
            AgentError::Input(m) => joined("input error: ", m.as_str()),
        }
    }
}

/// An [`AgentError`] with its message as characters.
pub enum AgentErrorView {
    Config(Seq<char>),
    Keystore(Seq<char>),
    Relay(Seq<char>),
    Io(Seq<char>),
    Serde(Seq<char>),
    Base64(Seq<char>),
    WebSocket(Seq<char>),
    Lan(Seq<char>),
    Input(Seq<char>),
}

impl AgentErrorView {
    /// The text shown to a user.
    pub open spec fn text(self) -> Seq<char> {
        match self {
            AgentErrorView::Config(m) => "config error: "@ + m,
            AgentErrorView::Keystore(m) => "keystore error: "@ + m,
            AgentErrorView::Relay(m) => "relay connection error: "@ + m,
            AgentErrorView::Io(m) => "io error: "@ + m,
            AgentErrorView::Serde(m) => "serialization error: "@ + m,
            AgentErrorView::Base64(m) => "invalid base64: "@ + m,
            AgentErrorView::WebSocket(m) => "websocket error: "@ + m,
            AgentErrorView::Lan(m) => "direct-LAN error: "@ + m,
            AgentErrorView::Input(m) => "input error: "@ + m,
        }
    }
}

impl View for AgentError {
    type V = AgentErrorView;

    open spec fn view(&self) -> AgentErrorView {
        match *self {
            AgentError::Config(m) => AgentErrorView::Config(m@),
            AgentError::Keystore(m) => AgentErrorView::Keystore(m@),
            AgentError::Relay(m) => AgentErrorView::Relay(m@),
            AgentError::Io(m) => AgentErrorView::Io(m@),
            AgentError::Serde(m) => AgentErrorView::Serde(m@),
            AgentError::Base64(m) => AgentErrorView::Base64(m@),
            AgentError::WebSocket(m) => AgentErrorView::WebSocket(m@),
            AgentError::Lan(m) => AgentErrorView::Lan(m@),
            AgentError::Input(m) => AgentErrorView::Input(m@),
        }
    }
}

/// Whether `r` fails exactly when there is a fault, and then with it.
pub open spec fn fails_with<T>(r: AgentResult<T>, fault: Option<AgentErrorView>) -> bool {
    match fault {
        Some(f) => r matches Err(e) && e@ == f,
        None => r is Ok,
    }
}

/// The relay error with the given message.
pub fn relay_error(message: &str) -> (e: AgentError)
    ensures
        e@ == AgentErrorView::Relay(message@),
{
    AgentError::Relay(message.to_owned())
}

/// The configuration error with the given message.
pub fn config_error(message: &str) -> (e: AgentError)
    ensures
        e@ == AgentErrorView::Config(message@),
{
    AgentError::Config(message.to_owned())
}

/// An error says what kind it is, and then what happened, in the words that it was made
/// with.
pub proof fn errors_say_what_happened(message: Seq<char>)
    ensures
        message.is_suffix_of(AgentErrorView::Config(message).text()),
        message.is_suffix_of(AgentErrorView::Keystore(message).text()),
        message.is_suffix_of(AgentErrorView::Relay(message).text()),
        message.is_suffix_of(AgentErrorView::Io(message).text()),
        message.is_suffix_of(AgentErrorView::Serde(message).text()),
        message.is_suffix_of(AgentErrorView::Base64(message).text()),
        message.is_suffix_of(AgentErrorView::WebSocket(message).text()),
        message.is_suffix_of(AgentErrorView::Lan(message).text()),
        message.is_suffix_of(AgentErrorView::Input(message).text()),
        AgentErrorView::Relay(message).text() == "relay connection error: "@ + message,
        AgentErrorView::Config(message).text() == "config error: "@ + message,
        AgentErrorView::Keystore(message).text() == "keystore error: "@ + message,
        AgentErrorView::Io(message).text() == "io error: "@ + message,
        AgentErrorView::Serde(message).text() == "serialization error: "@ + message,
        AgentErrorView::Base64(message).text() == "invalid base64: "@ + message,
        AgentErrorView::WebSocket(message).text() == "websocket error: "@ + message,
        AgentErrorView::Lan(message).text() == "direct-LAN error: "@ + message,
        AgentErrorView::Input(message).text() == "input error: "@ + message,
{
    ends_with_message("config error: "@, message);
    ends_with_message("keystore error: "@, message);
    ends_with_message("relay connection error: "@, message);
    ends_with_message("io error: "@, message);
    ends_with_message("serialization error: "@, message);
    ends_with_message("invalid base64: "@, message);
    ends_with_message("websocket error: "@, message);
    ends_with_message("direct-LAN error: "@, message);
    ends_with_message("input error: "@, message);
}

proof fn ends_with_message(kind: Seq<char>, message: Seq<char>)
    ensures
        message.is_suffix_of(kind + message),
{
    let text = kind + message;
    assert(text.subrange(text.len() - message.len(), text.len() as int) =~= message);
}

/// An operation fails exactly when something is wrong, and says so; it succeeds
/// otherwise.
pub proof fn faults_are_failures<T>(r: AgentResult<T>, fault: Option<AgentErrorView>)
    requires
        fails_with(r, fault),
    ensures
        r is Ok <==> fault is None,
        r matches Err(e) ==> Some(e@) == fault,
{
}

} // verus!
