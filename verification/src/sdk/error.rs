//! SDK error types.

use vstd::prelude::*;
use vstd::string::*;

use crate::text::joined;

verus! {

/// Errors emitted by the SDK.
#[derive(Debug)]
pub enum SdkError {
    Config(String),
    Identity(String),
    Http(String),
    NotAuthenticated,
    Auth(String),
    Relay(String),
    WebSocket(String),
    SessionRejected(String),
    Crypto(String),
    Discovery(String),
    /// The description of a failed input or output operation.
    Io(String),
    /// The description of a failed conversion to or from JSON.
    Serde(String),
    Base64(String),
}

/// Result alias used throughout the SDK.
pub type SdkResult<T> = Result<T, SdkError>;

/// An [`SdkError`] with its message as characters.
pub enum SdkErrorView {
    Config(Seq<char>),
    Identity(Seq<char>),
    Http(Seq<char>),
    NotAuthenticated,
    Auth(Seq<char>),
    Relay(Seq<char>),
    WebSocket(Seq<char>),
    SessionRejected(Seq<char>),
    Crypto(Seq<char>),
    Discovery(Seq<char>),
    Io(Seq<char>),
    Serde(Seq<char>),
    Base64(Seq<char>),
}

impl View for SdkError {
    type V = SdkErrorView;

    open spec fn view(&self) -> SdkErrorView {
        match *self {
            SdkError::Config(m) => SdkErrorView::Config(m@),
            SdkError::Identity(m) => SdkErrorView::Identity(m@),
            SdkError::Http(m) => SdkErrorView::Http(m@),
            SdkError::NotAuthenticated => SdkErrorView::NotAuthenticated,
            SdkError::Auth(m) => SdkErrorView::Auth(m@),
            SdkError::Relay(m) => SdkErrorView::Relay(m@),
            SdkError::WebSocket(m) => SdkErrorView::WebSocket(m@),
            SdkError::SessionRejected(m) => SdkErrorView::SessionRejected(m@),
            SdkError::Crypto(m) => SdkErrorView::Crypto(m@),
            SdkError::Discovery(m) => SdkErrorView::Discovery(m@),
            SdkError::Io(m) => SdkErrorView::Io(m@),
            SdkError::Serde(m) => SdkErrorView::Serde(m@),
            SdkError::Base64(m) => SdkErrorView::Base64(m@),
        }
    }
}

impl SdkErrorView {
    /// The text shown to a user.
    pub open spec fn text(self) -> Seq<char> {
        match self {
            SdkErrorView::Config(m) => "config error: "@ + m,
            SdkErrorView::Identity(m) => "identity error: "@ + m,
            SdkErrorView::Http(m) => "http error: "@ + m,
            SdkErrorView::NotAuthenticated => "not authenticated — call login() first"@,
            SdkErrorView::Auth(m) => "authentication failed: "@ + m,
            SdkErrorView::Relay(m) => "relay error: "@ + m,
            SdkErrorView::WebSocket(m) => "websocket error: "@ + m,
            SdkErrorView::SessionRejected(m) => "session rejected by host: "@ + m,
            SdkErrorView::Crypto(m) => "crypto error: "@ + m,
            SdkErrorView::Discovery(m) => "discovery error: "@ + m,
            SdkErrorView::Io(m) => "io error: "@ + m,
            SdkErrorView::Serde(m) => "serialization error: "@ + m,
            SdkErrorView::Base64(m) => "invalid base64: "@ + m,
        }
    }
}

impl SdkError {
    /// The text shown to a user.
    pub fn to_string(&self) -> (s: String)
        ensures
            s@ == self@.text(),
    {
        match self {
            SdkError::Config(m) => joined("config error: ", m.as_str()),
            SdkError::Identity(m) => joined("identity error: ", m.as_str()),
            SdkError::Http(m) => joined("http error: ", m.as_str()),
            SdkError::NotAuthenticated => "not authenticated — call login() first".to_owned(),
            SdkError::Auth(m) => joined("authentication failed: ", m.as_str()),
            SdkError::Relay(m) => joined("relay error: ", m.as_str()),
            SdkError::WebSocket(m) => joined("websocket error: ", m.as_str()),
            SdkError::SessionRejected(m) => joined("session rejected by host: ", m.as_str()),
            SdkError::Crypto(m) => joined("crypto error: ", m.as_str()),
            SdkError::Discovery(m) => joined("discovery error: ", m.as_str()),
            SdkError::Io(m) => joined("io error: ", m.as_str()),
            SdkError::Serde(m) => joined("serialization error: ", m.as_str()),
            SdkError::Base64(m) => joined("invalid base64: ", m.as_str()),
        }
    }
}

/// Whether `r` fails exactly when there is a fault, and then with it.
pub open spec fn fails_with<T>(r: SdkResult<T>, fault: Option<SdkErrorView>) -> bool {
    match fault {
        Some(f) => r matches Err(e) && e@ == f,
        None => r is Ok,
    }
}

/// The cryptographic error with the given message.
pub fn crypto_error(message: &str) -> (e: SdkError)
    ensures
        e@ == SdkErrorView::Crypto(message@),
{
    SdkError::Crypto(message.to_owned())
}

/// The configuration error with the given message.
pub fn config_error(message: &str) -> (e: SdkError)
    ensures
        e@ == SdkErrorView::Config(message@),
{
    SdkError::Config(message.to_owned())
}

/// An error says what kind it is, and then what happened, in the words that it was made
/// with.
pub proof fn errors_say_what_happened(message: Seq<char>)
    ensures
        SdkErrorView::Config(message).text() == "config error: "@ + message,
        SdkErrorView::Identity(message).text() == "identity error: "@ + message,
        SdkErrorView::Http(message).text() == "http error: "@ + message,
        SdkErrorView::Auth(message).text() == "authentication failed: "@ + message,
        SdkErrorView::Relay(message).text() == "relay error: "@ + message,
        SdkErrorView::WebSocket(message).text() == "websocket error: "@ + message,
        SdkErrorView::SessionRejected(message).text() == "session rejected by host: "@ + message,
        SdkErrorView::Crypto(message).text() == "crypto error: "@ + message,
        SdkErrorView::Discovery(message).text() == "discovery error: "@ + message,
        SdkErrorView::Io(message).text() == "io error: "@ + message,
        SdkErrorView::Serde(message).text() == "serialization error: "@ + message,
        SdkErrorView::Base64(message).text() == "invalid base64: "@ + message,
        SdkErrorView::NotAuthenticated.text() == "not authenticated — call login() first"@,
{
}

/// An operation fails exactly when something is wrong, and says so; it succeeds
/// otherwise.
pub proof fn faults_are_failures<T>(r: SdkResult<T>, fault: Option<SdkErrorView>)
    requires
        fails_with(r, fault),
    ensures
        r is Ok <==> fault is None,
        r matches Err(e) ==> Some(e@) == fault,
{
}

} // verus!
