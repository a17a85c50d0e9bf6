//! High-level client facade: the main entry point for SDK consumers.
//!
//! Ties together config, identity, the REST API, and the encrypted session so
//! a caller drives a support session without touching the wire protocol
//! directly.

use vstd::prelude::*;
use vstd::string::*;

use super::config::ClientConfig;
use super::error;
use super::error::{SdkError, SdkErrorView, SdkResult};
use super::identity::Identity;
use super::rest;
use super::rest::{ApiRequest, Device};
use super::session::CaptureParams;
use crate::crypto::identity::SigningKey;
use crate::crypto::primitives;
use crate::encoding;
use crate::json;
use crate::packets::SessionCapability;
use crate::text;
use crate::text::{joined, same_text};
use crate::types;
use crate::types::DeviceId;

verus! {

/// A support client bound to one identity and one relay.
///
/// Construct it, log in, then list devices and capture. The access token is
/// held internally after a login succeeded.
pub struct RivetClient {
    config: ClientConfig,
    identity: Identity,
    token: Option<String>,
}

/// The fault of a device's identifier.
pub open spec fn device_id_fault(id: Seq<char>) -> Option<SdkErrorView> {
    match types::uuid_parsed(id) {
        Ok(_) => None,
        Err(fault) => Some(SdkErrorView::Config("invalid device id: "@ + fault)),
    }
}

/// What is wrong with a response to a login.
pub open spec fn login_fault(response: Seq<char>) -> Option<SdkErrorView> {
    if rest::response_fault(response) is Some {
        rest::response_fault(response)
    } else {
        rest::token_fault(rest::json_text(response))
    }
}

/// What is wrong with a response to a registration.
pub open spec fn registration_fault(response: Seq<char>) -> Option<SdkErrorView> {
    if rest::response_fault(response) is Some {
        rest::response_fault(response)
    } else {
        rest::id_fault(rest::json_text(response))
    }
}

/// The first device from `from` on that has the given identifier.
pub open spec fn device_at(devices: Seq<Device>, id: Seq<char>, from: int) -> Option<int>
    decreases devices.len() - from,
{
    if from < 0 || from >= devices.len() {
        None
    } else if devices[from].id@ == id {
        Some(from)
    } else {
        device_at(devices, id, from + 1)
    }
}

impl RivetClient {
    /// The configuration.
    pub closed spec fn settings(&self) -> ClientConfig {
        self.config
    }

    /// The secret seed of the identity.
    pub closed spec fn seed(&self) -> Seq<u8> {
        self.identity@
    }

    /// The access token.
    pub closed spec fn access(&self) -> Option<Seq<char>> {
        match self.token {
            Some(token) => Some(token@),
            None => None,
        }
    }

    /// The fault of an operation that needs a login.
    pub open spec fn auth_fault(&self) -> Option<SdkErrorView> {
        if self.access() is Some {
            None
        } else {
            Some(SdkErrorView::NotAuthenticated)
        }
    }

    /// Build a client from a configuration and the identity that it points at.
    pub fn new(config: ClientConfig, identity: Identity) -> (r: SdkResult<Self>)
        ensures
            error::fails_with(r, config.fault()),
            r matches Ok(client) ==> {
                &&& client.settings() == config
                &&& client.seed() == identity@
                &&& client.access() is None
            },
    {
        match config.validate() {
            Ok(()) => Ok(RivetClient { config, identity, token: None }),
            Err(e) => Err(e),
        }
    }

    /// This client's identity public key (base64): what a host trusts.
    pub fn public_key(&self) -> (text: String)
        ensures
            text@ == encoding::base64_text(primitives::ed25519_public(self.seed())),
            encoding::fixed_bytes(text@) == primitives::ed25519_public(self.seed()),
    {
        self.identity.public_key_b64()
    }

    /// The relay endpoints and identity path this client is bound to.
    pub fn config(&self) -> (config: &ClientConfig)
        ensures
            *config == self.settings(),
    {
        &self.config
    }

    /// Whether a login succeeded and a token is held.
    pub fn is_authenticated(&self) -> (held: bool)
        ensures
            held == self.access() is Some,
    {
        self.token.is_some()
    }

    /// The request to log in, with a JSON body of so many bytes.
    pub fn login_request(&self, body_len: usize) -> (r: SdkResult<ApiRequest>)
        ensures
            error::fails_with(r, rest::base_fault(self.settings().relay_http_url@)),
            r matches Ok(request) ==> rest::is_request(
                request,
                self.settings().relay_http_url@,
                "POST"@,
                "/auth/login"@,
                None,
                Some(body_len),
            ),
    {
        rest::login_request(self.config.relay_http_url.as_str(), body_len)
    }

    /// Take the bytes that came in response to a login: the token in them is held
    /// from now on.
    pub fn login(&mut self, response: &[u8]) -> (r: SdkResult<()>)
        ensures
            error::fails_with(r, login_fault(text::utf8_lossy(response@))),
            r is Ok ==> json::json_member(
                rest::json_text(text::utf8_lossy(response@)),
                "access_token"@,
            ) == Ok::<Option<Seq<char>>, Seq<char>>(final(self).access()),
            r is Ok ==> final(self).access() is Some,
            r is Err ==> final(self).access() == old(self).access(),
            final(self).settings() == old(self).settings(),
            final(self).seed() == old(self).seed(),
    {
        let json = match rest::response_json(response) {
            Ok(json) => json,
            Err(e) => {
                return Err(e);
            },
        };
        match rest::token_of(json.as_str()) {
            Ok(token) => {
                self.hold(token);
                Ok(())
            },
            Err(e) => Err(e),
        }
    }

    /// Hold an access token from now on.
    pub fn hold(&mut self, token: String)
        ensures
            final(self).access() == Some(token@),
            final(self).settings() == old(self).settings(),
            final(self).seed() == old(self).seed(),
    {
        self.token = Some(token);
    }

    /// The stored token.
    pub fn token(&self) -> (r: SdkResult<&str>)
        ensures
            error::fails_with(r, self.auth_fault()),
            r matches Ok(token) ==> Some(token@) == self.access(),
    {
        match &self.token {
            Some(token) => Ok(token.as_str()),
            None => Err(SdkError::NotAuthenticated),
        }
    }

    /// The fault of an authorized request.
    pub open spec fn request_fault(&self) -> Option<SdkErrorView> {
        if self.auth_fault() is Some {
            self.auth_fault()
        } else {
            rest::base_fault(self.settings().relay_http_url@)
        }
    }

    /// A request that carries the token.
    fn authorized(&self, method: &str, path: &str, body_len: Option<usize>) -> (r: SdkResult<
        ApiRequest,
    >)
        ensures
            error::fails_with(r, self.request_fault()),
            r matches Ok(request) ==> rest::is_request(
                request,
                self.settings().relay_http_url@,
                method@,
                path@,
                self.access(),
                body_len,
            ),
    {
        match self.token() {
            Ok(token) => rest::request(
                self.config.relay_http_url.as_str(),
                method,
                path,
                Some(token),
                body_len,
            ),
            Err(e) => Err(e),
        }
    }

    /// The request to list the devices visible to the authenticated user.
    pub fn list_devices(&self) -> (r: SdkResult<ApiRequest>)
        ensures
            error::fails_with(r, self.request_fault()),
            r matches Ok(request) ==> rest::is_request(
                request,
                self.settings().relay_http_url@,
                "GET"@,
                "/devices"@,
                self.access(),
                None,
            ),
    {
        self.authorized("GET", "/devices", None)
    }

    /// The request to register a host device, with a JSON body of so many
    /// bytes. The access token remains private to the SDK.
    pub fn register_device(&self, body_len: usize) -> (r: SdkResult<ApiRequest>)
        ensures
            error::fails_with(r, self.request_fault()),
            r matches Ok(request) ==> rest::is_request(
                request,
                self.settings().relay_http_url@,
                "POST"@,
                "/devices/register"@,
                self.access(),
                Some(body_len),
            ),
    {
        self.authorized("POST", "/devices/register", Some(body_len))
    }

    /// The identifier of the device in the bytes that came in response to a
    /// registration.
    pub fn registered_device(response: &[u8]) -> (r: SdkResult<String>)
        ensures
            error::fails_with(r, registration_fault(text::utf8_lossy(response@))),
            r matches Ok(id) ==> json::json_member(
                rest::json_text(text::utf8_lossy(response@)),
                "id"@,
            ) == Ok::<Option<Seq<char>>, Seq<char>>(Some(id@)),
    {
        match rest::response_json(response) {
            Ok(json) => rest::device_id_of(json.as_str()),
            Err(e) => Err(e),
        }
    }

    /// Find one device by its id: the place of the first one that has it.
    pub fn find_device(devices: &Vec<Device>, device_id: &str) -> (r: SdkResult<usize>)
        ensures
            error::fails_with(
                r,
                if device_at(devices@, device_id@, 0) is Some {
                    None
                } else {
                    Some(
                        SdkErrorView::Config(
                            "device "@ + device_id@ + " not found in your org"@,
                        ),
                    )
                },
            ),
            r matches Ok(i) ==> Some(i as int) == device_at(devices@, device_id@, 0),
    {
        let mut i: usize = 0;
        while i < devices.len()
            invariant
                i <= devices@.len(),
                device_at(devices@, device_id@, 0) == device_at(devices@, device_id@, i as int),
            decreases devices@.len() - i,
        {
            if same_text(devices[i].id.as_str(), device_id) {
                return Ok(i);
            }
            i = i + 1;
        }
        let mut message = joined("device ", device_id);
        message.append(" not found in your org");
        Err(SdkError::Config(message))
    }

    /// The fault of a capture from a device.
    pub open spec fn capture_fault(&self, device: Device) -> Option<SdkErrorView> {
        if device_id_fault(device.id@) is Some {
            device_id_fault(device.id@)
        } else {
            self.auth_fault()
        }
    }

    /// Whether `params` are those of a session of this client with `device`.
    pub open spec fn is_capture(&self, params: CaptureParams, device: Device) -> bool {
        &&& params.identity@ == self.seed()
        &&& types::uuid_parsed(device.id@) is Ok
        &&& types::uuid_parsed(device.id@)->Ok_0 == params.device_id.0
        &&& params.host_public_key_b64@ == device.public_key@
    }

    fn capture_params(
        &self,
        device: &Device,
        requested_capability: SessionCapability,
        console_input: Option<Vec<u8>>,
    ) -> (r: SdkResult<CaptureParams>)
        ensures
            error::fails_with(r, self.capture_fault(*device)),
            r matches Ok(params) ==> {
                &&& self.is_capture(params, *device)
                &&& params.requested_capability == requested_capability
                &&& params.console_input == console_input
            },
    {
        let device_id = match DeviceId::parse(device.id.as_str()) {
            Ok(device_id) => device_id,
            Err(fault) => {
                return Err(SdkError::Config(joined("invalid device id: ", fault.as_str())));
            },
        };
        match self.token() {
            Ok(_) => {},
            Err(e) => {
                return Err(e);
            },
        }
        let seed = self.identity.signing_key().to_bytes();
        Ok(
            CaptureParams {
                identity: Identity::from_signing_key(SigningKey::from_bytes(&seed)),
                device_id,
                host_public_key_b64: device.public_key.as_str().to_owned(),
                requested_capability,
                console_input,
            },
        )
    }

    /// The session that takes one screenshot of `device`. It asks for no input.
    pub fn capture_screenshot(&self, device: &Device) -> (r: SdkResult<CaptureParams>)
        ensures
            error::fails_with(r, self.capture_fault(*device)),
            r matches Ok(params) ==> {
                &&& self.is_capture(params, *device)
                &&& params.requested_capability == SessionCapability::Screenshot
                &&& params.console_input is None
            },
    {
        self.capture_params(device, SessionCapability::Screenshot, None)
    }

    /// The session that sends one encoded console event and then captures the
    /// resulting screen.
    pub fn console_input_and_capture(&self, device: &Device, event: Vec<u8>) -> (r: SdkResult<
        CaptureParams,
    >)
        ensures
            error::fails_with(r, self.capture_fault(*device)),
            r matches Ok(params) ==> {
                &&& self.is_capture(params, *device)
                &&& params.requested_capability == SessionCapability::ConsoleControl
                &&& params.console_input == Some(event)
            },
    {
        self.capture_params(device, SessionCapability::ConsoleControl, Some(event))
    }
}

/// What is found is the first device with the identifier, and one is found if there is
/// one.
pub proof fn first_device_with_the_id_is_found(devices: Seq<Device>, id: Seq<char>, from: int)
    requires
        0 <= from <= devices.len(),
    ensures
        device_at(devices, id, from) matches Some(i) ==> {
            &&& from <= i < devices.len()
            &&& devices[i].id@ == id
            &&& forall|j: int| from <= j < i ==> (#[trigger] devices[j]).id@ != id
        },
        device_at(devices, id, from) is None ==> forall|j: int|
            from <= j < devices.len() ==> (#[trigger] devices[j]).id@ != id,
    decreases devices.len() - from,
{
    if from < devices.len() && devices[from].id@ != id {
        first_device_with_the_id_is_found(devices, id, from + 1);
    }
}

/// A login succeeds exactly if the response has a body whose JSON has an access token,
/// and a registration if it has an identifier.
pub proof fn answers_need_their_member(response: Seq<char>)
    ensures
        login_fault(response) is None <==> (crate::http::response_body(response) matches Some(body)
            && (json::json_member(text::trimmed(body), "access_token"@) matches Ok(token)
            && token is Some)),
        registration_fault(response) is None <==> (crate::http::response_body(
            response,
        ) matches Some(body) && (json::json_member(text::trimmed(body), "id"@) matches Ok(id)
            && id is Some)),
{
}

/// Nothing that needs a login is done without one: no request to the relay, and no
/// capture. With one, a request needs a good base URL, and a capture a device whose
/// identifier is one.
pub proof fn access_needs_a_login(client: &RivetClient, device: Device)
    ensures
        client.request_fault() is None <==> client.access() is Some && "http://"@.is_prefix_of(
            client.settings().relay_http_url@,
        ),
        client.access() is None ==> client.request_fault() == Some(SdkErrorView::NotAuthenticated),
        client.capture_fault(device) is None <==> client.access() is Some && types::uuid_parsed(
            device.id@,
        ) is Ok,
{
}

/// A capture is made as this client, from the very device, and with the device's key
/// pinned.
pub proof fn captures_pin_the_device(client: &RivetClient, params: CaptureParams, device: Device)
    requires
        client.is_capture(params, device),
    ensures
        params.identity@ == client.seed(),
        types::uuid_parsed(device.id@) == Ok::<u128, Seq<char>>(params.device_id.0),
        params.host_public_key_b64@ == device.public_key@,
{
}

} // verus!
