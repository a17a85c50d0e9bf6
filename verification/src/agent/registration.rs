//! REST-based device registration against the relay's `/devices/register`.

use vstd::prelude::*;
use vstd::string::*;

use super::error;
use super::error::{config_error, relay_error, AgentError, AgentErrorView, AgentResult};
use crate::http;
use crate::http::{after_scheme, parse_response, request_head, split_base, HttpFault};
use crate::text;
use crate::text::{joined, lossy_text};
use crate::types;
use crate::types::DeviceId;

verus! {

/// Outcome of a successful registration.
#[derive(Debug, Clone, Copy)]
pub struct RegisteredDevice {
    pub device_id: DeviceId,
}

/// What is wrong with a base URL for registration.
pub open spec fn base_fault(base: Seq<char>) -> Option<AgentErrorView> {
    if "https://"@.is_prefix_of(base) {
        Some(
            AgentErrorView::Relay(
                "https:// registration not yet supported by the agent (TLS not wired up)"@,
            ),
        )
    } else if "http://"@.is_prefix_of(base) {
        None
    } else {
        Some(AgentErrorView::Config("relay_http_url must use http:// or https://"@))
    }
}

/// Parse `http(s)://host[:port][/prefix]` into `(host, port, prefix, tls?)`.
pub fn parse_base_url(base: &str) -> (r: AgentResult<(String, u16, String, bool)>)
    ensures
        error::fails_with(r, base_fault(base@)),
        r matches Ok((host, port, prefix, tls)) ==> {
            let rest = base@.skip("http://"@.len() as int);
            &&& host@ == http::host_of(http::authority(rest))
            &&& port == http::port_of(http::authority(rest), 80)
            &&& prefix@ == http::prefix_of(rest)
            &&& !tls
        },
{
    if after_scheme(base, "https://").is_some() {
        return Err(
            relay_error("https:// registration not yet supported by the agent (TLS not wired up)"),
        );
    }
    match after_scheme(base, "http://") {
        Some(rest) => {
            let url = split_base(rest.as_str(), 80);
            Ok((url.host, url.port, url.prefix, false))
        },
        None => Err(config_error("relay_http_url must use http:// or https://")),
    }
}

/// The head of the registration request.
pub fn registration_head(prefix: &str, host: &str, user_token: &str, body_len: usize) -> (head: String)
    ensures
        head@ == http::head_text(
            "POST"@,
            prefix@ + "/devices/register"@,
            host@,
            Some(user_token@),
            Some(body_len),
        ),
{
    let path = joined(prefix, "/devices/register");
    request_head("POST", path.as_str(), host, Some(user_token), Some(body_len))
}

/// What is wrong with the response to a registration.
pub open spec fn response_fault(response: Seq<char>) -> Option<AgentErrorView> {
    if http::response_body(response) is Some {
        None
    } else if response.len() == 0 {
        Some(AgentErrorView::Relay("empty response"@))
    } else if text::first_match(text::first_line(response), " 200 "@) is None {
        Some(AgentErrorView::Relay("registration failed: "@ + text::first_line(response)))
    } else {
        Some(AgentErrorView::Relay("malformed http response"@))
    }
}

/// The JSON body of the bytes that came in response to a registration.
pub fn registration_body(response: &[u8]) -> (r: AgentResult<String>)
    ensures
        error::fails_with(r, response_fault(text::utf8_lossy(response@))),
        r matches Ok(body) ==> Some(body@) == http::response_body(text::utf8_lossy(response@)),
{
    body_of(lossy_text(response).as_str())
}

/// The JSON body of the response to a registration.
pub fn body_of(response: &str) -> (r: AgentResult<String>)
    ensures
        error::fails_with(r, response_fault(response@)),
        r matches Ok(body) ==> Some(body@) == http::response_body(response@),
{
    match parse_response(response) {
        Ok(body) => Ok(body),
        Err(HttpFault::Empty) => Err(relay_error("empty response")),
        Err(HttpFault::Status(line)) => Err(
            AgentError::Relay(joined("registration failed: ", line.as_str())),
        ),
        Err(HttpFault::Malformed) => Err(relay_error("malformed http response")),
    }
}

/// The device that the relay registered under this ID.
pub fn registered_device(id: &str) -> (r: AgentResult<RegisteredDevice>)
    ensures
        error::fails_with(
            r,
            match types::uuid_parsed(id@) {
                Ok(_) => None,
                Err(fault) => Some(
                    AgentErrorView::Relay("relay returned invalid device id: "@ + fault),
                ),
            },
        ),
        r matches Ok(device) ==> types::uuid_parsed(id@)->Ok_0 == device.device_id.0,
{
    match DeviceId::parse(id) {
        Ok(device_id) => Ok(RegisteredDevice { device_id }),
        Err(fault) => Err(
            AgentError::Relay(joined("relay returned invalid device id: ", fault.as_str())),
        ),
    }
}

/// Registration goes over plain HTTP: such a base is good, one over TLS is refused as
/// not supported yet, and any other as a fault of the configuration.
pub proof fn registration_goes_over_http(rest: Seq<char>)
    ensures
        base_fault("http://"@ + rest) is None,
        base_fault("https://"@ + rest) matches Some(fault) && fault is Relay,
        !"http://"@.is_prefix_of(rest) && !"https://"@.is_prefix_of(rest) ==> (base_fault(
            rest,
        ) matches Some(fault) && fault is Config),
{
    reveal_strlit("http://");
    reveal_strlit("https://");
    let plain = "http://"@ + rest;
    assert(plain.subrange(0, 7) =~= "http://"@);
    if "https://"@.is_prefix_of(plain) {
        assert("https://"@[4] == plain[4]);
    }
    let tls = "https://"@ + rest;
    assert(tls.subrange(0, 8) =~= "https://"@);
}

/// A registration succeeds exactly with a response that has a body, and otherwise says
/// what was wrong: nothing came, the status was another, or the head did not end.
pub proof fn registration_needs_a_body(response: Seq<char>)
    ensures
        response_fault(response) is None <==> http::response_body(response) is Some,
        response.len() == 0 ==> response_fault(response) == Some(
            AgentErrorView::Relay("empty response"@),
        ),
{
}

} // verus!
