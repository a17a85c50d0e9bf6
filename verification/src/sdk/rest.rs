//! Minimal HTTP/1.1 client for the relay's REST API (login and device list).
//!
//! Plain HTTP only: TLS termination is expected at a reverse proxy in
//! production.

use vstd::prelude::*;
use vstd::string::*;

use super::error;
use super::error::{config_error, SdkError, SdkErrorView, SdkResult};
use crate::http;
use crate::http::{after_scheme, parse_response, request_head, split_base, HttpFault};
use crate::json;
use crate::json::member_text;
use crate::text;
use crate::text::{joined, lossy_text, trim};

verus! {

/// A device as returned by `GET /devices`.
#[derive(Debug)]
pub struct Device {
    pub id: String,
    pub hostname: Option<String>,
    pub platform: Option<String>,
    pub last_seen: Option<String>,
    /// Base64 Ed25519 identity key: used to pin the host during the handshake.
    pub public_key: String,
}

/// What is wrong with a base URL for the REST API.
pub open spec fn base_fault(base: Seq<char>) -> Option<SdkErrorView> {
    if "http://"@.is_prefix_of(base) {
        None
    } else {
        Some(SdkErrorView::Config("relay_http_url must start with http:// (TLS via proxy)"@))
    }
}

/// What follows the scheme of a base URL.
pub open spec fn base_rest(base: Seq<char>) -> Seq<char> {
    base.skip("http://"@.len() as int)
}

/// Parse `http://host[:port][/prefix]` into `(host, port, prefix)`.
pub fn parse_base_url(base: &str) -> (r: SdkResult<(String, u16, String)>)
    ensures
        error::fails_with(r, base_fault(base@)),
        r matches Ok((host, port, prefix)) ==> {
            let rest = base_rest(base@);
            &&& host@ == http::host_of(http::authority(rest))
            &&& port == http::port_of(http::authority(rest), 80)
            &&& prefix@ == http::prefix_of(rest)
        },
{
    match after_scheme(base, "http://") {
        Some(rest) => {
            let url = split_base(rest.as_str(), 80);
            Ok((url.host, url.port, url.prefix))
        },
        None => Err(config_error("relay_http_url must start with http:// (TLS via proxy)")),
    }
}

/// Where to send a request, and its head.
#[derive(Debug)]
pub struct ApiRequest {
    pub host: String,
    pub port: u16,
    pub head: String,
}

/// Whether `request` is the one for `path` below `base`.
pub open spec fn is_request(
    request: ApiRequest,
    base: Seq<char>,
    method: Seq<char>,
    path: Seq<char>,
    token: Option<Seq<char>>,
    body_len: Option<usize>,
) -> bool {
    let rest = base_rest(base);
    let host = http::host_of(http::authority(rest));
    &&& request.host@ == host
    &&& request.port == http::port_of(http::authority(rest), 80)
    &&& request.head@ == http::head_text(
        method,
        http::prefix_of(rest) + path,
        host,
        token,
        body_len,
    )
}

/// The text in an optional string.
pub open spec fn optional_text(text: Option<&str>) -> Option<Seq<char>> {
    match text {
        Some(t) => Some(t@),
        None => None,
    }
}

/// The request for `path` below `base`.
pub fn request(
    base: &str,
    method: &str,
    path: &str,
    token: Option<&str>,
    body_len: Option<usize>,
) -> (r: SdkResult<ApiRequest>)
    ensures
        error::fails_with(r, base_fault(base@)),
        r matches Ok(request) ==> is_request(
            request,
            base@,
            method@,
            path@,
            optional_text(token),
            body_len,
        ),
{
    match parse_base_url(base) {
        Ok((host, port, prefix)) => {
            let full_path = joined(prefix.as_str(), path);
            let head = request_head(method, full_path.as_str(), host.as_str(), token, body_len);
            Ok(ApiRequest { host, port, head })
        },
        Err(e) => Err(e),
    }
}

/// The request to log in, with a JSON body of so many bytes.
pub fn login_request(base: &str, body_len: usize) -> (r: SdkResult<ApiRequest>)
    ensures
        error::fails_with(r, base_fault(base@)),
        r matches Ok(request) ==> is_request(
            request,
            base@,
            "POST"@,
            "/auth/login"@,
            None,
            Some(body_len),
        ),
{
    request(base, "POST", "/auth/login", None, Some(body_len))
}

/// What is wrong with a response of the REST API.
pub open spec fn response_fault(response: Seq<char>) -> Option<SdkErrorView> {
    if http::response_body(response) is Some {
        None
    } else if response.len() == 0 {
        Some(SdkErrorView::Http("empty response"@))
    } else if text::first_match(text::first_line(response), " 200 "@) is None {
        Some(SdkErrorView::Http("request failed: "@ + text::first_line(response)))
    } else {
        Some(SdkErrorView::Http("malformed response"@))
    }
}

/// The JSON text of a response, without white space around it.
pub open spec fn json_text(response: Seq<char>) -> Seq<char> {
    text::trimmed(http::response_body(response)->0)
}

/// The JSON text of the bytes that came in response, without white space around
/// it.
pub fn response_json(response: &[u8]) -> (r: SdkResult<String>)
    ensures
        error::fails_with(r, response_fault(text::utf8_lossy(response@))),
        r matches Ok(json) ==> json@ == json_text(text::utf8_lossy(response@)),
{
    json_of(lossy_text(response).as_str())
}

/// The JSON text of a response, without white space around it.
pub fn json_of(response: &str) -> (r: SdkResult<String>)
    ensures
        error::fails_with(r, response_fault(response@)),
        r matches Ok(json) ==> json@ == json_text(response@),
{
    match parse_response(response) {
        Ok(body) => Ok(trim(body.as_str())),
        Err(HttpFault::Empty) => Err(SdkError::Http("empty response".to_owned())),
        Err(HttpFault::Status(line)) => Err(
            SdkError::Http(joined("request failed: ", line.as_str())),
        ),
        Err(HttpFault::Malformed) => Err(SdkError::Http("malformed response".to_owned())),
    }
}

/// What is wrong with a JSON text that should have a member with a text.
pub open spec fn member_fault(json: Seq<char>, member: Seq<char>, missing: SdkErrorView) -> Option<
    SdkErrorView,
> {
    match json::json_member(json, member) {
        Err(fault) => Some(SdkErrorView::Serde(fault)),
        Ok(None) => Some(missing),
        Ok(Some(_)) => None,
    }
}

/// What is wrong with the JSON text of a login response.
pub open spec fn token_fault(json: Seq<char>) -> Option<SdkErrorView> {
    member_fault(
        json,
        "access_token"@,
        SdkErrorView::Auth("login response missing access_token"@),
    )
}

/// The access token in the JSON text of a login response.
pub fn token_of(response: &str) -> (r: SdkResult<String>)
    ensures
        error::fails_with(r, token_fault(response@)),
        r matches Ok(token) ==> json::json_member(response@, "access_token"@) == Ok::<
            Option<Seq<char>>,
            Seq<char>,
        >(Some(token@)),
{
    match member_text(response, "access_token") {
        Ok(member) => access_token(member),
        Err(fault) => Err(SdkError::Serde(fault)),
    }
}

/// What is wrong with the JSON text of the response to a registration.
pub open spec fn id_fault(json: Seq<char>) -> Option<SdkErrorView> {
    member_fault(json, "id"@, SdkErrorView::Http("registration response missing id"@))
}

/// The identifier of the device in the JSON text of the response to a
/// registration.
pub fn device_id_of(response: &str) -> (r: SdkResult<String>)
    ensures
        error::fails_with(r, id_fault(response@)),
        r matches Ok(id) ==> json::json_member(response@, "id"@) == Ok::<
            Option<Seq<char>>,
            Seq<char>,
        >(Some(id@)),
{
    match member_text(response, "id") {
        Ok(member) => registered_id(member),
        Err(fault) => Err(SdkError::Serde(fault)),
    }
}

/// The identifier of a registered device, from the member of that name.
pub fn registered_id(member: Option<String>) -> (r: SdkResult<String>)
    ensures
        error::fails_with(
            r,
            if member is Some {
                None
            } else {
                Some(SdkErrorView::Http("registration response missing id"@))
            },
        ),
        r matches Ok(id) ==> id@ == member->0@,
{
    match member {
        Some(id) => Ok(id),
        None => Err(SdkError::Http("registration response missing id".to_owned())),
    }
}

/// The access token of a login response, from the member of that name.
pub fn access_token(member: Option<String>) -> (r: SdkResult<String>)
    ensures
        error::fails_with(
            r,
            if member is Some {
                None
            } else {
                Some(SdkErrorView::Auth("login response missing access_token"@))
            },
        ),
        r matches Ok(token) ==> token@ == member->0@,
{
    match member {
        Some(token) => Ok(token),
        None => Err(SdkError::Auth("login response missing access_token".to_owned())),
    }
}

/// The REST API is reached over plain HTTP, and over nothing else.
pub proof fn api_goes_over_http(base: Seq<char>, rest: Seq<char>)
    ensures
        base_fault(base) is None <==> "http://"@.is_prefix_of(base),
        base_fault("http://"@ + rest) is None,
        base_rest("http://"@ + rest) == rest,
{
    reveal_strlit("http://");
    let plain = "http://"@ + rest;
    assert(plain.subrange(0, 7) =~= "http://"@);
    assert(plain.skip(7) =~= rest);
}

/// A request goes to the host and port of the base URL, for the path below its prefix,
/// with the method, token and body that it was made with.
pub proof fn request_goes_below_the_base(
    request: ApiRequest,
    host: Seq<char>,
    port: u16,
    prefix: Seq<char>,
    method: Seq<char>,
    path: Seq<char>,
    token: Option<Seq<char>>,
    body_len: Option<usize>,
)
    requires
        forall|i: int| 0 <= i < host.len() ==> #[trigger] host[i] != '/' && host[i] != ':',
        prefix.len() > 0 ==> prefix[0] == '/' && prefix.last() != '/',
        is_request(
            request,
            "http://"@ + (host + seq![':'] + text::decimal_digits(port as nat) + prefix),
            method,
            path,
            token,
            body_len,
        ),
    ensures
        request.host@ == host,
        request.port == port,
        request.head@ == http::head_text(method, prefix + path, host, token, body_len),
{
    let rest = host + seq![':'] + text::decimal_digits(port as nat) + prefix;
    api_goes_over_http(rest, rest);
    http::base_url_splits_as_joined(host, port, prefix, 80);
    http::slashes_are_taken_from_the_end(prefix);
    if prefix.len() > 0 {
        let kept = http::without_slashes(prefix);
        if kept.len() < prefix.len() {
            assert(prefix[prefix.len() - 1] == '/');
        }
    }
    assert(http::without_slashes(prefix) =~= prefix);
}

/// A response is good exactly if it has a body, and the JSON is that body without white
/// space around it. A member is found exactly if the JSON has it as a text.
pub proof fn answers_are_read_from_the_body(
    response: Seq<char>,
    json: Seq<char>,
    member: Seq<char>,
    missing: SdkErrorView,
)
    ensures
        response_fault(response) is None <==> http::response_body(response) is Some,
        http::response_body(response) matches Some(body) ==> json_text(response) == text::trimmed(
            body,
        ),
        member_fault(json, member, missing) is None <==> (json::json_member(
            json,
            member,
        ) matches Ok(value) && value is Some),
        json::json_member(json, member) == Ok::<Option<Seq<char>>, Seq<char>>(None)
            ==> member_fault(json, member, missing) == Some(missing),
        token_fault(json) is None <==> member_fault(json, "access_token"@, missing) is None,
        id_fault(json) is None <==> member_fault(json, "id"@, missing) is None,
{
}

/// An answer without a body is told by what is wrong with it: nothing came, it does not
/// say that it succeeded, or it is cut short.
pub proof fn failed_answers_say_why(response: Seq<char>)
    requires
        http::response_body(response) is None,
    ensures
        response.len() == 0 <==> response_fault(response) == Some(
            SdkErrorView::Http("empty response"@),
        ),
        response.len() > 0 && text::first_match(text::first_line(response), " 200 "@) is None
            ==> response_fault(response) == Some(
            SdkErrorView::Http("request failed: "@ + text::first_line(response)),
        ),
        response.len() > 0 && text::first_match(text::first_line(response), " 200 "@) is Some
            ==> response_fault(response) == Some(SdkErrorView::Http("malformed response"@)),
{
    reveal_strlit("empty response");
    reveal_strlit("malformed response");
    reveal_strlit("request failed: ");
    assert("empty response"@.len() == 14);
    assert("malformed response"@.len() == 18);
    if response.len() > 0 && text::first_match(text::first_line(response), " 200 "@) is None {
        let told = "request failed: "@ + text::first_line(response);
        assert(told[0] == 'r' && "empty response"@[0] == 'e');
    }
}

} // verus!
