//! The little of HTTP/1.1 that login, device listing and registration need.

use vstd::prelude::*;
use vstd::string::*;

use crate::text;
use crate::text::{
    chars_of, decimal, find_char, find_text, joined, parse_number, split_line, starts_with,
    text_between,
};

verus! {

/// The host, the port and the path prefix of a base URL.
pub struct BaseUrl {
    pub host: String,
    pub port: u16,
    pub prefix: String,
}

/// `s` without the slashes behind.
pub open spec fn without_slashes(s: Seq<char>) -> Seq<char>
    decreases s.len(),
{
    if s.len() > 0 && s.last() == '/' {
        without_slashes(s.drop_last())
    } else {
        s
    }
}

/// The `host[:port]` in front of the first slash.
pub open spec fn authority(rest: Seq<char>) -> Seq<char> {
    rest.take(text::first_at(rest, '/') as int)
}

/// The host of an authority.
pub open spec fn host_of(authority: Seq<char>) -> Seq<char> {
    authority.take(text::first_at(authority, ':') as int)
}

/// The port of an authority: the default without a colon, and 80 if what
/// follows the colon is no port.
pub open spec fn port_of(authority: Seq<char>, default_port: u16) -> nat {
    let colon = text::first_at(authority, ':') as int;
    if colon == authority.len() {
        default_port as nat
    } else {
        match text::parsed_number(authority.skip(colon + 1), 65535) {
            Some(port) => port,
            None => 80,
        }
    }
}

/// The path from the first slash on, without slashes behind.
pub open spec fn prefix_of(rest: Seq<char>) -> Seq<char> {
    without_slashes(rest.skip(text::first_at(rest, '/') as int))
}

/// Split what follows the scheme of a base URL.
pub fn split_base(rest: &str, default_port: u16) -> (base: BaseUrl)
    ensures
        base.host@ == host_of(authority(rest@)),
        base.port == port_of(authority(rest@), default_port),
        base.prefix@ == prefix_of(rest@),
{
    let v = chars_of(rest);
    let slash: usize = find_char(&v, '/');
    let authority_text = text_between(&v, 0, slash);
    assert(authority_text@ =~= authority(rest@));
    let a = chars_of(authority_text.as_str());
    let colon: usize = find_char(&a, ':');
    let host = text_between(&a, 0, colon);
    assert(host@ =~= host_of(authority(rest@)));
    let port: u16 = if colon == a.len() {
        default_port
    } else {
        let port_text = text_between(&a, colon + 1, a.len());
        assert(port_text@ =~= a@.skip(colon as int + 1));
        match parse_number(port_text.as_str(), 65535) {
            Some(port) => port as u16,
            None => 80,
        }
    };
    let mut to: usize = v.len();
    assert(v@.subrange(slash as int, to as int) =~= rest@.skip(slash as int));
    while to > slash && v[to - 1] == '/'
        invariant
            slash <= to <= v@.len(),
            v@ == rest@,
            without_slashes(v@.subrange(slash as int, to as int)) == prefix_of(rest@),
        decreases to - slash,
    {
        proof {
            assert(v@.subrange(slash as int, to as int).drop_last() =~= v@.subrange(
                slash as int,
                to as int - 1,
            ));
        }
        to = to - 1;
    }
    let prefix = text_between(&v, slash, to);
    BaseUrl { host, port, prefix }
}

/// What follows `scheme`, or `None` if the URL has another.
pub fn after_scheme(url: &str, scheme: &str) -> (rest: Option<String>)
    ensures
        rest is Some == scheme@.is_prefix_of(url@),
        rest matches Some(r) ==> r@ == url@.skip(scheme@.len() as int),
{
    if !starts_with(url, scheme) {
        return None;
    }
    let v = chars_of(url);
    let n = chars_of(scheme);
    let rest = text_between(&v, n.len(), v.len());
    assert(rest@ =~= url@.skip(scheme@.len() as int));
    Some(rest)
}

/// The line that carries the token, where there is one.
pub open spec fn auth_line(token: Option<Seq<char>>) -> Seq<char> {
    match token {
        Some(t) => "Authorization: Bearer "@ + t + "\r\n"@,
        None => Seq::empty(),
    }
}

/// The lines that announce a JSON body, where there is one.
pub open spec fn content_lines(body_len: Option<usize>) -> Seq<char> {
    match body_len {
        Some(n) => "Content-Type: application/json\r\nContent-Length: "@ + text::decimal_digits(
            n as nat,
        ) + "\r\n"@,
        None => Seq::empty(),
    }
}

/// The head of a request.
pub open spec fn head_text(
    method: Seq<char>,
    path: Seq<char>,
    host: Seq<char>,
    token: Option<Seq<char>>,
    body_len: Option<usize>,
) -> Seq<char> {
    method + " "@ + path + " HTTP/1.1\r\nHost: "@ + host + "\r\n"@ + auth_line(token)
        + content_lines(body_len) + "Connection: close\r\n\r\n"@
}

/// The head of a request for `path`, with the token and the length of the JSON
/// body where there are such.
pub fn request_head(
    method: &str,
    path: &str,
    host: &str,
    token: Option<&str>,
    body_len: Option<usize>,
) -> (head: String)
    ensures
        head@ == head_text(
            method@,
            path@,
            host@,
            match token {
                Some(t) => Some(t@),
                None => None,
            },
            body_len,
        ),
{
    let mut head = joined(method, " ");
    head.append(path);
    head.append(" HTTP/1.1\r\nHost: ");
    head.append(host);
    head.append("\r\n");
    let ghost before = head@;
    if let Some(t) = token {
        let mut line = joined("Authorization: Bearer ", t);
        line.append("\r\n");
        head.append(line.as_str());
    }
    assert(head@ =~= before + auth_line(
        match token {
            Some(t) => Some(t@),
            None => None,
        },
    ));
    let ghost before = head@;
    if let Some(n) = body_len {
        let mut lines = joined(
            "Content-Type: application/json\r\nContent-Length: ",
            decimal(n as u64).as_str(),
        );
        lines.append("\r\n");
        head.append(lines.as_str());
    }
    assert(head@ =~= before + content_lines(body_len));
    head.append("Connection: close\r\n\r\n");
    head
}

/// Why a response is of no use.
#[derive(Debug)]
pub enum HttpFault {
    /// There is nothing.
    Empty,
    /// The status line does not say 200.
    Status(String),
    /// The head does not end.
    Malformed,
}

/// What a response comes to: its body, if the status line says 200 and the head
/// ends.
pub open spec fn response_body(s: Seq<char>) -> Option<Seq<char>> {
    if s.len() > 0 && text::first_match(text::first_line(s), " 200 "@) is Some {
        match text::first_match(s, "\r\n\r\n"@) {
            Some(i) => Some(s.skip(i as int + 4)),
            None => None,
        }
    } else {
        None
    }
}

/// Whether `fault` says why `s` has no body.
pub open spec fn tells_fault(fault: HttpFault, s: Seq<char>) -> bool {
    if s.len() == 0 {
        fault is Empty
    } else if text::first_match(text::first_line(s), " 200 "@) is None {
        fault matches HttpFault::Status(line) && line@ == text::first_line(s)
    } else {
        fault is Malformed
    }
}

/// The body of a response.
pub fn parse_response(response: &str) -> (r: Result<String, HttpFault>)
    ensures
        r is Ok == response_body(response@) is Some,
        r matches Ok(body) ==> Some(body@) == response_body(response@),
        r matches Err(fault) ==> tells_fault(fault, response@),
{
    let v = chars_of(response);
    if v.len() == 0 {
        return Err(HttpFault::Empty);
    }
    let (line, _) = split_line(response);
    if find_text(&chars_of(line.as_str()), " 200 ").is_none() {
        return Err(HttpFault::Status(line));
    }
    proof {
        reveal_strlit("\r\n\r\n");
    }
    match find_text(&v, "\r\n\r\n") {
        Some(i) => {
            let body = text_between(&v, i + 4, v.len());
            assert(body@ =~= response@.skip(i + 4));
            Ok(body)
        },
        None => Err(HttpFault::Malformed),
    }
}

/// A base URL is split as it was put together: a host, a port behind a colon or the
/// default one, and a path from its slash on.
pub proof fn base_url_splits_as_joined(
    host: Seq<char>,
    port: u16,
    path: Seq<char>,
    default_port: u16,
)
    requires
        forall|i: int| 0 <= i < host.len() ==> #[trigger] host[i] != '/' && host[i] != ':',
        path.len() > 0 ==> path[0] == '/',
    ensures
        ({
            let named = host + seq![':'] + text::decimal_digits(port as nat) + path;
            &&& host_of(authority(named)) == host
            &&& port_of(authority(named), default_port) == port
            &&& prefix_of(named) == without_slashes(path)
        }),
        ({
            let plain = host + path;
            &&& host_of(authority(plain)) == host
            &&& port_of(authority(plain), default_port) == default_port
            &&& prefix_of(plain) == without_slashes(path)
        }),
{
    text::decimal_is_parsed(port as nat, 65535);
    let digits = text::decimal_digits(port as nat);
    text::numbers_are_made_of_digits(digits, 65535, '0');
    assert(digits[0] != '+') by {
        text::decimal_starts_with_digit(port as nat);
    }
    let address = host + seq![':'] + digits;
    let named = address + path;
    assert forall|i: int| 0 <= i < address.len() implies #[trigger] named[i] != '/' by {
        if i < host.len() {
            assert(named[i] == host[i]);
        } else if i > host.len() {
            assert(named[i] == digits[i - host.len() - 1]);
        }
    }
    text::first_at_is(named, '/', address.len());
    assert(authority(named) =~= address);
    assert forall|i: int| 0 <= i < host.len() implies #[trigger] address[i] != ':' by {
        assert(address[i] == host[i]);
    }
    text::first_at_is(address, ':', host.len());
    assert(host_of(address) =~= host);
    assert(address.skip(host.len() as int + 1) =~= digits);
    assert(named.skip(address.len() as int) =~= path);
    let plain = host + path;
    assert forall|i: int| 0 <= i < host.len() implies #[trigger] plain[i] != '/' by {
        assert(plain[i] == host[i]);
    }
    text::first_at_is(plain, '/', host.len());
    assert(authority(plain) =~= host);
    text::first_at_is(host, ':', host.len());
    assert(host_of(host) =~= host);
    assert(plain.skip(host.len() as int) =~= path);
}

/// A port that is none counts as 80.
pub proof fn bad_port_counts_as_80(host: Seq<char>, port: Seq<char>, default_port: u16)
    requires
        forall|i: int| 0 <= i < host.len() ==> #[trigger] host[i] != ':',
        text::parsed_number(port, 65535) is None,
    ensures
        port_of(host + seq![':'] + port, default_port) == 80,
{
    let address = host + seq![':'] + port;
    assert forall|i: int| 0 <= i < host.len() implies #[trigger] address[i] != ':' by {
        assert(address[i] == host[i]);
    }
    text::first_at_is(address, ':', host.len());
    assert(address.skip(host.len() as int + 1) =~= port);
}

/// Only slashes are taken from the end of a path, and all of them.
pub proof fn slashes_are_taken_from_the_end(s: Seq<char>)
    ensures
        without_slashes(s).is_prefix_of(s),
        without_slashes(s).len() > 0 ==> without_slashes(s).last() != '/',
        forall|i: int| without_slashes(s).len() <= i < s.len() ==> #[trigger] s[i] == '/',
    decreases s.len(),
{
    if s.len() > 0 && s.last() == '/' {
        let front = s.drop_last();
        slashes_are_taken_from_the_end(front);
        assert forall|i: int| without_slashes(s).len() <= i < s.len() implies #[trigger] s[i]
            == '/' by {
            if i < front.len() {
                assert(front[i] == s[i]);
            }
        }
    }
}

/// A request begins with the method, the path and the version, names the host, and
/// ends with an empty line. A token makes one line that carries it, and a body two
/// that say that it is JSON and how long; without them there are no such lines.
pub proof fn heads_carry_what_they_are_given(
    method: Seq<char>,
    path: Seq<char>,
    host: Seq<char>,
    token: Seq<char>,
    body_len: usize,
)
    ensures
        ({
            let start = method + " "@ + path + " HTTP/1.1\r\nHost: "@ + host + "\r\n"@;
            let auth = "Authorization: Bearer "@ + token + "\r\n"@;
            let content = "Content-Type: application/json\r\nContent-Length: "@
                + text::decimal_digits(body_len as nat) + "\r\n"@;
            let end = "Connection: close\r\n\r\n"@;
            &&& head_text(method, path, host, None, None) == start + end
            &&& head_text(method, path, host, Some(token), None) == start + auth + end
            &&& head_text(method, path, host, None, Some(body_len)) == start + content + end
            &&& head_text(method, path, host, Some(token), Some(body_len)) == start + auth + content
                + end
        }),
{
}

/// A response gives what follows the empty line behind its head, whatever that is,
/// exactly if its status line says 200.
pub proof fn body_follows_the_head(head: Seq<char>, body: Seq<char>)
    requires
        head.len() > 0,
        forall|i: int|
            0 <= i < head.len() ==> !"\r\n\r\n"@.is_prefix_of(
                #[trigger] (head + "\r\n\r\n"@ + body).skip(i),
            ),
    ensures
        ({
            let s = head + "\r\n\r\n"@ + body;
            let accepted = exists|i: int|
                0 <= i <= text::first_line(s).len() && " 200 "@.is_prefix_of(
                    #[trigger] text::first_line(s).skip(i),
                );
            &&& accepted ==> response_body(s) == Some(body)
            &&& !accepted ==> response_body(s) is None
        }),
{
    let end = "\r\n\r\n"@;
    assert(end.len() == 4) by {
        reveal_strlit("\r\n\r\n");
    }
    let s = head + end + body;
    head_ends_first(head, end, body);
    assert(s.skip(head.len() as int + 4) =~= body);
    let line = text::first_line(s);
    occurs_iff_matched(line, " 200 "@);
}

proof fn head_ends_first(head: Seq<char>, end: Seq<char>, body: Seq<char>)
    requires
        forall|i: int|
            0 <= i < head.len() ==> !end.is_prefix_of(#[trigger] (head + end + body).skip(i)),
    ensures
        text::first_match(head + end + body, end) == Some(head.len()),
    decreases head.len(),
{
    let s = head + end + body;
    if head.len() == 0 {
        assert(s.subrange(0, end.len() as int) =~= end);
    } else {
        assert(s.skip(0) =~= s);
        assert(!end.is_prefix_of(s));
        let rest = head.drop_first();
        assert(s.drop_first() =~= rest + end + body);
        assert forall|i: int| 0 <= i < rest.len() implies !end.is_prefix_of(
            #[trigger] (rest + end + body).skip(i),
        ) by {
            assert((rest + end + body).skip(i) =~= s.skip(i + 1));
        }
        head_ends_first(rest, end, body);
    }
}

proof fn occurs_iff_matched(s: Seq<char>, pattern: Seq<char>)
    ensures
        text::first_match(s, pattern) is Some <==> exists|i: int|
            0 <= i <= s.len() && pattern.is_prefix_of(#[trigger] s.skip(i)),
{
    text::first_match_is_match(s, pattern);
    if let Some(at) = text::first_match(s, pattern) {
        assert(pattern.is_prefix_of(s.skip(at as int)));
    }
}

/// What is wrong with an answer: nothing came, its first line does not say that it
/// succeeded, or it has no body. The answer to blame is one without a body to read.
pub proof fn faults_tell_what_is_wrong(fault: HttpFault, s: Seq<char>)
    requires
        tells_fault(fault, s),
        response_body(s) is None,
    ensures
        fault is Empty <==> s.len() == 0,
        fault is Status <==> s.len() > 0 && text::first_match(text::first_line(s), " 200 "@) is None,
        fault matches HttpFault::Status(line) ==> line@ == text::first_line(s),
        fault is Malformed ==> text::first_match(s, "\r\n\r\n"@) is None,
{
}

} // verus!
