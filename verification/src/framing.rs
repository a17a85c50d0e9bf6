//! Length-prefixed frames: four big-endian bytes, and so many bytes of body.

use vstd::prelude::*;

verus! {

broadcast use vstd::array::group_array_axioms;

/// The number that four big-endian bytes stand for.
pub open spec fn be_value(header: Seq<u8>) -> nat {
    (header[0] as nat) * 16777216 + (header[1] as nat) * 65536 + (header[2] as nat) * 256 + (
    header[3] as nat)
}

/// The four big-endian bytes of a number.
pub fn be_bytes(n: u32) -> (header: [u8; 4])
    ensures
        be_value(header@) == n,
{
    let a: u32 = n / 16777216;
    let b: u32 = n / 65536 % 256;
    let c: u32 = n / 256 % 256;
    let d: u32 = n % 256;
    let header = [a as u8, b as u8, c as u8, d as u8];
    proof {
        assert(header@[0] == a && header@[1] == b && header@[2] == c && header@[3] == d);
        assert(a * 16777216 + b * 65536 + c * 256 + d == n) by (nonlinear_arith)
            requires
                a == n / 16777216,
                b == n / 65536 % 256,
                c == n / 256 % 256,
                d == n % 256,
        ;
    }
    header
}

/// The length that a header announces.
pub fn header_len(header: &[u8; 4]) -> (n: u32)
    ensures
        n == be_value(header@),
{
    header[0] as u32 * 16777216 + header[1] as u32 * 65536 + header[2] as u32 * 256
        + header[3] as u32
}

/// Whether `frame` is `body` behind its length.
pub open spec fn is_frame(frame: Seq<u8>, body: Seq<u8>) -> bool {
    &&& frame.len() == body.len() + 4
    &&& be_value(frame.take(4)) == body.len()
    &&& frame.skip(4) == body
}

/// `body` behind its length; `None` if the length does not fit.
pub fn frame(body: &Vec<u8>) -> (r: Option<Vec<u8>>)
    ensures
        r is Some == (body@.len() <= u32::MAX),
        r matches Some(framed) ==> is_frame(framed@, body@),
{
    if body.len() > u32::MAX as usize {
        return None;
    }
    let header = be_bytes(body.len() as u32);
    let mut framed: Vec<u8> = Vec::new();
    framed.push(header[0]);
    framed.push(header[1]);
    framed.push(header[2]);
    framed.push(header[3]);
    let ghost head = framed@;
    assert(head =~= header@);
    framed.extend_from_slice(body.as_slice());
    assert(framed@ =~= head + body@);
    assert(framed@.take(4) =~= header@);
    assert(framed@.skip(4) =~= body@);
    Some(framed)
}

/// The length that a header announces, if it is within `max`.
pub fn body_len(header: &[u8; 4], max: usize) -> (r: Option<usize>)
    ensures
        r is Some == (be_value(header@) <= max),
        r matches Some(n) ==> n == be_value(header@),
{
    let n: u32 = header_len(header);
    if n as usize > max {
        None
    } else {
        Some(n as usize)
    }
}

/// A frame is read back as it was written: its header announces the body, and
/// the body follows.
pub proof fn frame_reads_back(frame: Seq<u8>, body: Seq<u8>)
    requires
        is_frame(frame, body),
    ensures
        be_value(frame.take(4)) == frame.skip(4).len(),
        frame.skip(4) == body,
{
}

/// The header counts in four bytes, the most significant first: two headers that announce
/// the same length are the same.
pub proof fn headers_are_big_endian(a: u8, b: u8, c: u8, d: u8, other: Seq<u8>)
    requires
        other.len() == 4,
    ensures
        be_value(seq![a, b, c, d]) == ((a as nat * 256 + b) * 256 + c) * 256 + d,
        be_value(seq![a, b, c, d]) <= u32::MAX,
        be_value(other) == be_value(seq![a, b, c, d]) ==> other == seq![a, b, c, d],
{
    if be_value(other) == be_value(seq![a, b, c, d]) {
        assert(other =~= seq![a, b, c, d]);
    }
}

/// A frame is four bytes longer than its body, and only one frame has a given body.
pub proof fn bodies_have_one_frame(frame: Seq<u8>, other: Seq<u8>, body: Seq<u8>)
    requires
        is_frame(frame, body),
        is_frame(other, body),
    ensures
        frame.len() == body.len() + 4,
        frame == other,
{
    let head = other.take(4);
    headers_are_big_endian(head[0], head[1], head[2], head[3], frame.take(4));
    assert(head =~= seq![head[0], head[1], head[2], head[3]]);
    assert(frame =~= frame.take(4) + frame.skip(4));
    assert(other =~= other.take(4) + other.skip(4));
}

} // verus!
