//! Splitting an encoded capture into ordered `ScreenshotData` packets, and
//! putting it together again.

use vstd::prelude::*;
use vstd::string::*;

use crate::packets;
use crate::packets::{SignalPacket, SignalPacketView};
use crate::types::SessionId;

verus! {

/// Base64 characters per `ScreenshotData` chunk.
pub const CHUNK_CHARS: usize = 49152;

/// How many chunks a text of `len` characters makes.
pub open spec fn chunk_count(len: nat) -> nat {
    (len + CHUNK_CHARS as nat - 1) as nat / CHUNK_CHARS as nat
}

/// The characters of the chunk with the given index.
pub open spec fn chunk_text(text: Seq<char>, index: nat) -> Seq<char> {
    let from = index * CHUNK_CHARS as nat;
    let to = if from + CHUNK_CHARS < text.len() {
        (from + CHUNK_CHARS) as nat
    } else {
        text.len()
    };
    text.subrange(from as int, to as int)
}

/// The packet of the chunk with the given index.
pub open spec fn chunk_packet(session_id: SessionId, text: Seq<char>, index: nat) -> SignalPacketView {
    SignalPacketView::ScreenshotData {
        session_id,
        sequence: index as u32,
        total: chunk_count(text.len()) as u32,
        last: index + 1 == chunk_count(text.len()),
        payload: chunk_text(text, index),
    }
}

/// The packets of a text, in order.
pub open spec fn chunk_packets(session_id: SessionId, text: Seq<char>) -> Seq<SignalPacketView> {
    Seq::new(chunk_count(text.len()), |i: int| chunk_packet(session_id, text, i as nat))
}

/// Split a base64 string into ordered `ScreenshotData` packets; `None` if it
/// makes more than can be counted.
pub fn chunk_payload(session_id: SessionId, b64: &str) -> (r: Option<Vec<SignalPacket>>)
    requires
        b64.is_ascii(),
        b64@.len() + CHUNK_CHARS <= usize::MAX,
    ensures
        r is Some == (chunk_count(b64@.len()) <= u32::MAX),
        r matches Some(frames) ==> packets::packet_views(frames@) == chunk_packets(
            session_id,
            b64@,
        ),
{
    proof {
        vstd::string::is_ascii_spec_bytes(b64);
    }
    let len: usize = b64.len();
    let count: usize = (len + (CHUNK_CHARS - 1)) / CHUNK_CHARS;
    if count > u32::MAX as usize {
        return None;
    }
    let total: u32 = count as u32;
    let mut frames: Vec<SignalPacket> = Vec::new();
    let mut sequence: u32 = 0;
    while sequence < total
        invariant
            sequence <= total,
            total == count,
            count == chunk_count(len as nat),
            len == b64@.len(),
            len + CHUNK_CHARS <= usize::MAX,
            b64.is_ascii(),
            frames@.len() == sequence,
            forall|i: int|
                0 <= i < sequence ==> (#[trigger] frames@[i])@ == chunk_packet(
                    session_id,
                    b64@,
                    i as nat,
                ),
        decreases total - sequence,
    {
        proof {
            chunk_in_range(len as nat, sequence as nat);
        }
        let from: usize = sequence as usize * CHUNK_CHARS;
        let to: usize = if len - from > CHUNK_CHARS {
            from + CHUNK_CHARS
        } else {
            len
        };
        let payload = b64.substring_ascii(from, to).to_owned();
        let packet = SignalPacket::ScreenshotData {
            session_id,
            sequence,
            total,
            last: sequence + 1 == total,
            payload,
        };
        assert(packet@ == chunk_packet(session_id, b64@, sequence as nat));
        frames.push(packet);
        sequence = sequence + 1;
    }
    proof {
        assert(packets::packet_views(frames@) =~= chunk_packets(session_id, b64@));
    }
    Some(frames)
}

/// A chunk that is counted begins inside the text.
proof fn chunk_in_range(len: nat, index: nat)
    requires
        index < chunk_count(len),
    ensures
        index * CHUNK_CHARS < len,
{
    assert(index * 49152 < len) by (nonlinear_arith)
        requires
            index < (len + 49152 - 1) as nat / 49152,
    ;
}

/// The chunks from the given index on, put together.
pub open spec fn joined_from(text: Seq<char>, index: nat) -> Seq<char>
    decreases chunk_count(text.len()) - index,
{
    if index >= chunk_count(text.len()) {
        Seq::empty()
    } else {
        chunk_text(text, index) + joined_from(text, index + 1)
    }
}

/// The chunks from an index on, put together, are the rest of the text.
proof fn joined_is_rest(text: Seq<char>, index: nat)
    requires
        index <= chunk_count(text.len()),
        index * CHUNK_CHARS <= text.len() || index == chunk_count(text.len()),
    ensures
        joined_from(text, index) == (if index * CHUNK_CHARS <= text.len() {
            text.skip(index * CHUNK_CHARS)
        } else {
            Seq::empty()
        }),
    decreases chunk_count(text.len()) - index,
{
    let n = chunk_count(text.len());
    if index >= n {
        assert(text.len() <= index * CHUNK_CHARS) by {
            assert(text.len() <= n * 49152) by (nonlinear_arith)
                requires
                    n == (text.len() + 49152 - 1) as nat / 49152,
            ;
        }
        if index * CHUNK_CHARS <= text.len() {
            assert(text.skip(index * CHUNK_CHARS) =~= Seq::empty());
        }
    } else {
        chunk_in_range(text.len(), index);
        let from = index * CHUNK_CHARS;
        assert((index + 1) * CHUNK_CHARS == from + CHUNK_CHARS) by (nonlinear_arith)
            requires
                from == index * CHUNK_CHARS,
        ;
        if (index + 1) * CHUNK_CHARS > text.len() {
            assert(index + 1 >= n) by {
                assert(n <= index + 1) by (nonlinear_arith)
                    requires
                        n == (text.len() + 49152 - 1) as nat / 49152,
                        (index + 1) * 49152 > text.len(),
                ;
            }
        }
        joined_is_rest(text, index + 1);
        assert(chunk_text(text, index) + joined_from(text, index + 1) =~= text.skip(from));
    }
}

/// Splitting loses nothing: the chunks in order are the text.
pub proof fn chunks_are_whole(text: Seq<char>)
    ensures
        joined_from(text, 0) == text,
{
    joined_is_rest(text, 0);
    assert(text.skip(0) =~= text);
}

/// The packets of a text are numbered from zero in order, each of them says how many
/// there are, and the last one and no other says that it is the last. They belong to
/// the session, and every one but the last has 49152 characters of the text, from
/// where the one before it ended.
pub proof fn chunk_packets_are_numbered(session_id: SessionId, text: Seq<char>, i: int)
    requires
        chunk_count(text.len()) <= u32::MAX,
        0 <= i < chunk_packets(session_id, text).len(),
    ensures
        chunk_packets(session_id, text)[i] matches SignalPacketView::ScreenshotData {
            session_id: of,
            sequence,
            total,
            last,
            payload,
        } && {
            let n = chunk_packets(session_id, text).len();
            &&& of == session_id
            &&& sequence == i
            &&& total == n
            &&& last == (i == n - 1)
            &&& payload == text.subrange(
                i * 49152,
                if i < n - 1 {
                    i * 49152 + 49152
                } else {
                    text.len() as int
                },
            )
            &&& 0 < payload.len() <= 49152
        },
{
    let n = chunk_count(text.len());
    chunk_in_range(text.len(), i as nat);
    if i < n - 1 {
        chunk_in_range(text.len(), (i + 1) as nat);
        assert((i + 1) * 49152 == i * 49152 + 49152);
    } else {
        assert(text.len() <= n * 49152) by (nonlinear_arith)
            requires
                n == (text.len() + 49152 - 1) as nat / 49152,
        ;
        assert(n * 49152 == i * 49152 + 49152) by (nonlinear_arith)
            requires
                n == i + 1,
        ;
    }
}

/// An empty text makes no packet, and any other makes at least one.
pub proof fn only_an_empty_text_makes_no_packet(session_id: SessionId, text: Seq<char>)
    ensures
        chunk_packets(session_id, text).len() == 0 <==> text.len() == 0,
{
    let n = chunk_count(text.len());
    if text.len() > 0 {
        assert(n > 0) by (nonlinear_arith)
            requires
                n == (text.len() + 49152 - 1) as nat / 49152,
                text.len() > 0,
        ;
    }
}

} // verus!
