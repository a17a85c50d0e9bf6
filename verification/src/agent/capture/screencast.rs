//! Tile-delta encoding of a live stream.
//!
//! Each capture backend decodes its native frame to a tightly packed BGRA buffer
//! and pushes it in. The encoder compares it with the previous *sent* frame,
//! encodes only the tiles that changed, and hands out what to send.

use std::time::{Duration, Instant};
use vstd::prelude::*;
use vstd::slice::slice_subrange;
use vstd::string::*;

use super::image;
use super::image::jpeg_encode;
use crate::agent::error;
use crate::agent::error::{AgentError, AgentErrorView, AgentResult};
use crate::encoding;
use crate::sdk::lan::{FrameDelta, TilePatch};
use crate::text;
use crate::text::joined;
use crate::time;

verus! {

/// Tile edge length for delta encoding.
pub const TILE: usize = 128;

/// Send a full keyframe at least this often (frames). Static areas never
/// change, so without a periodic keyframe a region that was stale in the initial
/// keyframe would stay wrong until something moves over it.
pub const KEYFRAME_INTERVAL: u32 = 160;

/// When the screen is static, still emit a tiny empty frame at least this often
/// (nanoseconds) so the client can tell a static screen from a stalled link.
pub const HEARTBEAT_NANOS: u128 = 1_000_000_000;

/// A tile's rectangle within a frame: frame width plus the tile's origin and size.
#[derive(Debug, Clone, Copy, PartialEq, Eq, Structural)]
pub struct TileRect {
    pub fw: usize,
    pub x: usize,
    pub y: usize,
    pub w: usize,
    pub h: usize,
}

/// Tiles that cover `n` pixels.
pub open spec fn tiles_across(n: usize) -> nat {
    ((n + 127) / 128) as nat
}

/// Tiles of a frame.
pub open spec fn tile_count(w: usize, h: usize) -> nat {
    tiles_across(w) * tiles_across(h)
}

/// The rectangle of the tile with index `i`, row by row.
pub open spec fn tile_rect(w: usize, h: usize, i: nat) -> TileRect {
    let x = (i % tiles_across(w)) * 128;
    let y = (i / tiles_across(w)) * 128;
    TileRect {
        fw: w,
        x: x as usize,
        y: y as usize,
        w: (if w - x < 128 {
            w - x
        } else {
            128
        }) as usize,
        h: (if h - y < 128 {
            h - y
        } else {
            128
        }) as usize,
    }
}

impl TileRect {
    /// Where a row of the tile begins in the frame's bytes.
    pub open spec fn row_start(self, row: int) -> int {
        ((self.y + row) * self.fw + self.x) * 4
    }

    /// Whether the rectangle lies in a frame of `len` bytes.
    pub open spec fn fits(self, len: nat) -> bool {
        &&& self.x + self.w <= self.fw
        &&& (self.y + self.h) * self.fw * 4 <= len
    }
}

proof fn row_in_frame(r: TileRect, row: int, len: nat)
    requires
        r.fits(len),
        0 <= row < r.h,
    ensures
        0 <= r.row_start(row),
        0 <= (r.y + row) * r.fw,
        0 <= (r.y + row) * r.fw + r.x,
        r.row_start(row) + r.w * 4 <= len,
{
    let a = r.y + row;
    let b = r.y + r.h;
    let fw = r.fw as int;
    assert(0 <= a * fw) by (nonlinear_arith)
        requires
            0 <= a,
            0 <= fw,
    ;
    assert(a * fw + fw <= b * fw) by (nonlinear_arith)
        requires
            a + 1 <= b,
            0 <= fw,
    ;
    assert(b * fw * 4 <= len);
}

proof fn bottom_in_frame(r: TileRect, len: nat)
    requires
        r.w > 0,
        r.fits(len),
    ensures
        r.y + r.h <= len,
{
    let b = r.y + r.h;
    let fw = r.fw as int;
    assert(b <= b * fw) by (nonlinear_arith)
        requires
            0 <= b,
            1 <= fw,
    ;
}

/// The first `n` rows of a tile.
pub open spec fn tile_rows(frame: Seq<u8>, r: TileRect, n: nat) -> Seq<u8>
    decreases n,
{
    if n == 0 {
        Seq::empty()
    } else {
        let start = r.row_start(n - 1);
        tile_rows(frame, r, (n - 1) as nat) + frame.subrange(start, start + r.w * 4)
    }
}

/// The pixels of a tile, tightly packed.
pub open spec fn tile_pixels(frame: Seq<u8>, r: TileRect) -> Seq<u8> {
    tile_rows(frame, r, r.h as nat)
}

proof fn tile_rows_len(frame: Seq<u8>, r: TileRect, n: nat)
    requires
        r.fits(frame.len()),
        n <= r.h,
    ensures
        tile_rows(frame, r, n).len() == n * (r.w * 4),
    decreases n,
{
    if n > 0 {
        tile_rows_len(frame, r, (n - 1) as nat);
        row_in_frame(r, n - 1, frame.len());
        let row = r.w * 4;
        assert((n - 1) * row + row == n * row) by (nonlinear_arith);
    } else {
        assert(0 * (r.w * 4) == 0);
    }
}

proof fn equal_rows(a: Seq<u8>, b: Seq<u8>, r: TileRect, n: nat)
    requires
        r.fits(a.len()),
        r.fits(b.len()),
        n <= r.h,
        forall|row: int|
            0 <= row < n ==> a.subrange(
                #[trigger] r.row_start(row),
                r.row_start(row) + r.w * 4,
            ) == b.subrange(r.row_start(row), r.row_start(row) + r.w * 4),
    ensures
        tile_rows(a, r, n) == tile_rows(b, r, n),
    decreases n,
{
    if n > 0 {
        equal_rows(a, b, r, (n - 1) as nat);
        let start = r.row_start(n - 1);
        assert(a.subrange(start, start + r.w * 4) == b.subrange(start, start + r.w * 4));
    }
}

proof fn different_row(a: Seq<u8>, b: Seq<u8>, r: TileRect, row: int, n: nat)
    requires
        r.fits(a.len()),
        r.fits(b.len()),
        0 <= row < n <= r.h,
        a.subrange(r.row_start(row), r.row_start(row) + r.w * 4) != b.subrange(
            r.row_start(row),
            r.row_start(row) + r.w * 4,
        ),
    ensures
        tile_rows(a, r, n) != tile_rows(b, r, n),
    decreases n,
{
    let m = (n - 1) as nat;
    let start = r.row_start(n - 1);
    let ra = a.subrange(start, start + r.w * 4);
    let rb = b.subrange(start, start + r.w * 4);
    let pa = tile_rows(a, r, m);
    let pb = tile_rows(b, r, m);
    tile_rows_len(a, r, m);
    tile_rows_len(b, r, m);
    row_in_frame(r, n - 1, a.len());
    row_in_frame(r, n - 1, b.len());
    if tile_rows(a, r, n) == tile_rows(b, r, n) {
        assert(pa =~= (pa + ra).take(pa.len() as int));
        assert(pb =~= (pb + rb).take(pb.len() as int));
        assert(ra =~= (pa + ra).skip(pa.len() as int));
        assert(rb =~= (pb + rb).skip(pb.len() as int));
        if row < n - 1 {
            different_row(a, b, r, row, m);
        }
    }
}

/// Where a row of a tile begins in the frame's bytes.
fn start_of(r: &TileRect, row: usize, len: usize) -> (start: usize)
    requires
        r.w > 0,
        r.fits(len as nat),
        row < r.h,
    ensures
        start == r.row_start(row as int),
        start + r.w * 4 <= len,
{
    proof {
        row_in_frame(*r, row as int, len as nat);
        bottom_in_frame(*r, len as nat);
    }
    ((r.y + row) * r.fw + r.x) * 4
}

/// Whether a tile's pixels differ between the current and previous frame. The tile
/// may be any rectangle in the frame; bytes outside it do not matter.
pub fn tile_differs(cur: &[u8], prev: &[u8], r: &TileRect) -> (differs: bool)
    requires
        r.fits(cur@.len()),
        r.fits(prev@.len()),
    ensures
        differs == (tile_pixels(cur@, *r) != tile_pixels(prev@, *r)),
{
    if r.w == 0 {
        proof {
            tile_rows_len(cur@, *r, r.h as nat);
            tile_rows_len(prev@, *r, r.h as nat);
            assert(r.h * (r.w * 4) == 0) by (nonlinear_arith)
                requires
                    r.w == 0,
            ;
            assert(tile_pixels(cur@, *r) =~= tile_pixels(prev@, *r));
        }
        return false;
    }
    let mut row: usize = 0;
    while row < r.h
        invariant
            row <= r.h,
            r.w > 0,
            r.fits(cur@.len()),
            r.fits(prev@.len()),
            forall|k: int|
                0 <= k < row ==> cur@.subrange(
                    #[trigger] r.row_start(k),
                    r.row_start(k) + r.w * 4,
                ) == prev@.subrange(r.row_start(k), r.row_start(k) + r.w * 4),
        decreases r.h - row,
    {
        let start: usize = start_of(r, row, cur.len());
        proof {
            row_in_frame(*r, row as int, prev@.len());
        }
        let end: usize = start + r.w * 4;
        let a = slice_subrange(cur, start, end);
        let b = slice_subrange(prev, start, end);
        if !same_bytes(a, b) {
            proof {
                different_row(cur@, prev@, *r, row as int, r.h as nat);
            }
            return true;
        }
        row = row + 1;
    }
    proof {
        equal_rows(cur@, prev@, *r, r.h as nat);
    }
    false
}

/// The byte of a frame that is the component `c` of the pixel in column `col` of
/// row `row` of a tile.
pub open spec fn tile_byte(r: TileRect, row: int, col: int, c: int) -> int {
    ((r.y + row) * r.fw + r.x + col) * 4 + c
}

/// A tile differs between two frames exactly if one of its bytes does.
pub proof fn tile_differs_in_a_byte(cur: Seq<u8>, prev: Seq<u8>, r: TileRect)
    requires
        r.fits(cur.len()),
        r.fits(prev.len()),
    ensures
        tile_pixels(cur, r) != tile_pixels(prev, r) <==> exists|row: int, col: int, c: int|
            0 <= row < r.h && 0 <= col < r.w && 0 <= c < 4 && cur[#[trigger] tile_byte(
                r,
                row,
                col,
                c,
            )] != prev[tile_byte(r, row, col, c)],
{
    if exists|row: int, col: int, c: int|
        0 <= row < r.h && 0 <= col < r.w && 0 <= c < 4 && cur[#[trigger] tile_byte(r, row, col, c)]
            != prev[tile_byte(r, row, col, c)] {
        let (row, col, c) = choose|row: int, col: int, c: int|
            0 <= row < r.h && 0 <= col < r.w && 0 <= c < 4 && cur[#[trigger] tile_byte(
                r,
                row,
                col,
                c,
            )] != prev[tile_byte(r, row, col, c)];
        let start = r.row_start(row);
        row_in_frame(r, row, cur.len());
        row_in_frame(r, row, prev.len());
        let k = col * 4 + c;
        assert(tile_byte(r, row, col, c) == start + k);
        assert(cur.subrange(start, start + r.w * 4)[k] == cur[start + k]);
        assert(prev.subrange(start, start + r.w * 4)[k] == prev[start + k]);
        different_row(cur, prev, r, row, r.h as nat);
    } else {
        assert forall|row: int| 0 <= row < r.h implies cur.subrange(
            #[trigger] r.row_start(row),
            r.row_start(row) + r.w * 4,
        ) == prev.subrange(r.row_start(row), r.row_start(row) + r.w * 4) by {
            let start = r.row_start(row);
            row_in_frame(r, row, cur.len());
            row_in_frame(r, row, prev.len());
            let a = cur.subrange(start, start + r.w * 4);
            let b = prev.subrange(start, start + r.w * 4);
            assert forall|k: int| 0 <= k < a.len() implies a[k] == b[k] by {
                assert(tile_byte(r, row, k / 4, k % 4) == start + k);
            }
            assert(a =~= b);
        }
        equal_rows(cur, prev, r, r.h as nat);
    }
}

fn same_bytes(a: &[u8], b: &[u8]) -> (same: bool)
    requires
        a@.len() == b@.len(),
    ensures
        same == (a@ == b@),
{
    let mut i: usize = 0;
    while i < a.len()
        invariant
            i <= a@.len(),
            a@.len() == b@.len(),
            forall|j: int| 0 <= j < i ==> a@[j] == b@[j],
        decreases a@.len() - i,
    {
        if a[i] != b[i] {
            return false;
        }
        i = i + 1;
    }
    assert(a@ =~= b@);
    true
}

/// A dimension as an image has it; 0 if it does not fit.
pub open spec fn as_u16(n: usize) -> u16 {
    if n <= u16::MAX {
        n as u16
    } else {
        0
    }
}

fn to_u16(n: usize) -> (m: u16)
    ensures
        m == as_u16(n),
{
    if n <= u16::MAX as usize {
        n as u16
    } else {
        0
    }
}

/// JPEG-encode one tile (a sub-rectangle of the BGRA frame). It fails only for a
/// tile without pixels, or of a size that no image has.
pub fn encode_tile(frame: &[u8], r: &TileRect, quality: u8) -> (encoded: AgentResult<Vec<u8>>)
    requires
        r.fits(frame@.len()),
    ensures
        error::fails_with(
            encoded,
            if as_u16(r.w) > 0 && as_u16(r.h) > 0 {
                None
            } else {
                Some(
                    AgentErrorView::Lan(
                        "jpeg encode: "@ + ("Image dimensions must be non zero: "@
                            + text::decimal_digits(as_u16(r.w) as nat) + "x"@
                            + text::decimal_digits(as_u16(r.h) as nat)),
                    ),
                )
            },
        ),
        encoded matches Ok(jpeg) ==> jpeg@ == image::jpeg_image(
            tile_pixels(frame@, *r),
            as_u16(r.w),
            as_u16(r.h),
            quality,
        ),
{
    let mut buf: Vec<u8> = Vec::new();
    if r.w > 0 {
        let mut row: usize = 0;
        while row < r.h
            invariant
                row <= r.h,
                r.w > 0,
                r.fits(frame@.len()),
                buf@ == tile_rows(frame@, *r, row as nat),
            decreases r.h - row,
        {
            let start: usize = start_of(r, row, frame.len());
            let line = slice_subrange(frame, start, start + r.w * 4);
            let ghost before = buf@;
            buf.extend_from_slice(line);
            assert(buf@ =~= before + line@);
            row = row + 1;
        }
    }
    let _len: usize = buf.len();
    proof {
        tile_rows_len(frame@, *r, r.h as nat);
        if r.w == 0 {
            assert(r.h * (r.w * 4) == 0) by (nonlinear_arith)
                requires
                    r.w == 0,
            ;
            assert(buf@ =~= tile_pixels(frame@, *r));
        }
        let (w, h) = (r.w as int, r.h as int);
        let (iw, ih) = (as_u16(r.w) as int, as_u16(r.h) as int);
        assert(w * h * 4 == h * (w * 4)) by (nonlinear_arith);
        assert(iw * ih <= w * h) by (nonlinear_arith)
            requires
                0 <= iw <= w,
                0 <= ih <= h,
        ;
        assert(0 <= iw * ih) by (nonlinear_arith)
            requires
                0 <= iw,
                0 <= ih,
        ;
        assert(iw == 0 || ih == 0 ==> iw * ih == 0) by (nonlinear_arith);
    }
    match jpeg_encode(buf.as_slice(), to_u16(r.w), to_u16(r.h), quality) {
        Ok(jpeg) => Ok(jpeg),
        Err(fault) => Err(AgentError::Lan(joined("jpeg encode: ", fault.as_str()))),
    }
}

/// The base64 text of a tile's JPEG image, if there is room for it in memory.
pub open spec fn tile_text(frame: Seq<u8>, w: usize, h: usize, i: nat, quality: u8) -> Option<
    Seq<char>,
> {
    let r = tile_rect(w, h, i);
    let jpeg = image::jpeg_image(tile_pixels(frame, r), as_u16(r.w), as_u16(r.h), quality);
    if encoding::base64_len(jpeg.len()) <= isize::MAX {
        Some(encoding::base64_text(jpeg))
    } else {
        None
    }
}

/// Whether a tile has to be sent: all of them in a keyframe, else those that
/// differ from the frame sent last.
pub open spec fn tile_changed(
    frame: Seq<u8>,
    prev: Option<Seq<u8>>,
    w: usize,
    h: usize,
    keyframe: bool,
    i: nat,
) -> bool {
    let r = tile_rect(w, h, i);
    keyframe || prev is None || tile_pixels(frame, r) != tile_pixels(prev->0, r)
}

/// A number as it stands in a frame; 0 if it does not fit.
pub open spec fn as_u32(n: nat) -> u32 {
    if n <= u32::MAX {
        n as u32
    } else {
        0
    }
}

/// The patches for the first `n` tiles, each with the tile's index.
pub open spec fn patches(
    frame: Seq<u8>,
    prev: Option<Seq<u8>>,
    w: usize,
    h: usize,
    keyframe: bool,
    quality: u8,
    n: nat,
) -> Seq<(u32, Seq<char>)>
    decreases n,
{
    if n == 0 {
        Seq::empty()
    } else {
        let i = (n - 1) as nat;
        let before = patches(frame, prev, w, h, keyframe, quality, i);
        if tile_changed(frame, prev, w, h, keyframe, i) && tile_text(
            frame,
            w,
            h,
            i,
            quality,
        ) is Some {
            before.push((as_u32(i), tile_text(frame, w, h, i, quality)->0))
        } else {
            before
        }
    }
}

/// The patches of a frame, each by its index and text.
pub open spec fn patch_views(tiles: Seq<TilePatch>) -> Seq<(u32, Seq<char>)> {
    tiles.map_values(|t: TilePatch| (t.i, t.jpeg_b64@))
}

/// A frame: its width, its height and its pixels.
pub type Frame = (usize, usize, Vec<u8>);

/// What an encoder holds.
pub struct EncoderState {
    /// The frame that was sent last.
    pub prev: Option<(usize, usize, Seq<u8>)>,
    /// Frames taken so far.
    pub counter: u32,
    /// The frame that is being sent.
    pub pending: Option<(usize, usize, Seq<u8>)>,
}

/// Stateful tile-delta encoder shared by every capture backend.
///
/// After each frame that it hands out, the caller says with
/// [`TileEncoder::queued`] what became of it. Only a frame that was queued
/// counts as sent: a dropped one is compared again, so its changes are not lost.
pub struct TileEncoder {
    prev: Option<Frame>,
    counter: u32,
    pending: Option<Frame>,
    last_sent: Instant,
}

spec fn frame_view(frame: Option<Frame>) -> Option<(usize, usize, Seq<u8>)> {
    match frame {
        Some((w, h, data)) => Some((w, h, data@)),
        None => None,
    }
}

spec fn is_whole(frame: Option<Frame>) -> bool {
    match frame {
        Some((w, h, data)) => w > 0 && h > 0 && w * h * 4 <= data@.len(),
        None => true,
    }
}

/// Whether a frame is too small for its dimensions, or has none.
pub open spec fn is_malformed(w: usize, h: usize, len: nat) -> bool {
    w == 0 || h == 0 || len < w * h * 4
}

/// Whether a frame of the given size is a keyframe: after a frame of another
/// size or none, and at regular intervals.
pub open spec fn is_keyframe(state: EncoderState, w: usize, h: usize) -> bool {
    ||| state.prev is None
    ||| (state.prev->0).0 != w
    ||| (state.prev->0).1 != h
    ||| state.counter % KEYFRAME_INTERVAL == 0
}

/// The pixels of the frame that was sent last.
pub open spec fn sent_pixels(state: EncoderState) -> Option<Seq<u8>> {
    match state.prev {
        Some((w, h, data)) => Some(data),
        None => None,
    }
}

/// The patches of a frame.
pub open spec fn frame_patches(
    state: EncoderState,
    w: usize,
    h: usize,
    data: Seq<u8>,
    quality: u8,
) -> Seq<(u32, Seq<char>)> {
    patches(
        data,
        sent_pixels(state),
        w,
        h,
        is_keyframe(state, w, h),
        quality,
        tile_count(w, h),
    )
}

/// What became of a frame that was handed out.
#[derive(Debug, Clone, Copy, PartialEq, Eq, Structural)]
pub enum SendOutcome {
    /// It was queued.
    Queued,
    /// The consumer is behind, and it was dropped.
    Full,
    /// The consumer is gone.
    Closed,
}

/// How an encoder takes what became at `now` of the frame that it handed out: one
/// that was queued is the frame sent last, and renews the time of the last frame.
pub open spec fn takes_outcome(
    before: &TileEncoder,
    after: &TileEncoder,
    outcome: SendOutcome,
    now: Instant,
) -> bool {
    let state = before.state();
    let queued = outcome == SendOutcome::Queued;
    &&& after.state() == (EncoderState {
        prev: if queued && state.pending is Some {
            state.pending
        } else {
            state.prev
        },
        counter: state.counter,
        pending: None,
    })
    &&& after.last_sent() == (if queued {
        now
    } else {
        before.last_sent()
    })
}

/// Whether `r` is what an encoder hands out for a well-formed frame when the
/// last one was sent so long ago.
pub open spec fn hands_out(
    state: EncoderState,
    w: usize,
    h: usize,
    data: Seq<u8>,
    quality: u8,
    since: nat,
    r: Option<FrameDelta>,
) -> bool {
    let tiles = frame_patches(state, w, h, data, quality);
    if tiles.len() == 0 && !is_keyframe(state, w, h) && since < HEARTBEAT_NANOS {
        r is None
    } else {
        r matches Some(delta) && delta.w == as_u32(w as nat) && delta.h == as_u32(h as nat)
            && delta.tile == TILE && delta.keyframe == is_keyframe(state, w, h) && patch_views(
            delta.tiles@,
        ) == tiles
    }
}

/// Whether `r` is the empty frame that an encoder hands out when the last one
/// was sent so long ago.
pub open spec fn beats(state: EncoderState, since: nat, r: Option<FrameDelta>) -> bool {
    if state.prev is None || since < HEARTBEAT_NANOS {
        r is None
    } else {
        r matches Some(delta) && delta.w == as_u32((state.prev->0).0 as nat) && delta.h == as_u32(
            (state.prev->0).1 as nat,
        ) && delta.tile == TILE && !delta.keyframe && delta.tiles@.len() == 0
    }
}

proof fn rect_in_frame(w: usize, h: usize, i: nat, len: nat)
    requires
        w > 0,
        h > 0,
        w * h * 4 <= len,
        i < tile_count(w, h),
    ensures
        tiles_across(w) > 0,
        i / tiles_across(w) < tiles_across(h),
        (i % tiles_across(w)) * 128 < w,
        (i / tiles_across(w)) * 128 < h,
        tile_rect(w, h, i).w > 0,
        tile_rect(w, h, i).h > 0,
        tile_rect(w, h, i).fits(len),
{
    let cols = tiles_across(w) as int;
    let rows = tiles_across(h) as int;
    let n = i as int;
    assert(n / cols < rows && n / cols >= 0) by (nonlinear_arith)
        requires
            0 <= n < cols * rows,
            cols > 0,
    ;
    assert(0 <= n % cols < cols) by (nonlinear_arith)
        requires
            cols > 0,
    ;
    let r = tile_rect(w, h, i);
    let bottom = r.y + r.h;
    let fw = w as int;
    let fh = h as int;
    assert(bottom <= fh);
    assert(bottom * fw * 4 <= fw * fh * 4) by (nonlinear_arith)
        requires
            bottom <= fh,
            0 <= fw,
    ;
}

/// A number as it stands in a frame; 0 if it does not fit.
fn to_u32(n: usize) -> (m: u32)
    ensures
        m == as_u32(n as nat),
{
    if n <= u32::MAX as usize {
        n as u32
    } else {
        0
    }
}

/// The patches of a frame, compared with `prev` unless it is a keyframe.
fn changed_tiles(w: usize, h: usize, data: &Vec<u8>, prev: Option<&Vec<u8>>, keyframe: bool, quality: u8) -> (tiles:
    Vec<TilePatch>)
    requires
        w > 0,
        h > 0,
        w * h * 4 <= data@.len(),
        !keyframe ==> prev is Some && w * h * 4 <= prev->0@.len(),
    ensures
        patch_views(tiles@) == patches(
            data@,
            match prev {
                Some(p) => Some(p@),
                None => None,
            },
            w,
            h,
            keyframe,
            quality,
            tile_count(w, h),
        ),
{
    let cols: usize = (w - 1) / 128 + 1;
    let rows: usize = (h - 1) / 128 + 1;
    assert(cols == tiles_across(w) && rows == tiles_across(h));
    let _len: usize = data.len();
    proof {
        let (a, b, c, d) = (cols as int, rows as int, w as int, h as int);
        assert(a * b <= c * d) by (nonlinear_arith)
            requires
                0 <= a <= c,
                0 <= b <= d,
        ;
        assert(0 <= a * b) by (nonlinear_arith)
            requires
                0 <= a,
                0 <= b,
        ;
    }
    let count: usize = cols * rows;
    let ghost before = match prev {
        Some(p) => Some(p@),
        None => None,
    };
    let mut tiles: Vec<TilePatch> = Vec::new();
    assert(patch_views(tiles@) =~= Seq::empty());
    let mut i: usize = 0;
    while i < count
        invariant
            i <= count,
            count == tile_count(w, h),
            cols == tiles_across(w),
            w > 0,
            h > 0,
            w * h * 4 <= data@.len(),
            !keyframe ==> prev is Some && w * h * 4 <= prev->0@.len(),
            before == (match prev {
                Some(p) => Some(p@),
                None => None,
            }),
            patch_views(tiles@) == patches(data@, before, w, h, keyframe, quality, i as nat),
        decreases count - i,
    {
        proof {
            rect_in_frame(w, h, i as nat, data@.len());
        }
        let x: usize = (i % cols) * 128;
        let y: usize = (i / cols) * 128;
        let rect = TileRect {
            fw: w,
            x,
            y,
            w: if w - x < 128 {
                w - x
            } else {
                128
            },
            h: if h - y < 128 {
                h - y
            } else {
                128
            },
        };
        assert(rect == tile_rect(w, h, i as nat));
        let changed = if keyframe {
            true
        } else {
            match prev {
                Some(p) => {
                    proof {
                        rect_in_frame(w, h, i as nat, p@.len());
                    }
                    tile_differs(data.as_slice(), p.as_slice(), &rect)
                },
                None => true,
            }
        };
        let ghost sofar = patch_views(tiles@);
        if changed {
            if let Ok(jpeg) = encode_tile(data.as_slice(), &rect, quality) {
                if let Some(text) = bounded_text(&jpeg) {
                    tiles.push(TilePatch { i: to_u32(i), jpeg_b64: text });
                    assert(patch_views(tiles@) =~= sofar.push((as_u32(i as nat), text@)));
                }
            }
        }
        i = i + 1;
    }
    tiles
}

/// The base64 text of an image, if there is room for it in memory.
fn bounded_text(jpeg: &Vec<u8>) -> (text: Option<String>)
    ensures
        text is Some == (encoding::base64_len(jpeg@.len()) <= isize::MAX),
        text matches Some(t) ==> t@ == encoding::base64_text(jpeg@),
{
    let groups: u128 = (jpeg.len() as u128 + 2) / 3;
    if groups * 4 <= isize::MAX as u128 {
        Some(encoding::encode(jpeg.as_slice()))
    } else {
        None
    }
}

impl TileEncoder {
    #[verifier::type_invariant]
    spec fn whole(self) -> bool {
        is_whole(self.prev) && is_whole(self.pending)
    }

    /// What the encoder holds.
    pub closed spec fn state(&self) -> EncoderState {
        EncoderState {
            prev: frame_view(self.prev),
            counter: self.counter,
            pending: frame_view(self.pending),
        }
    }

    /// When a frame was queued last, or the encoder was made.
    pub closed spec fn last_sent(&self) -> Instant {
        self.last_sent
    }

    /// An encoder that has sent nothing yet.
    pub fn new() -> (encoder: Self)
        ensures
            encoder.state() == (EncoderState { prev: None, counter: 0, pending: None }),
    {
        TileEncoder { prev: None, counter: 0, pending: None, last_sent: Instant::now() }
    }

    /// Encode one frame (BGRA, `w*h*4` bytes), when the last one was sent so long
    /// ago: what to send, if anything. A malformed frame is skipped.
    pub fn push_after(
        &mut self,
        w: usize,
        h: usize,
        data: Vec<u8>,
        quality: u8,
        since: Duration,
    ) -> (r: Option<FrameDelta>)
        requires
            w * h * 4 <= usize::MAX,
        ensures
            final(self).last_sent() == old(self).last_sent(),
            is_malformed(w, h, data@.len()) ==> r is None && final(self).state()
                == old(self).state(),
            !is_malformed(w, h, data@.len()) ==> {
                &&& hands_out(old(self).state(), w, h, data@, quality, time::nanos(since), r)
                &&& final(self).state() == (EncoderState {
                    prev: old(self).state().prev,
                    counter: ((old(self).state().counter + 1) % 0x1_0000_0000) as u32,
                    pending: if r is Some {
                        Some((w, h, data@))
                    } else {
                        None
                    },
                })
            },
    {
        proof {
            use_type_invariant(&*self);
            let (a, b) = (w as int, h as int);
            assert(0 <= a * b) by (nonlinear_arith)
                requires
                    0 <= a,
                    0 <= b,
            ;
        }
        if w == 0 || h == 0 || data.len() < w * h * 4 {
            return None;
        }
        let dims_changed = match &self.prev {
            Some((pw, ph, _)) => *pw != w || *ph != h,
            None => true,
        };
        let keyframe = dims_changed || self.counter % KEYFRAME_INTERVAL == 0;
        let prev = match &self.prev {
            Some((_, _, pixels)) => Some(pixels),
            None => None,
        };
        let tiles = changed_tiles(w, h, &data, prev, keyframe, quality);
        self.counter = self.counter.wrapping_add(1);
        assert(patch_views(tiles@).len() == tiles@.len());
        if tiles.len() == 0 && !keyframe && since.as_nanos() < HEARTBEAT_NANOS {
            self.pending = None;
            return None;
        }
        let delta = FrameDelta { w: to_u32(w), h: to_u32(h), tile: 128, keyframe, tiles };
        self.pending = Some((w, h, data));
        Some(delta)
    }

    /// Encode one frame now: what to send, if anything.
    pub fn push(&mut self, w: usize, h: usize, data: Vec<u8>, quality: u8) -> (r: Option<FrameDelta>)
        requires
            w * h * 4 <= usize::MAX,
        ensures
            final(self).last_sent() == old(self).last_sent(),
            is_malformed(w, h, data@.len()) ==> r is None && final(self).state()
                == old(self).state(),
            !is_malformed(w, h, data@.len()) ==> {
                &&& exists|now: Instant|
                    hands_out(
                        old(self).state(),
                        w,
                        h,
                        data@,
                        quality,
                        #[trigger] time::nanos_between(now, old(self).last_sent()),
                        r,
                    )
                &&& final(self).state() == (EncoderState {
                    prev: old(self).state().prev,
                    counter: ((old(self).state().counter + 1) % 0x1_0000_0000) as u32,
                    pending: if r is Some {
                        Some((w, h, data@))
                    } else {
                        None
                    },
                })
            },
    {
        let now = Instant::now();
        let since = now.saturating_duration_since(self.last_sent);
        self.push_after(w, h, data, quality, since)
    }

    /// An empty frame, if the last one was sent so long ago that the client may
    /// take a static screen for a stalled link. Nothing until a frame was sent.
    pub fn heartbeat_after(&mut self, since: Duration) -> (r: Option<FrameDelta>)
        ensures
            final(self).last_sent() == old(self).last_sent(),
            final(self).state() == (EncoderState { pending: None, ..old(self).state() }),
            beats(old(self).state(), time::nanos(since), r),
    {
        proof {
            use_type_invariant(&*self);
        }
        self.pending = None;
        match &self.prev {
            Some((w, h, _)) => {
                if since.as_nanos() < HEARTBEAT_NANOS {
                    return None;
                }
                let delta = FrameDelta {
                    w: to_u32(*w),
                    h: to_u32(*h),
                    tile: 128,
                    keyframe: false,
                    tiles: Vec::new(),
                };
                Some(delta)
            },
            None => None,
        }
    }

    /// An empty frame, if the client may take a static screen for a stalled link
    /// otherwise. Nothing until a frame was sent.
    pub fn heartbeat(&mut self) -> (r: Option<FrameDelta>)
        ensures
            final(self).last_sent() == old(self).last_sent(),
            final(self).state() == (EncoderState { pending: None, ..old(self).state() }),
            exists|now: Instant|
                beats(
                    old(self).state(),
                    #[trigger] time::nanos_between(now, old(self).last_sent()),
                    r,
                ),
    {
        let now = Instant::now();
        let since = now.saturating_duration_since(self.last_sent);
        self.heartbeat_after(since)
    }

    /// What became of the frame that was handed out last. Returns `false` when
    /// the consumer is gone (the caller should stop capturing).
    pub fn queued(&mut self, outcome: SendOutcome) -> (keep_going: bool)
        ensures
            keep_going == (outcome != SendOutcome::Closed),
            exists|now: Instant| #[trigger] takes_outcome(old(self), final(self), outcome, now),
    {
        let now = Instant::now();
        self.queued_at(outcome, &now)
    }

    /// [`TileEncoder::queued`] at a given time.
    pub fn queued_at(&mut self, outcome: SendOutcome, now: &Instant) -> (keep_going: bool)
        ensures
            keep_going == (outcome != SendOutcome::Closed),
            takes_outcome(old(self), final(self), outcome, *now),
    {
        proof {
            use_type_invariant(&*self);
        }
        let mut sent: Option<Frame> = None;
        std::mem::swap(&mut sent, &mut self.pending);
        match outcome {
            SendOutcome::Queued => {
                self.last_sent = *now;
                if sent.is_some() {
                    self.prev = sent;
                }
                true
            },
            SendOutcome::Full => true,
            SendOutcome::Closed => false,
        }
    }
}

/// A captured frame as a tightly packed buffer, without what follows its pixels;
/// `None` if it has too few, or no size.
pub fn packed_frame(w: i32, h: i32, data: Vec<u8>) -> (frame: Option<Frame>)
    requires
        w > 0 && h > 0 ==> w * h * 4 <= usize::MAX,
    ensures
        is_packed(w as int, h as int, data@, frame),
        frame is Some == (w > 0 && h > 0 && data@.len() >= w * h * 4),
        frame matches Some((fw, fh, pixels)) ==> {
            &&& fw == w
            &&& fh == h
            &&& pixels@ == data@.take(w * h * 4)
        },
{
    if w <= 0 || h <= 0 {
        return None;
    }
    proof {
        let (a, b) = (w as int, h as int);
        assert(0 <= a * b) by (nonlinear_arith)
            requires
                0 <= a,
                0 <= b,
        ;
    }
    let expected: usize = w as usize * h as usize * 4;
    if data.len() < expected {
        return None;
    }
    let mut pixels = data;
    pixels.truncate(expected);
    assert(pixels@ =~= data@.take(w * h * 4));
    Some((w as usize, h as usize, pixels))
}

/// A tile that changed is among the patches, with its index and its image.
pub proof fn changed_tile_is_sent(
    frame: Seq<u8>,
    prev: Option<Seq<u8>>,
    w: usize,
    h: usize,
    keyframe: bool,
    quality: u8,
    n: nat,
    i: nat,
)
    requires
        i < n,
        tile_changed(frame, prev, w, h, keyframe, i),
        tile_text(frame, w, h, i, quality) is Some,
    ensures
        patches(frame, prev, w, h, keyframe, quality, n).contains(
            (as_u32(i), tile_text(frame, w, h, i, quality)->0),
        ),
    decreases n,
{
    let all = patches(frame, prev, w, h, keyframe, quality, n);
    let before = patches(frame, prev, w, h, keyframe, quality, (n - 1) as nat);
    let patch = (as_u32(i), tile_text(frame, w, h, i, quality)->0);
    if i == n - 1 {
        assert(all[all.len() - 1] == patch);
    } else {
        changed_tile_is_sent(frame, prev, w, h, keyframe, quality, (n - 1) as nat, i);
        let k = choose|k: int| 0 <= k < before.len() && before[k] == patch;
        assert(all[k] == patch);
    }
}

/// Each patch is the image of a tile that changed.
pub proof fn patch_is_changed_tile(
    frame: Seq<u8>,
    prev: Option<Seq<u8>>,
    w: usize,
    h: usize,
    keyframe: bool,
    quality: u8,
    n: nat,
    k: int,
)
    requires
        0 <= k < patches(frame, prev, w, h, keyframe, quality, n).len(),
    ensures
        exists|i: nat|
            i < n && #[trigger] tile_changed(frame, prev, w, h, keyframe, i) && patches(
                frame,
                prev,
                w,
                h,
                keyframe,
                quality,
                n,
            )[k] == (as_u32(i), tile_text(frame, w, h, i, quality)->0),
    decreases n,
{
    let before = patches(frame, prev, w, h, keyframe, quality, (n - 1) as nat);
    if k < before.len() {
        patch_is_changed_tile(frame, prev, w, h, keyframe, quality, (n - 1) as nat, k);
    } else {
        assert(tile_changed(frame, prev, w, h, keyframe, (n - 1) as nat));
    }
}

/// A frame that looks like the one sent last needs no patch, unless it is a
/// keyframe.
pub proof fn unchanged_frame_needs_no_patch(
    frame: Seq<u8>,
    w: usize,
    h: usize,
    quality: u8,
    n: nat,
)
    ensures
        patches(frame, Some(frame), w, h, false, quality, n).len() == 0,
    decreases n,
{
    if n > 0 {
        unchanged_frame_needs_no_patch(frame, w, h, quality, (n - 1) as nat);
    }
}

/// A keyframe has a patch for every tile, as long as each has an image.
pub proof fn keyframe_has_every_tile(
    frame: Seq<u8>,
    prev: Option<Seq<u8>>,
    w: usize,
    h: usize,
    quality: u8,
    n: nat,
)
    requires
        forall|i: nat| i < n ==> #[trigger] tile_text(frame, w, h, i, quality) is Some,
    ensures
        patches(frame, prev, w, h, true, quality, n).len() == n,
    decreases n,
{
    if n > 0 {
        keyframe_has_every_tile(frame, prev, w, h, quality, (n - 1) as nat);
    }
}

/// Whether the pixel in column `x` of row `y` lies in a tile.
pub open spec fn in_tile(r: TileRect, x: usize, y: usize) -> bool {
    r.x <= x < r.x + r.w && r.y <= y < r.y + r.h
}

/// Every pixel of a frame lies in exactly one of its tiles.
pub proof fn pixel_has_one_tile(w: usize, h: usize, x: usize, y: usize) -> (i: nat)
    requires
        x < w,
        y < h,
    ensures
        i < tile_count(w, h),
        in_tile(tile_rect(w, h, i), x, y),
        forall|j: nat|
            j < tile_count(w, h) && in_tile(#[trigger] tile_rect(w, h, j), x, y) ==> j == i,
{
    let cols = tiles_across(w) as int;
    let rows = tiles_across(h) as int;
    let col = x as int / 128;
    let row = y as int / 128;
    let n = row * cols + col;
    assert(0 <= n < cols * rows) by (nonlinear_arith)
        requires
            0 <= col < cols,
            0 <= row < rows,
            n == row * cols + col,
    ;
    vstd::arithmetic::div_mod::lemma_fundamental_div_mod_converse(n, cols, row, col);
    let len = (w * h * 4) as nat;
    assert(w * h * 4 >= 0) by (nonlinear_arith);
    rect_in_frame(w, h, n as nat, len);
    assert forall|j: nat|
        j < tile_count(w, h) && in_tile(#[trigger] tile_rect(w, h, j), x, y) implies j == n by {
        rect_in_frame(w, h, j, len);
        vstd::arithmetic::div_mod::lemma_fundamental_div_mod(j as int, cols);
        assert(j as int % cols == col);
        assert(j as int / cols == row);
        assert(cols * row == row * cols) by (nonlinear_arith);
    }
    n as nat
}

/// Among any [`KEYFRAME_INTERVAL`] frames in a row there is one that is due to
/// be a keyframe, whatever number the first has.
pub proof fn keyframe_comes_regularly(counter: u32) -> (k: u32)
    ensures
        k < KEYFRAME_INTERVAL,
        (((counter + k) % 0x1_0000_0000) as u32) % KEYFRAME_INTERVAL == 0,
{
    let left = 0x1_0000_0000 - counter;
    if left < KEYFRAME_INTERVAL {
        assert((counter + left) % 0x1_0000_0000 == 0);
        left as u32
    } else {
        let k = ((KEYFRAME_INTERVAL - counter % KEYFRAME_INTERVAL) % KEYFRAME_INTERVAL as int) as u32;
        assert((counter + k) % 0x1_0000_0000 == counter + k);
        k
    }
}

/// A frame is a keyframe exactly if nothing was sent before, its size is another than
/// that of the frame sent last, or its number is a multiple of 160.
pub proof fn keyframes_are_due(state: EncoderState, w: usize, h: usize)
    ensures
        is_keyframe(state, w, h) <==> {
            ||| state.prev is None
            ||| (state.prev->0).0 != w || (state.prev->0).1 != h
            ||| state.counter as int % 160 == 0
        },
{
}

/// A well-formed frame is handed out exactly if something changed, it is a keyframe, or
/// the last one was sent a second ago or more. It has the size of the frame and tiles of
/// 128 pixels, says whether it is a keyframe, and holds every patch.
pub proof fn frames_are_handed_out_when_needed(
    state: EncoderState,
    w: usize,
    h: usize,
    data: Seq<u8>,
    quality: u8,
    since: nat,
    r: Option<FrameDelta>,
)
    requires
        hands_out(state, w, h, data, quality, since, r),
    ensures
        r is Some <==> {
            ||| frame_patches(state, w, h, data, quality).len() > 0
            ||| is_keyframe(state, w, h)
            ||| since >= 1000000000
        },
        r matches Some(delta) ==> {
            &&& w <= u32::MAX ==> delta.w == w
            &&& h <= u32::MAX ==> delta.h == h
            &&& delta.tile == 128
            &&& delta.keyframe == is_keyframe(state, w, h)
            &&& delta.tiles@.len() == frame_patches(state, w, h, data, quality).len()
            &&& forall|k: int|
                0 <= k < delta.tiles@.len() ==> (#[trigger] delta.tiles@[k]).i == frame_patches(
                    state,
                    w,
                    h,
                    data,
                    quality,
                )[k].0 && delta.tiles@[k].jpeg_b64@ == frame_patches(
                    state,
                    w,
                    h,
                    data,
                    quality,
                )[k].1
        },
{
    if let Some(delta) = r {
        let views = patch_views(delta.tiles@);
        assert(views.len() == delta.tiles@.len());
        assert forall|k: int| 0 <= k < delta.tiles@.len() implies (#[trigger] delta.tiles@[k]).i
            == views[k].0 && delta.tiles@[k].jpeg_b64@ == views[k].1 by {}
    }
}

/// The patches of a frame are those of all its tiles: of every tile in a keyframe, and
/// else of those that differ from the frame sent last.
pub proof fn patches_cover_the_frame(
    state: EncoderState,
    w: usize,
    h: usize,
    data: Seq<u8>,
    quality: u8,
    i: nat,
)
    requires
        i < tile_count(w, h),
        tile_text(data, w, h, i, quality) is Some,
    ensures
        is_keyframe(state, w, h) || (state.prev matches Some((pw, ph, sent)) && tile_pixels(
            data,
            tile_rect(w, h, i),
        ) != tile_pixels(sent, tile_rect(w, h, i))) ==> frame_patches(
            state,
            w,
            h,
            data,
            quality,
        ).contains((as_u32(i), tile_text(data, w, h, i, quality)->0)),
{
    if is_keyframe(state, w, h) || (state.prev is Some && tile_pixels(data, tile_rect(w, h, i))
        != tile_pixels((state.prev->0).2, tile_rect(w, h, i))) {
        changed_tile_is_sent(
            data,
            sent_pixels(state),
            w,
            h,
            is_keyframe(state, w, h),
            quality,
            tile_count(w, h),
            i,
        );
    }
}

/// Only a frame that was queued counts as sent: it is what the next one is compared
/// with, and renews the time. One that was dropped leaves both as they were, so that its
/// changes are found again.
pub proof fn dropped_changes_are_not_lost(
    before: &TileEncoder,
    after: &TileEncoder,
    outcome: SendOutcome,
    now: Instant,
)
    requires
        takes_outcome(before, after, outcome, now),
    ensures
        after.state().counter == before.state().counter,
        after.state().pending is None,
        outcome is Full || outcome is Closed ==> after.state().prev == before.state().prev
            && after.last_sent() == before.last_sent(),
        outcome is Queued ==> after.last_sent() == now,
        outcome is Queued && before.state().pending is Some ==> after.state().prev
            == before.state().pending,
        outcome is Queued && before.state().pending is None ==> after.state().prev
            == before.state().prev,
{
}

/// A static screen beats: an empty frame goes out exactly if one was sent before, a
/// second ago or more, and it has that frame's size.
pub proof fn static_screens_beat(state: EncoderState, since: nat, r: Option<FrameDelta>)
    requires
        beats(state, since, r),
    ensures
        r is Some <==> state.prev is Some && since >= 1000000000,
        r matches Some(delta) ==> {
            &&& delta.tiles@.len() == 0
            &&& !delta.keyframe
            &&& delta.tile == 128
            &&& (state.prev->0).0 <= u32::MAX ==> delta.w == (state.prev->0).0
            &&& (state.prev->0).1 <= u32::MAX ==> delta.h == (state.prev->0).1
        },
{
}

/// A frame is malformed exactly if it has no size or fewer than four bytes a pixel.
pub proof fn malformed_frames(w: usize, h: usize, len: nat)
    ensures
        is_malformed(w, h, len) <==> w == 0 || h == 0 || len < 4 * (w * h),
{
}

/// Tiles begin at multiples of 128 pixels, row by row, and have 128 pixels each way but
/// for those that the frame's edge cuts off.
pub proof fn tiles_lie_on_a_grid(w: usize, h: usize, i: nat)
    requires
        i < tile_count(w, h),
        w > 0,
        h > 0,
    ensures
        ({
            let r = tile_rect(w, h, i);
            &&& r.fw == w
            &&& r.x as int % 128 == 0 && r.y as int % 128 == 0
            &&& r.x < w && r.y < h
            &&& r.x + 128 <= w ==> r.w == 128
            &&& r.x + 128 > w ==> r.x + r.w == w
            &&& r.y + 128 <= h ==> r.h == 128
            &&& r.y + 128 > h ==> r.y + r.h == h
            &&& i == (r.y as int / 128) * ((w + 127) / 128) + r.x as int / 128
        }),
{
    assert(w * h * 4 >= 0) by (nonlinear_arith)
        requires
            w > 0,
            h > 0,
    ;
    rect_in_frame(w, h, i, (w * h * 4) as nat);
    let cols = tiles_across(w) as int;
    vstd::arithmetic::div_mod::lemma_fundamental_div_mod(i as int, cols);
    let q = i as int / cols;
    assert(cols * q == q * cols) by (nonlinear_arith);
}

/// The pixels of a tile are packed row by row, each as it stands in the frame.
pub proof fn tile_pixels_are_packed(frame: Seq<u8>, r: TileRect, n: nat, row: int, k: int)
    requires
        r.fits(frame.len()),
        0 <= row < n <= r.h,
        0 <= k < r.w * 4,
    ensures
        tile_rows(frame, r, n).len() == n * (r.w * 4),
        0 <= row * (r.w * 4) + k < n * (r.w * 4),
        tile_rows(frame, r, n)[row * (r.w * 4) + k] == frame[tile_byte(r, row, k / 4, k % 4)],
    decreases n,
{
    let width = r.w * 4;
    tile_rows_len(frame, r, n);
    let m = (n - 1) as nat;
    tile_rows_len(frame, r, m);
    row_in_frame(r, n - 1, frame.len());
    assert(m * width + width == n * width) by (nonlinear_arith)
        requires
            m == n - 1,
    ;
    assert(0 <= row * width) by (nonlinear_arith)
        requires
            0 <= row,
            0 <= width,
    ;
    assert(row * width + width <= n * width) by (nonlinear_arith)
        requires
            row + 1 <= n,
            0 <= width,
    ;
    let start = r.row_start(n - 1);
    let last = frame.subrange(start, start + width);
    if row < n - 1 {
        tile_pixels_are_packed(frame, r, m, row, k);
        assert(tile_rows(frame, r, n)[row * width + k] == tile_rows(frame, r, m)[row * width + k]);
    } else {
        assert(tile_rows(frame, r, n)[row * width + k] == last[k]);
        assert(tile_byte(r, row, k / 4, k % 4) == start + k);
    }
}

/// Whether `frame` is what so many bytes hold of a frame of the given size.
pub open spec fn is_packed(w: int, h: int, data: Seq<u8>, frame: Option<Frame>) -> bool {
    &&& frame is Some == (w > 0 && h > 0 && data.len() >= w * h * 4)
    &&& frame matches Some((fw, fh, pixels)) ==> {
        &&& fw == w
        &&& fh == h
        &&& pixels@ == data.take(w * h * 4)
    }
}

/// A frame is made exactly where it has a size and all its bytes are there; it has that
/// size and four bytes for each pixel, the first ones that came.
pub proof fn packed_frames_hold_their_pixels(w: int, h: int, data: Seq<u8>, frame: Option<Frame>)
    requires
        is_packed(w, h, data, frame),
    ensures
        frame is None <==> w <= 0 || h <= 0 || data.len() < 4 * (w * h),
        frame matches Some(f) ==> {
            &&& f.0 == w && f.1 == h
            &&& f.2@.len() == 4 * (w * h)
            &&& f.2@.is_prefix_of(data)
        },
{
    if w > 0 && h > 0 {
        assert(0 < w * h) by (nonlinear_arith)
            requires
                w > 0,
                h > 0,
        ;
    }
}

/// A number that a field of the wire holds is sent as it is, and 0 in place of any other.
pub proof fn numbers_that_fit_are_sent(n: usize, m: nat)
    ensures
        n < 0x1_0000 ==> as_u16(n) == n,
        n >= 0x1_0000 ==> as_u16(n) == 0,
        m < 0x1_0000_0000 ==> as_u32(m) == m,
        m >= 0x1_0000_0000 ==> as_u32(m) == 0,
{
}

} // verus!
