//! In-memory capture of the local, cookie-authenticated Xorg display.
//!
//! This backend exists for a GDM or desktop worker that is *already running in
//! an X11 graphical session*. What the X server says of its screen, and the
//! image bytes that it gives, are turned into a PNG image here.

use vstd::prelude::*;
use vstd::slice::slice_subrange;
use vstd::string::*;

use super::image;
use super::image::png_encode;
use crate::agent::error;
use crate::agent::error::{config_error, AgentError, AgentErrorView, AgentResult};
use crate::text::joined;

verus! {

broadcast use vstd::std_specs::bits::group_bits_axioms;

/// Never request an implausibly large root image from an X server. This is far
/// above common 4K output while bounding memory if a broken server reports
/// corrupt geometry.
pub const MAX_X11_PIXELS: usize = 33554432;

/// Visual class of a screen whose pixels hold their colour.
pub const TRUE_COLOR: u8 = 4;

/// Visual class of a screen whose pixels hold indices for each colour.
pub const DIRECT_COLOR: u8 = 5;

/// How a screen stores colour: the bits of a pixel that hold each component.
#[derive(Debug, Clone, Copy, PartialEq, Eq, Structural)]
pub struct Visual {
    pub visual_id: u32,
    pub class: u8,
    pub red_mask: u32,
    pub green_mask: u32,
    pub blue_mask: u32,
}

/// The visuals that are there at a depth of one of the screens.
#[derive(Debug)]
pub struct DepthVisuals {
    pub depth: u8,
    pub visuals: Vec<Visual>,
}

/// How pixels of a depth are stored.
#[derive(Debug, Clone, Copy)]
pub struct PixmapFormat {
    pub depth: u8,
    pub bits_per_pixel: u8,
}

/// What the X server says of itself.
#[derive(Debug)]
pub struct X11Setup {
    /// 0 for the least significant byte first.
    pub image_byte_order: u8,
    pub pixmap_formats: Vec<PixmapFormat>,
    /// The depths of every screen, in order.
    pub depths: Vec<DepthVisuals>,
}

/// What is wrong with the geometry of a screen; `None` where there is no screen.
pub open spec fn geometry_fault(geometry: Option<(u16, u16)>) -> Option<AgentErrorView> {
    match geometry {
        None => Some(AgentErrorView::Config("X11 display has no screen"@)),
        Some((width, height)) => if width == 0 || height == 0 {
            Some(AgentErrorView::Config("X11 display has no active monitor geometry"@))
        } else if width * height > MAX_X11_PIXELS {
            Some(AgentErrorView::Config("X11 monitor geometry is too large"@))
        } else {
            None
        },
    }
}

/// The geometry of the screen to capture.
pub fn check_geometry(geometry: Option<(u16, u16)>) -> (r: AgentResult<(u16, u16)>)
    ensures
        error::fails_with(r, geometry_fault(geometry)),
        r matches Ok(size) ==> Some(size) == geometry,
{
    match geometry {
        Some((width, height)) => {
            if width == 0 || height == 0 {
                return Err(config_error("X11 display has no active monitor geometry"));
            }
            assert(width * height <= 65535 * 65535) by (nonlinear_arith)
                requires
                    width <= 65535,
                    height <= 65535,
            ;
            let pixels: u64 = width as u64 * height as u64;
            if pixels > MAX_X11_PIXELS as u64 {
                return Err(config_error("X11 monitor geometry is too large"));
            }
            Ok((width, height))
        },
        None => Err(config_error("X11 display has no screen")),
    }
}

/// The first visual from `from` on that has the given identifier.
pub open spec fn visual_at(visuals: Seq<Visual>, id: u32, from: int) -> Option<Visual>
    decreases visuals.len() - from,
{
    if from < 0 || from >= visuals.len() {
        None
    } else if visuals[from].visual_id == id {
        Some(visuals[from])
    } else {
        visual_at(visuals, id, from + 1)
    }
}

/// The first visual of a depth, from the entry `from` on, that has the given
/// identifier.
pub open spec fn root_visual(depths: Seq<DepthVisuals>, depth: u8, id: u32, from: int) -> Option<
    Visual,
>
    decreases depths.len() - from,
{
    if from < 0 || from >= depths.len() {
        None
    } else if depths[from].depth == depth && visual_at(depths[from].visuals@, id, 0) is Some {
        visual_at(depths[from].visuals@, id, 0)
    } else {
        root_visual(depths, depth, id, from + 1)
    }
}

fn find_visual(visuals: &Vec<Visual>, id: u32) -> (found: Option<Visual>)
    ensures
        found == visual_at(visuals@, id, 0),
{
    let mut i: usize = 0;
    while i < visuals.len()
        invariant
            i <= visuals@.len(),
            visual_at(visuals@, id, 0) == visual_at(visuals@, id, i as int),
        decreases visuals@.len() - i,
    {
        if visuals[i].visual_id == id {
            return Some(visuals[i]);
        }
        i = i + 1;
    }
    None
}

/// The visual of the root window.
pub fn visual_for_root(setup: &X11Setup, depth: u8, visual: u32) -> (r: AgentResult<Visual>)
    ensures
        error::fails_with(
            r,
            if root_visual(setup.depths@, depth, visual, 0) is Some {
                None
            } else {
                Some(AgentErrorView::Config("X11 root visual is unavailable"@))
            },
        ),
        r matches Ok(v) ==> Some(v) == root_visual(setup.depths@, depth, visual, 0),
{
    let mut i: usize = 0;
    while i < setup.depths.len()
        invariant
            i <= setup.depths@.len(),
            root_visual(setup.depths@, depth, visual, 0) == root_visual(
                setup.depths@,
                depth,
                visual,
                i as int,
            ),
        decreases setup.depths@.len() - i,
    {
        if setup.depths[i].depth == depth {
            if let Some(found) = find_visual(&setup.depths[i].visuals, visual) {
                return Ok(found);
            }
        }
        i = i + 1;
    }
    Err(config_error("X11 root visual is unavailable"))
}

/// Bits of a pixel at the given depth, by the first format from `from` on.
pub open spec fn pixel_bits(formats: Seq<PixmapFormat>, depth: u8, from: int) -> Option<u8>
    decreases formats.len() - from,
{
    if from < 0 || from >= formats.len() {
        None
    } else if formats[from].depth == depth {
        Some(formats[from].bits_per_pixel)
    } else {
        pixel_bits(formats, depth, from + 1)
    }
}

fn find_pixel_bits(formats: &Vec<PixmapFormat>, depth: u8) -> (bits: Option<u8>)
    ensures
        bits == pixel_bits(formats@, depth, 0),
{
    let mut i: usize = 0;
    while i < formats.len()
        invariant
            i <= formats@.len(),
            pixel_bits(formats@, depth, 0) == pixel_bits(formats@, depth, i as int),
        decreases formats@.len() - i,
    {
        if formats[i].depth == depth {
            return Some(formats[i].bits_per_pixel);
        }
        i = i + 1;
    }
    None
}

/// The number that bytes stand for, the least significant one first.
pub open spec fn le_value(bytes: Seq<u8>) -> nat
    decreases bytes.len(),
{
    if bytes.len() == 0 {
        0
    } else {
        bytes[0] as nat + 256 * le_value(bytes.drop_first())
    }
}

/// The number that bytes stand for, the most significant one first.
pub open spec fn be_value(bytes: Seq<u8>) -> nat
    decreases bytes.len(),
{
    if bytes.len() == 0 {
        0
    } else {
        256 * be_value(bytes.drop_last()) + bytes.last() as nat
    }
}

/// The number that the bytes of a pixel stand for.
pub open spec fn pixel_value(bytes: Seq<u8>, image_byte_order: u8) -> nat {
    if image_byte_order == 0 {
        le_value(bytes)
    } else {
        be_value(bytes)
    }
}

/// 256 to the power of `n`.
spec fn bound(n: nat) -> nat
    decreases n,
{
    if n == 0 {
        1
    } else {
        256 * bound((n - 1) as nat)
    }
}

/// The number that the bytes of a pixel stand for.
pub fn read_pixel(bytes: &[u8], image_byte_order: u8) -> (value: u32)
    requires
        bytes@.len() <= 4,
    ensures
        value == pixel_value(bytes@, image_byte_order),
{
    proof {
        reveal_with_fuel(bound, 5);
    }
    let n: usize = bytes.len();
    let mut value: u64 = 0;
    let mut i: usize = 0;
    if image_byte_order == 0 {
        assert(bytes@.skip(n as int) =~= Seq::empty());
        while i < n
            invariant
                i <= n,
                n == bytes@.len(),
                n <= 4,
                value == le_value(bytes@.skip(n - i)),
                value < bound(i as nat),
                bound(1) == 256,
                bound(2) == 65536,
                bound(3) == 16777216,
                bound(4) == 4294967296,
                bound(0) == 1,
            decreases n - i,
        {
            let at: usize = n - 1 - i;
            proof {
                let rest = bytes@.skip(at as int);
                assert(rest.drop_first() =~= bytes@.skip(n - i));
                assert(bound((i + 1) as nat) == 256 * bound(i as nat));
            }
            value = value * 256 + bytes[at] as u64;
            i = i + 1;
        }
        assert(bytes@.skip(0) =~= bytes@);
    } else {
        assert(bytes@.take(0) =~= Seq::empty());
        while i < n
            invariant
                i <= n,
                n == bytes@.len(),
                n <= 4,
                value == be_value(bytes@.take(i as int)),
                value < bound(i as nat),
                bound(1) == 256,
                bound(2) == 65536,
                bound(3) == 16777216,
                bound(4) == 4294967296,
                bound(0) == 1,
            decreases n - i,
        {
            proof {
                let taken = bytes@.take(i as int + 1);
                assert(taken.drop_last() =~= bytes@.take(i as int));
                assert(bound((i + 1) as nat) == 256 * bound(i as nat));
            }
            value = value * 256 + bytes[i] as u64;
            i = i + 1;
        }
        assert(bytes@.take(n as int) =~= bytes@);
    }
    value as u32
}

/// A colour component of a pixel, scaled to a byte: the bits under the mask, as
/// a part of the greatest number that they can hold.
pub open spec fn scaled_component(pixel: u32, mask: u32) -> u8 {
    if mask == 0 {
        0
    } else {
        let shift = vstd::std_specs::bits::u32_trailing_zeros(mask);
        let maximum = mask >> shift;
        let value = (pixel & mask) >> shift;
        let product = if value * 255 <= u32::MAX {
            value * 255
        } else {
            u32::MAX as int
        };
        let scaled = product / maximum as int;
        if scaled <= 255 {
            scaled as u8
        } else {
            255
        }
    }
}

/// A colour component of a pixel, scaled to a byte.
pub fn component(pixel: u32, mask: u32) -> (c: u8)
    ensures
        c == scaled_component(pixel, mask),
{
    if mask == 0 {
        return 0;
    }
    let shift: u32 = mask.trailing_zeros();
    proof {
        vstd::std_specs::bits::axiom_u32_trailing_zeros(mask);
        let m = mask >> shift;
        assert(m & 1 == 1 ==> m != 0) by (bit_vector);
    }
    let maximum: u32 = mask >> shift;
    let value: u32 = (pixel & mask) >> shift;
    let wide: u64 = value as u64 * 255;
    let product: u32 = if wide <= u32::MAX as u64 {
        wide as u32
    } else {
        u32::MAX
    };
    let scaled: u32 = product / maximum;
    if scaled <= 255 {
        scaled as u8
    } else {
        255
    }
}

/// A component is 0 where none of its bits are set, and 255 where all are.
pub proof fn component_spans_a_byte(pixel: u32, mask: u32)
    requires
        mask != 0,
    ensures
        pixel & mask == 0 ==> scaled_component(pixel, mask) == 0,
        pixel & mask == mask && mask >> vstd::std_specs::bits::u32_trailing_zeros(mask) <= 0xffffff
            ==> scaled_component(pixel, mask) == 255,
{
    let shift = vstd::std_specs::bits::u32_trailing_zeros(mask);
    vstd::std_specs::bits::axiom_u32_trailing_zeros(mask);
    let m = mask >> shift;
    assert(m & 1 == 1 ==> m != 0) by (bit_vector);
    assert(0u32 >> shift == 0) by (bit_vector);
    if pixel & mask == 0 {
        assert(0int / (m as int) == 0) by (nonlinear_arith)
            requires
                m > 0,
        ;
    }
    if m <= 0xffffff {
        assert((m as int * 255) / (m as int) == 255) by (nonlinear_arith)
            requires
                m > 0,
        ;
    }
}

/// Bytes of a pixel with so many bits.
pub open spec fn bytes_per_pixel(bits_per_pixel: u8) -> nat {
    ((bits_per_pixel + 7) / 8) as nat
}

/// What is wrong with the bytes of an image.
pub open spec fn decode_fault(len: nat, width: usize, height: usize, bits_per_pixel: u8) -> Option<
    AgentErrorView,
> {
    let bpp = bytes_per_pixel(bits_per_pixel);
    if !(1 <= bpp <= 4) {
        Some(AgentErrorView::Config("unsupported X11 root pixel format"@))
    } else if height == 0 || len % (height as nat) != 0 || len / (height as nat) < width * bpp {
        Some(AgentErrorView::Config("invalid X11 image stride"@))
    } else if width * height * 4 > usize::MAX {
        Some(AgentErrorView::Config("X11 image dimensions are too large"@))
    } else {
        None
    }
}

/// The RGBA bytes of a pixel.
pub open spec fn rgba_of(value: u32, visual: Visual) -> Seq<u8> {
    seq![
        scaled_component(value, visual.red_mask),
        scaled_component(value, visual.green_mask),
        scaled_component(value, visual.blue_mask),
        255u8,
    ]
}

/// The RGBA bytes of the first `n` pixels of the row that begins at `start`.
pub open spec fn decoded_row(
    bytes: Seq<u8>,
    start: int,
    bpp: nat,
    order: u8,
    visual: Visual,
    n: nat,
) -> Seq<u8>
    decreases n,
{
    if n == 0 {
        Seq::empty()
    } else {
        let at = start + (n - 1) * bpp;
        decoded_row(bytes, start, bpp, order, visual, (n - 1) as nat) + rgba_of(
            pixel_value(bytes.subrange(at, at + bpp), order) as u32,
            visual,
        )
    }
}

/// The RGBA bytes of the first `n` rows.
pub open spec fn decoded_rows(
    bytes: Seq<u8>,
    stride: nat,
    width: nat,
    bpp: nat,
    order: u8,
    visual: Visual,
    n: nat,
) -> Seq<u8>
    decreases n,
{
    if n == 0 {
        Seq::empty()
    } else {
        decoded_rows(bytes, stride, width, bpp, order, visual, (n - 1) as nat) + decoded_row(
            bytes,
            (n - 1) * stride,
            bpp,
            order,
            visual,
            width,
        )
    }
}

/// The RGBA bytes of an image: row by row, without the padding behind a row.
pub open spec fn decoded_image(
    bytes: Seq<u8>,
    width: usize,
    height: usize,
    bits_per_pixel: u8,
    order: u8,
    visual: Visual,
) -> Seq<u8> {
    decoded_rows(
        bytes,
        bytes.len() / (height as nat),
        width as nat,
        bytes_per_pixel(bits_per_pixel),
        order,
        visual,
        height as nat,
    )
}

proof fn decoded_row_len(bytes: Seq<u8>, start: int, bpp: nat, order: u8, visual: Visual, n: nat)
    ensures
        decoded_row(bytes, start, bpp, order, visual, n).len() == 4 * n,
    decreases n,
{
    if n > 0 {
        decoded_row_len(bytes, start, bpp, order, visual, (n - 1) as nat);
    }
}

proof fn decoded_rows_len(
    bytes: Seq<u8>,
    stride: nat,
    width: nat,
    bpp: nat,
    order: u8,
    visual: Visual,
    n: nat,
)
    ensures
        decoded_rows(bytes, stride, width, bpp, order, visual, n).len() == n * (4 * width),
    decreases n,
{
    if n > 0 {
        decoded_rows_len(bytes, stride, width, bpp, order, visual, (n - 1) as nat);
        decoded_row_len(bytes, (n - 1) * stride, bpp, order, visual, width);
        let row = (4 * width) as int;
        assert((n - 1) * row + row == n * row) by (nonlinear_arith);
    } else {
        assert(0 * (4 * width) == 0);
    }
}

/// A decoded image has four bytes for each pixel.
pub proof fn decoded_image_is_whole(
    bytes: Seq<u8>,
    width: usize,
    height: usize,
    bits_per_pixel: u8,
    order: u8,
    visual: Visual,
)
    ensures
        decoded_image(bytes, width, height, bits_per_pixel, order, visual).len() == width * height
            * 4,
{
    decoded_rows_len(
        bytes,
        bytes.len() / (height as nat),
        width as nat,
        bytes_per_pixel(bits_per_pixel),
        order,
        visual,
        height as nat,
    );
    let (w, h) = (width as int, height as int);
    assert(h * (4 * w) == w * h * 4) by (nonlinear_arith);
}

fn push_row(
    rgba: &mut Vec<u8>,
    bytes: &[u8],
    start: usize,
    width: usize,
    bpp: usize,
    order: u8,
    visual: &Visual,
)
    requires
        1 <= bpp <= 4,
        start + width * bpp <= bytes@.len(),
    ensures
        final(rgba)@ == old(rgba)@ + decoded_row(
            bytes@,
            start as int,
            bpp as nat,
            order,
            *visual,
            width as nat,
        ),
{
    let ghost before = rgba@;
    let _len: usize = bytes.len();
    let mut at: usize = start;
    let mut col: usize = 0;
    proof {
        assert(0 * (bpp as int) == 0);
        assert(before + Seq::empty() =~= before);
    }
    while col < width
        invariant
            col <= width,
            1 <= bpp <= 4,
            start + width * bpp <= bytes@.len(),
            bytes@.len() <= usize::MAX,
            at == start + col * bpp,
            rgba@ == before + decoded_row(
                bytes@,
                start as int,
                bpp as nat,
                order,
                *visual,
                col as nat,
            ),
        decreases width - col,
    {
        proof {
            let (c, w, b) = (col as int, width as int, bpp as int);
            assert(c * b + b <= w * b) by (nonlinear_arith)
                requires
                    c + 1 <= w,
                    b >= 0,
            ;
            assert((c + 1) * b == c * b + b) by (nonlinear_arith);
        }
        let pixel = slice_subrange(bytes, at, at + bpp);
        let value: u32 = read_pixel(pixel, order);
        let ghost sofar = decoded_row(
            bytes@,
            start as int,
            bpp as nat,
            order,
            *visual,
            col as nat,
        );
        rgba.push(component(value, visual.red_mask));
        rgba.push(component(value, visual.green_mask));
        rgba.push(component(value, visual.blue_mask));
        rgba.push(255);
        proof {
            assert(pixel@ == bytes@.subrange(at as int, at + bpp));
            assert(rgba@ =~= before + (sofar + rgba_of(value, *visual)));
        }
        col = col + 1;
        at = at + bpp;
    }
}

/// Decode a ZPixmap image using its server byte order and colour masks. The
/// output is tightly packed RGBA and never leaves process memory.
pub fn decode_root_image(
    bytes: &[u8],
    width: usize,
    height: usize,
    bits_per_pixel: u8,
    image_byte_order: u8,
    visual: &Visual,
) -> (r: AgentResult<Vec<u8>>)
    requires
        decode_fault(bytes@.len(), width, height, bits_per_pixel) is None ==> (width > 0
            || bytes@.len() > 0) && width * height * 4 <= isize::MAX,
    ensures
        error::fails_with(r, decode_fault(bytes@.len(), width, height, bits_per_pixel)),
        r matches Ok(rgba) ==> {
            &&& rgba@ == decoded_image(
                bytes@,
                width,
                height,
                bits_per_pixel,
                image_byte_order,
                *visual,
            )
            &&& rgba@.len() == width * height * 4
        },
{
    let bpp: usize = (bits_per_pixel as usize + 7) / 8;
    if bpp < 1 || bpp > 4 {
        return Err(config_error("unsupported X11 root pixel format"));
    }
    if height == 0 || bytes.len() % height != 0 {
        return Err(config_error("invalid X11 image stride"));
    }
    let stride: usize = bytes.len() / height;
    proof {
        let (w, b) = (width as int, bpp as int);
        assert(0 <= w * b <= usize::MAX * 4) by (nonlinear_arith)
            requires
                0 <= w <= usize::MAX,
                1 <= b <= 4,
        ;
    }
    if (stride as u128) < width as u128 * bpp as u128 {
        return Err(config_error("invalid X11 image stride"));
    }
    proof {
        let (w, h) = (width as int, height as int);
        assert(0 <= w * h) by (nonlinear_arith)
            requires
                0 <= w,
                0 <= h,
        ;
    }
    match width.checked_mul(height) {
        Some(pixels) => {
            if pixels.checked_mul(4).is_none() {
                return Err(config_error("X11 image dimensions are too large"));
            }
        },
        None => {
            return Err(config_error("X11 image dimensions are too large"));
        },
    }
    let mut rgba: Vec<u8> = Vec::new();
    let mut row: usize = 0;
    let mut start: usize = 0;
    let ghost total = bytes@.len() as int;
    proof {
        let (s, h) = (stride as int, height as int);
        assert(total / h * h == total - total % h) by (nonlinear_arith)
            requires
                h > 0,
        ;
        assert(s * h == total);
        assert(h * s == s * h) by (nonlinear_arith);
        assert(0 * s == 0);
    }
    while row < height
        invariant
            row <= height,
            1 <= bpp <= 4,
            stride >= width * bpp,
            height * stride == bytes@.len(),
            start == row * stride,
            bytes@.len() <= usize::MAX,
            rgba@ == decoded_rows(
                bytes@,
                stride as nat,
                width as nat,
                bpp as nat,
                image_byte_order,
                *visual,
                row as nat,
            ),
        decreases height - row,
    {
        proof {
            let (i, s, h) = (row as int, stride as int, height as int);
            assert(i * s + s <= h * s) by (nonlinear_arith)
                requires
                    i + 1 <= h,
                    s >= 0,
            ;
            assert((i + 1) * s == i * s + s) by (nonlinear_arith);
        }
        push_row(&mut rgba, bytes, start, width, bpp, image_byte_order, visual);
        row = row + 1;
        start = start + stride;
    }
    proof {
        decoded_image_is_whole(bytes@, width, height, bits_per_pixel, image_byte_order, *visual);
    }
    Ok(rgba)
}

/// What is wrong with RGBA bytes that should be an image.
pub open spec fn rgba_fault(width: u32, height: u32, len: nat) -> Option<AgentErrorView> {
    match image::png_fault(width, height, len) {
        Some((true, fault)) => Some(AgentErrorView::Config("encode X11 PNG header: "@ + fault)),
        Some((false, fault)) => Some(AgentErrorView::Config("encode X11 PNG data: "@ + fault)),
        None => None,
    }
}

/// The PNG image of tightly packed RGBA pixels.
pub fn encode_rgba_png(width: u32, height: u32, rgba: &[u8]) -> (r: AgentResult<Vec<u8>>)
    requires
        width * height * 4 <= isize::MAX,
    ensures
        error::fails_with(r, rgba_fault(width, height, rgba@.len())),
        r matches Ok(png) ==> png@ == image::png_image(width, height, rgba@),
{
    match png_encode(width, height, rgba) {
        Ok(png) => Ok(png),
        Err((true, fault)) => Err(
            AgentError::Config(joined("encode X11 PNG header: ", fault.as_str())),
        ),
        Err((false, fault)) => Err(
            AgentError::Config(joined("encode X11 PNG data: ", fault.as_str())),
        ),
    }
}

/// What is wrong with the root image that the X server gave.
pub open spec fn root_fault(
    setup: X11Setup,
    depth: u8,
    visual: u32,
    width: u16,
    height: u16,
    len: nat,
) -> Option<AgentErrorView> {
    match root_visual(setup.depths@, depth, visual, 0) {
        None => Some(AgentErrorView::Config("X11 root visual is unavailable"@)),
        Some(found) => if found.class != TRUE_COLOR && found.class != DIRECT_COLOR {
            Some(AgentErrorView::Config("unsupported X11 root visual class"@))
        } else {
            match pixel_bits(setup.pixmap_formats@, depth, 0) {
                None => Some(AgentErrorView::Config("X11 root pixel format is unavailable"@)),
                Some(bits) => decode_fault(len, width as usize, height as usize, bits),
            }
        },
    }
}

/// Encode the root image that the X server gave, for a screen whose geometry
/// was checked.
pub fn capture_png(
    setup: &X11Setup,
    depth: u8,
    visual: u32,
    width: u16,
    height: u16,
    bytes: &[u8],
) -> (r: AgentResult<Vec<u8>>)
    requires
        geometry_fault(Some((width, height))) is None,
    ensures
        error::fails_with(r, root_fault(*setup, depth, visual, width, height, bytes@.len())),
        r matches Ok(png) ==> png@ == image::png_image(
            width as u32,
            height as u32,
            decoded_image(
                bytes@,
                width as usize,
                height as usize,
                pixel_bits(setup.pixmap_formats@, depth, 0)->0,
                setup.image_byte_order,
                root_visual(setup.depths@, depth, visual, 0)->0,
            ),
        ),
{
    let found = match visual_for_root(setup, depth, visual) {
        Ok(found) => found,
        Err(e) => {
            return Err(e);
        },
    };
    if found.class != TRUE_COLOR && found.class != DIRECT_COLOR {
        return Err(config_error("unsupported X11 root visual class"));
    }
    let bits = match find_pixel_bits(&setup.pixmap_formats, depth) {
        Some(bits) => bits,
        None => {
            return Err(config_error("X11 root pixel format is unavailable"));
        },
    };
    match decode_root_image(
        bytes,
        width as usize,
        height as usize,
        bits,
        setup.image_byte_order,
        &found,
    ) {
        Ok(rgba) => encode_rgba_png(width as u32, height as u32, rgba.as_slice()),
        Err(e) => Err(e),
    }
}

/// A screen is captured exactly if there is one, it has a size, and it has at most 2^25
/// pixels.
pub proof fn plausible_screens_are_captured(geometry: Option<(u16, u16)>)
    ensures
        geometry_fault(geometry) is None <==> (geometry matches Some((width, height)) && width > 0
            && height > 0 && width * height <= 32 * 1024 * 1024),
{
}

/// The visual of an identifier is the first one that has it.
pub proof fn first_visual_with_the_id(visuals: Seq<Visual>, id: u32, from: int)
    requires
        0 <= from <= visuals.len(),
    ensures
        visual_at(visuals, id, from) is None <==> forall|j: int|
            from <= j < visuals.len() ==> (#[trigger] visuals[j]).visual_id != id,
        visual_at(visuals, id, from) matches Some(v) ==> v.visual_id == id && visuals.contains(v),
    decreases visuals.len() - from,
{
    if from < visuals.len() {
        if visuals[from].visual_id == id {
            assert(visuals[from].visual_id == id);
            assert(visuals.contains(visuals[from]));
        } else {
            first_visual_with_the_id(visuals, id, from + 1);
        }
    }
}

/// The root visual is one of the wanted depth with the wanted identifier, and is found
/// if there is one.
pub proof fn root_visual_has_depth_and_id(
    depths: Seq<DepthVisuals>,
    depth: u8,
    id: u32,
    from: int,
)
    requires
        0 <= from <= depths.len(),
    ensures
        root_visual(depths, depth, id, from) matches Some(v) ==> v.visual_id == id && exists|i: int|
            from <= i < depths.len() && (#[trigger] depths[i]).depth == depth
                && depths[i].visuals@.contains(v),
        root_visual(depths, depth, id, from) is None ==> forall|i: int, j: int|
            from <= i < depths.len() && (#[trigger] depths[i]).depth == depth && 0 <= j
                < depths[i].visuals@.len() ==> (#[trigger] depths[i].visuals@[j]).visual_id != id,
    decreases depths.len() - from,
{
    if from < depths.len() {
        first_visual_with_the_id(depths[from].visuals@, id, 0);
        if !(depths[from].depth == depth && visual_at(depths[from].visuals@, id, 0) is Some) {
            root_visual_has_depth_and_id(depths, depth, id, from + 1);
            if root_visual(depths, depth, id, from) is None {
                assert forall|i: int, j: int|
                    from <= i < depths.len() && (#[trigger] depths[i]).depth == depth && 0 <= j
                        < depths[i].visuals@.len() implies (
                #[trigger] depths[i].visuals@[j]).visual_id != id by {
                    if i == from {
                        assert(visual_at(depths[from].visuals@, id, 0) is None);
                    }
                }
            }
        } else {
            assert(depths[from].depth == depth);
        }
    }
}

/// A depth has the bits of the first format that is of it.
pub proof fn first_format_of_the_depth(formats: Seq<PixmapFormat>, depth: u8, i: int, from: int)
    requires
        0 <= from <= i <= formats.len(),
        forall|j: int| from <= j < i ==> (#[trigger] formats[j]).depth != depth,
        i < formats.len() ==> formats[i].depth == depth,
    ensures
        i < formats.len() ==> pixel_bits(formats, depth, from) == Some(formats[i].bits_per_pixel),
        i == formats.len() ==> pixel_bits(formats, depth, from) is None,
    decreases i - from,
{
    if from < i {
        assert(formats[from].depth != depth);
        first_format_of_the_depth(formats, depth, i, from + 1);
    }
}

/// The four bytes of a pixel stand for a number by their order: with order 0 the first
/// byte counts least, with any other the last does.
pub proof fn byte_order_decides(a: u8, b: u8, c: u8, d: u8, order: u8)
    ensures
        pixel_value(seq![a, b, c, d], order) == (if order == 0 {
            a + 256 * b + 65536 * c + 16777216 * d
        } else {
            16777216 * a + 65536 * b + 256 * c + d
        }),
        pixel_value(seq![a, b, c], order) == (if order == 0 {
            a + 256 * b + 65536 * c
        } else {
            65536 * a + 256 * b + c
        }),
        pixel_value(seq![a, b], order) == (if order == 0 {
            a + 256 * b
        } else {
            256 * a + b
        }),
        pixel_value(seq![a], order) == a,
{
    reveal_with_fuel(le_value, 5);
    reveal_with_fuel(be_value, 5);
    assert(seq![a, b, c, d].drop_first() =~= seq![b, c, d]);
    assert(seq![b, c, d].drop_first() =~= seq![c, d]);
    assert(seq![c, d].drop_first() =~= seq![d]);
    assert(seq![d].drop_first() =~= Seq::empty());
    assert(seq![a, b, c].drop_first() =~= seq![b, c]);
    assert(seq![b, c].drop_first() =~= seq![c]);
    assert(seq![c].drop_first() =~= Seq::empty());
    assert(seq![a, b].drop_first() =~= seq![b]);
    assert(seq![b].drop_first() =~= Seq::empty());
    assert(seq![a].drop_first() =~= Seq::empty());
    assert(seq![a, b, c, d].drop_last() =~= seq![a, b, c]);
    assert(seq![a, b, c].drop_last() =~= seq![a, b]);
    assert(seq![a, b].drop_last() =~= seq![a]);
    assert(seq![a].drop_last() =~= Seq::empty());
}

/// A component is its part of a byte: to 255 as the bits under the mask are to the
/// greatest number that they can hold, rounded down. One of eight bits is kept as it is;
/// one without bits is zero.
pub proof fn components_keep_proportion(pixel: u32, mask: u32)
    ensures
        mask != 0 && mask >> vstd::std_specs::bits::u32_trailing_zeros(mask) <= 0xffffff ==> ({
            let shift = vstd::std_specs::bits::u32_trailing_zeros(mask);
            let c = scaled_component(pixel, mask);
            c * (mask >> shift) <= ((pixel & mask) >> shift) * 255 < (c + 1) * (mask >> shift)
        }),
        mask == 0 ==> scaled_component(pixel, mask) == 0,
        mask != 0 && mask >> vstd::std_specs::bits::u32_trailing_zeros(mask) == 0xff
            ==> scaled_component(pixel, mask) == (pixel & mask)
            >> vstd::std_specs::bits::u32_trailing_zeros(mask),
{
    if mask != 0 {
        let shift = vstd::std_specs::bits::u32_trailing_zeros(mask);
        vstd::std_specs::bits::axiom_u32_trailing_zeros(mask);
        let value = (pixel & mask) >> shift;
        assert(value <= mask >> shift) by (bit_vector)
            requires
                value == (pixel & mask) >> shift,
        ;
        let m = mask >> shift;
        assert(m & 1 == 1 ==> m != 0) by (bit_vector);
        if m <= 0xffffff {
            let c = value * 255 / m as int;
            assert(c * m <= value * 255 < (c + 1) * m && c <= 255) by (nonlinear_arith)
                requires
                    0 <= value <= m,
                    m > 0,
                    c == value * 255 / m as int,
            ;
        }
        if m == 0xff {
            assert(value * 255 / 255 == value);
        }
    }
}

/// Image bytes are decoded exactly if a pixel has one to four of them, the rows are of
/// one length and long enough, and the result can be held.
pub proof fn whole_images_are_decoded(len: nat, width: usize, height: usize, bits_per_pixel: u8)
    ensures
        decode_fault(len, width, height, bits_per_pixel) is None <==> {
            &&& 1 <= bits_per_pixel <= 32
            &&& height > 0
            &&& len % (height as nat) == 0
            &&& len / (height as nat) >= width * ((bits_per_pixel + 7) / 8)
            &&& width * height * 4 <= usize::MAX
        },
{
}

proof fn row_holds_pixels(
    bytes: Seq<u8>,
    start: int,
    bpp: nat,
    order: u8,
    visual: Visual,
    n: nat,
    col: int,
    c: int,
)
    requires
        0 <= col < n,
        0 <= c < 4,
    ensures
        decoded_row(bytes, start, bpp, order, visual, n)[4 * col + c] == rgba_of(
            pixel_value(
                bytes.subrange(start + col * bpp, start + col * bpp + bpp),
                order,
            ) as u32,
            visual,
        )[c],
    decreases n,
{
    let m = (n - 1) as nat;
    decoded_row_len(bytes, start, bpp, order, visual, m);
    if col < m {
        row_holds_pixels(bytes, start, bpp, order, visual, m, col, c);
    }
}

proof fn rows_hold_rows(
    bytes: Seq<u8>,
    stride: nat,
    width: nat,
    bpp: nat,
    order: u8,
    visual: Visual,
    n: nat,
    row: int,
    k: int,
)
    requires
        0 <= row < n,
        0 <= k < 4 * width,
    ensures
        0 <= row * (4 * width) + k < decoded_rows(
            bytes,
            stride,
            width,
            bpp,
            order,
            visual,
            n,
        ).len(),
        decoded_rows(bytes, stride, width, bpp, order, visual, n)[row * (4 * width) + k]
            == decoded_row(bytes, row * stride, bpp, order, visual, width)[k],
    decreases n,
{
    let m = (n - 1) as nat;
    let line = (4 * width) as int;
    decoded_rows_len(bytes, stride, width, bpp, order, visual, n);
    decoded_rows_len(bytes, stride, width, bpp, order, visual, m);
    decoded_row_len(bytes, (m * stride) as int, bpp, order, visual, width);
    assert(0 <= row * line && row * line + line <= n * line) by (nonlinear_arith)
        requires
            0 <= row,
            row + 1 <= n,
            0 <= line,
    ;
    if row < m {
        rows_hold_rows(bytes, stride, width, bpp, order, visual, m, row, k);
    } else {
        assert(row * line == m * line);
    }
}

/// Each pixel of a decoded image is read from its own place: its row begins at a multiple
/// of the stride, its bytes at a multiple of a pixel's. Red, green and blue come from
/// under their masks, and every pixel is opaque.
pub proof fn pixels_are_read_from_their_place(
    bytes: Seq<u8>,
    width: usize,
    height: usize,
    bits_per_pixel: u8,
    order: u8,
    visual: Visual,
    row: int,
    col: int,
)
    requires
        0 <= row < height,
        0 <= col < width,
    ensures
        ({
            let image = decoded_image(bytes, width, height, bits_per_pixel, order, visual);
            let bpp = (bits_per_pixel + 7) / 8;
            let at = row * (bytes.len() / (height as nat)) + col * bpp;
            let value = pixel_value(bytes.subrange(at, at + bpp), order) as u32;
            let first = row * (4 * width) + 4 * col;
            &&& image[first] == scaled_component(value, visual.red_mask)
            &&& image[first + 1] == scaled_component(value, visual.green_mask)
            &&& image[first + 2] == scaled_component(value, visual.blue_mask)
            &&& image[first + 3] == 255
        }),
{
    let stride = bytes.len() / (height as nat);
    let bpp = bytes_per_pixel(bits_per_pixel);
    let w = width as nat;
    let h = height as nat;
    rows_hold_rows(bytes, stride, w, bpp, order, visual, h, row, 4 * col);
    rows_hold_rows(bytes, stride, w, bpp, order, visual, h, row, 4 * col + 1);
    rows_hold_rows(bytes, stride, w, bpp, order, visual, h, row, 4 * col + 2);
    rows_hold_rows(bytes, stride, w, bpp, order, visual, h, row, 4 * col + 3);
    let start = row * stride;
    row_holds_pixels(bytes, start, bpp, order, visual, w, col, 0);
    row_holds_pixels(bytes, start, bpp, order, visual, w, col, 1);
    row_holds_pixels(bytes, start, bpp, order, visual, w, col, 2);
    row_holds_pixels(bytes, start, bpp, order, visual, w, col, 3);
}

/// A root image is captured exactly if its visual is there and holds colours in the
/// pixel, its pixel format is known, and the bytes are a whole image.
pub proof fn true_colour_roots_are_captured(
    setup: X11Setup,
    depth: u8,
    visual: u32,
    width: u16,
    height: u16,
    len: nat,
)
    ensures
        root_fault(setup, depth, visual, width, height, len) is None <==> {
            &&& root_visual(setup.depths@, depth, visual, 0) matches Some(found)
            &&& found.class == 4 || found.class == 5
            &&& pixel_bits(setup.pixmap_formats@, depth, 0) matches Some(bits)
            &&& decode_fault(len, width as usize, height as usize, bits) is None
        },
{
}

/// Pixels make a PNG image exactly if it has a size and there are four bytes for each.
pub proof fn png_images_have_all_their_pixels(width: u32, height: u32, len: nat)
    ensures
        rgba_fault(width, height, len) is None <==> width > 0 && height > 0 && len == width * height
            * 4,
{
    assert(width * height * 4 >= 0) by (nonlinear_arith)
        requires
            width >= 0,
            height >= 0,
    ;
}

} // verus!
