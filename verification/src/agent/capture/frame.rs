//! A captured frame.

use vstd::prelude::*;

verus! {

/// A single captured frame as raw, owned pixel data plus its dimensions.
#[derive(Debug, Clone)]
pub struct CapturedFrame {
    pub width: u32,
    pub height: u32,
    pub stride: u32,
    /// Pixel data, format depends on the backend (BGRA on Windows etc.).
    pub data: Vec<u8>,
}

} // verus!
