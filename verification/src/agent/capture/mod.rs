//! Screen capture: what is captured, and how a frame is encoded.

pub mod frame;
pub mod image;
pub mod mutter;
pub mod screencast;
pub mod screenshot;
pub mod x11;

pub use frame::CapturedFrame;
