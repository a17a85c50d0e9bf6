//! Input injection: replay a remote controller's pointer and keyboard events
//! onto the local system.
//!
//! Each backend turns an [`InputAction`] into the calls that it has to make;
//! making them is left to the caller.

pub mod action;
pub mod keys;
pub mod mutter;
pub mod uinput;
pub mod x11;

pub use action::InputAction;
