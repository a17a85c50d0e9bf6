//! High-level client for building support tooling on top of the relay.
//!
//! The server is never a trusted authority. The host decides who connects;
//! session content is end-to-end encrypted and the relay sees only ciphertext.

pub mod client;
pub mod config;
pub mod direct;
pub mod error;
pub mod identity;
pub mod lan;
pub mod rest;
pub mod session;

pub use client::RivetClient;
pub use config::ClientConfig;
pub use error::{SdkError, SdkResult};
pub use identity::Identity;
