//! The host agent: configuration, trust, sessions, console, capture and input.

pub mod capture;
pub mod cast;
pub mod config;
pub mod console;
pub mod error;
pub mod input;
pub mod keystore;
pub mod lan;
pub mod registration;
pub mod relay;
pub mod runner;
pub mod session;
pub mod trusted;

pub use error::{AgentError, AgentResult};
