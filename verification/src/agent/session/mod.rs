//! Screenshot and console sessions of the host.

pub mod host;
