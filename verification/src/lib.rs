//! Verified core of RivetLink.

pub mod agent;
pub mod chunks;
pub mod crypto;
pub mod encoding;
pub mod end_to_end;
pub mod framing;
pub mod http;
pub mod json;
pub mod packets;
pub mod sdk;
pub mod text;
pub mod time;
pub mod types;
