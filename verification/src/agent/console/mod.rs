//! Physical-console lifecycle support for unattended Ubuntu hosts.
//!
//! The broker and per-session workers use a small state machine to distinguish
//! a reboot from normal ownership transitions such as GDM to GNOME, lock and
//! unlock, and logout.

pub mod broker;
pub mod lightdm;
pub mod state;
pub mod worker;

pub use state::{ConsoleObservation, ConsoleStateMachine};
