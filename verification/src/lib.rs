//! A verified core for a command-line media-player controller.
//!
//! The library decides everything: which running players match the fixed
//! ranking, what each action does to them, how a now-playing line is
//! formatted, how the favorites workflow advances, and which exit code an
//! error carries. The unverified binary around it only talks to the bus and
//! the favorites service, handing plain values in and carrying effects out.

pub mod dispatch;
pub mod error;
pub mod favorites;
pub mod player;
pub mod resolver;
pub mod snapshot;
pub mod status;
