//! Slovo agent bridge: the verified core of a desktop shell that talks to a
//! co-located agent process over loopback HTTP.
//!
//! The crate performs no I/O. A transport outside it carries each request and
//! reports what came back; everything the shell decides from that report is
//! decided here, under contracts that Verus checks.

pub mod agent;
pub mod commands;
pub mod error;
pub mod monitor;
pub mod status;
pub mod transport;
pub mod tray;

pub use error::SlovoError;
