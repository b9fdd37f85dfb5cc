//! Non-blocking Unix-domain-socket construction protocol.
//!
//! Every socket built on this library (by connecting, creating a connected
//! pair, binding or accepting) comes out of one run of the [`Setup`] machine:
//! the OS handles are opened, each is switched to non-blocking mode, and only
//! then are they handed to the caller. If any step fails, every handle that was
//! opened is released and the error of that step is returned unchanged.
//!
//! The machine decides; the caller performs the socket calls it asks for and
//! feeds their results back. [`lemmas`] states what holds of whole runs.

pub mod lemmas;
pub mod setup;

pub use setup::{run, Setup, SetupView, Stage, Step};
