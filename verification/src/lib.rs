//! The launcher shell of the Sumo desktop application, as a verified library.
//!
//! The shell resolves the daemon executable of the running platform, says how
//! the daemon is to be launched, describes the native application menu as a
//! tree of plain values, routes menu events to their handlers and decides, step
//! by step, how startup proceeds. The host program performs what is decided
//! here: it spawns the process and builds the native menu.

pub mod bootstrap;
pub mod daemon;
pub mod menu;
pub mod platform;
pub mod router;
