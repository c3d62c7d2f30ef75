//! Verified core of a live packet-capture pipeline: a single-producer /
//! single-consumer byte ring shared between two processes, the byte-level
//! logic of inline function diversion, build identification, PE export
//! resolution, the remote-injection protocol, and the controller's session
//! model.

pub mod capture;
pub mod command;
pub mod hooks;
pub mod inject;
pub mod lifecycle;
pub mod opcodes;
pub mod pe;
pub mod process;
pub mod ring;
pub mod state;
pub mod text;
pub mod version;
