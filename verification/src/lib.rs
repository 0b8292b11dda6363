//! Core of a small FTP server: command parsing, reply encoding, sandboxed
//! path resolution, the per-session state machine, passive-mode data-channel
//! bookkeeping, and directory-listing formatting.
//!
//! Everything here is pure logic over plain values. The thin adapter that
//! owns the sockets and queries the filesystem drives these functions and
//! performs the I/O they decide on.

pub mod ascii;
pub mod command;
pub mod line_reader;
pub mod listing;
pub mod path;
pub mod reply;
pub mod session;

pub use ascii::to_uppercase;
pub use command::Command;
pub use reply::ResultCode;
