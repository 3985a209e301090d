//! The verified core of a `std::fs`-like wrapper for SMB/CIFS shares.
//!
//! The SMB/CIFS protocol itself lives in a native client library reached
//! over an FFI boundary; this crate holds every decision the wrapper takes
//! around that boundary, each with a contract checked by Verus:
//!
//! * [`options`] — open-option building and its translation into
//!   POSIX-style open flags;
//! * [`path`] — rejection of paths with embedded NUL bytes, and their
//!   conversion into null-terminated byte strings;
//! * [`cred`] — credential forwarding, the default credential substituted
//!   when user authentication logic fails, and bounded, null-terminated
//!   filling of the native answer buffers;
//! * [`status`] — translation of signed statuses, null pointers and missing
//!   function pointers into typed results;
//! * [`seek`] — mapping of stream positions onto the native seek call;
//! * [`session`] — the construction and close protocols as state machines
//!   driven by the unverified shell;
//! * [`result`] — the error taxonomy.

pub mod cred;
pub mod options;
pub mod path;
pub mod result;
pub mod seek;
pub mod session;
pub mod status;
