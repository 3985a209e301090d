//! Typed errors for the SMB wrapper.

use vstd::prelude::*;

verus! {

/// The ways an SMB operation can fail. Operation-level failures carry the
/// `errno`-style code reported by the native layer; a path with an embedded
/// NUL byte carries the index of the first NUL.
#[derive(Clone, Copy, Debug, PartialEq, Eq, Structural)]
pub enum Error {
    /// Allocating a fresh native context failed.
    NewContext(i32),
    /// Initializing the configured native context failed.
    InitContext(i32),
    /// The path holds an embedded NUL byte at the given index.
    NulInPath(usize),
    /// A native call failed with the given errno-style code.
    Io(i32),
}

} // verus!
