//! Mapping of stream seek positions onto the native seek call's numeric
//! `whence` values, and translation of its outcome.

use vstd::prelude::*;
use crate::result::Error;
use crate::status::EINVAL;
use crate::status::to_result_with_errno;

verus! {

/// Seek relative to the start of the file.
pub const SEEK_SET: i32 = 0;
/// Seek relative to the current position.
pub const SEEK_CUR: i32 = 1;
/// Seek relative to the end of the file.
pub const SEEK_END: i32 = 2;

/// A position to seek to within a file, mirroring standard stream
/// semantics: an absolute offset from the start, or a signed offset from
/// the current position or from the end.
#[derive(Clone, Copy, Debug, PartialEq, Eq, Structural)]
pub enum SeekFrom {
    /// An absolute offset from the start of the file.
    Start(u64),
    /// A signed offset from the end of the file.
    End(i64),
    /// A signed offset from the current position.
    Current(i64),
}

/// The `whence` value and signed offset handed to the native seek call for
/// a given position: absolute positions seek from the start, the others
/// from the end or the current position, each with its offset passed
/// through (an absolute offset reinterpreted as the signed offset type, as
/// the native call takes it).
pub fn seek_args(pos: SeekFrom) -> (r: (i32, i64))
    ensures
        match pos {
            SeekFrom::Start(p) => r == (SEEK_SET, p as i64),
            SeekFrom::End(p) => r == (SEEK_END, p),
            SeekFrom::Current(p) => r == (SEEK_CUR, p),
        },
{
    match pos {
        SeekFrom::Start(p) => (SEEK_SET, p as i64),
        SeekFrom::End(p) => (SEEK_END, p),
        SeekFrom::Current(p) => (SEEK_CUR, p),
    }
}

/// The native seek call's outcome translated into the new absolute
/// position: a non-negative result is the position, a negative one an I/O
/// failure with `EINVAL` standing in where the native layer names no cause.
pub fn seek_result(status: i64, last_error: i32) -> (r: Result<i64, Error>)
    ensures
        status >= 0 ==> r == Result::<i64, Error>::Ok(status),
        status < 0 && last_error != 0 ==> r == Result::<i64, Error>::Err(Error::Io(last_error)),
        status < 0 && last_error == 0 ==> r == Result::<i64, Error>::Err(Error::Io(EINVAL)),
{
    to_result_with_errno(status, last_error, EINVAL)
}

} // verus!
