//! Translation of the native layer's raw outcomes — signed status values,
//! nullable pointers, possibly missing function pointers — into a typed
//! result. Negative statuses and null pointers are failures; the `errno`
//! style code observed right after the call names the cause.

use vstd::prelude::*;
use crate::result::Error;

verus! {

/// The fallback errno-style code (`EINVAL`) used when the native layer
/// reports a failure without setting a cause.
pub const EINVAL: i32 = 22;

/// A signed native status translated into a result: a non-negative status
/// is success carrying the status as payload, a negative one is an I/O
/// failure carrying `last_error`, the errno-style code observed right after
/// the call.
pub fn to_result_with_le(status: i64, last_error: i32) -> (r: Result<i64, Error>)
    ensures
        status >= 0 ==> r == Result::<i64, Error>::Ok(status),
        status < 0 ==> r == Result::<i64, Error>::Err(Error::Io(last_error)),
{
    if status >= 0 {
        Ok(status)
    } else {
        Err(Error::Io(last_error))
    }
}

/// Like [`to_result_with_le`], but where the native layer reported a failure
/// without naming a cause (a `last_error` of zero), the supplied fallback
/// code stands in.
pub fn to_result_with_errno(status: i64, last_error: i32, fallback: i32) -> (r: Result<
    i64,
    Error,
>)
    ensures
        status >= 0 ==> r == Result::<i64, Error>::Ok(status),
        status < 0 && last_error != 0 ==> r == Result::<i64, Error>::Err(Error::Io(last_error)),
        status < 0 && last_error == 0 ==> r == Result::<i64, Error>::Err(Error::Io(fallback)),
{
    if status >= 0 {
        Ok(status)
    } else if last_error != 0 {
        Err(Error::Io(last_error))
    } else {
        Err(Error::Io(fallback))
    }
}

/// A pointer-returning native call translated into a result: a null result
/// is an I/O failure carrying `last_error`, anything else is success.
pub fn ptr_result(non_null: bool, last_error: i32) -> (r: Result<(), Error>)
    ensures
        non_null ==> r == Result::<(), Error>::Ok(()),
        !non_null ==> r == Result::<(), Error>::Err(Error::Io(last_error)),
{
    if non_null {
        Ok(())
    } else {
        Err(Error::Io(last_error))
    }
}

/// An operation function pointer looked up from the context: an unset slot
/// is an I/O failure (`EINVAL`), since the operation cannot be carried out
/// at all.
pub fn fn_pointer_result(present: bool) -> (r: Result<(), Error>)
    ensures
        present ==> r == Result::<(), Error>::Ok(()),
        !present ==> r == Result::<(), Error>::Err(Error::Io(EINVAL)),
{
    if present {
        Ok(())
    } else {
        Err(Error::Io(EINVAL))
    }
}

} // verus!
