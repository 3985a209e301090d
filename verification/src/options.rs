//! Options for opening a file on a share, and their translation into the
//! POSIX-style open flags that the native layer consumes.

use vstd::prelude::*;
use crate::result::Error;

verus! {

/// Open for reading only.
pub const O_RDONLY: i32 = 0;
/// Open for writing only.
pub const O_WRONLY: i32 = 1;
/// Open for reading and writing.
pub const O_RDWR: i32 = 2;
/// Create the file if it does not exist.
pub const O_CREAT: i32 = 0o100;
/// Together with `O_CREAT`, fail if the file already exists.
pub const O_EXCL: i32 = 0o200;
/// Truncate the file to length zero if it exists.
pub const O_TRUNC: i32 = 0o1000;
/// Every write appends to the end of the file.
pub const O_APPEND: i32 = 0o2000;

/// The access mode derived from the read/write capability pair: absent any
/// capability, or reading alone, the file is opened read-only; writing alone
/// opens write-only; both together open read-write.
pub open spec fn base_access(read: bool, write: bool) -> i32 {
    if write {
        if read {
            O_RDWR
        } else {
            O_WRONLY
        }
    } else {
        O_RDONLY
    }
}

/// The full open flags: the derived access mode combined with the
/// accumulated capability flags.
pub open spec fn spec_open_flags(o: OpenOptions) -> i32 {
    base_access(o.read, o.write) | o.flags
}

/// Describes options for opening a file:
///
/// * `read` if readable;
/// * `write` if writable;
/// * `flags` is a bitwise OR over `O_APPEND`, `O_CREAT`, `O_TRUNC` and
///   `O_EXCL`;
/// * `mode` for the POSIX permission bits of a newly created file.
#[derive(Clone, Copy, Debug)]
pub struct OpenOptions {
    pub flags: i32,
    pub read: bool,
    pub write: bool,
    pub mode: u32,
}

impl OpenOptions {
    /// Allows reading the file (set by default).
    pub fn read(self, read: bool) -> (r: Self)
        ensures
            r == (OpenOptions { read, ..self }),
    {
        OpenOptions { read, ..self }
    }

    /// Allows writing to the file.
    pub fn write(self, write: bool) -> (r: Self)
        ensures
            r == (OpenOptions { write, ..self }),
    {
        OpenOptions { write, ..self }
    }

    /// Makes every write append to the end of the file.
    pub fn append(self, append: bool) -> (r: Self)
        ensures
            r == (OpenOptions { flags: set_flag(self.flags, O_APPEND, append), ..self }),
    {
        let mut updated = self;
        updated.flag(O_APPEND, append);
        updated
    }

    /// Allows creating the file if it does not exist.
    ///
    /// Opening fails when the file already exists if `exclusive` is also
    /// set.
    pub fn create(self, create: bool) -> (r: Self)
        ensures
            r == (OpenOptions { flags: set_flag(self.flags, O_CREAT, create), ..self }),
    {
        let mut updated = self;
        updated.flag(O_CREAT, create);
        updated
    }

    /// The file is truncated (its size set to zero) if it already exists.
    pub fn truncate(self, truncate: bool) -> (r: Self)
        ensures
            r == (OpenOptions { flags: set_flag(self.flags, O_TRUNC, truncate), ..self }),
    {
        let mut updated = self;
        updated.flag(O_TRUNC, truncate);
        updated
    }

    /// Opening fails if the file already exists (when `create` is also
    /// set).
    pub fn exclusive(self, exclusive: bool) -> (r: Self)
        ensures
            r == (OpenOptions { flags: set_flag(self.flags, O_EXCL, exclusive), ..self }),
    {
        let mut updated = self;
        updated.flag(O_EXCL, exclusive);
        updated
    }

    /// Sets the POSIX permission bits used when a file is created.
    pub fn mode(self, mode: u32) -> (r: Self)
        ensures
            r == (OpenOptions { mode, ..self }),
    {
        OpenOptions { mode, ..self }
    }

    fn flag(&mut self, flag: i32, on: bool)
        ensures
            final(self).flags == set_flag(old(self).flags, flag, on),
            final(self).read == old(self).read,
            final(self).write == old(self).write,
            final(self).mode == old(self).mode,
    {
        if on {
            self.flags = self.flags | flag;
        } else {
            self.flags = self.flags & !flag;
        }
    }

    /// Derives the POSIX-style flags handed to the native open call. The
    /// combination of flags is not validated for conflicts (for example,
    /// `exclusive` without `create`): the native layer is left to judge such
    /// a set, so this never fails.
    pub fn to_flags(&self) -> (r: Result<i32, Error>)
        ensures
            r == Result::<i32, Error>::Ok(spec_open_flags(*self)),
    {
        let base_mode: i32 = if self.write {
            if self.read {
                O_RDWR
            } else {
                O_WRONLY
            }
        } else {
            // absent any capability the file still opens read-only
            O_RDONLY
        };
        Ok(base_mode | self.flags)
    }
}

/// A flag set with one flag turned on or off.
pub open spec fn set_flag(flags: i32, flag: i32, on: bool) -> i32 {
    if on {
        flags | flag
    } else {
        flags & !flag
    }
}

impl Default for OpenOptions {
    /// The default options open read-only with POSIX permissions `0o644`
    /// (read and write for the owner, read for group and others) and no
    /// capability flags.
    fn default() -> (r: OpenOptions)
        ensures
            r == (OpenOptions { flags: 0, read: true, write: false, mode: 0o644 }),
    {
        OpenOptions { flags: 0, read: true, write: false, mode: 0o644 }
    }
}

} // verus!
