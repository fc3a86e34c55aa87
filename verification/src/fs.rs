//! Files and directories, read from the kernel's replies.
use vstd::prelude::*;
use crate::error::{NativeError, NativeResult, native_error, native_result, reply_error};

verus! {

/// A file-system failure.
#[derive(Clone, Debug)]
pub enum FsError {
    FileNotFound,
    NoMoreDirectoryEntries,
    /// A transfer moved another number of bytes than asked.
    UnexpectedBytesWritten,
    Native(NativeError),
}

impl From<NativeError> for FsError {
    fn from(from: NativeError) -> (e: Self) {
        Self::Native(from)
    }
}

impl vstd::std_specs::convert::FromSpecImpl<NativeError> for FsError {
    open spec fn obeys_from_spec() -> bool {
        true
    }

    open spec fn from_spec(v: NativeError) -> FsError {
        FsError::Native(v)
    }
}

/// A result whose error is a file-system error.
pub type FsResult<T> = Result<T, FsError>;

/// The permissions new files get: `rwxrw-r--`.
pub const DEFAULT_PERMISSIONS: u32 = 0x1f4;

/// An open file.
pub struct File {
    uid: i32,
}

/// The outcome of a transfer that asked for `len` bytes and moved `moved`:
/// that count, or `UnexpectedBytesWritten` when it differs.
pub open spec fn transfer_outcome(moved: i32, len: usize) -> Option<usize> {
    if moved as usize == len {
        Some(len)
    } else {
        None
    }
}

impl File {
    /// The file's identifier.
    pub closed spec fn id(&self) -> i32 {
        self.uid
    }

    /// The file the kernel opened (`uid`), or the error it reported; the
    /// same for every way of opening one.
    pub fn open(uid: i32) -> (r: NativeResult<File>)
        ensures
            uid >= 0 ==> (r matches Ok(f) && f.id() == uid),
            uid < 0 ==> reply_error(r, uid),
    {
        match native_error(uid) {
            Ok(()) => Ok(File { uid }),
            Err(e) => Err(e),
        }
    }

    /// The file's identifier.
    pub fn uid(&self) -> (u: i32)
        ensures
            u == self.id(),
    {
        self.uid
    }

    /// A write (or read) of `len` bytes that moved `moved` bytes: the count,
    /// or `UnexpectedBytesWritten`.
    pub fn write(&self, len: usize, moved: i32) -> (r: FsResult<usize>)
        ensures
            transfer_outcome(moved, len) matches Some(n) ==> (r matches Ok(m) && m == n),
            transfer_outcome(moved, len) is None ==> r matches Err(FsError::UnexpectedBytesWritten),
    {
        let bytes = #[verifier::truncate] (moved as usize);
        if bytes != len {
            Err(FsError::UnexpectedBytesWritten)
        } else {
            Ok(bytes)
        }
    }

    /// A queued write (or read) of `len` bytes whose request answered
    /// `moved`: success, or `UnexpectedBytesWritten`.
    pub fn write_async(&self, len: usize, moved: i32) -> (r: FsResult<()>)
        ensures
            transfer_outcome(moved, len) is Some ==> r is Ok,
            transfer_outcome(moved, len) is None ==> r matches Err(FsError::UnexpectedBytesWritten),
    {
        let bytes = #[verifier::truncate] (moved as usize);
        if bytes != len {
            Err(FsError::UnexpectedBytesWritten)
        } else {
            Ok(())
        }
    }

    /// A read of `len` bytes that moved `moved` bytes: the count, or
    /// `UnexpectedBytesWritten`.
    pub fn read(&mut self, len: usize, moved: i32) -> (r: FsResult<usize>)
        ensures
            transfer_outcome(moved, len) matches Some(n) ==> (r matches Ok(m) && m == n),
            transfer_outcome(moved, len) is None ==> r matches Err(FsError::UnexpectedBytesWritten),
    {
        self.write(len, moved)
    }

    /// A queued read of `len` bytes whose request answered `moved`: success,
    /// or `UnexpectedBytesWritten`.
    pub fn read_async(&mut self, len: usize, moved: i32) -> (r: FsResult<()>)
        ensures
            transfer_outcome(moved, len) is Some ==> r is Ok,
            transfer_outcome(moved, len) is None ==> r matches Err(FsError::UnexpectedBytesWritten),
    {
        self.write_async(len, moved)
    }

    /// The result of an asynchronous operation, once waiting (or polling)
    /// reported success.
    pub fn wait_async(&self, status: i32, result: i64) -> (r: NativeResult<i64>)
        ensures
            status < 0 ==> reply_error(r, status),
            status >= 0 ==> r == Ok::<i64, NativeError>(result),
    {
        match native_error(status) {
            Ok(()) => Ok(result),
            Err(e) => Err(e),
        }
    }

    /// The device type the kernel reported.
    pub fn device_type(&self, reply: i32) -> (r: NativeResult<u32>)
        ensures
            reply < 0 ==> reply_error(r, reply),
            reply >= 0 ==> r == Ok::<u32, NativeError>(reply as u32),
    {
        native_result(reply)
    }
}

/// An open directory.
pub struct Directory {
    uid: i32,
}

impl Directory {
    /// The directory's identifier.
    pub closed spec fn id(&self) -> i32 {
        self.uid
    }

    /// The directory the kernel opened (`uid`), or the error it reported.
    pub fn open(uid: i32) -> (r: NativeResult<Directory>)
        ensures
            uid >= 0 ==> (r matches Ok(d) && d.id() == uid),
            uid < 0 ==> reply_error(r, uid),
    {
        match native_error(uid) {
            Ok(()) => Ok(Directory { uid }),
            Err(e) => Err(e),
        }
    }

    /// The directory's identifier.
    pub fn uid(&self) -> (u: i32)
        ensures
            u == self.id(),
    {
        self.uid
    }

    /// Whether reading an entry reached the end (the kernel answered 0), or
    /// the error it reported.
    pub fn read(&self, reply: i32) -> (r: FsResult<bool>)
        ensures
            reply >= 0 ==> (r matches Ok(end) && end == (reply == 0)),
            reply < 0 ==> (r matches Err(FsError::Native(e)) && e.code() == reply),
    {
        match native_result(reply) {
            Ok(n) => Ok(n == 0),
            Err(e) => Err(FsError::from(e)),
        }
    }
}

/// Removing a directory succeeded exactly when the kernel answered 0.
pub fn remove_dir(reply: i32) -> (r: Option<()>)
    ensures
        r is Some <==> reply == 0,
{
    if reply == 0 {
        Some(())
    } else {
        None
    }
}

} // verus!
