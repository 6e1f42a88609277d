//! The capabilities that a storage backend provides to the adapter.

use vstd::prelude::*;

use crate::error::Error;
use crate::lock::LockKind;
use crate::open::OpenOptions;
use crate::wip::WalIndex;

verus! {

/// A file opened by a [Vfs].
pub trait DatabaseHandle: Sized {
    /// The WAL index that this file offers.
    type WalIndex: WalIndex;

    /// The current size in bytes of the file.
    fn size(&self) -> Result<u64, Error>;

    /// Fills `buf` with the bytes from `offset` on.
    fn read_exact_at(&mut self, buf: &mut [u8], offset: u64) -> Result<(), Error>;

    /// Writes all of `buf` from `offset` on.
    fn write_all_at(&mut self, buf: &[u8], offset: u64) -> Result<(), Error>;

    /// Commits all writes to storage; with `data_only`, not the metadata.
    fn sync(&mut self, data_only: bool) -> Result<(), Error>;

    /// Truncates or extends the file to `size` bytes.
    fn set_len(&mut self, size: u64) -> Result<(), Error>;

    /// Moves the file lock to `lock`; `Ok(false)` when it cannot be had now.
    fn lock(&mut self, lock: LockKind) -> Result<bool, Error>;

    /// Moves the file lock down to `lock`.
    fn unlock(&mut self, lock: LockKind) -> Result<bool, Error> {
        self.lock(lock)
    }

    /// Whether any handle holds a reserved, pending or exclusive lock on the file.
    fn reserved(&mut self) -> Result<bool, Error>;

    /// The lock level this handle holds.
    fn current_lock(&self) -> Result<LockKind, Error>;

    /// Asks that the file grow and shrink in multiples of `chunk_size`.
    fn set_chunk_size(&self, chunk_size: usize) -> Result<(), Error> {
        Ok(())
    }

    /// Whether the file was moved or deleted since it was opened.
    fn moved(&self) -> Result<bool, Error> {
        Ok(false)
    }

    /// The WAL index of this file, opened read-only when `readonly`.
    fn wal_index(&self, readonly: bool) -> Result<Self::WalIndex, Error>;
}

/// A virtual file system.
pub trait Vfs: Sized {
    /// The file returned by [Vfs::open].
    type Handle: DatabaseHandle;

    /// Opens the file `db` as `opts` says.
    fn open(&self, db: &str, opts: OpenOptions) -> Result<Self::Handle, Error>;

    /// Deletes the file `db`.
    fn delete(&self, db: &str) -> Result<(), Error>;

    /// Whether the file `db` exists.
    fn file_exists(&self, db: &str) -> Result<bool, Error>;

    /// A fresh path for a temporary file.
    fn temporary_name(&self) -> String;

    /// Fills `buffer` with random bytes.
    fn random(&self, buffer: &mut [i8]);

    /// Sleeps for `duration` and returns the time actually slept.
    fn sleep(&self, duration: core::time::Duration) -> core::time::Duration;

    /// Whether `db` may be read, or written too when `write`.
    fn access(&self, db: &str, write: bool) -> Result<bool, Error> {
        Ok(true)
    }

    /// The full path name of `db`.
    fn full_pathname(&self, db: &str) -> Result<String, Error> {
        Ok(db.to_owned())
    }
}

} // verus!
