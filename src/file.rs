//! The state of one open file and the file methods that the engine calls on it.

use vstd::prelude::*;

use crate::backend::{DatabaseHandle, Vfs};
use crate::codes::{
    SECTOR_SIZE, SQLITE_BUSY, SQLITE_DELETE, SQLITE_FULL, SQLITE_IOCAP_POWERSAFE_OVERWRITE,
    SQLITE_IOERR_CHECKRESERVEDLOCK, SQLITE_IOERR_FSTAT, SQLITE_IOERR_FSYNC, SQLITE_IOERR_LOCK,
    SQLITE_IOERR_READ, SQLITE_IOERR_SHORT_READ, SQLITE_IOERR_TRUNCATE, SQLITE_IOERR_UNLOCK,
    SQLITE_IOERR_WRITE, SQLITE_LOCK_EXCLUSIVE, SQLITE_OK, SQLITE_SYNC_DATAONLY,
};
use crate::error::Error;
use crate::lock::LockKind;
use crate::shm::{any_exclusive, holds_exclusive, pulls, region_ids};
use crate::wip::WalIndexLock;

verus! {

/// Number of WAL-index lock slots that a file tracks; slots are addressed by a byte.
pub const WAL_INDEX_SLOTS: usize = 256;

/// A materialized WAL-index region: its id and its buffer. The buffer lives in its own heap
/// allocation, so its address does not change while the region stays mapped.
pub struct Region {
    pub id: u32,
    pub data: Box<[u8; 32768]>,
}

/// A call that the adapter made on the backend, in the order made. Kept as ghost state so
/// that contracts can speak of the order of calls.
pub enum BackendCall {
    /// A read of this many bytes at this offset.
    Read(u64, usize),
    /// A write of these bytes at this offset.
    Write(Seq<u8>, u64),
    /// A sync, data only or not.
    Sync(bool),
    /// A request for the file's size.
    Size,
    SetLen(u64),
    SetChunkSize(usize),
    /// A move of the database lock up to, or down to, this level.
    DbLock(LockKind),
    DbUnlock(LockKind),
    /// The WAL index's answer to whether it is enabled.
    IndexEnabled(bool),
    /// A request for the WAL index, read-only or not, that was granted.
    IndexOpened(bool),
    /// A request for the WAL index, read-only or not, that was refused, on permission
    /// grounds or not.
    IndexRefused(bool, bool),
    MapRegion(u32),
    Pull(u32),
    Push(u32),
    WalLock(u8, u8, WalIndexLock),
    /// The deletion through the file system of the file of this name.
    Delete(Seq<char>),
}

/// The length that a truncate to `n` asks of the backend under chunk size `chunk`:
/// `n` rounded up to the next multiple of a nonzero chunk size.
pub open spec fn chunked_len(n: int, chunk: Option<usize>) -> int {
    match chunk {
        Some(c) if c > 0 => ((n + c - 1) / (c as int)) * c,
        _ => n,
    }
}

/// The status that a failed read reports.
pub open spec fn read_failure_status(e: Error) -> i32 {
    if e is UnexpectedEof { SQLITE_IOERR_SHORT_READ } else { SQLITE_IOERR_READ }
}

/// The status that a failed write reports.
pub open spec fn write_failure_status(e: Error) -> i32 {
    if e is WriteZero { SQLITE_FULL } else { SQLITE_IOERR_WRITE }
}

/// Rounds `n` up to a multiple of the chunk size, if one is set and nonzero.
pub fn chunked_size(n: u64, chunk: Option<usize>) -> (r: u64)
    requires
        n <= i64::MAX,
        chunk matches Some(c) ==> c <= i32::MAX,
    ensures
        r == chunked_len(n as int, chunk),
{
    match chunk {
        Some(c) if c > 0 => {
            let c = c as u64;
            proof {
                lemma_chunked_len_bounds(n as int, c as int);
            }
            ((n + c - 1) / c) * c
        },
        _ => n,
    }
}

/// For a nonzero chunk size `c`, the rounded length is the least multiple of `c` that is at
/// least `n`.
pub proof fn lemma_chunked_len_bounds(n: int, c: int)
    requires
        0 <= n,
        0 < c,
    ensures
        n <= ((n + c - 1) / c) * c < n + c,
        (((n + c - 1) / c) * c) % c == 0,
{
    let q = (n + c - 1) / c;
    let m = (n + c - 1) % c;
    assert(n + c - 1 == q * c + m && 0 <= m < c) by (nonlinear_arith)
        requires
            q == (n + c - 1) / c,
            m == (n + c - 1) % c,
            0 < c,
    ;
    assert((q * c) % c == 0) by (nonlinear_arith)
        requires
            0 < c,
    ;
}

/// What a failed read reports: a short read is signalled as such; any other failure is a
/// read error.
pub fn read_failure(e: &Error) -> (r: i32)
    ensures
        r == read_failure_status(*e),
{
    match e {
        Error::UnexpectedEof => SQLITE_IOERR_SHORT_READ,
        _ => SQLITE_IOERR_READ,
    }
}

/// What a failed write reports: a full target is signalled as such; any other failure is a
/// write error.
pub fn write_failure(e: &Error) -> (r: i32)
    ensures
        r == write_failure_status(*e),
{
    match e {
        Error::WriteZero => SQLITE_FULL,
        _ => SQLITE_IOERR_WRITE,
    }
}

/// The state of one open file.
pub struct FileExt<F: DatabaseHandle> {
    /// The name under which the file system was registered.
    pub vfs_name: String,
    /// The logical name of the file.
    pub db_name: String,
    /// The backend's handle.
    pub file: F,
    pub delete_on_close: bool,
    /// The last error recorded on this file, with its status code.
    pub last_error: Option<(i32, Error)>,
    /// The status code of the last error of this file.
    pub last_errno: i32,
    /// The WAL index, once obtained, and whether it was opened read-only.
    pub wal_index: Option<(F::WalIndex, bool)>,
    /// The materialized WAL-index regions, in the order they were mapped.
    pub wal_index_regions: Vec<Region>,
    /// The mode in which each WAL-index lock slot is held.
    pub wal_index_locks: Vec<WalIndexLock>,
    /// The last successful lock transition reached the exclusive level.
    pub has_exclusive_lock: bool,
    pub id: usize,
    pub chunk_size: Option<usize>,
    pub persist_wal: bool,
    pub powersafe_overwrite: bool,
    /// The calls made on the backend so far.
    pub calls: Ghost<Seq<BackendCall>>,
}

impl<F: DatabaseHandle> FileExt<F> {
    /// The state is well formed: one entry per lock slot, region ids distinct.
    pub open spec fn wf(&self) -> bool {
        &&& self.wal_index_locks@.len() == WAL_INDEX_SLOTS
        &&& self.chunk_size matches Some(c) ==> c <= i32::MAX
        &&& forall|i: int, j: int|
            0 <= i < j < self.wal_index_regions@.len() ==> self.wal_index_regions@[i].id
                != self.wal_index_regions@[j].id
    }

    pub open spec fn ids(&self) -> Seq<u32> {
        region_ids(self.wal_index_regions@)
    }

    pub open spec fn readonly_index(&self) -> bool {
        self.wal_index matches Some((_, true))
    }

    /// The fields that only the file's flags and names make up are equal.
    pub open spec fn same_config(&self, other: &Self) -> bool {
        &&& self.vfs_name == other.vfs_name
        &&& self.db_name == other.db_name
        &&& self.delete_on_close == other.delete_on_close
        &&& self.id == other.id
        &&& self.chunk_size == other.chunk_size
        &&& self.persist_wal == other.persist_wal
        &&& self.powersafe_overwrite == other.powersafe_overwrite
    }

    /// The WAL-index state is equal, but for the contents of the regions.
    pub open spec fn same_wal_state(&self, other: &Self) -> bool {
        &&& self.wal_index == other.wal_index
        &&& self.ids() == other.ids()
        &&& self.wal_index_locks@ == other.wal_index_locks@
    }

    /// The error slots are equal.
    pub open spec fn same_errors(&self, other: &Self) -> bool {
        &&& self.last_error == other.last_error
        &&& self.last_errno == other.last_errno
    }

    /// The last error recorded has status `no`.
    pub open spec fn recorded(&self, no: i32) -> bool {
        &&& self.last_errno == no
        &&& self.last_error matches Some((c, _)) && c == no
    }

    /// A fresh state for a file just opened.
    pub fn new(
        vfs_name: String,
        db_name: String,
        file: F,
        delete_on_close: bool,
        id: usize,
        powersafe_overwrite: bool,
    ) -> (r: Self)
        ensures
            r.wf(),
            r.vfs_name == vfs_name,
            r.db_name == db_name,
            r.file == file,
            r.delete_on_close == delete_on_close,
            r.id == id,
            r.powersafe_overwrite == powersafe_overwrite,
            r.last_error is None,
            r.last_errno == 0,
            r.wal_index is None,
            r.wal_index_regions@.len() == 0,
            forall|i: int| 0 <= i < WAL_INDEX_SLOTS ==> r.wal_index_locks@[i] == WalIndexLock::Unlocked,
            !r.has_exclusive_lock,
            r.chunk_size is None,
            !r.persist_wal,
            r.calls@.len() == 0,
    {
        FileExt {
            vfs_name,
            db_name,
            file,
            delete_on_close,
            last_error: None,
            last_errno: 0,
            wal_index: None,
            wal_index_regions: Vec::new(),
            wal_index_locks: vec![WalIndexLock::Unlocked; WAL_INDEX_SLOTS],
            has_exclusive_lock: false,
            id,
            chunk_size: None,
            persist_wal: false,
            powersafe_overwrite,
            calls: Ghost(Seq::empty()),
        }
    }

    /// Records `err` with status `no` and returns `no`.
    pub fn set_last_error(&mut self, no: i32, err: Error) -> (r: i32)
        ensures
            r == no,
            final(self).last_errno == no,
            final(self).last_error == Some((no, err)),
            final(self).file == old(self).file,
            final(self).wal_index == old(self).wal_index,
            final(self).wal_index_regions@ == old(self).wal_index_regions@,
            final(self).wal_index_locks@ == old(self).wal_index_locks@,
            final(self).has_exclusive_lock == old(self).has_exclusive_lock,
            final(self).same_config(old(self)),
            final(self).calls == old(self).calls,
    {
        self.last_error = Some((no, err));
        self.last_errno = no;
        no
    }

    /// Reads `buf.len()` bytes from `offset` into `buf`. A short read reports
    /// `SQLITE_IOERR_SHORT_READ` and records no error.
    pub fn read(&mut self, buf: &mut [u8], offset: u64) -> (r: i32)
        ensures
            r == SQLITE_OK || r == SQLITE_IOERR_SHORT_READ || r == SQLITE_IOERR_READ,
            r == SQLITE_IOERR_READ ==> final(self).recorded(r),
            r != SQLITE_IOERR_READ ==> final(self).same_errors(old(self)),
            final(self).same_config(old(self)),
            final(self).same_wal_state(old(self)),
            final(self).has_exclusive_lock == old(self).has_exclusive_lock,
            final(self).calls@ == old(self).calls@.push(BackendCall::Read(offset, old(buf)@.len() as usize)),
    {
        let ghost len = buf@.len();
        let result = self.file.read_exact_at(buf, offset);
        self.calls = Ghost(self.calls@.push(BackendCall::Read(offset, len as usize)));
        match result {
            Ok(()) => SQLITE_OK,
            Err(err) => {
                let status = read_failure(&err);
                if status == SQLITE_IOERR_SHORT_READ {
                    status
                } else {
                    self.set_last_error(status, err)
                }
            },
        }
    }

    /// Writes all of `buf` at `offset`. A full target reports `SQLITE_FULL` and records no
    /// error.
    pub fn write(&mut self, buf: &[u8], offset: u64) -> (r: i32)
        ensures
            r == SQLITE_OK || r == SQLITE_FULL || r == SQLITE_IOERR_WRITE,
            r == SQLITE_IOERR_WRITE ==> final(self).recorded(r),
            r != SQLITE_IOERR_WRITE ==> final(self).same_errors(old(self)),
            final(self).same_config(old(self)),
            final(self).same_wal_state(old(self)),
            final(self).has_exclusive_lock == old(self).has_exclusive_lock,
            final(self).calls@ == old(self).calls@.push(BackendCall::Write(buf@, offset)),
    {
        let result = self.file.write_all_at(buf, offset);
        self.calls = Ghost(self.calls@.push(BackendCall::Write(buf@, offset)));
        match result {
            Ok(()) => SQLITE_OK,
            Err(err) => {
                let status = write_failure(&err);
                if status == SQLITE_FULL {
                    status
                } else {
                    self.set_last_error(status, err)
                }
            },
        }
    }

    /// Truncates the file to `size` bytes, rounded up to the chunk size if one is set.
    pub fn truncate(&mut self, size: i64) -> (r: i32)
        requires
            old(self).wf(),
            size >= 0,
        ensures
            final(self).calls@ == old(self).calls@.push(
                BackendCall::SetLen(chunked_len(size as int, old(self).chunk_size) as u64),
            ),
            r == SQLITE_OK || r == SQLITE_IOERR_TRUNCATE,
            r == SQLITE_IOERR_TRUNCATE ==> final(self).recorded(r),
            r == SQLITE_OK ==> final(self).same_errors(old(self)),
            final(self).same_config(old(self)),
            final(self).same_wal_state(old(self)),
            final(self).has_exclusive_lock == old(self).has_exclusive_lock,
    {
        let len = chunked_size(size as u64, self.chunk_size);
        let result = self.file.set_len(len);
        self.calls = Ghost(self.calls@.push(BackendCall::SetLen(len)));
        match result {
            Ok(()) => SQLITE_OK,
            Err(err) => self.set_last_error(SQLITE_IOERR_TRUNCATE, err),
        }
    }

    /// Commits the file's writes; `flags` holding `SQLITE_SYNC_DATAONLY` asks for the data
    /// only.
    pub fn sync(&mut self, flags: i32) -> (r: i32)
        ensures
            r == SQLITE_OK || r == SQLITE_IOERR_FSYNC,
            r == SQLITE_IOERR_FSYNC ==> final(self).recorded(r),
            r == SQLITE_OK ==> final(self).same_errors(old(self)),
            final(self).same_config(old(self)),
            final(self).same_wal_state(old(self)),
            final(self).has_exclusive_lock == old(self).has_exclusive_lock,
            final(self).calls@ == old(self).calls@.push(
                BackendCall::Sync(flags & SQLITE_SYNC_DATAONLY != 0),
            ),
    {
        let data_only = flags & SQLITE_SYNC_DATAONLY != 0;
        let result = self.file.sync(data_only);
        self.calls = Ghost(self.calls@.push(BackendCall::Sync(data_only)));
        match result {
            Ok(()) => SQLITE_OK,
            Err(err) => self.set_last_error(SQLITE_IOERR_FSYNC, err),
        }
    }

    /// The size of the file. `has_out` tells whether the engine gave a place for it; without
    /// one the call fails with [Error::NullPtr].
    pub fn file_size(&mut self, has_out: bool) -> (r: (i32, i64))
        ensures
            r.0 == SQLITE_OK || r.0 == SQLITE_IOERR_FSTAT,
            !has_out ==> r.0 == SQLITE_IOERR_FSTAT,
            r.0 == SQLITE_IOERR_FSTAT ==> final(self).recorded(r.0),
            r.0 == SQLITE_OK ==> final(self).same_errors(old(self)),
            final(self).same_config(old(self)),
            final(self).same_wal_state(old(self)),
            final(self).has_exclusive_lock == old(self).has_exclusive_lock,
            final(self).calls == old(self).calls,
    {
        match self.file.size() {
            Ok(n) => {
                if has_out {
                    (SQLITE_OK, n as i64)
                } else {
                    (self.set_last_error(SQLITE_IOERR_FSTAT, Error::NullPtr), 0)
                }
            },
            Err(err) => (self.set_last_error(SQLITE_IOERR_FSTAT, err), 0),
        }
    }

    /// The sector size: the same constant for every file in every state.
    pub fn sector_size(&self) -> (r: i32)
        ensures
            r == 1024,
    {
        SECTOR_SIZE
    }

    /// The device characteristics: powersafe overwrite when the file's flag says so, and
    /// nothing else.
    pub fn device_characteristics(&self) -> (r: i32)
        ensures
            r == if self.powersafe_overwrite {
                SQLITE_IOCAP_POWERSAFE_OVERWRITE
            } else {
                0
            },
    {
        if self.powersafe_overwrite {
            SQLITE_IOCAP_POWERSAFE_OVERWRITE
        } else {
            0
        }
    }

    /// The pulls that reaching the exclusive level `lock` calls for: every region, when an
    /// index is present and no WAL-index slot is held exclusively; none otherwise.
    pub open spec fn lock_pulls(&self, lock: LockKind) -> Seq<BackendCall> {
        if lock == LockKind::Exclusive && self.wal_index is Some && !holds_exclusive(
            self.wal_index_locks@,
        ) {
            pulls(self.ids())
        } else {
            Seq::empty()
        }
    }

    /// What follows the backend's `answer` to a request for lock level `lock`: granted, the
    /// exclusive flag follows the level and, on reaching the exclusive level while no
    /// WAL-index slot is held exclusively, every region is refreshed (failures of that refresh
    /// do not fail the lock); refused, `SQLITE_BUSY`; failed, `SQLITE_IOERR_LOCK` with the
    /// error recorded.
    pub fn lock_outcome(&mut self, lock: LockKind, answer: Result<bool, Error>) -> (r: i32)
        requires
            old(self).wf(),
        ensures
            final(self).wf(),
            (answer is Ok && answer->Ok_0) ==> r == SQLITE_OK && final(self).has_exclusive_lock
                == (lock == LockKind::Exclusive) && final(self).calls@ == old(self).calls@
                + old(self).lock_pulls(lock) && final(self).same_errors(old(self)),
            (answer is Ok && !answer->Ok_0) ==> r == SQLITE_BUSY && final(self).has_exclusive_lock
                == old(self).has_exclusive_lock && final(self).calls == old(self).calls
                && final(self).same_errors(old(self)),
            answer is Err ==> r == SQLITE_IOERR_LOCK && final(self).last_error == Some(
                (SQLITE_IOERR_LOCK, answer->Err_0),
            ) && final(self).last_errno == SQLITE_IOERR_LOCK && final(self).has_exclusive_lock
                == old(self).has_exclusive_lock && final(self).calls == old(self).calls,
            final(self).same_config(old(self)),
            final(self).ids() == old(self).ids(),
            final(self).wal_index_locks@ == old(self).wal_index_locks@,
            final(self).same_index_slot(old(self)),
    {
        match answer {
            Ok(true) => {
                self.has_exclusive_lock = lock == LockKind::Exclusive;
                if self.has_exclusive_lock && !any_exclusive(&self.wal_index_locks) {
                    match self.wal_index.take() {
                        Some((mut wal, readonly)) => {
                            let _ = self.pull_all(&mut wal, false);
                            self.wal_index = Some((wal, readonly));
                        },
                        None => {
                            assert(self.calls@ =~= old(self).calls@ + old(self).lock_pulls(lock));
                        },
                    }
                } else {
                    assert(self.calls@ =~= old(self).calls@ + old(self).lock_pulls(lock));
                }
                SQLITE_OK
            },
            Ok(false) => SQLITE_BUSY,
            Err(err) => self.set_last_error(SQLITE_IOERR_LOCK, err),
        }
    }

    /// Moves the database lock to level `e_lock`: an undecodable level fails with
    /// `SQLITE_IOERR_LOCK` and no call; otherwise the backend is asked for the level and
    /// [FileExt::lock_outcome] decides on its answer.
    pub fn lock(&mut self, e_lock: i32) -> (r: i32)
        requires
            old(self).wf(),
        ensures
            final(self).wf(),
            r == SQLITE_OK || r == SQLITE_BUSY || r == SQLITE_IOERR_LOCK,
            !(0 <= e_lock <= 4) ==> r == SQLITE_IOERR_LOCK && final(self).same_errors(old(self))
                && final(self).calls == old(self).calls,
            (0 <= e_lock <= 4) ==> final(self).calls@.len() > old(self).calls@.len()
                && final(self).calls@[old(self).calls@.len() as int] == BackendCall::DbLock(
                LockKind::from_code(e_lock),
            ),
            (0 <= e_lock <= 4 && r == SQLITE_IOERR_LOCK) ==> final(self).recorded(r),
            !(0 <= e_lock <= 4 && r == SQLITE_IOERR_LOCK) ==> final(self).same_errors(old(self)),
            r == SQLITE_OK ==> final(self).has_exclusive_lock == (e_lock == SQLITE_LOCK_EXCLUSIVE)
                && final(self).calls@ == old(self).calls@.push(
                BackendCall::DbLock(LockKind::from_code(e_lock)),
            ) + old(self).lock_pulls(LockKind::from_code(e_lock)),
            r != SQLITE_OK ==> final(self).has_exclusive_lock == old(self).has_exclusive_lock,
            (0 <= e_lock <= 4 && r != SQLITE_OK) ==> final(self).calls@ == old(self).calls@.push(
                BackendCall::DbLock(LockKind::from_code(e_lock)),
            ),
            final(self).same_config(old(self)),
            final(self).ids() == old(self).ids(),
            final(self).wal_index_locks@ == old(self).wal_index_locks@,
            final(self).same_index_slot(old(self)),
    {
        let lock = match LockKind::from_i32(e_lock) {
            Some(lock) => lock,
            None => return SQLITE_IOERR_LOCK,
        };
        let answer = self.file.lock(lock);
        self.calls = Ghost(self.calls@.push(BackendCall::DbLock(lock)));
        let ghost mid = self.calls@;
        assert(mid[old(self).calls@.len() as int] == BackendCall::DbLock(lock));
        let r = self.lock_outcome(lock, answer);
        assert(self.calls@ == mid || self.calls@ == mid + old(self).lock_pulls(lock));
        r
    }

    /// What follows the backend's `answer` to a request to move the lock down to `lock`:
    /// granted, `SQLITE_OK` and the exclusive flag follows the level; refused, `SQLITE_BUSY`;
    /// failed, `SQLITE_IOERR_UNLOCK` with the error recorded.
    pub fn unlock_outcome(&mut self, lock: LockKind, answer: Result<bool, Error>) -> (r: i32)
        ensures
            (answer is Ok && answer->Ok_0) ==> r == SQLITE_OK && final(self).has_exclusive_lock
                == (lock == LockKind::Exclusive) && final(self).same_errors(old(self)),
            (answer is Ok && !answer->Ok_0) ==> r == SQLITE_BUSY && final(self).has_exclusive_lock
                == old(self).has_exclusive_lock && final(self).same_errors(old(self)),
            answer is Err ==> r == SQLITE_IOERR_UNLOCK && final(self).last_error == Some(
                (SQLITE_IOERR_UNLOCK, answer->Err_0),
            ) && final(self).last_errno == SQLITE_IOERR_UNLOCK && final(self).has_exclusive_lock
                == old(self).has_exclusive_lock,
            final(self).calls == old(self).calls,
            final(self).same_config(old(self)),
            final(self).same_wal_state(old(self)),
            final(self).wal_index_regions@ == old(self).wal_index_regions@,
    {
        match answer {
            Ok(true) => {
                self.has_exclusive_lock = lock == LockKind::Exclusive;
                SQLITE_OK
            },
            Ok(false) => SQLITE_BUSY,
            Err(err) => self.set_last_error(SQLITE_IOERR_UNLOCK, err),
        }
    }

    /// Moves the database lock down to level `e_lock`: an undecodable level fails with
    /// `SQLITE_IOERR_UNLOCK` and no call; otherwise the backend is asked and
    /// [FileExt::unlock_outcome] decides on its answer.
    pub fn unlock(&mut self, e_lock: i32) -> (r: i32)
        requires
            old(self).wf(),
        ensures
            final(self).wf(),
            r == SQLITE_OK || r == SQLITE_BUSY || r == SQLITE_IOERR_UNLOCK,
            !(0 <= e_lock <= 4) ==> r == SQLITE_IOERR_UNLOCK && final(self).calls == old(self).calls,
            (0 <= e_lock <= 4) ==> final(self).calls@ == old(self).calls@.push(
                BackendCall::DbUnlock(LockKind::from_code(e_lock)),
            ),
            (0 <= e_lock <= 4 && r == SQLITE_IOERR_UNLOCK) ==> final(self).recorded(r),
            !(0 <= e_lock <= 4 && r == SQLITE_IOERR_UNLOCK) ==> final(self).same_errors(old(self)),
            r == SQLITE_OK ==> final(self).has_exclusive_lock == (e_lock == SQLITE_LOCK_EXCLUSIVE),
            r != SQLITE_OK ==> final(self).has_exclusive_lock == old(self).has_exclusive_lock,
            final(self).same_config(old(self)),
            final(self).same_wal_state(old(self)),
    {
        let lock = match LockKind::from_i32(e_lock) {
            Some(lock) => lock,
            None => return SQLITE_IOERR_UNLOCK,
        };
        let answer = self.file.unlock(lock);
        self.calls = Ghost(self.calls@.push(BackendCall::DbUnlock(lock)));
        self.unlock_outcome(lock, answer)
    }

    /// Whether any handle holds a reserved or higher lock on the file. `has_out` tells whether
    /// the engine gave a place for the answer; without one the call fails with
    /// [Error::NullPtr].
    pub fn check_reserved_lock(&mut self, has_out: bool) -> (r: (i32, bool))
        ensures
            r.0 == SQLITE_OK || r.0 == SQLITE_IOERR_CHECKRESERVEDLOCK,
            !has_out ==> r.0 == SQLITE_IOERR_CHECKRESERVEDLOCK,
            r.0 == SQLITE_IOERR_CHECKRESERVEDLOCK ==> final(self).recorded(r.0),
            r.0 == SQLITE_OK ==> final(self).same_errors(old(self)),
            final(self).same_config(old(self)),
            final(self).same_wal_state(old(self)),
            final(self).has_exclusive_lock == old(self).has_exclusive_lock,
            final(self).calls == old(self).calls,
    {
        match self.file.reserved() {
            Ok(reserved) => {
                if has_out {
                    (SQLITE_OK, reserved)
                } else {
                    (self.set_last_error(SQLITE_IOERR_CHECKRESERVEDLOCK, Error::NullPtr), false)
                }
            },
            Err(err) => (self.set_last_error(SQLITE_IOERR_CHECKRESERVEDLOCK, err), false),
        }
    }

    /// All fields but the file handle and the error slots are equal.
    pub open spec fn same_but_errors(&self, other: &Self) -> bool {
        &&& self.same_config(other)
        &&& self.same_wal_state(other)
        &&& self.has_exclusive_lock == other.has_exclusive_lock
        &&& self.calls == other.calls
    }

    /// What follows the backend's `answer` to the deletion on close: success gives
    /// `SQLITE_OK`, a failure `SQLITE_DELETE` with the error recorded.
    pub fn close_outcome(&mut self, answer: Result<(), Error>) -> (r: i32)
        ensures
            answer is Ok ==> r == SQLITE_OK && final(self).same_errors(old(self)),
            answer is Err ==> r == SQLITE_DELETE && final(self).last_error == Some(
                (SQLITE_DELETE, answer->Err_0),
            ) && final(self).last_errno == SQLITE_DELETE,
            final(self).same_but_errors(old(self)),
    {
        match answer {
            Ok(()) => SQLITE_OK,
            Err(err) => self.set_last_error(SQLITE_DELETE, err),
        }
    }

    /// Closes the file: a file to be deleted on close is deleted through `vfs`, by its name,
    /// and [FileExt::close_outcome] decides on the answer; any other file closes with
    /// `SQLITE_OK` and no call. On `SQLITE_OK` the caller drops the state.
    pub fn close<V: Vfs>(&mut self, vfs: &V) -> (r: i32)
        ensures
            r == SQLITE_OK || r == SQLITE_DELETE,
            !old(self).delete_on_close ==> r == SQLITE_OK && final(self).calls == old(self).calls
                && final(self).same_errors(old(self)),
            old(self).delete_on_close ==> final(self).calls@ == old(self).calls@.push(
                BackendCall::Delete(old(self).db_name@),
            ),
            r == SQLITE_DELETE ==> final(self).recorded(r),
            r == SQLITE_OK ==> final(self).same_errors(old(self)),
            final(self).same_config(old(self)),
            final(self).same_wal_state(old(self)),
            final(self).has_exclusive_lock == old(self).has_exclusive_lock,
    {
        if self.delete_on_close {
            let answer = vfs.delete(self.db_name.as_str());
            self.calls = Ghost(self.calls@.push(BackendCall::Delete(self.db_name@)));
            self.close_outcome(answer)
        } else {
            SQLITE_OK
        }
    }
}

} // verus!
