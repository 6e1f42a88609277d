//! The state of a registered file system and the entry points that act on it rather than on
//! one file: open, delete, access, full path name and the clock.

use vstd::prelude::*;
use vstd::utf8::encode_utf8;

use crate::backend::Vfs;
use crate::codes::{
    MAX_PATH_LENGTH, SQLITE_ACCESS_EXISTS, SQLITE_ACCESS_READ, SQLITE_ACCESS_READWRITE,
    SQLITE_CANTOPEN, SQLITE_DELETE, SQLITE_ERROR, SQLITE_IOERR_ACCESS, SQLITE_IOERR_DELETE_NOENT,
    SQLITE_OK, SQLITE_OPEN_URI, SQLITE_READONLY_DIRECTORY, UNIX_EPOCH_OFFSET,
};
use crate::error::{Error, RegisterError};
use crate::file::{FileExt, WAL_INDEX_SLOTS};
use crate::open::{
    needs_exists_check, open_failure, open_failure_spec, options_flags, options_of_flags,
    OpenAccess, OpenFailure, OpenOptions,
};
use crate::wip::WalIndexLock;

verus! {

/// The first NUL byte of `b`, if any.
pub open spec fn first_nul(b: Seq<u8>, i: int) -> bool {
    0 <= i < b.len() && b[i] == 0 && forall|j: int| 0 <= j < i ==> b[j] != 0
}

/// Position of the first NUL byte of `b`, if any.
pub fn find_nul(b: &[u8]) -> (r: Option<usize>)
    ensures
        r matches Some(i) ==> first_nul(b@, i as int),
        r is None ==> forall|j: int| 0 <= j < b@.len() ==> b@[j] != 0,
{
    let mut i: usize = 0;
    while i < b.len()
        invariant
            0 <= i <= b@.len(),
            forall|j: int| 0 <= j < i ==> b@[j] != 0,
        decreases b@.len() - i,
    {
        if b[i] == 0 {
            return Some(i);
        }
        i += 1;
    }
    None
}

/// `bytes` followed by one NUL byte.
fn with_nul(bytes: &[u8]) -> (r: Vec<u8>)
    ensures
        r@ == bytes@.push(0u8),
{
    let mut out: Vec<u8> = Vec::new();
    let mut i: usize = 0;
    while i < bytes.len()
        invariant
            0 <= i <= bytes@.len(),
            out@ == bytes@.take(i as int),
        decreases bytes@.len() - i,
    {
        out.push(bytes[i]);
        assert(bytes@.take(i + 1) =~= bytes@.take(i as int).push(bytes@[i as int]));
        i += 1;
    }
    assert(bytes@.take(bytes@.len() as int) =~= bytes@);
    out.push(0u8);
    out
}

/// The bytes handed to the engine for the full path name `full`, NUL-terminated, given a
/// buffer of `n_out` bytes. A name holding a NUL byte cannot be handed over; a name that,
/// with its NUL, exceeds the buffer or the system maximum of 512 bytes is too long.
pub fn pathname_bytes(full: &str, n_out: i32) -> (r: Result<Vec<u8>, Error>)
    ensures
        encode_utf8(full@).contains(0u8) ==> r matches Err(Error::External { .. }),
        !encode_utf8(full@).contains(0u8) && (encode_utf8(full@).len() + 1 > n_out
            || encode_utf8(full@).len() + 1 > MAX_PATH_LENGTH) ==> r == Err::<Vec<u8>, Error>(
            Error::PathTooLong,
        ),
        !encode_utf8(full@).contains(0u8) && encode_utf8(full@).len() + 1 <= n_out
            && encode_utf8(full@).len() + 1 <= MAX_PATH_LENGTH ==> r is Ok && r->Ok_0@
            == encode_utf8(full@).push(0u8),
{
    let bytes = full.as_bytes();
    if let Some(i) = find_nul(bytes) {
        assert(bytes@[i as int] == 0);
        return Err(Error::External { cause: "name must not contain a nul byte".to_owned() });
    }
    if bytes.len() >= MAX_PATH_LENGTH || n_out < 0 || bytes.len() >= n_out as usize {
        return Err(Error::PathTooLong);
    }
    Ok(with_nul(bytes))
}

/// The Julian-day clock in milliseconds for `unix_seconds` seconds since the Unix epoch,
/// as the engine's 64-bit clock entry point reports it.
pub fn julian_clock(unix_seconds: i64) -> (r: i64)
    requires
        -100_000_000_000_000 <= unix_seconds <= 100_000_000_000_000,
    ensures
        r == unix_seconds + 24405875 * 8640000,
{
    unix_seconds + UNIX_EPOCH_OFFSET
}

/// Relies on `time::OffsetDateTime::now_utc` and `unix_timestamp`: the current time in
/// seconds since the Unix epoch. A date of the `time` crate lies within the years -9999 to
/// 9999 (-999999 to 999999 with its `large-dates` feature), so the timestamp lies within
/// ±10^14 seconds.
#[verifier::external_body]
fn unix_now() -> (r: i64)
    ensures
        -100_000_000_000_000 <= r <= 100_000_000_000_000,
{
    time::OffsetDateTime::now_utc().unix_timestamp()
}

/// The current time on the Julian-day clock in milliseconds.
pub fn current_time_int64() -> (r: i64)
    ensures
        -100_000_000_000_000 + 24405875 * 8640000 <= r <= 100_000_000_000_000 + 24405875
            * 8640000,
{
    let now = unix_now();
    julian_clock(now)
}

/// A call that the adapter made on the file system backend, in the order made. Kept as
/// ghost state so that contracts can speak of what was handed to the backend.
pub enum VfsCall {
    Open(Seq<char>, OpenOptions),
    Exists(Seq<char>),
    /// An access probe, for writing or not.
    Access(Seq<char>, bool),
    Delete(Seq<char>),
    FullPathname(Seq<char>),
}

/// The state of a registered file system.
pub struct State<V: Vfs> {
    /// The name under which it is registered.
    pub name: String,
    /// The backend.
    pub vfs: V,
    /// The last error of an operation not tied to one file, with its status code.
    pub last_error: Option<(i32, Error)>,
    /// The identifier that the next opened file receives.
    pub next_id: usize,
    /// The calls made on the backend so far.
    pub calls: Ghost<Seq<VfsCall>>,
}

/// The options that an open actually used: those asked for, or, after a read-only retry,
/// the same with read access.
pub open spec fn downgraded(o: OpenOptions) -> OpenOptions {
    OpenOptions { access: OpenAccess::Read, ..o }
}

impl<V: Vfs> State<V> {
    /// The last error recorded has status `no`.
    pub open spec fn records(&self, no: i32) -> bool {
        match self.last_error {
            Some((c, _)) => c == no,
            None => false,
        }
    }

    /// Prepares the registration of `vfs` under `name`; a name holding a NUL byte is
    /// refused with the position of the first one.
    pub fn new(name: String, vfs: V) -> (r: Result<Self, RegisterError>)
        ensures
            r matches Err(e) ==> e matches RegisterError::Nul(i) && first_nul(
                encode_utf8(name@),
                i as int,
            ),
            r is Err <==> encode_utf8(name@).contains(0u8),
            r matches Ok(s) ==> s.name == name && s.vfs == vfs && s.last_error is None
                && s.next_id == 0 && s.calls@.len() == 0,
    {
        match find_nul(name.as_str().as_bytes()) {
            Some(i) => Err(RegisterError::Nul(i)),
            None => Ok(State { name, vfs, last_error: None, next_id: 0, calls: Ghost(Seq::empty()) }),
        }
    }

    /// Records `err` with status `no` and returns `no`.
    pub fn set_last_error(&mut self, no: i32, err: Error) -> (r: i32)
        ensures
            r == no,
            final(self).last_error == Some((no, err)),
            final(self).calls == old(self).calls,
            final(self).name == old(self).name,
            final(self).vfs == old(self).vfs,
            final(self).next_id == old(self).next_id,
    {
        self.last_error = Some((no, err));
        no
    }

    /// The answer to the engine's request for the last error, given the error's `message`
    /// and a buffer of `n_byte` bytes: with no error recorded, `SQLITE_OK` and nothing to
    /// copy; else the recorded status with the NUL-terminated message, or `SQLITE_ERROR`
    /// when the message holds a NUL byte or does not fit.
    pub fn get_last_error(&self, message: &str, n_byte: i32) -> (r: (i32, Option<Vec<u8>>))
        ensures
            self.last_error is None ==> r == (SQLITE_OK, None::<Vec<u8>>),
            self.last_error matches Some((code, _)) ==> {
                let b = encode_utf8(message@);
                if !b.contains(0u8) && b.len() + 1 <= n_byte {
                    r.0 == code && r.1 is Some && r.1->Some_0@ == b.push(0u8)
                } else {
                    r == (SQLITE_ERROR, None::<Vec<u8>>)
                }
            },
    {
        match &self.last_error {
            None => (SQLITE_OK, None),
            Some((code, _)) => {
                let bytes = message.as_bytes();
                if let Some(i) = find_nul(bytes) {
                    assert(bytes@[i as int] == 0);
                    return (SQLITE_ERROR, None);
                }
                if n_byte < 0 || bytes.len() >= n_byte as usize {
                    return (SQLITE_ERROR, None);
                }
                (*code, Some(with_nul(bytes)))
            },
        }
    }

    /// Opens the file `name`, or a fresh temporary file when `name` is `None`, as `flags`
    /// say. `uri_psow` is the engine's `psow` URI parameter (true when unset); it sets the
    /// powersafe-overwrite flag when `flags` hold the URI bit and a name is given. On success
    /// returns the file's state and the flags actually used. A write open refused on
    /// permission grounds is retried once read-only, unless it creates a journal or WAL that
    /// does not exist, which reports a read-only directory.
    pub fn open(&mut self, name: Option<&str>, flags: i32, uri_psow: bool) -> (r: Result<
        (FileExt<V::Handle>, i32),
        i32,
    >)
        ensures
            final(self).name == old(self).name,
            final(self).vfs == old(self).vfs,
            (options_of_flags(flags) is Some && name is Some) ==> final(self).calls@.len()
                > old(self).calls@.len() && final(self).calls@[old(self).calls@.len() as int]
                == VfsCall::Open(name.unwrap()@, options_of_flags(flags).unwrap()),
            options_of_flags(flags) is None ==> final(self).calls == old(self).calls,
            options_of_flags(flags) is None ==> r == Err::<(FileExt<V::Handle>, i32), i32>(
                SQLITE_CANTOPEN,
            ) && final(self).last_error == Some((SQLITE_CANTOPEN, Error::InvalidOpenFlags)),
            (name is None && options_of_flags(flags) is Some && !options_of_flags(flags).unwrap().delete_on_close) ==> r
                == Err::<(FileExt<V::Handle>, i32), i32>(SQLITE_CANTOPEN)
                && final(self).last_error == Some((SQLITE_CANTOPEN, Error::InvalidOpenFlags)),
            r matches Err(c) ==> (c == SQLITE_CANTOPEN || c == SQLITE_READONLY_DIRECTORY)
                && final(self).records(c) && final(self).next_id == old(self).next_id,
            r == Err::<(FileExt<V::Handle>, i32), i32>(SQLITE_READONLY_DIRECTORY) ==> (
            options_of_flags(flags) matches Some(o) && open_failure_spec(true, o, false)
                == OpenFailure::ReadonlyDirectory),
            r matches Ok((f, out)) ==> {
                &&& options_of_flags(flags) matches Some(o)
                &&& (out == options_flags(o) || (o.access != OpenAccess::Read && out
                    == options_flags(downgraded(o))))
                &&& f.wf()
                &&& f.vfs_name == old(self).name
                &&& (name matches Some(n) ==> f.db_name@ == n@)
                &&& f.delete_on_close == o.delete_on_close
                &&& f.id == old(self).next_id
                &&& f.powersafe_overwrite == (uri_psow || !(flags & SQLITE_OPEN_URI != 0
                    && name is Some))
                &&& f.last_error is None
                &&& f.last_errno == 0
                &&& f.wal_index is None
                &&& f.wal_index_regions@.len() == 0
                &&& forall|i: int|
                    0 <= i < WAL_INDEX_SLOTS ==> f.wal_index_locks@[i] == WalIndexLock::Unlocked
                &&& !f.has_exclusive_lock
                &&& f.chunk_size is None
                &&& !f.persist_wal
                &&& f.calls@.len() == 0
                &&& final(self).next_id == (if old(self).next_id == usize::MAX {
                    0
                } else {
                    (old(self).next_id + 1) as usize
                })
                &&& final(self).last_error == old(self).last_error
            },
    {
        let mut opts = match OpenOptions::from_flags(flags) {
            Some(opts) => opts,
            None => return Err(self.set_last_error(SQLITE_CANTOPEN, Error::InvalidOpenFlags)),
        };
        if name.is_none() && !opts.delete_on_close {
            return Err(self.set_last_error(SQLITE_CANTOPEN, Error::InvalidOpenFlags));
        }
        let powersafe_overwrite = if flags & SQLITE_OPEN_URI != 0 && name.is_some() {
            uri_psow
        } else {
            true
        };
        let name: String = match name {
            Some(n) => n.to_owned(),
            None => self.vfs.temporary_name(),
        };
        let first = self.vfs.open(name.as_str(), opts);
        self.calls = Ghost(self.calls@.push(VfsCall::Open(name@, opts)));
        let file = match first {
            Ok(f) => f,
            Err(err) => {
                let denied = matches!(err, Error::PermissionDenied);
                let exists = if needs_exists_check(denied, &opts) {
                    let answer = self.vfs.file_exists(name.as_str());
                    self.calls = Ghost(self.calls@.push(VfsCall::Exists(name@)));
                    match answer {
                        Ok(e) => e,
                        Err(_) => false,
                    }
                } else {
                    false
                };
                match open_failure(denied, &opts, exists) {
                    OpenFailure::ReadonlyDirectory => {
                        return Err(self.set_last_error(SQLITE_READONLY_DIRECTORY, err));
                    },
                    OpenFailure::RetryReadOnly => {
                        opts.access = OpenAccess::Read;
                        let second = self.vfs.open(name.as_str(), opts);
                        self.calls = Ghost(self.calls@.push(VfsCall::Open(name@, opts)));
                        match second {
                            Ok(f) => f,
                            Err(_) => return Err(self.set_last_error(SQLITE_CANTOPEN, err)),
                        }
                    },
                    OpenFailure::CantOpen => {
                        return Err(self.set_last_error(SQLITE_CANTOPEN, err));
                    },
                }
            },
        };
        let out_flags = opts.to_flags();
        let id = self.next_id;
        self.next_id = self.next_id.wrapping_add(1);
        let state = FileExt::new(
            self.name.clone(),
            name,
            file,
            opts.delete_on_close,
            id,
            powersafe_overwrite,
        );
        Ok((state, out_flags))
    }

    /// What follows the backend's `answer` to a deletion: success gives `SQLITE_OK`; a
    /// missing file `SQLITE_IOERR_DELETE_NOENT`, recording nothing; any other failure
    /// `SQLITE_DELETE`, with the error recorded.
    pub fn delete_outcome(&mut self, answer: Result<(), Error>) -> (r: i32)
        ensures
            answer is Ok ==> r == SQLITE_OK && final(self).last_error == old(self).last_error,
            (answer is Err && answer->Err_0 is DbNotFound) ==> r == SQLITE_IOERR_DELETE_NOENT
                && final(self).last_error == old(self).last_error,
            (answer is Err && !(answer->Err_0 is DbNotFound)) ==> r == SQLITE_DELETE
                && final(self).last_error == Some((SQLITE_DELETE, answer->Err_0)),
            final(self).name == old(self).name,
            final(self).vfs == old(self).vfs,
            final(self).next_id == old(self).next_id,
            final(self).calls == old(self).calls,
    {
        match answer {
            Ok(()) => SQLITE_OK,
            Err(Error::DbNotFound { .. }) => SQLITE_IOERR_DELETE_NOENT,
            Err(err) => self.set_last_error(SQLITE_DELETE, err),
        }
    }

    /// Deletes the file at `path` through the backend; [State::delete_outcome] decides on
    /// the answer.
    pub fn delete(&mut self, path: &str) -> (r: i32)
        ensures
            final(self).calls@ == old(self).calls@.push(VfsCall::Delete(path@)),
            r == SQLITE_OK || r == SQLITE_IOERR_DELETE_NOENT || r == SQLITE_DELETE,
            r == SQLITE_DELETE ==> final(self).records(SQLITE_DELETE),
            r != SQLITE_DELETE ==> final(self).last_error == old(self).last_error,
            final(self).name == old(self).name,
            final(self).next_id == old(self).next_id,
    {
        let answer = self.vfs.delete(path);
        self.calls = Ghost(self.calls@.push(VfsCall::Delete(path@)));
        self.delete_outcome(answer)
    }

    /// What follows the backend's `answer` to an access probe: the answer itself when the
    /// engine gave a place for it; `SQLITE_IOERR_ACCESS` with [Error::NullPtr] when it gave
    /// none; `SQLITE_IOERR_ACCESS` with the error recorded when the probe failed.
    pub fn access_outcome(&mut self, answer: Result<bool, Error>, has_out: bool) -> (r: (i32, bool))
        ensures
            (answer is Ok && has_out) ==> r == (SQLITE_OK, answer->Ok_0) && final(self).last_error
                == old(self).last_error,
            (answer is Ok && !has_out) ==> r == (SQLITE_IOERR_ACCESS, false)
                && final(self).last_error == Some((SQLITE_IOERR_ACCESS, Error::NullPtr)),
            answer is Err ==> r == (SQLITE_IOERR_ACCESS, false) && final(self).last_error == Some(
                (SQLITE_IOERR_ACCESS, answer->Err_0),
            ),
            final(self).name == old(self).name,
            final(self).vfs == old(self).vfs,
            final(self).next_id == old(self).next_id,
            final(self).calls == old(self).calls,
    {
        match answer {
            Ok(ok) => {
                if has_out {
                    (SQLITE_OK, ok)
                } else {
                    (self.set_last_error(SQLITE_IOERR_ACCESS, Error::NullPtr), false)
                }
            },
            Err(err) => (self.set_last_error(SQLITE_IOERR_ACCESS, err), false),
        }
    }

    /// Probes `path`: for `SQLITE_ACCESS_EXISTS` whether it exists, for
    /// `SQLITE_ACCESS_READ` whether it can be read, for `SQLITE_ACCESS_READWRITE` whether it
    /// can be written. `has_out` tells whether the engine gave a place for the answer.
    pub fn access(&mut self, path: &str, flags: i32, has_out: bool) -> (r: (i32, bool))
        ensures
            r.0 == SQLITE_OK || r.0 == SQLITE_IOERR_ACCESS,
            !(flags == SQLITE_ACCESS_EXISTS || flags == SQLITE_ACCESS_READ || flags
                == SQLITE_ACCESS_READWRITE) ==> r == (SQLITE_IOERR_ACCESS, false)
                && final(self).last_error == old(self).last_error,
            (flags == SQLITE_ACCESS_EXISTS || flags == SQLITE_ACCESS_READ || flags
                == SQLITE_ACCESS_READWRITE) ==> (r.0 == SQLITE_IOERR_ACCESS
                ==> final(self).records(SQLITE_IOERR_ACCESS)),
            r.0 == SQLITE_OK ==> has_out && final(self).last_error == old(self).last_error,
            r.0 != SQLITE_OK ==> !r.1,
            flags == SQLITE_ACCESS_EXISTS ==> final(self).calls@ == old(self).calls@.push(
                VfsCall::Exists(path@),
            ),
            flags == SQLITE_ACCESS_READ ==> final(self).calls@ == old(self).calls@.push(
                VfsCall::Access(path@, false),
            ),
            flags == SQLITE_ACCESS_READWRITE ==> final(self).calls@ == old(self).calls@.push(
                VfsCall::Access(path@, true),
            ),
            !(flags == SQLITE_ACCESS_EXISTS || flags == SQLITE_ACCESS_READ || flags
                == SQLITE_ACCESS_READWRITE) ==> final(self).calls == old(self).calls,
            final(self).name == old(self).name,
            final(self).next_id == old(self).next_id,
    {
        let answer = if flags == SQLITE_ACCESS_EXISTS {
            let a = self.vfs.file_exists(path);
            self.calls = Ghost(self.calls@.push(VfsCall::Exists(path@)));
            a
        } else if flags == SQLITE_ACCESS_READ {
            let a = self.vfs.access(path, false);
            self.calls = Ghost(self.calls@.push(VfsCall::Access(path@, false)));
            a
        } else if flags == SQLITE_ACCESS_READWRITE {
            let a = self.vfs.access(path, true);
            self.calls = Ghost(self.calls@.push(VfsCall::Access(path@, true)));
            a
        } else {
            return (SQLITE_IOERR_ACCESS, false);
        };
        self.access_outcome(answer, has_out)
    }

    /// What follows the backend's answer `full` to a full-path-name request, given a buffer
    /// of `n_out` bytes: the name, NUL-terminated, when it holds no NUL byte and fits the
    /// buffer and the system maximum; `SQLITE_CANTOPEN` with [Error::PathTooLong] when it is
    /// too long; `SQLITE_ERROR` when it holds a NUL byte.
    pub fn pathname_outcome(&mut self, full: &str, n_out: i32) -> (r: Result<Vec<u8>, i32>)
        ensures
            encode_utf8(full@).contains(0u8) ==> r == Err::<Vec<u8>, i32>(SQLITE_ERROR)
                && (final(self).last_error matches Some((SQLITE_ERROR, Error::External { .. }))),
            !encode_utf8(full@).contains(0u8) && (encode_utf8(full@).len() + 1 > n_out
                || encode_utf8(full@).len() + 1 > MAX_PATH_LENGTH) ==> r == Err::<Vec<u8>, i32>(
                SQLITE_CANTOPEN,
            ) && final(self).last_error == Some((SQLITE_CANTOPEN, Error::PathTooLong)),
            !encode_utf8(full@).contains(0u8) && encode_utf8(full@).len() + 1 <= n_out
                && encode_utf8(full@).len() + 1 <= MAX_PATH_LENGTH ==> r is Ok && r->Ok_0@
                == encode_utf8(full@).push(0u8) && final(self).last_error == old(self).last_error,
            final(self).name == old(self).name,
            final(self).vfs == old(self).vfs,
            final(self).next_id == old(self).next_id,
            final(self).calls == old(self).calls,
    {
        match pathname_bytes(full, n_out) {
            Ok(out) => Ok(out),
            Err(err) => {
                let code = if matches!(err, Error::PathTooLong) {
                    SQLITE_CANTOPEN
                } else {
                    SQLITE_ERROR
                };
                Err(self.set_last_error(code, err))
            },
        }
    }

    /// The full path name of `path`, NUL-terminated, to be copied into the engine's buffer of
    /// `n_out` bytes. A result that, with its NUL, exceeds that buffer or the system maximum
    /// of 512 bytes fails with [Error::PathTooLong] and `SQLITE_CANTOPEN`.
    pub fn full_pathname(&mut self, path: &str, n_out: i32) -> (r: Result<Vec<u8>, i32>)
        ensures
            r matches Ok(b) ==> b@.len() <= n_out && b@.len() <= MAX_PATH_LENGTH && b@.len() >= 1
                && b@.last() == 0u8,
            r matches Ok(_) ==> final(self).last_error == old(self).last_error,
            r matches Err(c) ==> (c == SQLITE_ERROR || c == SQLITE_CANTOPEN)
                && final(self).records(c),
            r == Err::<Vec<u8>, i32>(SQLITE_CANTOPEN) ==> final(self).last_error == Some(
                (SQLITE_CANTOPEN, Error::PathTooLong),
            ),
            final(self).calls@ == old(self).calls@.push(VfsCall::FullPathname(path@)),
            final(self).name == old(self).name,
            final(self).next_id == old(self).next_id,
    {
        let answer = self.vfs.full_pathname(path);
        self.calls = Ghost(self.calls@.push(VfsCall::FullPathname(path@)));
        match answer {
            Ok(full) => self.pathname_outcome(full.as_str(), n_out),
            Err(err) => Err(self.set_last_error(SQLITE_ERROR, err)),
        }
    }
}

} // verus!
