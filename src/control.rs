//! The file-control entry point: the opcodes the adapter answers and what each does.

use vstd::prelude::*;
use vstd::utf8::encode_utf8;

use crate::backend::{DatabaseHandle, Vfs};
use crate::codes::{
    SQLITE_ERROR, SQLITE_FCNTL_CHUNK_SIZE, SQLITE_FCNTL_CKPT_DONE, SQLITE_FCNTL_CKPT_START,
    SQLITE_FCNTL_COMMIT_PHASETWO, SQLITE_FCNTL_HAS_MOVED, SQLITE_FCNTL_LAST_ERRNO,
    SQLITE_FCNTL_LOCKSTATE, SQLITE_FCNTL_PERSIST_WAL, SQLITE_FCNTL_POWERSAFE_OVERWRITE,
    SQLITE_FCNTL_SIZE_HINT, SQLITE_FCNTL_SYNC, SQLITE_FCNTL_TEMPFILENAME, SQLITE_FCNTL_TRACE,
    SQLITE_FCNTL_VFSNAME, SQLITE_IOERR_TRUNCATE, SQLITE_NOTFOUND, SQLITE_OK,
};
use crate::error::Error;
use crate::file::{chunked_len, chunked_size, BackendCall, FileExt};

verus! {

/// `r` is the first `k` bytes of `b`, none of them NUL, followed by one NUL byte; and `b`
/// ends or holds a NUL byte at `k`.
pub open spec fn c_string_at(r: Seq<u8>, b: Seq<u8>, k: int) -> bool {
    &&& 0 <= k <= b.len()
    &&& r == b.take(k).push(0u8)
    &&& forall|i: int| 0 <= i < k ==> b[i] != 0
    &&& k == b.len() || b[k] == 0
}

/// `r` is `b` cut before its first NUL byte, followed by one NUL byte.
pub open spec fn is_c_string_of(r: Seq<u8>, b: Seq<u8>) -> bool {
    exists|k: int| c_string_at(r, b, k)
}

/// The bytes of `s` up to its first NUL byte, NUL-terminated, as the engine reads a name.
pub fn nul_terminated(s: &str) -> (r: Vec<u8>)
    ensures
        is_c_string_of(r@, encode_utf8(s@)),
{
    let b = s.as_bytes();
    let mut out: Vec<u8> = Vec::new();
    let mut i: usize = 0;
    while i < b.len() && b[i] != 0
        invariant
            0 <= i <= b@.len(),
            b@ == encode_utf8(s@),
            out@ == b@.take(i as int),
            forall|j: int| 0 <= j < i ==> b@[j] != 0,
        decreases b@.len() - i,
    {
        out.push(b[i]);
        assert(b@.take(i + 1) =~= b@.take(i as int).push(b@[i as int]));
        i += 1;
    }
    let ghost k = i as int;
    assert(k == b@.len() || b@[k] == 0);
    out.push(0u8);
    assert(c_string_at(out@, b@, k));
    out
}

/// What the engine handed over as the argument of a file-control call, read as the opcode
/// needs it (see [file_control_arg_width]).
#[derive(Debug, Clone, Copy, PartialEq, Eq, Structural)]
pub enum FileControlArg {
    /// A null pointer.
    Null,
    /// A non-null pointer that the opcode does not read.
    Pointer,
    /// The `int` it points to.
    Int(i32),
    /// The 64-bit integer it points to.
    Int64(i64),
}

/// What a file-control call writes back through its argument.
#[derive(Debug, Clone, PartialEq, Eq)]
pub enum FileControlOut {
    Nothing,
    /// An `int`.
    Int(i32),
    /// A NUL-terminated string, handed to the engine as a pointer it keeps.
    Name(Vec<u8>),
}

/// How many bytes opcode `op` reads from its argument: 4 for an `int`, 8 for a 64-bit
/// integer, 0 when it reads nothing.
pub fn file_control_arg_width(op: i32) -> (r: u8)
    ensures
        r == (if op == SQLITE_FCNTL_SIZE_HINT {
            8u8
        } else if op == SQLITE_FCNTL_CHUNK_SIZE || op == SQLITE_FCNTL_PERSIST_WAL || op
            == SQLITE_FCNTL_POWERSAFE_OVERWRITE {
            4u8
        } else {
            0u8
        }),
{
    if op == SQLITE_FCNTL_SIZE_HINT {
        8
    } else if op == SQLITE_FCNTL_CHUNK_SIZE || op == SQLITE_FCNTL_PERSIST_WAL || op
        == SQLITE_FCNTL_POWERSAFE_OVERWRITE {
        4
    } else {
        0
    }
}

/// The length a size hint of `hint` bytes asks of a file of `current` bytes under chunk
/// size `chunk`: none when the file is already at least that large, else the hint rounded up
/// to the chunk size.
pub fn size_hint_target(current: u64, hint: u64, chunk: Option<usize>) -> (r: Option<u64>)
    requires
        hint <= i64::MAX,
        chunk matches Some(c) ==> c <= i32::MAX,
    ensures
        r == (if current >= hint {
            None
        } else {
            Some(chunked_len(hint as int, chunk) as u64)
        }),
{
    if current >= hint {
        None
    } else {
        Some(chunked_size(hint, chunk))
    }
}

/// The opcodes that succeed without doing anything.
pub open spec fn is_silent_op(op: i32) -> bool {
    op == SQLITE_FCNTL_SYNC || op == SQLITE_FCNTL_COMMIT_PHASETWO || op == SQLITE_FCNTL_CKPT_DONE
        || op == SQLITE_FCNTL_CKPT_START || op == SQLITE_FCNTL_TRACE
}

/// The opcodes that the adapter handles.
pub open spec fn is_handled_op(op: i32) -> bool {
    is_silent_op(op) || op == SQLITE_FCNTL_LOCKSTATE || op == SQLITE_FCNTL_LAST_ERRNO || op
        == SQLITE_FCNTL_SIZE_HINT || op == SQLITE_FCNTL_CHUNK_SIZE || op == SQLITE_FCNTL_PERSIST_WAL
        || op == SQLITE_FCNTL_POWERSAFE_OVERWRITE || op == SQLITE_FCNTL_VFSNAME || op
        == SQLITE_FCNTL_TEMPFILENAME || op == SQLITE_FCNTL_HAS_MOVED
}

/// The answer to a query-or-set flag opcode: a negative argument queries the flag, any other
/// sets it to whether the argument is 1.
pub open spec fn flag_control(flag: bool, arg: FileControlArg) -> (bool, FileControlOut) {
    match arg {
        FileControlArg::Int(v) => if v < 0 {
            (flag, FileControlOut::Int(if flag { 1 } else { 0 }))
        } else {
            (v == 1, FileControlOut::Nothing)
        },
        _ => (flag, FileControlOut::Nothing),
    }
}

fn flag_control_exec(flag: bool, arg: FileControlArg) -> (r: (bool, FileControlOut))
    ensures
        r == flag_control(flag, arg),
{
    match arg {
        FileControlArg::Int(v) => if v < 0 {
            (flag, FileControlOut::Int(if flag { 1 } else { 0 }))
        } else {
            (v == 1, FileControlOut::Nothing)
        },
        _ => (flag, FileControlOut::Nothing),
    }
}

impl<F: DatabaseHandle> FileExt<F> {
    /// The file-control entry point: opcode `op` with argument `arg`. Returns the status and
    /// what to write back through the argument.
    pub fn file_control<V: Vfs>(&mut self, vfs: &V, op: i32, arg: FileControlArg) -> (r: (
        i32,
        FileControlOut,
    ))
        requires
            old(self).wf(),
        ensures
            final(self).wf(),
            final(self).same_wal_state(old(self)),
            final(self).has_exclusive_lock == old(self).has_exclusive_lock,
            final(self).vfs_name == old(self).vfs_name,
            final(self).db_name == old(self).db_name,
            final(self).delete_on_close == old(self).delete_on_close,
            final(self).id == old(self).id,
            !is_handled_op(op) ==> r == (SQLITE_NOTFOUND, FileControlOut::Nothing)
                && final(self).same_but_errors(old(self)) && final(self).same_errors(old(self)),
            is_silent_op(op) ==> r == (SQLITE_OK, FileControlOut::Nothing)
                && final(self).same_but_errors(old(self)) && final(self).same_errors(old(self)),
            op == SQLITE_FCNTL_LAST_ERRNO ==> r == (SQLITE_OK, if matches!(arg, FileControlArg::Null) {
                FileControlOut::Nothing
            } else {
                FileControlOut::Int(old(self).last_errno)
            }) && final(self).same_but_errors(old(self)) && final(self).same_errors(old(self)),
            op == SQLITE_FCNTL_PERSIST_WAL ==> r.0 == SQLITE_OK && r.1 == flag_control(
                old(self).persist_wal,
                arg,
            ).1 && final(self).persist_wal == flag_control(old(self).persist_wal, arg).0
                && final(self).powersafe_overwrite == old(self).powersafe_overwrite
                && final(self).chunk_size == old(self).chunk_size && final(self).same_errors(
                old(self),
            ) && final(self).calls == old(self).calls,
            op == SQLITE_FCNTL_POWERSAFE_OVERWRITE ==> r.0 == SQLITE_OK && r.1 == flag_control(
                old(self).powersafe_overwrite,
                arg,
            ).1 && final(self).powersafe_overwrite == flag_control(
                old(self).powersafe_overwrite,
                arg,
            ).0 && final(self).persist_wal == old(self).persist_wal && final(self).chunk_size
                == old(self).chunk_size && final(self).same_errors(old(self)) && final(self).calls
                == old(self).calls,
            op == SQLITE_FCNTL_VFSNAME ==> r.0 == SQLITE_OK && final(self).same_but_errors(old(self))
                && final(self).same_errors(old(self)) && (arg is Null ==> r.1
                == FileControlOut::Nothing) && (arg !is Null ==> (r.1 is Name && is_c_string_of(
                r.1->Name_0@,
                encode_utf8(old(self).vfs_name@),
            ))),
            op == SQLITE_FCNTL_TEMPFILENAME ==> r.0 == SQLITE_OK && final(self).same_but_errors(
                old(self),
            ) && final(self).same_errors(old(self)) && (arg is Null ==> r.1
                == FileControlOut::Nothing) && (arg !is Null ==> r.1 is Name),
            op == SQLITE_FCNTL_LOCKSTATE || op == SQLITE_FCNTL_HAS_MOVED ==> (r.0 == SQLITE_OK
                || r.0 == SQLITE_ERROR) && final(self).same_but_errors(old(self)) && (r.0
                == SQLITE_OK ==> final(self).same_errors(old(self)) && (arg is Null <==> r.1
                is Nothing)) && (r.0 == SQLITE_ERROR ==> final(self).recorded(r.0)),
            op == SQLITE_FCNTL_LOCKSTATE && r.0 == SQLITE_OK && arg !is Null ==> r.1 is Int && 0 <= r.1->Int_0 <= 4,
            op == SQLITE_FCNTL_HAS_MOVED && r.0 == SQLITE_OK && arg !is Null ==> r.1 is Int && (r.1->Int_0 == 0 || r.1->Int_0 == 1),
            op == SQLITE_FCNTL_CHUNK_SIZE ==> {
                &&& r.1 is Nothing
                &&& r.0 == SQLITE_OK || r.0 == SQLITE_NOTFOUND || r.0 == SQLITE_ERROR
                &&& r.0 != SQLITE_OK ==> final(self).recorded(r.0)
                    && final(self).chunk_size == old(self).chunk_size
                &&& !(arg is Int && arg->Int_0 >= 0) ==> r.0 == SQLITE_NOTFOUND
                    && (final(self).last_error matches Some((_, Error::ExpectedArg { .. })))
                    && final(self).calls == old(self).calls
                &&& (arg is Int && arg->Int_0 >= 0) ==> r.0 != SQLITE_NOTFOUND
                    && final(self).calls@ == old(self).calls@.push(
                    BackendCall::SetChunkSize(arg->Int_0 as usize),
                )
                &&& r.0 == SQLITE_OK ==> final(self).same_errors(old(self)) && arg is Int
                    && final(self).chunk_size == Some(arg->Int_0 as usize)
                &&& final(self).persist_wal == old(self).persist_wal
                &&& final(self).powersafe_overwrite == old(self).powersafe_overwrite
            },
            op == SQLITE_FCNTL_SIZE_HINT ==> {
                &&& r.1 is Nothing
                &&& r.0 == SQLITE_OK || r.0 == SQLITE_NOTFOUND || r.0 == SQLITE_ERROR || r.0
                    == SQLITE_IOERR_TRUNCATE
                &&& r.0 != SQLITE_OK ==> final(self).recorded(r.0)
                &&& r.0 == SQLITE_OK ==> final(self).same_errors(old(self))
                &&& !(arg is Int64 && arg->Int64_0 >= 0) ==> r.0 == SQLITE_NOTFOUND
                    && (final(self).last_error matches Some((_, Error::ExpectedArg { .. })))
                    && final(self).calls == old(self).calls
                &&& (arg is Int64 && arg->Int64_0 >= 0) ==> r.0 != SQLITE_NOTFOUND && (
                final(self).calls@ == old(self).calls@.push(BackendCall::Size)
                    || final(self).calls@ == old(self).calls@.push(BackendCall::Size).push(
                    BackendCall::SetLen(chunked_len(arg->Int64_0 as int, old(self).chunk_size) as u64),
                ))
                &&& final(self).same_config(old(self))
            },
    {
        if op == SQLITE_FCNTL_LOCKSTATE {
            match self.file.current_lock() {
                Ok(lock) => {
                    if matches!(arg, FileControlArg::Null) {
                        (SQLITE_OK, FileControlOut::Nothing)
                    } else {
                        (SQLITE_OK, FileControlOut::Int(lock.to_i32()))
                    }
                },
                Err(err) => (self.set_last_error(SQLITE_ERROR, err), FileControlOut::Nothing),
            }
        } else if op == SQLITE_FCNTL_LAST_ERRNO {
            if matches!(arg, FileControlArg::Null) {
                (SQLITE_OK, FileControlOut::Nothing)
            } else {
                (SQLITE_OK, FileControlOut::Int(self.last_errno))
            }
        } else if op == SQLITE_FCNTL_SIZE_HINT {
            let hint: i64 = match arg {
                FileControlArg::Int64(h) if h >= 0 => h,
                _ => {
                    return (
                        self.set_last_error(
                            SQLITE_NOTFOUND,
                            Error::ExpectedArg { name: "size hint".to_owned() },
                        ),
                        FileControlOut::Nothing,
                    );
                },
            };
            let size = self.file.size();
            self.calls = Ghost(self.calls@.push(BackendCall::Size));
            let current = match size {
                Ok(size) => size,
                Err(err) => return (self.set_last_error(SQLITE_ERROR, err), FileControlOut::Nothing),
            };
            let len = match size_hint_target(current, hint as u64, self.chunk_size) {
                None => return (SQLITE_OK, FileControlOut::Nothing),
                Some(len) => len,
            };
            let result = self.file.set_len(len);
            self.calls = Ghost(self.calls@.push(BackendCall::SetLen(len)));
            match result {
                Ok(()) => (SQLITE_OK, FileControlOut::Nothing),
                Err(err) => (self.set_last_error(SQLITE_IOERR_TRUNCATE, err), FileControlOut::Nothing),
            }
        } else if op == SQLITE_FCNTL_CHUNK_SIZE {
            let chunk: i32 = match arg {
                FileControlArg::Int(c) if c >= 0 => c,
                _ => {
                    return (
                        self.set_last_error(
                            SQLITE_NOTFOUND,
                            Error::ExpectedArg { name: "chunk_size".to_owned() },
                        ),
                        FileControlOut::Nothing,
                    );
                },
            };
            let answer = self.file.set_chunk_size(chunk as usize);
            self.calls = Ghost(self.calls@.push(BackendCall::SetChunkSize(chunk as usize)));
            if let Err(err) = answer {
                return (self.set_last_error(SQLITE_ERROR, err), FileControlOut::Nothing);
            }
            self.chunk_size = Some(chunk as usize);
            (SQLITE_OK, FileControlOut::Nothing)
        } else if op == SQLITE_FCNTL_PERSIST_WAL {
            let (flag, out) = flag_control_exec(self.persist_wal, arg);
            self.persist_wal = flag;
            (SQLITE_OK, out)
        } else if op == SQLITE_FCNTL_POWERSAFE_OVERWRITE {
            let (flag, out) = flag_control_exec(self.powersafe_overwrite, arg);
            self.powersafe_overwrite = flag;
            (SQLITE_OK, out)
        } else if op == SQLITE_FCNTL_VFSNAME {
            if matches!(arg, FileControlArg::Null) {
                (SQLITE_OK, FileControlOut::Nothing)
            } else {
                (SQLITE_OK, FileControlOut::Name(nul_terminated(self.vfs_name.as_str())))
            }
        } else if op == SQLITE_FCNTL_TEMPFILENAME {
            if matches!(arg, FileControlArg::Null) {
                (SQLITE_OK, FileControlOut::Nothing)
            } else {
                let name = vfs.temporary_name();
                (SQLITE_OK, FileControlOut::Name(nul_terminated(name.as_str())))
            }
        } else if op == SQLITE_FCNTL_HAS_MOVED {
            match self.file.moved() {
                Ok(moved) => {
                    if matches!(arg, FileControlArg::Null) {
                        (SQLITE_OK, FileControlOut::Nothing)
                    } else {
                        (SQLITE_OK, FileControlOut::Int(if moved { 1 } else { 0 }))
                    }
                },
                Err(err) => (self.set_last_error(SQLITE_ERROR, err), FileControlOut::Nothing),
            }
        } else if op == SQLITE_FCNTL_SYNC || op == SQLITE_FCNTL_COMMIT_PHASETWO || op
            == SQLITE_FCNTL_CKPT_DONE || op == SQLITE_FCNTL_CKPT_START || op == SQLITE_FCNTL_TRACE {
            (SQLITE_OK, FileControlOut::Nothing)
        } else {
            (SQLITE_NOTFOUND, FileControlOut::Nothing)
        }
    }
}

} // verus!
