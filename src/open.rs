//! What is being opened and how: the decoding of the engine's open flags, and the
//! failure policy of the open path.

use vstd::prelude::*;

use crate::codes::{
    SQLITE_OPEN_CREATE, SQLITE_OPEN_DELETEONCLOSE, SQLITE_OPEN_EXCLUSIVE, SQLITE_OPEN_MAIN_DB,
    SQLITE_OPEN_MAIN_JOURNAL, SQLITE_OPEN_READONLY, SQLITE_OPEN_READWRITE,
    SQLITE_OPEN_SUBJOURNAL, SQLITE_OPEN_SUPER_JOURNAL, SQLITE_OPEN_TEMP_DB,
    SQLITE_OPEN_TEMP_JOURNAL, SQLITE_OPEN_TRANSIENT_DB, SQLITE_OPEN_WAL,
};

verus! {

/// The object type that is being opened.
#[derive(Debug, Clone, Copy, PartialEq, Eq, Structural)]
pub enum OpenKind {
    MainDb,
    MainJournal,
    TempDb,
    TempJournal,
    TransientDb,
    SubJournal,
    SuperJournal,
    Wal,
}

/// The access an object is opened with.
#[derive(Debug, Clone, Copy, PartialEq, Eq, Structural)]
pub enum OpenAccess {
    /// Read access.
    Read,
    /// Write access (includes read access).
    Write,
    /// Create the file if it does not exist (includes write and read access).
    Create,
    /// Create the file, failing if it already exists (includes write and read access).
    CreateNew,
}

/// How a file is to be opened.
#[derive(Debug, Clone, Copy, PartialEq, Eq, Structural)]
pub struct OpenOptions {
    /// The object type that is being opened.
    pub kind: OpenKind,
    /// The access the object is opened with.
    pub access: OpenAccess,
    /// The file is deleted when it is closed.
    pub delete_on_close: bool,
}

/// The flag bit that names `kind`.
pub open spec fn kind_bit(kind: OpenKind) -> i32 {
    match kind {
        OpenKind::MainDb => SQLITE_OPEN_MAIN_DB,
        OpenKind::MainJournal => SQLITE_OPEN_MAIN_JOURNAL,
        OpenKind::TempDb => SQLITE_OPEN_TEMP_DB,
        OpenKind::TempJournal => SQLITE_OPEN_TEMP_JOURNAL,
        OpenKind::TransientDb => SQLITE_OPEN_TRANSIENT_DB,
        OpenKind::SubJournal => SQLITE_OPEN_SUBJOURNAL,
        OpenKind::SuperJournal => SQLITE_OPEN_SUPER_JOURNAL,
        OpenKind::Wal => SQLITE_OPEN_WAL,
    }
}

/// The flag bits that name `access`.
pub open spec fn access_bits(access: OpenAccess) -> i32 {
    match access {
        OpenAccess::Read => SQLITE_OPEN_READONLY,
        OpenAccess::Write => SQLITE_OPEN_READWRITE,
        OpenAccess::Create => SQLITE_OPEN_READWRITE | SQLITE_OPEN_CREATE,
        OpenAccess::CreateNew => SQLITE_OPEN_READWRITE | SQLITE_OPEN_CREATE
            | SQLITE_OPEN_EXCLUSIVE,
    }
}

/// The flag set that encodes `o`.
pub open spec fn options_flags(o: OpenOptions) -> i32 {
    kind_bit(o.kind) | access_bits(o.access) | (if o.delete_on_close {
        SQLITE_OPEN_DELETEONCLOSE
    } else {
        0
    })
}

pub open spec fn has_bit(flags: i32, bit: i32) -> bool {
    flags & bit != 0
}

/// The kind named by `flags`: the first kind bit set, in the engine's order of precedence.
pub open spec fn kind_of_flags(flags: i32) -> Option<OpenKind> {
    if has_bit(flags, SQLITE_OPEN_MAIN_DB) {
        Some(OpenKind::MainDb)
    } else if has_bit(flags, SQLITE_OPEN_MAIN_JOURNAL) {
        Some(OpenKind::MainJournal)
    } else if has_bit(flags, SQLITE_OPEN_TEMP_DB) {
        Some(OpenKind::TempDb)
    } else if has_bit(flags, SQLITE_OPEN_TEMP_JOURNAL) {
        Some(OpenKind::TempJournal)
    } else if has_bit(flags, SQLITE_OPEN_TRANSIENT_DB) {
        Some(OpenKind::TransientDb)
    } else if has_bit(flags, SQLITE_OPEN_SUBJOURNAL) {
        Some(OpenKind::SubJournal)
    } else if has_bit(flags, SQLITE_OPEN_SUPER_JOURNAL) {
        Some(OpenKind::SuperJournal)
    } else if has_bit(flags, SQLITE_OPEN_WAL) {
        Some(OpenKind::Wal)
    } else {
        None
    }
}

/// The access named by `flags`: create-exclusive before create before read-write before
/// read-only.
pub open spec fn access_of_flags(flags: i32) -> Option<OpenAccess> {
    if has_bit(flags, SQLITE_OPEN_CREATE) && has_bit(flags, SQLITE_OPEN_EXCLUSIVE) {
        Some(OpenAccess::CreateNew)
    } else if has_bit(flags, SQLITE_OPEN_CREATE) {
        Some(OpenAccess::Create)
    } else if has_bit(flags, SQLITE_OPEN_READWRITE) {
        Some(OpenAccess::Write)
    } else if has_bit(flags, SQLITE_OPEN_READONLY) {
        Some(OpenAccess::Read)
    } else {
        None
    }
}

/// The options that `flags` decode to, if both a kind and an access are named.
pub open spec fn options_of_flags(flags: i32) -> Option<OpenOptions> {
    match (kind_of_flags(flags), access_of_flags(flags)) {
        (Some(kind), Some(access)) => Some(
            OpenOptions {
                kind,
                access,
                delete_on_close: has_bit(flags, SQLITE_OPEN_DELETEONCLOSE),
            },
        ),
        _ => None,
    }
}

impl OpenKind {
    /// Decodes the kind from the engine's open flags.
    pub fn from_flags(flags: i32) -> (r: Option<OpenKind>)
        ensures
            r == kind_of_flags(flags),
    {
        if flags & SQLITE_OPEN_MAIN_DB != 0 {
            Some(OpenKind::MainDb)
        } else if flags & SQLITE_OPEN_MAIN_JOURNAL != 0 {
            Some(OpenKind::MainJournal)
        } else if flags & SQLITE_OPEN_TEMP_DB != 0 {
            Some(OpenKind::TempDb)
        } else if flags & SQLITE_OPEN_TEMP_JOURNAL != 0 {
            Some(OpenKind::TempJournal)
        } else if flags & SQLITE_OPEN_TRANSIENT_DB != 0 {
            Some(OpenKind::TransientDb)
        } else if flags & SQLITE_OPEN_SUBJOURNAL != 0 {
            Some(OpenKind::SubJournal)
        } else if flags & SQLITE_OPEN_SUPER_JOURNAL != 0 {
            Some(OpenKind::SuperJournal)
        } else if flags & SQLITE_OPEN_WAL != 0 {
            Some(OpenKind::Wal)
        } else {
            None
        }
    }

    /// The flag bit that names this kind.
    pub fn to_flags(self) -> (r: i32)
        ensures
            r == kind_bit(self),
    {
        match self {
            OpenKind::MainDb => SQLITE_OPEN_MAIN_DB,
            OpenKind::MainJournal => SQLITE_OPEN_MAIN_JOURNAL,
            OpenKind::TempDb => SQLITE_OPEN_TEMP_DB,
            OpenKind::TempJournal => SQLITE_OPEN_TEMP_JOURNAL,
            OpenKind::TransientDb => SQLITE_OPEN_TRANSIENT_DB,
            OpenKind::SubJournal => SQLITE_OPEN_SUBJOURNAL,
            OpenKind::SuperJournal => SQLITE_OPEN_SUPER_JOURNAL,
            OpenKind::Wal => SQLITE_OPEN_WAL,
        }
    }
}

impl OpenAccess {
    /// Decodes the access from the engine's open flags.
    pub fn from_flags(flags: i32) -> (r: Option<OpenAccess>)
        ensures
            r == access_of_flags(flags),
    {
        if flags & SQLITE_OPEN_CREATE != 0 && flags & SQLITE_OPEN_EXCLUSIVE != 0 {
            Some(OpenAccess::CreateNew)
        } else if flags & SQLITE_OPEN_CREATE != 0 {
            Some(OpenAccess::Create)
        } else if flags & SQLITE_OPEN_READWRITE != 0 {
            Some(OpenAccess::Write)
        } else if flags & SQLITE_OPEN_READONLY != 0 {
            Some(OpenAccess::Read)
        } else {
            None
        }
    }

    /// The flag bits that name this access.
    pub fn to_flags(self) -> (r: i32)
        ensures
            r == access_bits(self),
    {
        match self {
            OpenAccess::Read => SQLITE_OPEN_READONLY,
            OpenAccess::Write => SQLITE_OPEN_READWRITE,
            OpenAccess::Create => SQLITE_OPEN_READWRITE | SQLITE_OPEN_CREATE,
            OpenAccess::CreateNew => SQLITE_OPEN_READWRITE | SQLITE_OPEN_CREATE
                | SQLITE_OPEN_EXCLUSIVE,
        }
    }
}

impl OpenOptions {
    /// Decodes the options from the engine's open flags; `None` when the flags name no kind
    /// or no access.
    pub fn from_flags(flags: i32) -> (r: Option<OpenOptions>)
        ensures
            r == options_of_flags(flags),
    {
        let kind = match OpenKind::from_flags(flags) {
            Some(k) => k,
            None => return None,
        };
        let access = match OpenAccess::from_flags(flags) {
            Some(a) => a,
            None => return None,
        };
        Some(
            OpenOptions {
                kind,
                access,
                delete_on_close: flags & SQLITE_OPEN_DELETEONCLOSE != 0,
            },
        )
    }

    /// Encodes the options as the engine's open flags.
    pub fn to_flags(&self) -> (r: i32)
        ensures
            r == options_flags(*self),
    {
        self.kind.to_flags() | self.access.to_flags() | if self.delete_on_close {
            SQLITE_OPEN_DELETEONCLOSE
        } else {
            0
        }
    }
}

proof fn lemma_flag_bits(k: i32, a: i32, d: i32)
    requires
        k == 256 || k == 512 || k == 1024 || k == 2048 || k == 4096 || k == 8192 || k == 16384
            || k == 524288,
        a == 1 || a == 2 || a == 6 || a == 22,
        d == 0 || d == 8,
    ensures
        ((k | a | d) & 256 != 0) == (k == 256),
        ((k | a | d) & 512 != 0) == (k == 512),
        ((k | a | d) & 1024 != 0) == (k == 1024),
        ((k | a | d) & 2048 != 0) == (k == 2048),
        ((k | a | d) & 4096 != 0) == (k == 4096),
        ((k | a | d) & 8192 != 0) == (k == 8192),
        ((k | a | d) & 16384 != 0) == (k == 16384),
        ((k | a | d) & 524288 != 0) == (k == 524288),
        ((k | a | d) & 1 != 0) == (a == 1),
        ((k | a | d) & 2 != 0) == (a != 1),
        ((k | a | d) & 4 != 0) == (a == 6 || a == 22),
        ((k | a | d) & 16 != 0) == (a == 22),
        ((k | a | d) & 8 != 0) == (d == 8),
{
    assert(((k | a | d) & 256 != 0) == (k == 256) && ((k | a | d) & 512 != 0) == (k == 512)
        && ((k | a | d) & 1024 != 0) == (k == 1024) && ((k | a | d) & 2048 != 0) == (k == 2048)
        && ((k | a | d) & 4096 != 0) == (k == 4096) && ((k | a | d) & 8192 != 0) == (k == 8192)
        && ((k | a | d) & 16384 != 0) == (k == 16384) && ((k | a | d) & 524288 != 0) == (k
        == 524288) && ((k | a | d) & 1 != 0) == (a == 1) && ((k | a | d) & 2 != 0) == (a != 1)
        && ((k | a | d) & 4 != 0) == (a == 6 || a == 22) && ((k | a | d) & 16 != 0) == (a
        == 22) && ((k | a | d) & 8 != 0) == (d == 8)) by (bit_vector)
        requires
            k == 256 || k == 512 || k == 1024 || k == 2048 || k == 4096 || k == 8192 || k
                == 16384 || k == 524288,
            a == 1 || a == 2 || a == 6 || a == 22,
            d == 0 || d == 8,
    ;
}

/// Decoding the encoding of any options gives those options back.
pub proof fn lemma_open_options_round_trip(o: OpenOptions)
    ensures
        options_of_flags(options_flags(o)) == Some(o),
{
    let k = kind_bit(o.kind);
    let a = access_bits(o.access);
    let d: i32 = if o.delete_on_close {
        8
    } else {
        0
    };
    assert(SQLITE_OPEN_READWRITE | SQLITE_OPEN_CREATE == 6) by (bit_vector);
    assert(SQLITE_OPEN_READWRITE | SQLITE_OPEN_CREATE | SQLITE_OPEN_EXCLUSIVE == 22)
        by (bit_vector);
    lemma_flag_bits(k, a, d);
}

/// Why an open request could not be served as asked, given the backend's first failure.
#[derive(Debug, Clone, Copy, PartialEq, Eq, Structural)]
pub enum OpenFailure {
    /// The file would be created in a directory that cannot be written.
    ReadonlyDirectory,
    /// Retry once with read access only.
    RetryReadOnly,
    /// The failure is final.
    CantOpen,
}

/// The open-path failure policy, as a function of the failed request.
pub open spec fn open_failure_spec(
    permission_denied: bool,
    opts: OpenOptions,
    exists: bool,
) -> OpenFailure {
    if permission_denied && (opts.kind == OpenKind::SuperJournal || opts.kind
        == OpenKind::MainJournal || opts.kind == OpenKind::Wal) && (opts.access
        == OpenAccess::Create || opts.access == OpenAccess::CreateNew) && !exists {
        OpenFailure::ReadonlyDirectory
    } else if permission_denied && opts.access != OpenAccess::Read {
        OpenFailure::RetryReadOnly
    } else {
        OpenFailure::CantOpen
    }
}

/// Whether the policy needs to know if the file exists before it can decide.
pub open spec fn needs_exists_spec(permission_denied: bool, opts: OpenOptions) -> bool {
    permission_denied && (opts.kind == OpenKind::SuperJournal || opts.kind
        == OpenKind::MainJournal || opts.kind == OpenKind::Wal) && (opts.access
        == OpenAccess::Create || opts.access == OpenAccess::CreateNew)
}

/// Whether a permission failure on `opts` is answered by looking at whether the file
/// exists (a journal or WAL being created).
pub fn needs_exists_check(permission_denied: bool, opts: &OpenOptions) -> (r: bool)
    ensures
        r == needs_exists_spec(permission_denied, *opts),
{
    permission_denied && (opts.kind == OpenKind::SuperJournal || opts.kind
        == OpenKind::MainJournal || opts.kind == OpenKind::Wal) && (opts.access
        == OpenAccess::Create || opts.access == OpenAccess::CreateNew)
}

/// Decides what follows a failed open of `opts`: `permission_denied` tells whether the
/// backend refused on authorization grounds, `exists` whether the file exists.
pub fn open_failure(permission_denied: bool, opts: &OpenOptions, exists: bool) -> (r:
    OpenFailure)
    ensures
        r == open_failure_spec(permission_denied, *opts, exists),
{
    if needs_exists_check(permission_denied, opts) && !exists {
        OpenFailure::ReadonlyDirectory
    } else if permission_denied && opts.access != OpenAccess::Read {
        OpenFailure::RetryReadOnly
    } else {
        OpenFailure::CantOpen
    }
}

} // verus!
