use std::cell::RefCell;
use std::collections::VecDeque;
use std::ops::Range;
use std::rc::Rc;
use std::time::Duration;

use sqlite_vfs::codes;
use sqlite_vfs::control::{file_control_arg_width, nul_terminated, size_hint_target, FileControlArg, FileControlOut};
use sqlite_vfs::shm::retry_index_readonly;
use sqlite_vfs::file::{chunked_size, FileExt};
use sqlite_vfs::vfs::{current_time_int64, julian_clock, pathname_bytes, State};
use sqlite_vfs::wip::{WalIndex, WalIndexLock};
use sqlite_vfs::{null_ptr_error, DatabaseHandle, Error, LockKind, OpenAccess, OpenKind, OpenOptions, RegisterError, Vfs, WalDisabled};

type Log = Rc<RefCell<Vec<String>>>;

struct MockWal {
    log: Log,
    lock_answer: Result<bool, Error>,
}

impl WalIndex for MockWal {
    fn map(&mut self, region: u32) -> Result<[u8; 32768], Error> {
        self.log.borrow_mut().push(format!("map({})", region));
        Ok([region as u8; 32768])
    }

    fn lock(&mut self, locks: Range<u8>, lock: WalIndexLock) -> Result<bool, Error> {
        self.log.borrow_mut().push(format!("lock({}..{},{:?})", locks.start, locks.end, lock));
        self.lock_answer.clone()
    }

    fn delete(self) -> Result<(), Error> {
        self.log.borrow_mut().push("delete".to_string());
        Ok(())
    }

    fn pull(&mut self, region: u32, _data: &mut [u8; 32768]) -> Result<(), Error> {
        self.log.borrow_mut().push(format!("pull({})", region));
        Ok(())
    }

    fn push(&mut self, region: u32, _data: &[u8; 32768]) -> Result<(), Error> {
        self.log.borrow_mut().push(format!("push({})", region));
        Ok(())
    }
}

struct MockFile {
    log: Log,
    size: u64,
    read_error: Option<Error>,
    write_error: Option<Error>,
    lock_answer: Result<bool, Error>,
    wal_denied: bool,
}

fn mock_file(log: &Log) -> MockFile {
    MockFile {
        log: log.clone(),
        size: 100,
        read_error: None,
        write_error: None,
        lock_answer: Ok(true),
        wal_denied: false,
    }
}

impl DatabaseHandle for MockFile {
    type WalIndex = MockWal;

    fn size(&self) -> Result<u64, Error> {
        Ok(self.size)
    }

    fn read_exact_at(&mut self, buf: &mut [u8], offset: u64) -> Result<(), Error> {
        self.log.borrow_mut().push(format!("read({},{})", buf.len(), offset));
        match &self.read_error {
            Some(e) => Err(e.clone()),
            None => Ok(()),
        }
    }

    fn write_all_at(&mut self, buf: &[u8], offset: u64) -> Result<(), Error> {
        self.log.borrow_mut().push(format!("write({},{})", buf.len(), offset));
        match &self.write_error {
            Some(e) => Err(e.clone()),
            None => Ok(()),
        }
    }

    fn sync(&mut self, data_only: bool) -> Result<(), Error> {
        self.log.borrow_mut().push(format!("sync({})", data_only));
        Ok(())
    }

    fn set_len(&mut self, size: u64) -> Result<(), Error> {
        self.log.borrow_mut().push(format!("set_len({})", size));
        self.size = size;
        Ok(())
    }

    fn lock(&mut self, lock: LockKind) -> Result<bool, Error> {
        self.log.borrow_mut().push(format!("db_lock({:?})", lock));
        self.lock_answer.clone()
    }

    fn reserved(&mut self) -> Result<bool, Error> {
        Ok(true)
    }

    fn current_lock(&self) -> Result<LockKind, Error> {
        Ok(LockKind::Reserved)
    }

    fn wal_index(&self, readonly: bool) -> Result<MockWal, Error> {
        self.log.borrow_mut().push(format!("wal_index({})", readonly));
        if self.wal_denied && !readonly {
            Err(Error::PermissionDenied)
        } else {
            Ok(MockWal { log: self.log.clone(), lock_answer: Ok(true) })
        }
    }
}

struct MockVfs {
    log: Log,
    open_results: RefCell<VecDeque<Result<(), Error>>>,
    exists: bool,
    delete_result: Result<(), Error>,
    full_name: String,
}

fn mock_vfs(log: &Log) -> MockVfs {
    MockVfs {
        log: log.clone(),
        open_results: RefCell::new(VecDeque::new()),
        exists: true,
        delete_result: Ok(()),
        full_name: "/data/main.db".to_string(),
    }
}

impl Vfs for MockVfs {
    type Handle = MockFile;

    fn open(&self, db: &str, opts: OpenOptions) -> Result<MockFile, Error> {
        self.log.borrow_mut().push(format!("open({},{:?})", db, opts.access));
        match self.open_results.borrow_mut().pop_front() {
            Some(Err(e)) => Err(e),
            _ => Ok(mock_file(&self.log)),
        }
    }

    fn delete(&self, db: &str) -> Result<(), Error> {
        self.log.borrow_mut().push(format!("delete({})", db));
        self.delete_result.clone()
    }

    fn file_exists(&self, db: &str) -> Result<bool, Error> {
        self.log.borrow_mut().push(format!("exists({})", db));
        Ok(self.exists)
    }

    fn temporary_name(&self) -> String {
        "tmp-1".to_string()
    }

    fn random(&self, buffer: &mut [i8]) {
        buffer.fill(7);
    }

    fn sleep(&self, duration: Duration) -> Duration {
        duration
    }

    fn full_pathname(&self, _db: &str) -> Result<String, Error> {
        Ok(self.full_name.clone())
    }
}

fn new_log() -> Log {
    Rc::new(RefCell::new(Vec::new()))
}

fn log_of(log: &Log) -> Vec<String> {
    log.borrow().clone()
}

fn new_file(log: &Log) -> FileExt<MockFile> {
    FileExt::new("example".to_string(), "main.db".to_string(), mock_file(log), false, 0, true)
}

#[test]
fn open_permission_fallback() {
    let log = new_log();
    let vfs = mock_vfs(&log);
    vfs.open_results.borrow_mut().push_back(Err(Error::PermissionDenied));
    let mut state = State::new("example".to_string(), vfs).ok().unwrap();
    let flags = codes::SQLITE_OPEN_MAIN_JOURNAL | codes::SQLITE_OPEN_READWRITE | codes::SQLITE_OPEN_CREATE;
    let (file, out) = state.open(Some("main.db-journal"), flags, true).ok().unwrap();
    assert_eq!(
        log_of(&log),
        vec!["open(main.db-journal,Create)", "exists(main.db-journal)", "open(main.db-journal,Read)"]
    );
    assert_eq!(out, codes::SQLITE_OPEN_MAIN_JOURNAL | codes::SQLITE_OPEN_READONLY);
    assert_eq!(file.id, 0);
    assert_eq!(state.next_id, 1);
}

#[test]
fn open_under_readonly_directory() {
    let log = new_log();
    let mut vfs = mock_vfs(&log);
    vfs.exists = false;
    vfs.open_results.borrow_mut().push_back(Err(Error::PermissionDenied));
    let mut state = State::new("example".to_string(), vfs).ok().unwrap();
    let flags = codes::SQLITE_OPEN_WAL
        | codes::SQLITE_OPEN_READWRITE
        | codes::SQLITE_OPEN_CREATE
        | codes::SQLITE_OPEN_EXCLUSIVE;
    let r = state.open(Some("main.db-wal"), flags, true);
    assert_eq!(r.err(), Some(codes::SQLITE_READONLY_DIRECTORY));
    assert_eq!(log_of(&log), vec!["open(main.db-wal,CreateNew)", "exists(main.db-wal)"]);
    assert_eq!(state.last_error, Some((codes::SQLITE_READONLY_DIRECTORY, Error::PermissionDenied)));
}

#[test]
fn open_other_failure_is_cantopen() {
    let log = new_log();
    let vfs = mock_vfs(&log);
    let cause = Error::External { cause: "boom".to_string() };
    vfs.open_results.borrow_mut().push_back(Err(cause.clone()));
    let mut state = State::new("example".to_string(), vfs).ok().unwrap();
    let flags = codes::SQLITE_OPEN_MAIN_DB | codes::SQLITE_OPEN_READWRITE;
    assert_eq!(state.open(Some("main.db"), flags, true).err(), Some(codes::SQLITE_CANTOPEN));
    assert_eq!(state.last_error, Some((codes::SQLITE_CANTOPEN, cause)));
    assert_eq!(log_of(&log).len(), 1);
}

#[test]
fn open_rejects_bad_flags_and_anonymous_files() {
    let log = new_log();
    let mut state = State::new("example".to_string(), mock_vfs(&log)).ok().unwrap();
    assert_eq!(state.open(Some("x"), codes::SQLITE_OPEN_READWRITE, true).err(), Some(codes::SQLITE_CANTOPEN));
    assert_eq!(state.last_error, Some((codes::SQLITE_CANTOPEN, Error::InvalidOpenFlags)));
    let flags = codes::SQLITE_OPEN_TEMP_DB | codes::SQLITE_OPEN_READWRITE;
    assert_eq!(state.open(None, flags, true).err(), Some(codes::SQLITE_CANTOPEN));
    let (file, out) = state.open(None, flags | codes::SQLITE_OPEN_DELETEONCLOSE, true).ok().unwrap();
    assert_eq!(file.db_name, "tmp-1");
    assert!(file.delete_on_close);
    assert_eq!(out, flags | codes::SQLITE_OPEN_DELETEONCLOSE);
}

#[test]
fn open_uri_psow_and_ids() {
    let log = new_log();
    let mut state = State::new("example".to_string(), mock_vfs(&log)).ok().unwrap();
    let flags = codes::SQLITE_OPEN_MAIN_DB | codes::SQLITE_OPEN_READWRITE | codes::SQLITE_OPEN_URI;
    let (a, _) = state.open(Some("a.db"), flags, false).ok().unwrap();
    assert!(!a.powersafe_overwrite);
    let (b, _) = state.open(Some("b.db"), flags & !codes::SQLITE_OPEN_URI, false).ok().unwrap();
    assert!(b.powersafe_overwrite);
    assert_eq!((a.id, b.id), (0, 1));
    state.next_id = usize::MAX;
    let (c, _) = state.open(Some("c.db"), flags, true).ok().unwrap();
    assert_eq!(c.id, usize::MAX);
    assert_eq!(state.next_id, 0);
}

#[test]
fn register_name_with_nul_is_refused() {
    let log = new_log();
    let r = State::new("exa\0mple".to_string(), mock_vfs(&log));
    assert_eq!(r.err().map(|_| ()), Some(()));
    match State::new("exa\0mple".to_string(), mock_vfs(&log)) {
        Err(e) => assert_eq!(e, RegisterError::Nul(3)),
        Ok(_) => panic!("expected a refusal"),
    }
}

#[test]
fn truncate_chunking() {
    let log = new_log();
    let mut file = new_file(&log);
    let vfs = mock_vfs(&log);
    let (status, _) = file.file_control(&vfs, codes::SQLITE_FCNTL_CHUNK_SIZE, FileControlArg::Int(4096));
    assert_eq!(status, codes::SQLITE_OK);
    assert_eq!(file.chunk_size, Some(4096));
    assert_eq!(file.truncate(5000), codes::SQLITE_OK);
    assert_eq!(log_of(&log), vec!["set_len(8192)"]);
}

#[test]
fn truncate_without_chunk_size() {
    let log = new_log();
    let mut file = new_file(&log);
    assert_eq!(file.truncate(5000), codes::SQLITE_OK);
    assert_eq!(file.truncate(0), codes::SQLITE_OK);
    assert_eq!(log_of(&log), vec!["set_len(5000)", "set_len(0)"]);
}

#[test]
fn chunked_size_values() {
    assert_eq!(chunked_size(5000, Some(4096)), 8192);
    assert_eq!(chunked_size(8192, Some(4096)), 8192);
    assert_eq!(chunked_size(0, Some(4096)), 0);
    assert_eq!(chunked_size(1, Some(3)), 3);
    assert_eq!(chunked_size(7, None), 7);
    assert_eq!(chunked_size(7, Some(0)), 7);
}

#[test]
fn shm_map_size_guard() {
    let log = new_log();
    let mut file = new_file(&log);
    let (status, _) = file.shm_map(0, 4096);
    assert_eq!(status, codes::SQLITE_IOERR_SHMMAP);
    assert_eq!(file.last_error, Some((codes::SQLITE_IOERR_SHMMAP, Error::InvalidRegionSize { size: 4096 })));
    assert_eq!(file.last_errno, codes::SQLITE_IOERR_SHMMAP);
    assert!(log_of(&log).is_empty());
}

#[test]
fn shm_map_region_is_pinned() {
    let log = new_log();
    let mut file = new_file(&log);
    let (status, ix) = file.shm_map(0, 32768);
    assert_eq!(status, codes::SQLITE_OK);
    let first = file.wal_index_regions[ix].data.as_ptr();
    let (status, ix1) = file.shm_map(1, 32768);
    assert_eq!(status, codes::SQLITE_OK);
    assert_ne!(ix, ix1);
    let (status, again) = file.shm_map(0, 32768);
    assert_eq!(status, codes::SQLITE_OK);
    assert_eq!(again, ix);
    assert_eq!(file.wal_index_regions[again].data.as_ptr(), first);
    assert_eq!(log_of(&log), vec!["wal_index(false)", "map(0)", "map(1)"]);
}

#[test]
fn shm_map_readonly_fallback() {
    let log = new_log();
    let mut f = mock_file(&log);
    f.wal_denied = true;
    let mut file = FileExt::new("example".to_string(), "main.db".to_string(), f, false, 0, true);
    let (status, _) = file.shm_map(0, 32768);
    assert_eq!(status, codes::SQLITE_READONLY);
    assert_eq!(log_of(&log), vec!["wal_index(false)", "wal_index(true)", "map(0)"]);
}

#[test]
fn shm_lock_pulls_before_acquire() {
    let log = new_log();
    let mut file = new_file(&log);
    file.shm_map(0, 32768);
    file.shm_map(1, 32768);
    log.borrow_mut().clear();
    let status = file.shm_lock(0, 1, codes::SQLITE_SHM_SHARED | codes::SQLITE_SHM_LOCK);
    assert_eq!(status, codes::SQLITE_OK);
    assert_eq!(log_of(&log), vec!["pull(0)", "pull(1)", "lock(0..1,Shared)"]);
    assert_eq!(file.wal_index_locks[0], WalIndexLock::Shared);
    assert_eq!(file.wal_index_locks[1], WalIndexLock::Unlocked);
}

#[test]
fn shm_lock_pushes_before_release() {
    let log = new_log();
    let mut file = new_file(&log);
    file.shm_map(0, 32768);
    file.shm_map(1, 32768);
    file.shm_map(2, 32768);
    let status = file.shm_lock(3, 1, codes::SQLITE_SHM_EXCLUSIVE | codes::SQLITE_SHM_LOCK);
    assert_eq!(status, codes::SQLITE_OK);
    assert_eq!(file.wal_index_locks[3], WalIndexLock::Exclusive);
    log.borrow_mut().clear();
    let status = file.shm_lock(3, 1, codes::SQLITE_SHM_UNLOCK | codes::SQLITE_SHM_EXCLUSIVE);
    assert_eq!(status, codes::SQLITE_OK);
    assert_eq!(log_of(&log), vec!["push(0)", "push(1)", "push(2)", "lock(3..4,Unlocked)"]);
    assert_eq!(file.wal_index_locks[3], WalIndexLock::Unlocked);
}

#[test]
fn shm_lock_without_sync() {
    let log = new_log();
    let mut file = new_file(&log);
    file.shm_map(0, 32768);
    assert_eq!(file.shm_lock(0, 1, codes::SQLITE_SHM_EXCLUSIVE | codes::SQLITE_SHM_LOCK), codes::SQLITE_OK);
    log.borrow_mut().clear();
    // holding an exclusive slot: no pull before a further acquisition
    assert_eq!(file.shm_lock(1, 2, codes::SQLITE_SHM_SHARED | codes::SQLITE_SHM_LOCK), codes::SQLITE_OK);
    // releasing slots that are not exclusive: no push
    assert_eq!(file.shm_lock(1, 2, codes::SQLITE_SHM_UNLOCK | codes::SQLITE_SHM_SHARED), codes::SQLITE_OK);
    assert_eq!(log_of(&log), vec!["lock(1..3,Shared)", "lock(1..3,Unlocked)"]);
}

#[test]
fn shm_lock_before_map_fails() {
    let log = new_log();
    let mut file = new_file(&log);
    let status = file.shm_lock(0, 1, codes::SQLITE_SHM_SHARED | codes::SQLITE_SHM_LOCK);
    assert_eq!(status, codes::SQLITE_IOERR_SHMLOCK);
    assert_eq!(file.last_error, Some((codes::SQLITE_IOERR_SHMLOCK, Error::WalIndexLock)));
}

#[test]
fn shm_barrier_and_unmap() {
    let log = new_log();
    let mut file = new_file(&log);
    file.shm_map(0, 32768);
    log.borrow_mut().clear();
    file.shm_barrier();
    assert_eq!(log_of(&log), vec!["pull(0)"]);
    assert_eq!(file.lock(codes::SQLITE_LOCK_EXCLUSIVE), codes::SQLITE_OK);
    log.borrow_mut().clear();
    file.shm_barrier();
    assert_eq!(log_of(&log), vec!["push(0)"]);
    assert_eq!(file.shm_unmap(1), codes::SQLITE_OK);
    assert!(file.wal_index_regions.is_empty());
    assert!(file.wal_index.is_none());
    assert_eq!(log_of(&log), vec!["push(0)", "delete"]);
}

#[test]
fn exclusive_lock_pulls_regions() {
    let log = new_log();
    let mut file = new_file(&log);
    file.shm_map(0, 32768);
    file.shm_map(5, 32768);
    log.borrow_mut().clear();
    assert_eq!(file.lock(codes::SQLITE_LOCK_SHARED), codes::SQLITE_OK);
    assert!(!file.has_exclusive_lock);
    assert_eq!(file.lock(codes::SQLITE_LOCK_EXCLUSIVE), codes::SQLITE_OK);
    assert!(file.has_exclusive_lock);
    assert_eq!(log_of(&log), vec!["db_lock(Shared)", "db_lock(Exclusive)", "pull(0)", "pull(5)"]);
    assert_eq!(file.unlock(codes::SQLITE_LOCK_SHARED), codes::SQLITE_OK);
    assert!(!file.has_exclusive_lock);
    assert_eq!(file.lock(9), codes::SQLITE_IOERR_LOCK);
    assert_eq!(file.last_errno, 0);
}

#[test]
fn lock_busy_and_error() {
    let log = new_log();
    let mut f = mock_file(&log);
    f.lock_answer = Ok(false);
    let mut file = FileExt::new("example".to_string(), "main.db".to_string(), f, false, 0, true);
    assert_eq!(file.lock(codes::SQLITE_LOCK_SHARED), codes::SQLITE_BUSY);
    file.file.lock_answer = Err(Error::External { cause: "down".to_string() });
    assert_eq!(file.lock(codes::SQLITE_LOCK_SHARED), codes::SQLITE_IOERR_LOCK);
    assert_eq!(file.last_errno, codes::SQLITE_IOERR_LOCK);
}

#[test]
fn file_control_vfsname() {
    let log = new_log();
    let mut file = new_file(&log);
    let vfs = mock_vfs(&log);
    let (status, out) = file.file_control(&vfs, codes::SQLITE_FCNTL_VFSNAME, FileControlArg::Pointer);
    assert_eq!(status, codes::SQLITE_OK);
    assert_eq!(out, FileControlOut::Name(vec![b'e', b'x', b'a', b'm', b'p', b'l', b'e', 0]));
}

#[test]
fn file_control_other_opcodes() {
    let log = new_log();
    let mut file = new_file(&log);
    let vfs = mock_vfs(&log);
    assert_eq!(
        file.file_control(&vfs, codes::SQLITE_FCNTL_LOCKSTATE, FileControlArg::Pointer),
        (codes::SQLITE_OK, FileControlOut::Int(2))
    );
    assert_eq!(
        file.file_control(&vfs, codes::SQLITE_FCNTL_PERSIST_WAL, FileControlArg::Int(-1)),
        (codes::SQLITE_OK, FileControlOut::Int(0))
    );
    assert_eq!(
        file.file_control(&vfs, codes::SQLITE_FCNTL_PERSIST_WAL, FileControlArg::Int(1)),
        (codes::SQLITE_OK, FileControlOut::Nothing)
    );
    assert!(file.persist_wal);
    assert_eq!(
        file.file_control(&vfs, codes::SQLITE_FCNTL_POWERSAFE_OVERWRITE, FileControlArg::Int(0)),
        (codes::SQLITE_OK, FileControlOut::Nothing)
    );
    assert_eq!(file.device_characteristics(), 0);
    assert_eq!(
        file.file_control(&vfs, codes::SQLITE_FCNTL_TEMPFILENAME, FileControlArg::Pointer),
        (codes::SQLITE_OK, FileControlOut::Name(b"tmp-1\0".to_vec()))
    );
    assert_eq!(
        file.file_control(&vfs, codes::SQLITE_FCNTL_HAS_MOVED, FileControlArg::Pointer),
        (codes::SQLITE_OK, FileControlOut::Int(0))
    );
    assert_eq!(
        file.file_control(&vfs, codes::SQLITE_FCNTL_SYNC, FileControlArg::Null),
        (codes::SQLITE_OK, FileControlOut::Nothing)
    );
    assert_eq!(
        file.file_control(&vfs, 18, FileControlArg::Null),
        (codes::SQLITE_NOTFOUND, FileControlOut::Nothing)
    );
    assert_eq!(
        file.file_control(&vfs, codes::SQLITE_FCNTL_LAST_ERRNO, FileControlArg::Pointer),
        (codes::SQLITE_OK, FileControlOut::Int(0))
    );
    assert_eq!(
        file.file_control(&vfs, codes::SQLITE_FCNTL_CHUNK_SIZE, FileControlArg::Null),
        (codes::SQLITE_NOTFOUND, FileControlOut::Nothing)
    );
    assert_eq!(file.last_error, Some((codes::SQLITE_NOTFOUND, Error::ExpectedArg { name: "chunk_size".to_string() })));
    assert_eq!(
        file.file_control(&vfs, codes::SQLITE_FCNTL_LAST_ERRNO, FileControlArg::Pointer),
        (codes::SQLITE_OK, FileControlOut::Int(codes::SQLITE_NOTFOUND))
    );
}

#[test]
fn file_control_size_hint() {
    let log = new_log();
    let mut file = new_file(&log);
    let vfs = mock_vfs(&log);
    // the mock file holds 100 bytes
    assert_eq!(
        file.file_control(&vfs, codes::SQLITE_FCNTL_SIZE_HINT, FileControlArg::Int64(50)),
        (codes::SQLITE_OK, FileControlOut::Nothing)
    );
    assert!(log_of(&log).is_empty());
    file.file_control(&vfs, codes::SQLITE_FCNTL_CHUNK_SIZE, FileControlArg::Int(64));
    assert_eq!(
        file.file_control(&vfs, codes::SQLITE_FCNTL_SIZE_HINT, FileControlArg::Int64(150)),
        (codes::SQLITE_OK, FileControlOut::Nothing)
    );
    assert_eq!(log_of(&log), vec!["set_len(192)"]);
    assert_eq!(
        file.file_control(&vfs, codes::SQLITE_FCNTL_SIZE_HINT, FileControlArg::Int64(-1)).0,
        codes::SQLITE_NOTFOUND
    );
    assert_eq!(file_control_arg_width(codes::SQLITE_FCNTL_SIZE_HINT), 8);
    assert_eq!(file_control_arg_width(codes::SQLITE_FCNTL_CHUNK_SIZE), 4);
    assert_eq!(file_control_arg_width(codes::SQLITE_FCNTL_VFSNAME), 0);
}

#[test]
fn short_read_is_not_an_error() {
    let log = new_log();
    let mut f = mock_file(&log);
    f.read_error = Some(Error::UnexpectedEof);
    let mut file = FileExt::new("example".to_string(), "main.db".to_string(), f, false, 0, true);
    let mut buf = [0u8; 16];
    assert_eq!(file.read(&mut buf, 90), codes::SQLITE_IOERR_SHORT_READ);
    assert_eq!(file.last_error, None);
    assert_eq!(file.last_errno, 0);
    file.file.read_error = Some(Error::External { cause: "gone".to_string() });
    assert_eq!(file.read(&mut buf, 0), codes::SQLITE_IOERR_READ);
    assert_eq!(file.last_errno, codes::SQLITE_IOERR_READ);
    file.file.read_error = None;
    assert_eq!(file.read(&mut buf, 0), codes::SQLITE_OK);
}

#[test]
fn write_to_full_target() {
    let log = new_log();
    let mut f = mock_file(&log);
    f.write_error = Some(Error::WriteZero);
    let mut file = FileExt::new("example".to_string(), "main.db".to_string(), f, false, 0, true);
    assert_eq!(file.write(&[1, 2, 3], 0), codes::SQLITE_FULL);
    assert_eq!(file.last_error, None);
    file.file.write_error = Some(Error::PermissionDenied);
    assert_eq!(file.write(&[1, 2, 3], 0), codes::SQLITE_IOERR_WRITE);
    assert_eq!(file.last_error, Some((codes::SQLITE_IOERR_WRITE, Error::PermissionDenied)));
}

#[test]
fn sector_size_is_constant() {
    let log = new_log();
    let mut file = new_file(&log);
    assert_eq!(file.sector_size(), 1024);
    file.shm_map(0, 32768);
    file.lock(codes::SQLITE_LOCK_EXCLUSIVE);
    assert_eq!(file.sector_size(), 1024);
    assert_eq!(file.device_characteristics(), codes::SQLITE_IOCAP_POWERSAFE_OVERWRITE);
}

#[test]
fn sync_size_and_reserved() {
    let log = new_log();
    let mut file = new_file(&log);
    assert_eq!(file.sync(codes::SQLITE_SYNC_DATAONLY), codes::SQLITE_OK);
    assert_eq!(file.sync(0), codes::SQLITE_OK);
    assert_eq!(log_of(&log), vec!["sync(true)", "sync(false)"]);
    assert_eq!(file.file_size(true), (codes::SQLITE_OK, 100));
    assert_eq!(file.file_size(false).0, codes::SQLITE_IOERR_FSTAT);
    assert_eq!(file.last_error, Some((codes::SQLITE_IOERR_FSTAT, null_ptr_error())));
    assert_eq!(file.check_reserved_lock(true), (codes::SQLITE_OK, true));
    assert_eq!(file.check_reserved_lock(false).0, codes::SQLITE_IOERR_CHECKRESERVEDLOCK);
}

#[test]
fn close_deletes_when_asked() {
    let log = new_log();
    let mut vfs = mock_vfs(&log);
    let mut file = FileExt::new("example".to_string(), "tmp-1".to_string(), mock_file(&log), true, 0, true);
    assert_eq!(file.close(&vfs), codes::SQLITE_OK);
    assert_eq!(log_of(&log), vec!["delete(tmp-1)"]);
    vfs.delete_result = Err(Error::External { cause: "busy".to_string() });
    assert_eq!(file.close(&vfs), codes::SQLITE_DELETE);
    let mut keep = new_file(&log);
    assert_eq!(keep.close(&vfs), codes::SQLITE_OK);
}

#[test]
fn vfs_delete_access_and_full_pathname() {
    let log = new_log();
    let mut vfs = mock_vfs(&log);
    vfs.delete_result = Err(Error::DbNotFound { name: "x".to_string() });
    let mut state = State::new("example".to_string(), vfs).ok().unwrap();
    assert_eq!(state.delete("x"), codes::SQLITE_IOERR_DELETE_NOENT);
    assert_eq!(state.last_error, None);
    state.vfs.delete_result = Err(Error::PermissionDenied);
    assert_eq!(state.delete("x"), codes::SQLITE_DELETE);
    assert_eq!(state.access("x", codes::SQLITE_ACCESS_EXISTS, true), (codes::SQLITE_OK, true));
    assert_eq!(state.access("x", codes::SQLITE_ACCESS_READWRITE, true), (codes::SQLITE_OK, true));
    assert_eq!(state.access("x", 7, true), (codes::SQLITE_IOERR_ACCESS, false));
    assert_eq!(state.full_pathname("main.db", 512).ok(), Some(b"/data/main.db\0".to_vec()));
    assert_eq!(state.full_pathname("main.db", 14).ok(), Some(b"/data/main.db\0".to_vec()));
    assert_eq!(state.full_pathname("main.db", 13).err(), Some(codes::SQLITE_CANTOPEN));
    assert_eq!(state.last_error, Some((codes::SQLITE_CANTOPEN, Error::PathTooLong)));
    state.vfs.full_name = "a".repeat(511);
    assert!(state.full_pathname("main.db", 1000).is_ok());
    state.vfs.full_name = "a".repeat(512);
    assert_eq!(state.full_pathname("main.db", 1000).err(), Some(codes::SQLITE_CANTOPEN));
}

#[test]
fn julian_clock_values() {
    assert_eq!(julian_clock(0), 210_866_760_000_000);
    assert_eq!(julian_clock(1_700_000_000), 210_866_760_000_000 + 1_700_000_000);
    let now = current_time_int64();
    // later than 2020-01-01 on the same scale
    assert!(now > 210_866_760_000_000 + 1_577_836_800);
}

#[test]
fn nul_terminated_names() {
    assert_eq!(nul_terminated("abc"), b"abc\0".to_vec());
    assert_eq!(nul_terminated(""), vec![0u8]);
    assert_eq!(nul_terminated("ab\0cd"), b"ab\0".to_vec());
}

#[test]
fn wal_disabled_refuses_everything() {
    let mut w = WalDisabled;
    assert!(!WalDisabled::enabled());
    assert_eq!(w.map(0).err(), Some(Error::WalDisabled));
    assert_eq!(w.lock(0..1, WalIndexLock::Shared).err(), Some(Error::WalDisabled));
    assert_eq!(w.delete(), Ok(()));
}

#[test]
fn open_options_fields() {
    let o = OpenOptions { kind: OpenKind::TempJournal, access: OpenAccess::Write, delete_on_close: true };
    assert_eq!(OpenOptions::from_flags(o.to_flags()), Some(o));
}

struct NoWalFile;

impl DatabaseHandle for NoWalFile {
    type WalIndex = WalDisabled;

    fn size(&self) -> Result<u64, Error> {
        Ok(0)
    }

    fn read_exact_at(&mut self, _buf: &mut [u8], _offset: u64) -> Result<(), Error> {
        Err(Error::UnexpectedEof)
    }

    fn write_all_at(&mut self, _buf: &[u8], _offset: u64) -> Result<(), Error> {
        Ok(())
    }

    fn sync(&mut self, _data_only: bool) -> Result<(), Error> {
        Ok(())
    }

    fn set_len(&mut self, _size: u64) -> Result<(), Error> {
        Ok(())
    }

    fn lock(&mut self, _lock: LockKind) -> Result<bool, Error> {
        Ok(true)
    }

    fn reserved(&mut self) -> Result<bool, Error> {
        Ok(false)
    }

    fn current_lock(&self) -> Result<LockKind, Error> {
        Ok(LockKind::Unlocked)
    }

    fn wal_index(&self, _readonly: bool) -> Result<WalDisabled, Error> {
        Ok(WalDisabled)
    }
}

#[test]
fn shm_map_with_wal_disabled() {
    let mut file = FileExt::new("example".to_string(), "main.db".to_string(), NoWalFile, false, 0, true);
    let (status, _) = file.shm_map(0, 32768);
    assert_eq!(status, codes::SQLITE_IOERR_SHMLOCK);
    assert_eq!(file.last_error, None);
    assert!(file.wal_index.is_none());
    // the default unlock goes through lock
    assert_eq!(file.unlock(codes::SQLITE_LOCK_NONE), codes::SQLITE_OK);
}

#[test]
fn shm_unmap_keeps_readonly_index() {
    let log = new_log();
    let mut f = mock_file(&log);
    f.wal_denied = true;
    let mut file = FileExt::new("example".to_string(), "main.db".to_string(), f, false, 0, true);
    assert_eq!(file.shm_map(0, 32768).0, codes::SQLITE_READONLY);
    assert_eq!(file.shm_lock(2, 1, codes::SQLITE_SHM_EXCLUSIVE | codes::SQLITE_SHM_LOCK), codes::SQLITE_OK);
    log.borrow_mut().clear();
    // a read-only index is never pushed
    assert_eq!(file.shm_lock(2, 1, codes::SQLITE_SHM_UNLOCK | codes::SQLITE_SHM_EXCLUSIVE), codes::SQLITE_OK);
    assert_eq!(log_of(&log), vec!["lock(2..3,Unlocked)"]);
    assert_eq!(file.shm_unmap(0), codes::SQLITE_OK);
    assert!(file.wal_index.is_some());
    assert_eq!(file.shm_unmap(1), codes::SQLITE_OK);
    assert!(file.wal_index.is_none());
    assert_eq!(log_of(&log), vec!["lock(2..3,Unlocked)"]);
    assert!(file.wal_index_locks.iter().all(|l| *l == WalIndexLock::Unlocked));
}

#[test]
fn pathname_bytes_limits() {
    assert_eq!(pathname_bytes("/a/b", 5), Ok(b"/a/b\0".to_vec()));
    assert_eq!(pathname_bytes("/a/b", 4), Err(Error::PathTooLong));
    assert_eq!(pathname_bytes("/a/b", -1), Err(Error::PathTooLong));
    assert!(matches!(pathname_bytes("/a\0b", 100), Err(Error::External { .. })));
    let long = "x".repeat(511);
    assert_eq!(pathname_bytes(&long, 600).map(|b| b.len()), Ok(512));
    let longer = "x".repeat(512);
    assert_eq!(pathname_bytes(&longer, 600), Err(Error::PathTooLong));
}

#[test]
fn last_error_message() {
    let log = new_log();
    let mut state = State::new("example".to_string(), mock_vfs(&log)).ok().unwrap();
    assert_eq!(state.get_last_error("anything", 100), (codes::SQLITE_OK, None));
    state.set_last_error(codes::SQLITE_CANTOPEN, Error::PathTooLong);
    assert_eq!(state.get_last_error("path too long", 100), (codes::SQLITE_CANTOPEN, Some(b"path too long\0".to_vec())));
    assert_eq!(state.get_last_error("path too long", 14), (codes::SQLITE_CANTOPEN, Some(b"path too long\0".to_vec())));
    assert_eq!(state.get_last_error("path too long", 13), (codes::SQLITE_ERROR, None));
    assert_eq!(state.get_last_error("a\0b", 100), (codes::SQLITE_ERROR, None));
}

#[test]
fn shm_lock_failure_after_push() {
    let log = new_log();
    let mut file = new_file(&log);
    file.shm_map(0, 32768);
    file.shm_map(1, 32768);
    assert_eq!(file.shm_lock(0, 1, codes::SQLITE_SHM_EXCLUSIVE | codes::SQLITE_SHM_LOCK), codes::SQLITE_OK);
    if let Some((wal, _)) = file.wal_index.as_mut() {
        wal.lock_answer = Err(Error::External { cause: "lost".to_string() });
    }
    log.borrow_mut().clear();
    let status = file.shm_lock(0, 1, codes::SQLITE_SHM_UNLOCK | codes::SQLITE_SHM_EXCLUSIVE);
    assert_eq!(status, codes::SQLITE_IOERR_SHMLOCK);
    assert_eq!(log_of(&log), vec!["push(0)", "push(1)", "lock(0..1,Unlocked)"]);
    assert_eq!(file.wal_index_locks[0], WalIndexLock::Exclusive);
    if let Some((wal, _)) = file.wal_index.as_mut() {
        wal.lock_answer = Ok(false);
    }
    assert_eq!(file.shm_lock(0, 1, codes::SQLITE_SHM_UNLOCK | codes::SQLITE_SHM_EXCLUSIVE), codes::SQLITE_BUSY);
}

#[test]
fn outcome_helpers() {
    let log = new_log();
    let mut file = new_file(&log);
    assert_eq!(file.lock_outcome(LockKind::Exclusive, Ok(true)), codes::SQLITE_OK);
    assert!(file.has_exclusive_lock);
    assert_eq!(file.lock_outcome(LockKind::Shared, Ok(false)), codes::SQLITE_BUSY);
    assert!(file.has_exclusive_lock);
    assert_eq!(file.lock_outcome(LockKind::Shared, Err(Error::PermissionDenied)), codes::SQLITE_IOERR_LOCK);
    assert_eq!(file.last_error, Some((codes::SQLITE_IOERR_LOCK, Error::PermissionDenied)));
    assert_eq!(file.unlock_outcome(LockKind::Shared, Ok(true)), codes::SQLITE_OK);
    assert!(!file.has_exclusive_lock);
    assert_eq!(file.unlock_outcome(LockKind::Shared, Err(Error::WriteZero)), codes::SQLITE_IOERR_UNLOCK);
    assert_eq!(file.close_outcome(Ok(())), codes::SQLITE_OK);
    assert_eq!(file.close_outcome(Err(Error::PermissionDenied)), codes::SQLITE_DELETE);
    assert_eq!(file.last_errno, codes::SQLITE_DELETE);
    assert_eq!(file.map_outcome(7, Ok([1u8; 32768]), true), (codes::SQLITE_READONLY, 0));
    assert_eq!(file.wal_index_regions[0].id, 7);
    assert_eq!(file.map_outcome(8, Err(Error::WalDisabled), false).0, codes::SQLITE_IOERR_SHMMAP);
    assert_eq!(file.wal_index_regions.len(), 1);
    assert_eq!(file.wal_lock_outcome(Ok(true), 2, 5, WalIndexLock::Shared), codes::SQLITE_OK);
    assert_eq!(file.wal_index_locks[2..5], [WalIndexLock::Shared; 3]);
    assert_eq!(file.wal_index_locks[5], WalIndexLock::Unlocked);
    assert_eq!(file.wal_lock_outcome(Ok(false), 0, 2, WalIndexLock::Exclusive), codes::SQLITE_BUSY);
    assert_eq!(file.wal_index_locks[0], WalIndexLock::Unlocked);
    assert_eq!(file.wal_lock_outcome(Err(Error::WalIndexLock), 0, 2, WalIndexLock::Exclusive), codes::SQLITE_IOERR_SHMLOCK);
    assert!(retry_index_readonly(&Error::PermissionDenied));
    assert!(!retry_index_readonly(&Error::WalDisabled));
    assert_eq!(size_hint_target(100, 50, Some(64)), None);
    assert_eq!(size_hint_target(100, 100, None), None);
    assert_eq!(size_hint_target(100, 150, Some(64)), Some(192));
    assert_eq!(size_hint_target(100, 150, None), Some(150));
}

#[test]
fn shm_map_disabled_changes_nothing() {
    let log = new_log();
    let mut file = new_file(&log);
    assert_eq!(file.shm_map_enabled(false, 0, 32768).0, codes::SQLITE_IOERR_SHMLOCK);
    assert!(file.wal_index.is_none());
    assert!(log_of(&log).is_empty());
    assert_eq!(file.shm_map_enabled(true, 0, 32768).0, codes::SQLITE_OK);
}

#[test]
fn vfs_outcome_helpers() {
    let log = new_log();
    let mut state = State::new("example".to_string(), mock_vfs(&log)).ok().unwrap();
    assert_eq!(state.delete_outcome(Ok(())), codes::SQLITE_OK);
    assert_eq!(state.delete_outcome(Err(Error::DbNotFound { name: "x".to_string() })), codes::SQLITE_IOERR_DELETE_NOENT);
    assert_eq!(state.last_error, None);
    assert_eq!(state.delete_outcome(Err(Error::WriteZero)), codes::SQLITE_DELETE);
    assert_eq!(state.access_outcome(Ok(false), true), (codes::SQLITE_OK, false));
    assert_eq!(state.access_outcome(Ok(true), false), (codes::SQLITE_IOERR_ACCESS, false));
    assert_eq!(state.last_error, Some((codes::SQLITE_IOERR_ACCESS, Error::NullPtr)));
    assert_eq!(state.access_outcome(Err(Error::WalDisabled), true), (codes::SQLITE_IOERR_ACCESS, false));
    assert_eq!(state.pathname_outcome("/x", 3), Ok(b"/x\0".to_vec()));
    assert_eq!(state.pathname_outcome("/x", 2), Err(codes::SQLITE_CANTOPEN));
    assert_eq!(state.last_error, Some((codes::SQLITE_CANTOPEN, Error::PathTooLong)));
    assert_eq!(state.pathname_outcome("/\0x", 20), Err(codes::SQLITE_ERROR));
}
