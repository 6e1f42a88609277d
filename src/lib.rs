//! A virtual file system adapter for an embedded SQL database engine.
//!
//! The engine reaches storage through a fixed table of entry points. This crate holds the
//! logic behind those entry points: the lock ladder, the decoding of open flags, the
//! open-path failure policy, the file-control dispatch and the shared-memory (WAL-index)
//! protocol. The storage itself is provided by a backend implementing [Vfs],
//! [DatabaseHandle] and [wip::WalIndex].

pub mod backend;
pub mod codes;
pub mod control;
pub mod error;
pub mod file;
pub mod lock;
pub mod open;
pub mod shm;
pub mod vfs;
pub mod wip;

pub use backend::{DatabaseHandle, Vfs};
pub use error::{null_ptr_error, Error, RegisterError};
pub use lock::LockKind;
pub use open::{OpenAccess, OpenKind, OpenOptions};
pub use wip::WalDisabled;
