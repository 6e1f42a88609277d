//! The WAL-index capability: shared-memory regions and their lock slots.

use vstd::prelude::*;

use crate::error::Error;

verus! {

/// The mode in which a WAL-index lock slot is held.
#[derive(Debug, Clone, Copy, PartialEq, Eq, Structural)]
pub enum WalIndexLock {
    Unlocked,
    Shared,
    Exclusive,
}

/// The WAL index of a database file, obtained from [crate::DatabaseHandle::wal_index].
pub trait WalIndex: Sized {
    /// Whether the WAL index is available at all.
    fn enabled() -> bool {
        true
    }

    /// The current contents of region `region`.
    fn map(&mut self, region: u32) -> Result<[u8; 32768], Error>;

    /// Sets the lock slots `locks` to mode `lock`; `Ok(false)` when it cannot be had now.
    fn lock(&mut self, locks: core::ops::Range<u8>, lock: WalIndexLock) -> Result<bool, Error>;

    /// Removes the WAL index.
    fn delete(self) -> Result<(), Error>;

    /// Refreshes the local copy `data` of region `region`.
    fn pull(&mut self, region: u32, data: &mut [u8; 32768]) -> Result<(), Error> {
        Ok(())
    }

    /// Publishes the local copy `data` of region `region`.
    fn push(&mut self, region: u32, data: &[u8; 32768]) -> Result<(), Error> {
        Ok(())
    }
}

/// A WAL index for backends that offer none.
pub struct WalDisabled;

impl WalIndex for WalDisabled {
    fn enabled() -> bool {
        false
    }

    fn map(&mut self, region: u32) -> Result<[u8; 32768], Error> {
        Err(Error::WalDisabled)
    }

    fn lock(&mut self, locks: core::ops::Range<u8>, lock: WalIndexLock) -> Result<bool, Error> {
        Err(Error::WalDisabled)
    }

    fn delete(self) -> Result<(), Error> {
        Ok(())
    }
}

} // verus!
