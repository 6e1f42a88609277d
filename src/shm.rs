//! The shared-memory (WAL-index) protocol of a file: mapping regions, locking slots, and
//! keeping the regions coherent with the backend as locks are taken and released.

use vstd::prelude::*;

use crate::backend::DatabaseHandle;
use crate::codes::{
    SQLITE_ERROR, SQLITE_IOERR_SHMLOCK, SQLITE_IOERR_SHMMAP, SQLITE_OK, SQLITE_READONLY,
    SQLITE_SHM_EXCLUSIVE, SQLITE_SHM_LOCK, SQLITE_BUSY,
};
use crate::error::Error;
use crate::file::{BackendCall, FileExt, Region, WAL_INDEX_SLOTS};
use crate::wip::{WalIndex, WalIndexLock};

verus! {

/// Whether a refused request for a writable WAL index is retried read-only: exactly when
/// it was refused on permission grounds.
pub fn retry_index_readonly(err: &Error) -> (r: bool)
    ensures
        r == (*err is PermissionDenied),
{
    matches!(err, Error::PermissionDenied)
}

/// The ids of `regions`, in order.
pub open spec fn region_ids(regions: Seq<Region>) -> Seq<u32> {
    regions.map_values(|r: Region| r.id)
}

/// A pull of each region of `ids`, in order.
pub open spec fn pulls(ids: Seq<u32>) -> Seq<BackendCall> {
    ids.map_values(|id: u32| BackendCall::Pull(id))
}

/// A push of each region of `ids`, in order.
pub open spec fn pushes(ids: Seq<u32>) -> Seq<BackendCall> {
    ids.map_values(|id: u32| BackendCall::Push(id))
}

/// Some slot is held in exclusive mode.
pub open spec fn holds_exclusive(locks: Seq<WalIndexLock>) -> bool {
    exists|i: int| 0 <= i < locks.len() && locks[i] == WalIndexLock::Exclusive
}

/// Some slot of `[start, end)` is held in exclusive mode.
pub open spec fn overlaps_exclusive(locks: Seq<WalIndexLock>, start: int, end: int) -> bool {
    exists|i: int| start <= i < end && 0 <= i < locks.len() && locks[i] == WalIndexLock::Exclusive
}

/// `locks` with the slots of `[start, end)` set to `mode`.
pub open spec fn set_slots(locks: Seq<WalIndexLock>, start: int, end: int, mode: WalIndexLock) -> Seq<
    WalIndexLock,
> {
    Seq::new(locks.len(), |i: int| if start <= i < end { mode } else { locks[i] })
}

/// Whether some slot is held in exclusive mode.
pub fn any_exclusive(locks: &Vec<WalIndexLock>) -> (r: bool)
    ensures
        r == holds_exclusive(locks@),
{
    let mut i: usize = 0;
    while i < locks.len()
        invariant
            0 <= i <= locks@.len(),
            forall|j: int| 0 <= j < i ==> locks@[j] != WalIndexLock::Exclusive,
        decreases locks@.len() - i,
    {
        if locks[i] == WalIndexLock::Exclusive {
            return true;
        }
        i += 1;
    }
    false
}

/// Whether some slot of `[start, end)` is held in exclusive mode.
pub fn range_has_exclusive(locks: &Vec<WalIndexLock>, start: u8, end: u8) -> (r: bool)
    ensures
        r == overlaps_exclusive(locks@, start as int, end as int),
{
    let mut i: usize = start as usize;
    if end as usize <= i {
        return false;
    }
    while i < end as usize && i < locks.len()
        invariant
            start <= i,
            forall|j: int|
                start <= j < i && 0 <= j < locks@.len() ==> locks@[j] != WalIndexLock::Exclusive,
        decreases end as usize - i,
    {
        if locks[i] == WalIndexLock::Exclusive {
            return true;
        }
        i += 1;
    }
    false
}

/// The slot mode that shared-memory lock flags ask for.
pub open spec fn shm_mode(flags: i32) -> WalIndexLock {
    if flags & SQLITE_SHM_LOCK != 0 {
        if flags & SQLITE_SHM_EXCLUSIVE != 0 {
            WalIndexLock::Exclusive
        } else {
            WalIndexLock::Shared
        }
    } else {
        WalIndexLock::Unlocked
    }
}

/// Sets the slots of `[start, end)` to `mode`.
pub fn set_slot_range(locks: &mut Vec<WalIndexLock>, start: u8, end: u8, mode: WalIndexLock)
    requires
        end as int <= old(locks)@.len(),
    ensures
        final(locks)@ == set_slots(old(locks)@, start as int, end as int, mode),
{
    let ghost before = locks@;
    let mut slot: u8 = start;
    if end < start {
        assert(locks@ =~= set_slots(before, start as int, end as int, mode));
        return ;
    }
    while slot < end
        invariant
            start <= slot <= end,
            end as int <= before.len(),
            locks@ == set_slots(before, start as int, slot as int, mode),
        decreases end - slot,
    {
        locks.set(slot as usize, mode);
        assert(locks@ =~= set_slots(before, start as int, slot + 1, mode));
        slot += 1;
    }
}

/// The position of the region with id `id`, if it is materialized.
pub fn find_region(regions: &Vec<Region>, id: u32) -> (r: Option<usize>)
    ensures
        r matches Some(i) ==> i < regions@.len() && regions@[i as int].id == id,
        r is None ==> !region_ids(regions@).contains(id),
{
    let n = regions.len();
    let mut i: usize = 0;
    while i < n
        invariant
            n == regions@.len(),
            0 <= i <= n,
            forall|j: int| 0 <= j < i ==> regions@[j].id != id,
        decreases n - i,
    {
        if regions[i].id == id {
            return Some(i);
        }
        i += 1;
    }
    assert(forall|j: int| 0 <= j < n ==> region_ids(regions@)[j] != id);
    None
}

impl<F: DatabaseHandle> FileExt<F> {
    /// All fields but the region contents, the WAL index value and the call log are equal.
    pub open spec fn same_but_wal(&self, other: &Self) -> bool {
        &&& self.same_config(other)
        &&& self.same_errors(other)
        &&& self.file == other.file
        &&& self.ids() == other.ids()
        &&& self.wal_index_locks@ == other.wal_index_locks@
        &&& self.has_exclusive_lock == other.has_exclusive_lock
    }

    /// Refreshes every materialized region from `wal`, in the order mapped. With
    /// `stop_on_error`, the first failure ends the walk and is returned; without, failures
    /// are passed over.
    pub(crate) fn pull_all(&mut self, wal: &mut F::WalIndex, stop_on_error: bool) -> (r: Result<(), Error>)
        requires
            old(self).wf(),
        ensures
            final(self).wf(),
            final(self).same_but_wal(old(self)),
            final(self).wal_index == old(self).wal_index,
            r is Ok ==> final(self).calls@ == old(self).calls@ + pulls(old(self).ids()),
            r is Err ==> exists|k: int|
                0 < k <= old(self).ids().len() && final(self).calls@ == old(self).calls@
                    + #[trigger] pulls(old(self).ids()).take(k),
            !stop_on_error ==> r is Ok,
    {
        let n = self.wal_index_regions.len();
        let mut i: usize = 0;
        while i < n
            invariant
                n == self.wal_index_regions@.len(),
                0 <= i <= n,
                self.wf(),
                self.same_but_wal(old(self)),
                self.wal_index == old(self).wal_index,
                self.calls@ == old(self).calls@ + pulls(old(self).ids().take(i as int)),
            decreases n - i,
        {
            let ghost before = self.wal_index_regions@;
            let id = self.wal_index_regions[i].id;
            let region = &mut self.wal_index_regions[i];
            let res = wal.pull(id, &mut region.data);
            self.calls = Ghost(self.calls@.push(BackendCall::Pull(id)));
            assert(self.ids() =~= region_ids(before));
            assert(old(self).ids().take(i + 1) =~= old(self).ids().take(i as int).push(id));
            assert(pulls(old(self).ids().take(i + 1)) =~= pulls(old(self).ids().take(i as int)).push(BackendCall::Pull(id)));
            if stop_on_error {
                if let Err(err) = res {
                    assert(pulls(old(self).ids().take(i + 1)) =~= pulls(old(self).ids()).take(i + 1));
                    return Err(err);
                }
            }
            i += 1;
        }
        assert(old(self).ids().take(n as int) =~= old(self).ids());
        Ok(())
    }

    /// Publishes every materialized region to `wal`, in the order mapped. With
    /// `stop_on_error`, the first failure ends the walk and is returned; without, failures
    /// are passed over.
    pub(crate) fn push_all(&mut self, wal: &mut F::WalIndex, stop_on_error: bool) -> (r: Result<(), Error>)
        requires
            old(self).wf(),
        ensures
            final(self).wf(),
            final(self).same_but_wal(old(self)),
            final(self).wal_index == old(self).wal_index,
            final(self).wal_index_regions@ == old(self).wal_index_regions@,
            r is Ok ==> final(self).calls@ == old(self).calls@ + pushes(old(self).ids()),
            r is Err ==> exists|k: int|
                0 < k <= old(self).ids().len() && final(self).calls@ == old(self).calls@
                    + #[trigger] pushes(old(self).ids()).take(k),
            !stop_on_error ==> r is Ok,
    {
        let n = self.wal_index_regions.len();
        let mut i: usize = 0;
        while i < n
            invariant
                n == self.wal_index_regions@.len(),
                0 <= i <= n,
                self.wf(),
                self.same_but_wal(old(self)),
                self.wal_index == old(self).wal_index,
                self.wal_index_regions@ == old(self).wal_index_regions@,
                self.calls@ == old(self).calls@ + pushes(old(self).ids().take(i as int)),
            decreases n - i,
        {
            let id = self.wal_index_regions[i].id;
            let res = wal.push(id, &self.wal_index_regions[i].data);
            self.calls = Ghost(self.calls@.push(BackendCall::Push(id)));
            assert(old(self).ids().take(i + 1) =~= old(self).ids().take(i as int).push(id));
            assert(pushes(old(self).ids().take(i + 1)) =~= pushes(old(self).ids().take(i as int)).push(BackendCall::Push(id)));
            if stop_on_error {
                if let Err(err) = res {
                    assert(pushes(old(self).ids().take(i + 1)) =~= pushes(old(self).ids()).take(i + 1));
                    return Err(err);
                }
            }
            i += 1;
        }
        assert(old(self).ids().take(n as int) =~= old(self).ids());
        Ok(())
    }

    /// The WAL-index slot is filled alike, and alike read-only.
    pub open spec fn same_index_slot(&self, other: &Self) -> bool {
        &&& (self.wal_index is Some <==> other.wal_index is Some)
        &&& self.readonly_index() == other.readonly_index()
    }

    /// The calls that a shared-memory lock request with `flags` makes before the lock itself
    /// (see [FileExt::shm_sync_calls]).
    pub open spec fn lock_sync_calls(&self, flags: i32, start: int, end: int) -> Seq<BackendCall> {
        self.shm_sync_calls(flags & SQLITE_SHM_LOCK != 0, start, end)
    }

    /// The calls that a shared-memory lock request makes before the lock itself: a pull of
    /// every region before an acquisition while no slot is held exclusively, a push of every
    /// region before a release that touches an exclusive slot of a writable index, and
    /// nothing otherwise.
    pub open spec fn shm_sync_calls(&self, locking: bool, start: int, end: int) -> Seq<BackendCall> {
        if locking && !holds_exclusive(self.wal_index_locks@) {
            pulls(self.ids())
        } else if !locking && overlaps_exclusive(self.wal_index_locks@, start, end)
            && !self.readonly_index() {
            pushes(self.ids())
        } else {
            Seq::empty()
        }
    }

    /// The status that a successful map reports: `SQLITE_READONLY` on a read-only index.
    pub open spec fn map_status(readonly: bool) -> i32 {
        if readonly {
            SQLITE_READONLY
        } else {
            SQLITE_OK
        }
    }

    /// The map request that mapping region `ix` makes: none when it is already mapped.
    pub open spec fn map_calls(&self, ix: u32) -> Seq<BackendCall> {
        if self.ids().contains(ix) {
            Seq::empty()
        } else {
            seq![BackendCall::MapRegion(ix)]
        }
    }

    /// Nothing but the error slots, the lock slots, the regions, the WAL index and the call
    /// log differ.
    pub open spec fn same_frame_but_locks(&self, other: &Self) -> bool {
        &&& self.same_config(other)
        &&& self.file == other.file
        &&& self.has_exclusive_lock == other.has_exclusive_lock
    }

    /// Nothing but the error slots, the regions, the WAL index and the call log differ.
    pub open spec fn same_frame(&self, other: &Self) -> bool {
        &&& self.same_config(other)
        &&& self.file == other.file
        &&& self.wal_index_locks@ == other.wal_index_locks@
        &&& self.has_exclusive_lock == other.has_exclusive_lock
    }

    /// `new` is a state that mapping region `ix` of size `size` from `self` may leave, with
    /// result `r`, when the WAL index reports itself `enabled` or not.
    pub open spec fn map_result(
        &self,
        new: &Self,
        r: (i32, usize),
        ix: u32,
        size: i32,
        enabled: bool,
    ) -> bool {
        &&& new.wf()
        &&& new.same_frame(self)
        &&& !enabled ==> {
            &&& r.0 == SQLITE_IOERR_SHMLOCK
            &&& new.same_errors(self)
            &&& new.wal_index == self.wal_index
            &&& new.wal_index_regions@ == self.wal_index_regions@
            &&& new.calls == self.calls
        }
        &&& enabled ==> (r.0 == SQLITE_OK || r.0 == SQLITE_READONLY || r.0
            == SQLITE_IOERR_SHMMAP)
        &&& (enabled && size != 32768) ==> {
            &&& r.0 == SQLITE_IOERR_SHMMAP
            &&& new.last_error == Some(
                (SQLITE_IOERR_SHMMAP, Error::InvalidRegionSize { size: size as i64 }),
            )
            &&& new.last_errno == SQLITE_IOERR_SHMMAP
            &&& new.wal_index == self.wal_index
            &&& new.wal_index_regions@ == self.wal_index_regions@
            &&& new.calls == self.calls
        }
        &&& (enabled && size == 32768 && self.wal_index is Some && self.ids().contains(ix)) ==> {
            &&& r.0 == Self::map_status(self.readonly_index())
            &&& r.1 < self.wal_index_regions@.len()
            &&& self.wal_index_regions@[r.1 as int].id == ix
            &&& new.wal_index == self.wal_index
            &&& new.wal_index_regions@ == self.wal_index_regions@
            &&& new.calls == self.calls
            &&& new.same_errors(self)
        }
        &&& (enabled && size == 32768 && self.wal_index is Some && !self.ids().contains(ix)) ==> {
            &&& new.calls@ == self.calls@.push(BackendCall::MapRegion(ix))
            &&& new.wal_index is Some
            &&& new.readonly_index() == self.readonly_index()
        }
        &&& (enabled && size == 32768 && self.wal_index is None && new.wal_index is None) ==> {
            &&& r.0 == SQLITE_IOERR_SHMMAP
            &&& (new.calls@ == self.calls@.push(BackendCall::IndexRefused(false, false))
                || new.calls@ == self.calls@.push(BackendCall::IndexRefused(false, true)).push(
                BackendCall::IndexRefused(true, false),
            ) || new.calls@ == self.calls@.push(BackendCall::IndexRefused(false, true)).push(
                BackendCall::IndexRefused(true, true),
            ))
        }
        &&& (enabled && size == 32768 && self.wal_index is None && new.wal_index is Some) ==> {
            &&& !new.readonly_index() ==> new.calls@ == self.calls@.push(
                BackendCall::IndexOpened(false),
            ) + self.map_calls(ix)
            &&& new.readonly_index() ==> new.calls@ == self.calls@.push(
                BackendCall::IndexRefused(false, true),
            ).push(BackendCall::IndexOpened(true)) + self.map_calls(ix)
        }
        &&& r.0 == SQLITE_IOERR_SHMMAP ==> new.recorded(r.0) && new.wal_index_regions@
            == self.wal_index_regions@
        &&& r.0 != SQLITE_IOERR_SHMMAP ==> new.same_errors(self)
        &&& (r.0 == SQLITE_OK || r.0 == SQLITE_READONLY) ==> {
            &&& size == 32768
            &&& r.1 < new.wal_index_regions@.len()
            &&& new.wal_index_regions@[r.1 as int].id == ix
            &&& new.wal_index is Some
            &&& r.0 == Self::map_status(new.readonly_index())
            &&& new.ids() == self.ids() || new.ids() == self.ids().push(ix)
        }
        &&& forall|i: int|
            0 <= i < self.wal_index_regions@.len() ==> new.wal_index_regions@[i]
                == self.wal_index_regions@[i]
        &&& new.ids() == self.ids() || new.ids() == self.ids().push(ix)
        &&& self.wal_index is Some ==> (new.wal_index is Some && new.readonly_index()
            == self.readonly_index())
    }

    /// Obtains the WAL index from the backend: read-write, or, when that is refused and
    /// [retry_index_readonly] says so, read-only. Returns the index and whether it is
    /// read-only, or the last refusal.
    fn obtain_wal_index(&mut self) -> (r: Result<(F::WalIndex, bool), Error>)
        requires
            old(self).wf(),
        ensures
            final(self).wf(),
            final(self).same_frame(old(self)),
            final(self).same_errors(old(self)),
            final(self).wal_index == old(self).wal_index,
            final(self).wal_index_regions@ == old(self).wal_index_regions@,
            r matches Ok((_, ro)) ==> (!ro && final(self).calls@ == old(self).calls@.push(
                BackendCall::IndexOpened(false),
            )) || (ro && final(self).calls@ == old(self).calls@.push(
                BackendCall::IndexRefused(false, true),
            ).push(BackendCall::IndexOpened(true))),
            r is Err ==> (final(self).calls@ == old(self).calls@.push(
                BackendCall::IndexRefused(false, false),
            ) || final(self).calls@ == old(self).calls@.push(
                BackendCall::IndexRefused(false, true),
            ).push(BackendCall::IndexRefused(true, false)) || final(self).calls@
                == old(self).calls@.push(BackendCall::IndexRefused(false, true)).push(
                BackendCall::IndexRefused(true, true),
            )),
    {
        match self.file.wal_index(false) {
            Ok(wal) => {
                self.calls = Ghost(self.calls@.push(BackendCall::IndexOpened(false)));
                Ok((wal, false))
            },
            Err(err) => {
                let retry = retry_index_readonly(&err);
                self.calls = Ghost(self.calls@.push(BackendCall::IndexRefused(false, retry)));
                if !retry {
                    return Err(err);
                }
                match self.file.wal_index(true) {
                    Ok(wal) => {
                        self.calls = Ghost(self.calls@.push(BackendCall::IndexOpened(true)));
                        Ok((wal, true))
                    },
                    Err(err2) => {
                        let denied = retry_index_readonly(&err2);
                        self.calls = Ghost(
                            self.calls@.push(BackendCall::IndexRefused(true, denied)),
                        );
                        Err(err2)
                    },
                }
            },
        }
    }

    /// What follows the backend's `answer` to the map request for region `ix`, which is not
    /// mapped yet: the region is added at the end, or the failure is recorded and nothing is
    /// added.
    pub fn map_outcome(&mut self, ix: u32, answer: Result<[u8; 32768], Error>, readonly: bool) -> (r: (i32, usize))
        requires
            old(self).wf(),
            !old(self).ids().contains(ix),
        ensures
            final(self).wf(),
            final(self).same_frame(old(self)),
            final(self).wal_index == old(self).wal_index,
            final(self).calls == old(self).calls,
            answer is Ok ==> r.0 == Self::map_status(readonly) && r.1 == old(
                self,
            ).wal_index_regions@.len() && final(self).wal_index_regions@ == old(self).wal_index_regions@.push(
                Region { id: ix, data: Box::new(answer->Ok_0) },
            ) && final(self).ids() == old(self).ids().push(ix) && final(self).same_errors(old(self)),
            answer is Err ==> r.0 == SQLITE_IOERR_SHMMAP && final(self).last_error == Some(
                (SQLITE_IOERR_SHMMAP, answer->Err_0),
            ) && final(self).last_errno == SQLITE_IOERR_SHMMAP && final(self).wal_index_regions@
                == old(self).wal_index_regions@,
    {
        match answer {
            Ok(data) => {
                assert forall|j: int| 0 <= j < self.wal_index_regions@.len() implies
                    #[trigger] self.wal_index_regions@[j].id != ix by {
                    assert(self.ids()[j] == self.wal_index_regions@[j].id);
                }
                let n = self.wal_index_regions.len();
                self.wal_index_regions.push(Region { id: ix, data: Box::new(data) });
                assert(self.ids() =~= old(self).ids().push(ix));
                if readonly {
                    (SQLITE_READONLY, n)
                } else {
                    (SQLITE_OK, n)
                }
            },
            Err(err) => (self.set_last_error(SQLITE_IOERR_SHMMAP, err), 0),
        }
    }

    /// Maps region `ix` through `wal`: a region already mapped is handed out as it is, with
    /// no call; any other is requested and [FileExt::map_outcome] decides on the answer.
    fn map_region(&mut self, wal: &mut F::WalIndex, readonly: bool, ix: u32) -> (r: (i32, usize))
        requires
            old(self).wf(),
        ensures
            final(self).wf(),
            final(self).same_frame(old(self)),
            final(self).wal_index == old(self).wal_index,
            old(self).ids().contains(ix) ==> r.0 == Self::map_status(readonly) && r.1
                < old(self).wal_index_regions@.len() && old(self).wal_index_regions@[r.1 as int].id
                == ix && final(self).wal_index_regions@ == old(self).wal_index_regions@
                && final(self).calls == old(self).calls && final(self).same_errors(old(self))
                && *final(wal) == *old(wal),
            !old(self).ids().contains(ix) ==> final(self).calls@ == old(self).calls@.push(
                BackendCall::MapRegion(ix),
            ),
            r.0 == SQLITE_IOERR_SHMMAP ==> final(self).recorded(r.0)
                && final(self).wal_index_regions@ == old(self).wal_index_regions@,
            r.0 != SQLITE_IOERR_SHMMAP ==> final(self).same_errors(old(self)) && r.0
                == Self::map_status(readonly) && r.1 < final(self).wal_index_regions@.len()
                && final(self).wal_index_regions@[r.1 as int].id == ix,
            forall|i: int|
                0 <= i < old(self).wal_index_regions@.len() ==> final(self).wal_index_regions@[i]
                    == old(self).wal_index_regions@[i],
            final(self).ids() == old(self).ids() || final(self).ids() == old(self).ids().push(ix),
    {
        match find_region(&self.wal_index_regions, ix) {
            Some(i) => {
                assert(self.ids()[i as int] == ix);
                if readonly {
                    (SQLITE_READONLY, i)
                } else {
                    (SQLITE_OK, i)
                }
            },
            None => {
                let answer = wal.map(ix);
                self.calls = Ghost(self.calls@.push(BackendCall::MapRegion(ix)));
                let ghost n = self.wal_index_regions@.len();
                let r = self.map_outcome(ix, answer, readonly);
                if r.0 != SQLITE_IOERR_SHMMAP {
                    assert(answer is Ok);
                    assert(r.1 == n);
                    assert(self.wal_index_regions@[n as int].id == ix);
                }
                r
            },
        }
    }

    /// Maps WAL-index region `region_ix` of `region_size` bytes, given whether the WAL index
    /// reports itself `enabled`; returns the status with the region's position in
    /// [FileExt::wal_index_regions]. The WAL index is obtained first if need be. A region
    /// already mapped is handed out as it is: no region once mapped is replaced or moved
    /// until unmapped.
    pub fn shm_map_enabled(&mut self, enabled: bool, region_ix: u32, region_size: i32) -> (r: (
        i32,
        usize,
    ))
        requires
            old(self).wf(),
        ensures
            old(self).map_result(final(self), r, region_ix, region_size, enabled),
    {
        if !enabled {
            return (SQLITE_IOERR_SHMLOCK, 0);
        }
        if region_size != 32768 {
            return (
                self.set_last_error(
                    SQLITE_IOERR_SHMMAP,
                    Error::InvalidRegionSize { size: region_size as i64 },
                ),
                0,
            );
        }
        let (mut wal, readonly) = match self.wal_index.take() {
            Some(pair) => pair,
            None => match self.obtain_wal_index() {
                Ok(pair) => pair,
                Err(err) => return (self.set_last_error(SQLITE_IOERR_SHMMAP, err), 0),
            },
        };
        let ghost mid = self.calls@;
        let r = self.map_region(&mut wal, readonly, region_ix);
        assert(self.calls@ =~= mid + old(self).map_calls(region_ix));
        self.wal_index = Some((wal, readonly));
        r
    }

    /// `self` with `call` added to its call log.
    pub open spec fn with_call(&self, call: BackendCall) -> Self {
        FileExt { calls: Ghost(self.calls@.push(call)), ..*self }
    }

    /// Maps WAL-index region `region_ix` of `region_size` bytes: asks the WAL index whether
    /// it is enabled, logs the answer, and goes on as [FileExt::shm_map_enabled] does with it;
    /// when disabled, `SQLITE_IOERR_SHMLOCK` and nothing else changes.
    pub fn shm_map(&mut self, region_ix: u32, region_size: i32) -> (r: (i32, usize))
        requires
            old(self).wf(),
        ensures
            final(self).calls@.len() > old(self).calls@.len(),
            final(self).calls@[old(self).calls@.len() as int] is IndexEnabled,
            old(self).with_call(final(self).calls@[old(self).calls@.len() as int]).map_result(
                final(self),
                r,
                region_ix,
                region_size,
                final(self).calls@[old(self).calls@.len() as int]->IndexEnabled_0,
            ),
    {
        let enabled = <F::WalIndex as WalIndex>::enabled();
        self.calls = Ghost(self.calls@.push(BackendCall::IndexEnabled(enabled)));
        assert(*self == old(self).with_call(BackendCall::IndexEnabled(enabled)));
        let ghost n = old(self).calls@.len();
        let r = self.shm_map_enabled(enabled, region_ix, region_size);
        assert(self.calls@[n as int] == BackendCall::IndexEnabled(enabled));
        r
    }

    /// The calls that a memory barrier makes: with the exclusive database lock on a writable
    /// index, a push of every region; otherwise, while no slot is held exclusively, a pull of
    /// every region.
    pub open spec fn barrier_calls(&self) -> Seq<BackendCall> {
        match self.wal_index {
            None => Seq::empty(),
            Some((_, readonly)) => if self.has_exclusive_lock && !readonly {
                pushes(self.ids())
            } else if !holds_exclusive(self.wal_index_locks@) {
                pulls(self.ids())
            } else {
                Seq::empty()
            },
        }
    }

    /// What follows the backend's `answer` to a request for slots `[start, end)` in `mode`:
    /// granted, the slots take the mode and `SQLITE_OK`; refused, `SQLITE_BUSY` and no
    /// change; failed, `SQLITE_IOERR_SHMLOCK` with the error recorded.
    pub fn wal_lock_outcome(&mut self, answer: Result<bool, Error>, start: u8, end: u8, mode: WalIndexLock) -> (r: i32)
        requires
            old(self).wf(),
            end <= 255,
        ensures
            final(self).wf(),
            final(self).same_frame_but_locks(old(self)),
            final(self).wal_index == old(self).wal_index,
            final(self).wal_index_regions@ == old(self).wal_index_regions@,
            final(self).calls == old(self).calls,
            (answer is Ok && answer->Ok_0) ==> r == SQLITE_OK && final(self).wal_index_locks@
                == set_slots(old(self).wal_index_locks@, start as int, end as int, mode)
                && final(self).same_errors(old(self)),
            (answer is Ok && !answer->Ok_0) ==> r == SQLITE_BUSY && final(self).wal_index_locks@
                == old(self).wal_index_locks@ && final(self).same_errors(old(self)),
            answer is Err ==> r == SQLITE_IOERR_SHMLOCK && final(self).wal_index_locks@
                == old(self).wal_index_locks@ && final(self).last_error == Some(
                (SQLITE_IOERR_SHMLOCK, answer->Err_0),
            ) && final(self).last_errno == SQLITE_IOERR_SHMLOCK,
    {
        match answer {
            Ok(true) => {
                set_slot_range(&mut self.wal_index_locks, start, end, mode);
                SQLITE_OK
            },
            Ok(false) => SQLITE_BUSY,
            Err(err) => self.set_last_error(SQLITE_IOERR_SHMLOCK, err),
        }
    }

    /// Takes or releases the WAL-index lock slots `[offset, offset + n)` as `flags` say.
    /// Before an acquisition while no slot is held exclusively, every region is pulled;
    /// before a release that touches an exclusive slot of a writable index, every region is
    /// pushed. Only then is the lock requested.
    pub fn shm_lock(&mut self, offset: i32, n: i32, flags: i32) -> (r: i32)
        requires
            old(self).wf(),
            0 <= offset,
            0 <= n,
            offset + n <= 255,
        ensures
            final(self).wf(),
            r == SQLITE_OK || r == SQLITE_BUSY || r == SQLITE_IOERR_SHMLOCK,
            old(self).wal_index is None ==> r == SQLITE_IOERR_SHMLOCK && final(self).last_error
                == Some((SQLITE_IOERR_SHMLOCK, Error::WalIndexLock)) && final(self).calls
                == old(self).calls,
            r == SQLITE_IOERR_SHMLOCK ==> final(self).recorded(r),
            r != SQLITE_IOERR_SHMLOCK ==> final(self).same_errors(old(self)),
            r == SQLITE_OK ==> final(self).wal_index_locks@ == set_slots(
                old(self).wal_index_locks@,
                offset as int,
                offset + n,
                shm_mode(flags),
            ),
            r != SQLITE_OK ==> final(self).wal_index_locks@ == old(self).wal_index_locks@,
            (r == SQLITE_OK || r == SQLITE_BUSY) ==> final(self).calls@ == old(self).calls@
                + old(self).shm_sync_calls(flags & SQLITE_SHM_LOCK != 0, offset as int, offset + n)
                + seq![BackendCall::WalLock(offset as u8, (offset + n) as u8, shm_mode(flags))],
            (r == SQLITE_OK && flags & SQLITE_SHM_LOCK != 0 && !holds_exclusive(
                old(self).wal_index_locks@,
            )) ==> final(self).calls@ == old(self).calls@ + pulls(old(self).ids()) + seq![
                BackendCall::WalLock(offset as u8, (offset + n) as u8, shm_mode(flags)),
            ],
            (r == SQLITE_OK && flags & SQLITE_SHM_LOCK == 0 && overlaps_exclusive(
                old(self).wal_index_locks@,
                offset as int,
                offset + n,
            ) && !old(self).readonly_index()) ==> final(self).calls@ == old(self).calls@ + pushes(
                old(self).ids(),
            ) + seq![
                BackendCall::WalLock(offset as u8, (offset + n) as u8, WalIndexLock::Unlocked),
            ],
            old(self).wal_index is Some ==> final(self).calls@ == old(self).calls@
                + old(self).lock_sync_calls(flags, offset as int, offset + n) + seq![
                BackendCall::WalLock(offset as u8, (offset + n) as u8, shm_mode(flags)),
            ] || (r == SQLITE_IOERR_SHMLOCK && exists|k: int|
                0 < k <= old(self).lock_sync_calls(flags, offset as int, offset + n).len()
                    && final(self).calls@ == old(self).calls@ + #[trigger] old(
                    self,
                ).lock_sync_calls(flags, offset as int, offset + n).take(k)),
            final(self).ids() == old(self).ids(),
            final(self).same_config(old(self)),
            final(self).same_index_slot(old(self)),
            final(self).has_exclusive_lock == old(self).has_exclusive_lock,
    {
        let locking = flags & SQLITE_SHM_LOCK != 0;
        let exclusive = flags & SQLITE_SHM_EXCLUSIVE != 0;
        let start = offset as u8;
        let end = (offset + n) as u8;
        let mode = if locking {
            if exclusive {
                WalIndexLock::Exclusive
            } else {
                WalIndexLock::Shared
            }
        } else {
            WalIndexLock::Unlocked
        };
        let (mut wal, readonly) = match self.wal_index.take() {
            Some(pair) => pair,
            None => return self.set_last_error(SQLITE_IOERR_SHMLOCK, Error::WalIndexLock),
        };
        let ghost sync = old(self).shm_sync_calls(locking, offset as int, offset + n);
        assert(readonly == old(self).readonly_index());
        if locking {
            if !any_exclusive(&self.wal_index_locks) {
                if let Err(err) = self.pull_all(&mut wal, true) {
                    self.wal_index = Some((wal, readonly));
                    return self.set_last_error(SQLITE_IOERR_SHMLOCK, err);
                }
            } else {
                assert(self.calls@ =~= old(self).calls@ + sync);
            }
        } else if range_has_exclusive(&self.wal_index_locks, start, end) && !readonly {
            if let Err(err) = self.push_all(&mut wal, true) {
                self.wal_index = Some((wal, readonly));
                return self.set_last_error(SQLITE_IOERR_SHMLOCK, err);
            }
        } else {
            assert(self.calls@ =~= old(self).calls@ + sync);
        }
        assert(self.calls@ == old(self).calls@ + sync);
        let result = wal.lock(core::ops::Range { start, end }, mode);
        self.calls = Ghost(self.calls@.push(BackendCall::WalLock(start, end, mode)));
        assert(self.calls@ =~= old(self).calls@ + sync + seq![BackendCall::WalLock(start, end, mode)]);
        self.wal_index = Some((wal, readonly));
        self.wal_lock_outcome(result, start, end, mode)
    }

    /// Memory barrier on the WAL index: publishes the regions while holding the exclusive
    /// database lock on a writable index, else refreshes them while no slot is held
    /// exclusively. Failures of the backend are passed over.
    pub fn shm_barrier(&mut self)
        requires
            old(self).wf(),
        ensures
            final(self).wf(),
            final(self).calls@ == old(self).calls@ + old(self).barrier_calls(),
            final(self).same_but_wal(old(self)),
            final(self).same_index_slot(old(self)),
    {
        let (mut wal, readonly) = match self.wal_index.take() {
            Some(pair) => pair,
            None => {
                assert(self.calls@ =~= old(self).calls@ + old(self).barrier_calls());
                return ;
            },
        };
        if self.has_exclusive_lock && !readonly {
            let _ = self.push_all(&mut wal, false);
        } else if !any_exclusive(&self.wal_index_locks) {
            let _ = self.pull_all(&mut wal, false);
        } else {
            assert(self.calls@ =~= old(self).calls@ + old(self).barrier_calls());
        }
        self.wal_index = Some((wal, readonly));
    }

    /// Unmaps all WAL-index regions and forgets all slot locks. With `delete_flags == 1` the
    /// WAL index is dropped too, and deleted from the backend unless it is read-only.
    pub fn shm_unmap(&mut self, delete_flags: i32) -> (r: i32)
        requires
            old(self).wf(),
        ensures
            final(self).wf(),
            final(self).wal_index_regions@.len() == 0,
            forall|i: int|
                0 <= i < WAL_INDEX_SLOTS ==> final(self).wal_index_locks@[i] == WalIndexLock::Unlocked,
            delete_flags == 1 ==> final(self).wal_index is None,
            delete_flags != 1 ==> final(self).wal_index == old(self).wal_index,
            r == SQLITE_OK || r == SQLITE_ERROR,
            r == SQLITE_ERROR ==> delete_flags == 1 && (old(self).wal_index matches Some((_, false)))
                && final(self).recorded(r),
            r == SQLITE_OK ==> final(self).same_errors(old(self)),
            final(self).same_config(old(self)),
            final(self).has_exclusive_lock == old(self).has_exclusive_lock,
            final(self).calls == old(self).calls,
    {
        self.wal_index_regions = Vec::new();
        self.wal_index_locks = vec![WalIndexLock::Unlocked; WAL_INDEX_SLOTS];
        if delete_flags == 1 {
            if let Some((wal, readonly)) = self.wal_index.take() {
                if !readonly {
                    if let Err(err) = wal.delete() {
                        return self.set_last_error(SQLITE_ERROR, err);
                    }
                }
            }
        }
        SQLITE_OK
    }
}

} // verus!
