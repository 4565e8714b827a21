use vstd::prelude::*;

use std::collections::HashMap;

use crate::addressing::join_path;
use crate::addressing::page_offset;
use crate::addressing::spec_join;
use crate::addressing::spec_page_offset;
use crate::addressing::spec_tenant_segment_file_name;
use crate::addressing::spec_segment_no;
use crate::addressing::spec_wal_file_name;
use crate::addressing::tenant_segment_file_name;
use crate::addressing::wal_file_name;
use crate::buffer::spec_ensure_init;
use crate::buffer::AlignedBuf;
use crate::codec::spec_stamp;
use crate::codec::stamp_page;
use crate::types::Lsn;
use crate::types::PageId;
use crate::types::StorageError;
use crate::PAGES_PER_SEGMENT;
use crate::PAGE_SIZE;

verus! {

broadcast use vstd::std_specs::hash::group_hash_axioms;

/// Where a storage backend stands in its lifecycle. A backend is mounted
/// once its base directories exist and serving once at least one file
/// handle has been opened; nothing inside the backend ever closes it, so
/// the closed state is reached only by its owner shutting the process down.
#[derive(Debug, Clone, Copy, PartialEq, Eq, Structural)]
pub enum BackendState {
    Uninitialized,
    Mounted,
    Serving,
    Closed,
}

/// The key under which one space's cached file handle and extent tail are
/// held: the database id in the high half, the space id in the low half.
pub open spec fn spec_file_key(db_id: u32, space_id: u32) -> u64 {
    (db_id * 0x1_0000_0000 + space_id) as u64
}

/// The next LSN of a database's log: its recorded tail, or zero before the
/// first append.
pub open spec fn spec_wal_tail(tails: Map<u32, u64>, db_id: u32) -> int {
    if tails.contains_key(db_id) {
        tails[db_id] as int
    } else {
        0
    }
}

/// The first free page of a space: its recorded allocation tail, or zero
/// before the first reservation.
pub open spec fn spec_extent_next(extents: Map<u64, u32>, key: u64) -> int {
    if extents.contains_key(key) {
        extents[key] as int
    } else {
        0
    }
}

/// The page of a physically contiguous run that lies `i` pages past its
/// start.
pub open spec fn spec_nth_page(start: PageId, i: int) -> PageId
    recommends
        start.page_no + i <= u32::MAX,
{
    PageId { db_id: start.db_id, space_id: start.space_id, page_no: (start.page_no + i) as u32 }
}

/// The random-access page-I/O capability a buffer pool consumes: page
/// addressing, page-write preparation and extent accounting. Submitting
/// the prepared operation to the kernel is the unverified shell's part,
/// so the methods here decide and account; `page_location` fixes, per
/// implementation, where every page lives.
pub trait PageStore {
    /// Where a page lives: its segment file path and the byte offset of
    /// the page within that file.
    spec fn page_location(&self, page_id: PageId) -> (Seq<char>, int);

    /// The allocation tail of every space seen so far.
    spec fn extent_tails(&self) -> Map<u64, u32>;

    /// Resolves a page id to its segment file path and the page's byte
    /// offset within that file. Pure: the same id always resolves to the
    /// same place, across calls and across restarts.
    fn get_data_location(&self, page_id: PageId) -> (r: (String, u64))
        ensures
            r.0@ == self.page_location(page_id).0,
            r.1 as int == self.page_location(page_id).1,
    ;

    /// Prepares a page write: refuses a buffer that is not exactly one
    /// page long, otherwise stamps the checksum over the fully
    /// initialized page and names the file and offset the write must go
    /// to.
    fn prepare_write_page(&self, page_id: PageId, buf: AlignedBuf) -> (r: (
        AlignedBuf,
        Result<(String, u64), StorageError>,
    ))
        requires
            buf.wf(),
        ensures
            r.0.wf(),
            r.0.cap() == buf.cap(),
            buf.cap() != PAGE_SIZE ==> {
                &&& r.1 == Err::<(String, u64), StorageError>(StorageError::UnalignedBuffer)
                &&& r.0.bytes() == buf.bytes()
                &&& r.0.init_count() == buf.init_count()
            },
            buf.cap() == PAGE_SIZE ==> {
                &&& r.0.init_count() == PAGE_SIZE
                &&& r.0.bytes() == spec_stamp(
                    spec_ensure_init(buf.bytes(), buf.init_count(), PAGE_SIZE as int).0,
                )
                &&& r.1 matches Ok(loc) && loc.0@ == self.page_location(page_id).0 && loc.1 as int
                    == self.page_location(page_id).1
            },
    ;

    /// Prepares a batch write of physically contiguous pages starting at
    /// `start_page_id`: refuses the whole batch (with every buffer
    /// untouched) if any buffer is not exactly one page long, otherwise
    /// stamps each buffer and names, page by page, the file and offset
    /// its write must go to.
    fn prepare_write_pages(&self, start_page_id: PageId, bufs: Vec<AlignedBuf>) -> (r: (
        Vec<AlignedBuf>,
        Result<Vec<(String, u64)>, StorageError>,
    ))
        requires
            forall|i: int| 0 <= i < bufs@.len() ==> bufs@[i].wf(),
            start_page_id.page_no + bufs@.len() <= u32::MAX as int + 1,
        ensures
            r.0@.len() == bufs@.len(),
            !(forall|i: int| 0 <= i < bufs@.len() ==> bufs@[i].cap() == PAGE_SIZE) ==> {
                &&& r.1 == Err::<Vec<(String, u64)>, StorageError>(StorageError::UnalignedBuffer)
                &&& r.0@ == bufs@
            },
            (forall|i: int| 0 <= i < bufs@.len() ==> bufs@[i].cap() == PAGE_SIZE) ==> {
                &&& (forall|i: int|
                    #![trigger r.0@[i]]
                    0 <= i < bufs@.len() ==> {
                        &&& r.0@[i].wf()
                        &&& r.0@[i].cap() == PAGE_SIZE
                        &&& r.0@[i].init_count() == PAGE_SIZE
                        &&& r.0@[i].bytes() == spec_stamp(
                            spec_ensure_init(
                                bufs@[i].bytes(),
                                bufs@[i].init_count(),
                                PAGE_SIZE as int,
                            ).0,
                        )
                    })
                &&& r.1 matches Ok(locs) && locs@.len() == bufs@.len() && (forall|i: int|
                    #![trigger locs@[i]]
                    0 <= i < locs@.len() ==> {
                        &&& locs@[i].0@ == self.page_location(spec_nth_page(start_page_id, i)).0
                        &&& locs@[i].1 as int == self.page_location(spec_nth_page(start_page_id, i)).1
                    })
            },
    ;

    /// Reserves a contiguous run of pages for a space and returns its
    /// first page number. Each reservation begins exactly where the
    /// previous one on that space ended, so no two ever overlap. Fails
    /// only when the space would outgrow its page-number range.
    fn allocate_extent(&mut self, db_id: u32, space_id: u32, num_pages: u32) -> (r: Result<
        u32,
        StorageError,
    >)
        ensures
            ({
                let key = spec_file_key(db_id, space_id);
                let next = spec_extent_next(old(self).extent_tails(), key);
                &&& next + num_pages <= u32::MAX ==> {
                    &&& r == Ok::<u32, StorageError>(next as u32)
                    &&& final(self).extent_tails() == old(self).extent_tails().insert(
                        key,
                        (next + num_pages) as u32,
                    )
                }
                &&& next + num_pages > u32::MAX ==> {
                    &&& r == Err::<u32, StorageError>(StorageError::OutOfSpace)
                    &&& final(self).extent_tails() == old(self).extent_tails()
                }
            }),
    ;

    /// Computes the byte range whose backing blocks a released extent
    /// gives up: where it starts and how long it is. Addressing and the
    /// logical segment size are untouched, so every page outside the
    /// range keeps its location.
    fn free_extent(&self, db_id: u32, space_id: u32, start_page: u32, num_pages: u32) -> (r: (
        u64,
        u64,
    ))
        ensures
            r.0 as int == start_page as int * PAGE_SIZE as int,
            r.1 as int == num_pages as int * PAGE_SIZE as int,
    ;
}

/// The sequential log-I/O capability a transaction manager consumes:
/// LSN assignment and retention accounting for the per-database
/// append-only logs. The durability flush has no decision in it and so
/// lives wholly with the unverified shell.
pub trait WalStore {
    /// The log tail (next LSN) of every database seen so far.
    spec fn wal_tails(&self) -> Map<u32, u64>;

    /// Assigns the database's current tail as the record's LSN and
    /// advances the tail by the payload's length, as one step of this
    /// core-local state: two appends can never receive overlapping byte
    /// ranges. Fails only when the log would outgrow its address space.
    fn append_wal(&mut self, db_id: u32, payload: &[u8]) -> (r: Result<Lsn, StorageError>)
        ensures
            ({
                let t = spec_wal_tail(old(self).wal_tails(), db_id);
                let len = payload@.len() as int;
                &&& t + len <= u64::MAX ==> {
                    &&& r == Ok::<Lsn, StorageError>(Lsn(t as u64))
                    &&& final(self).wal_tails() == old(self).wal_tails().insert(
                        db_id,
                        (t + len) as u64,
                    )
                }
                &&& t + len > u64::MAX ==> {
                    &&& r == Err::<Lsn, StorageError>(StorageError::OutOfSpace)
                    &&& final(self).wal_tails() == old(self).wal_tails()
                }
            }),
    ;

    /// Computes how many leading bytes of a database's log may be
    /// reclaimed: everything strictly below the given LSN that was
    /// actually appended, and never a byte at or above it.
    fn truncate_wal(&self, db_id: u32, up_to_lsn: Lsn) -> (r: u64)
        ensures
            r as int == if up_to_lsn.0 as int <= spec_wal_tail(self.wal_tails(), db_id) {
                up_to_lsn.0 as int
            } else {
                spec_wal_tail(self.wal_tails(), db_id)
            },
            r <= up_to_lsn.0,
    ;
}

/// The resident storage backend: one instance per execution core, never
/// shared with another. It tracks each database's log tail and each
/// space's allocation tail locally, so appends and reservations need no
/// lock; the cached kernel file handles live with the unverified shell
/// that submits the I/O this backend prepares.
pub struct CoreStorage {
    core_id: usize,
    state: BackendState,
    base_data_dir: String,
    base_wal_dir: String,
    wal_offsets: HashMap<u32, u64>,
    extent_next: HashMap<u64, u32>,
}

impl CoreStorage {
    /// The core this backend is bound to.
    pub closed spec fn core_no(&self) -> int {
        self.core_id as int
    }

    /// Lifecycle stage.
    pub closed spec fn lifecycle(&self) -> BackendState {
        self.state
    }

    /// Base directory of the data segment files.
    pub closed spec fn data_base(&self) -> Seq<char> {
        self.base_data_dir@
    }

    /// Base directory of the write-ahead logs.
    pub closed spec fn wal_base(&self) -> Seq<char> {
        self.base_wal_dir@
    }

    /// The log tail (next LSN) of every database seen so far.
    pub closed spec fn tails(&self) -> Map<u32, u64> {
        self.wal_offsets@
    }

    /// The allocation tail of every space seen so far.
    pub closed spec fn extents(&self) -> Map<u64, u32> {
        self.extent_next@
    }

    /// A fresh backend for one core, mounted on the given directories,
    /// with no log tails and no reservations yet.
    pub fn new(core_id: usize, data_dir: String, wal_dir: String) -> (r: CoreStorage)
        ensures
            r.core_no() == core_id,
            r.lifecycle() == BackendState::Mounted,
            r.data_base() == data_dir@,
            r.wal_base() == wal_dir@,
            r.tails() == Map::<u32, u64>::empty(),
            r.extents() == Map::<u64, u32>::empty(),
    {
        CoreStorage {
            core_id,
            state: BackendState::Mounted,
            base_data_dir: data_dir,
            base_wal_dir: wal_dir,
            wal_offsets: HashMap::new(),
            extent_next: HashMap::new(),
        }
    }

    /// Where this backend stands in its lifecycle.
    pub fn lifecycle_state(&self) -> (r: BackendState)
        ensures
            r == self.lifecycle(),
    {
        self.state
    }

    /// Records that the first file handle has been opened: the backend is
    /// serving from here on. Never goes backwards.
    pub fn note_handle_opened(&mut self)
        requires
            old(self).lifecycle() == BackendState::Mounted || old(self).lifecycle()
                == BackendState::Serving,
        ensures
            final(self).lifecycle() == BackendState::Serving,
            final(self).core_no() == old(self).core_no(),
            final(self).data_base() == old(self).data_base(),
            final(self).wal_base() == old(self).wal_base(),
            final(self).tails() == old(self).tails(),
            final(self).extents() == old(self).extents(),
    {
        self.state = BackendState::Serving;
    }

    /// The handle-cache key of a space's segment files.
    pub fn file_key(db_id: u32, space_id: u32) -> (r: u64)
        ensures
            r == spec_file_key(db_id, space_id),
    {
        let r = ((db_id as u64) << 32) | (space_id as u64);
        proof {
            assert(((db_id as u64) << 32) | (space_id as u64) == ((db_id as u64)
                * 0x1_0000_0000u64 + (space_id as u64)) as u64) by (bit_vector);
        }
        r
    }

    /// The path of one database's write-ahead log file. Pure.
    pub fn get_wal_location(&self, db_id: u32) -> (r: String)
        ensures
            r@ == spec_join(self.wal_base(), spec_wal_file_name(db_id as int)),
    {
        let name = wal_file_name(db_id);
        join_path(&self.base_wal_dir, &name)
    }
}

impl PageStore for CoreStorage {
    /// Pages live in multi-tenant segment files under the data directory,
    /// each page at its offset within its segment.
    open spec fn page_location(&self, page_id: PageId) -> (Seq<char>, int) {
        (
            spec_join(
                self.data_base(),
                spec_tenant_segment_file_name(
                    page_id.db_id as int,
                    page_id.space_id as int,
                    spec_segment_no(page_id.page_no as int),
                ),
            ),
            spec_page_offset(page_id.page_no as int),
        )
    }

    open spec fn extent_tails(&self) -> Map<u64, u32> {
        self.extents()
    }

    fn get_data_location(&self, page_id: PageId) -> (r: (String, u64)) {
        let segment_no = page_id.page_no / PAGES_PER_SEGMENT;
        let name = tenant_segment_file_name(page_id.db_id, page_id.space_id, segment_no);
        let path = join_path(&self.base_data_dir, &name);
        let offset = page_offset(page_id.page_no);
        (path, offset)
    }

    fn prepare_write_page(&self, page_id: PageId, buf: AlignedBuf) -> (r: (
        AlignedBuf,
        Result<(String, u64), StorageError>,
    )) {
        let mut buf = buf;
        if buf.len() != PAGE_SIZE {
            return (buf, Err(StorageError::UnalignedBuffer));
        }
        stamp_page(&mut buf);
        let loc = self.get_data_location(page_id);
        (buf, Ok(loc))
    }

    fn prepare_write_pages(&self, start_page_id: PageId, bufs: Vec<AlignedBuf>) -> (r: (
        Vec<AlignedBuf>,
        Result<Vec<(String, u64)>, StorageError>,
    )) {
        let n = bufs.len();
        let mut idx: usize = 0;
        while idx < n
            invariant
                n == bufs@.len(),
                idx <= n,
                forall|j: int| 0 <= j < n ==> bufs@[j].wf(),
                forall|j: int| 0 <= j < idx ==> bufs@[j].cap() == PAGE_SIZE,
            decreases n - idx,
        {
            if bufs[idx].len() != PAGE_SIZE {
                return (bufs, Err(StorageError::UnalignedBuffer));
            }
            idx = idx + 1;
        }
        let ghost all = bufs@;
        let mut rest = bufs;
        let mut out: Vec<AlignedBuf> = Vec::new();
        let mut locs: Vec<(String, u64)> = Vec::new();
        while out.len() < n
            invariant
                n == all.len(),
                out@.len() + rest@.len() == n,
                out@.len() == locs@.len(),
                rest@ == all.subrange(out@.len() as int, n as int),
                forall|i: int| 0 <= i < n ==> all[i].wf() && all[i].cap() == PAGE_SIZE,
                start_page_id.page_no + n <= u32::MAX as int + 1,
                forall|i: int|
                    #![trigger out@[i]]
                    0 <= i < out@.len() ==> {
                        &&& out@[i].wf()
                        &&& out@[i].cap() == PAGE_SIZE
                        &&& out@[i].init_count() == PAGE_SIZE
                        &&& out@[i].bytes() == spec_stamp(
                            spec_ensure_init(all[i].bytes(), all[i].init_count(), PAGE_SIZE as int).0,
                        )
                    },
                forall|i: int|
                    #![trigger locs@[i]]
                    0 <= i < locs@.len() ==> {
                        &&& locs@[i].0@ == spec_join(
                            self.data_base(),
                            spec_tenant_segment_file_name(
                                start_page_id.db_id as int,
                                start_page_id.space_id as int,
                                spec_segment_no(start_page_id.page_no + i),
                            ),
                        )
                        &&& locs@[i].1 as int == spec_page_offset(start_page_id.page_no + i)
                    },
            decreases n - out@.len(),
        {
            let ghost k = out@.len() as int;
            let mut buf = rest.remove(0);
            proof {
                assert(buf == all[k]);
                assert(rest@ =~= all.subrange(k + 1, n as int));
            }
            let page_id = PageId {
                db_id: start_page_id.db_id,
                space_id: start_page_id.space_id,
                page_no: start_page_id.page_no + (out.len() as u32),
            };
            stamp_page(&mut buf);
            let loc = self.get_data_location(page_id);
            let ghost out_before = out@;
            let ghost locs_before = locs@;
            out.push(buf);
            locs.push(loc);
            proof {
                assert(forall|i: int| 0 <= i < k ==> out@[i] == out_before[i] && #[trigger] locs@[i]
                    == locs_before[i]);
                assert(out@[k] == buf && locs@[k] == loc);
            }
        }
        (out, Ok(locs))
    }

    fn allocate_extent(&mut self, db_id: u32, space_id: u32, num_pages: u32) -> (r: Result<
        u32,
        StorageError,
    >)
    {
        let key = Self::file_key(db_id, space_id);
        let next: u32 = match self.extent_next.get(&key) {
            Some(n) => *n,
            None => 0,
        };
        if num_pages > u32::MAX - next {
            return Err(StorageError::OutOfSpace);
        }
        self.extent_next.insert(key, next + num_pages);
        Ok(next)
    }

    fn free_extent(&self, db_id: u32, space_id: u32, start_page: u32, num_pages: u32) -> (r: (
        u64,
        u64,
    )) {
        proof {
            assert(start_page as int * PAGE_SIZE as int <= u32::MAX as int * PAGE_SIZE as int
                && num_pages as int * PAGE_SIZE as int <= u32::MAX as int * PAGE_SIZE as int)
                by (nonlinear_arith)
                requires
                    start_page <= u32::MAX,
                    num_pages <= u32::MAX,
            ;
        }
        ((start_page as u64) * (PAGE_SIZE as u64), (num_pages as u64) * (PAGE_SIZE as u64))
    }
}

impl WalStore for CoreStorage {
    open spec fn wal_tails(&self) -> Map<u32, u64> {
        self.tails()
    }

    fn append_wal(&mut self, db_id: u32, payload: &[u8]) -> (r: Result<Lsn, StorageError>) {
        let tail: u64 = match self.wal_offsets.get(&db_id) {
            Some(t) => *t,
            None => 0,
        };
        let len = payload.len() as u64;
        if len > u64::MAX - tail {
            return Err(StorageError::OutOfSpace);
        }
        self.wal_offsets.insert(db_id, tail + len);
        Ok(Lsn(tail))
    }

    fn truncate_wal(&self, db_id: u32, up_to_lsn: Lsn) -> (r: u64) {
        let tail: u64 = match self.wal_offsets.get(&db_id) {
            Some(t) => *t,
            None => 0,
        };
        if up_to_lsn.0 <= tail {
            up_to_lsn.0
        } else {
            tail
        }
    }
}

/// A database's log starts empty: before any append its tail, and so the
/// first assigned LSN, is zero.
pub proof fn lemma_fresh_wal_tail(db_id: u32)
    ensures
        spec_wal_tail(Map::<u32, u64>::empty(), db_id) == 0,
{
}

/// For one database, consecutive appends of lengths l1, l2 and l3 return
/// LSNs in call order, each range beginning exactly where the one before
/// it ended: the assigned ranges [t, t+l1), [t+l1, t+l1+l2) and
/// [t+l1+l2, t+l1+l2+l3) never overlap. On a fresh log t is zero, so the
/// returned LSNs are 0, l1 and l1+l2.
pub proof fn lemma_lsn_monotonic(tails: Map<u32, u64>, db_id: u32, l1: u64, l2: u64, l3: u64)
    requires
        spec_wal_tail(tails, db_id) + l1 + l2 + l3 <= u64::MAX,
    ensures
        ({
            let t = spec_wal_tail(tails, db_id);
            let m1 = tails.insert(db_id, (t + l1) as u64);
            let m2 = m1.insert(db_id, (t + l1 + l2) as u64);
            &&& spec_wal_tail(m1, db_id) == t + l1
            &&& spec_wal_tail(m2, db_id) == t + l1 + l2
        }),
{
}

/// Two consecutive reservations on the same space are disjoint: the
/// second run begins exactly where the first one ends.
pub proof fn lemma_extents_disjoint(extents: Map<u64, u32>, key: u64, n1: u32, n2: u32)
    requires
        spec_extent_next(extents, key) + n1 + n2 <= u32::MAX,
    ensures
        ({
            let s1 = spec_extent_next(extents, key);
            let m1 = extents.insert(key, (s1 + n1) as u32);
            let s2 = spec_extent_next(m1, key);
            &&& s2 == s1 + n1
            &&& s1 + n1 <= s2
        }),
{
}

/// The handle-cache key is one-to-one: distinct (database, space) pairs
/// never collide.
pub proof fn lemma_file_key_injective(db1: u32, s1: u32, db2: u32, s2: u32)
    requires
        spec_file_key(db1, s1) == spec_file_key(db2, s2),
    ensures
        db1 == db2,
        s1 == s2,
{
}

} // verus!
