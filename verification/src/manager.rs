use vstd::prelude::*;

use crate::resident::BackendState;
use crate::resident::CoreStorage;
use crate::types::StorageError;

verus! {

/// Configuration the storage engine is handed at boot: where data
/// segments and logs live, and how deep the kernel's submission and
/// completion queues should be. This crate only carries the values; it
/// parses nothing.
pub struct StorageConfig {
    pub data_dir: String,
    pub wal_dir: String,
    pub io_uring_entries: u32,
}

/// The per-process manager: mounted over the configured directories, it
/// hands out one independent resident backend per core.
pub struct StorageManager {
    config: StorageConfig,
}

impl StorageManager {
    /// The configured data directory.
    pub closed spec fn data_dir(&self) -> Seq<char> {
        self.config.data_dir@
    }

    /// The configured log directory.
    pub closed spec fn wal_dir(&self) -> Seq<char> {
        self.config.wal_dir@
    }

    /// The configured queue depth.
    pub closed spec fn entries(&self) -> u32 {
        self.config.io_uring_entries
    }

    /// Mounts the engine over directories the caller has already brought
    /// into existence. Every configuration is accepted, so mounting
    /// always succeeds.
    pub fn mount(config: StorageConfig) -> (r: Result<StorageManager, StorageError>)
        ensures
            r matches Ok(m) && m.data_dir() == config.data_dir@ && m.wal_dir() == config.wal_dir@
                && m.entries() == config.io_uring_entries,
    {
        Ok(StorageManager { config })
    }

    /// Spawns the resident backend for one core: mounted on the
    /// configured directories, bound to that core, with no log tails and
    /// no reservations yet. The instance must stay on its core; nothing
    /// here is shared between two of them.
    pub fn local_worker(&self, core_id: usize) -> (r: CoreStorage)
        ensures
            r.core_no() == core_id,
            r.lifecycle() == BackendState::Mounted,
            r.data_base() == self.data_dir(),
            r.wal_base() == self.wal_dir(),
            r.tails() == Map::<u32, u64>::empty(),
            r.extents() == Map::<u64, u32>::empty(),
    {
        CoreStorage::new(core_id, self.config.data_dir.clone(), self.config.wal_dir.clone())
    }
}

} // verus!
