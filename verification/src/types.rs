use vstd::prelude::*;

verus! {

/// Identifies one fixed-size page: a database, a space (table, index or
/// undo segment) within it, and the page's number within that space.
#[derive(Debug, Clone, Copy, PartialEq, Eq, Hash, Structural)]
pub struct PageId {
    pub db_id: u32,
    pub space_id: u32,
    pub page_no: u32,
}

/// A physical byte offset into one database's write-ahead log, used as an
/// ordering token; produced in non-decreasing order by `append_wal`.
#[derive(Debug, Clone, Copy, PartialEq, Eq, PartialOrd, Ord, Structural)]
pub struct Lsn(pub u64);

#[verifier::external_type_specification]
#[verifier::external_body]
pub struct ExIoError(std::io::Error);

/// What a storage operation can fail with.
#[derive(Debug)]
pub enum StorageError {
    /// The operating system reported an I/O failure; carries the cause.
    Io(std::io::Error),
    /// The page's stored checksum does not match its payload.
    Corruption(PageId),
    /// The buffer's length violates the direct-I/O alignment rules.
    UnalignedBuffer,
    /// Allocation or extension failed for want of storage.
    OutOfSpace,
    /// The kernel returned fewer bytes than one full page on a read.
    ShortRead,
    /// The kernel accepted fewer bytes than one full page on a write.
    ShortWrite,
}

} // verus!
