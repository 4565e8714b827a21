use vstd::prelude::*;

use crate::addressing::join_path;
use crate::addressing::page_offset;
use crate::addressing::segment_file_name;
use crate::addressing::spec_join;
use crate::addressing::spec_page_offset;
use crate::addressing::spec_segment_file_name;
use crate::addressing::spec_segment_no;
use crate::buffer::spec_ensure_init;
use crate::buffer::AlignedBuf;
use crate::codec::spec_stamp;
use crate::codec::stamp_page;
use crate::types::PageId;
use crate::types::StorageError;
use crate::PAGES_PER_SEGMENT;
use crate::PAGE_SIZE;

verus! {

/// The stateless storage backend: it holds only the base directory and
/// resolves every call from scratch, so each page operation opens its
/// segment file anew. The addressing and page preparation here are the
/// whole of its decisions; submitting the prepared operation to the kernel
/// is the unverified shell's part.
pub struct UringStorage {
    base_path: String,
}

impl UringStorage {
    /// The base directory that all segment paths hang under.
    pub closed spec fn base(&self) -> Seq<char> {
        self.base_path@
    }

    /// A backend rooted at the given base directory.
    pub fn new(path: String) -> (r: UringStorage)
        ensures
            r.base() == path@,
    {
        UringStorage { base_path: path }
    }

    /// Resolves a page id to its segment file path and the page's byte
    /// offset within that file. Pure: the same id always resolves to the
    /// same place, across calls and across restarts.
    pub fn get_location(&self, page_id: PageId) -> (r: (String, u64))
        ensures
            r.0@ == spec_join(
                self.base(),
                spec_segment_file_name(
                    page_id.space_id as int,
                    spec_segment_no(page_id.page_no as int),
                ),
            ),
            r.1 as int == spec_page_offset(page_id.page_no as int),
    {
        let segment_no = page_id.page_no / PAGES_PER_SEGMENT;
        let name = segment_file_name(page_id.space_id, segment_no);
        let path = join_path(&self.base_path, &name);
        let offset = page_offset(page_id.page_no);
        (path, offset)
    }

    /// Prepares a page write: refuses a buffer that is not exactly one
    /// page long, otherwise stamps the checksum over the fully initialized
    /// page and names the file and offset the write must go to.
    pub fn prepare_write_page(&self, page_id: PageId, buf: AlignedBuf) -> (r: (
        AlignedBuf,
        Result<(String, u64), StorageError>,
    ))
        requires
            buf.wf(),
        ensures
            r.0.wf(),
            r.0.cap() == buf.cap(),
            buf.cap() != PAGE_SIZE ==> {
                &&& r.1 == Err::<(String, u64), StorageError>(StorageError::UnalignedBuffer)
                &&& r.0.bytes() == buf.bytes()
                &&& r.0.init_count() == buf.init_count()
            },
            buf.cap() == PAGE_SIZE ==> {
                &&& r.0.init_count() == PAGE_SIZE
                &&& r.0.bytes() == spec_stamp(
                    spec_ensure_init(buf.bytes(), buf.init_count(), PAGE_SIZE as int).0,
                )
                &&& r.1 matches Ok(loc) && loc.0@ == spec_join(
                    self.base(),
                    spec_segment_file_name(
                        page_id.space_id as int,
                        spec_segment_no(page_id.page_no as int),
                    ),
                ) && loc.1 as int == spec_page_offset(page_id.page_no as int)
            },
    {
        let mut buf = buf;
        if buf.len() != PAGE_SIZE {
            return (buf, Err(StorageError::UnalignedBuffer));
        }
        stamp_page(&mut buf);
        let loc = self.get_location(page_id);
        (buf, Ok(loc))
    }
}

} // verus!
