use aquifer::buffer::AlignedBuf;
use aquifer::codec::complete_read_page;
use aquifer::codec::complete_read_pages;
use aquifer::codec::complete_write_page;
use aquifer::codec::complete_write_pages;
use aquifer::manager::StorageConfig;
use aquifer::manager::StorageManager;
use aquifer::resident::BackendState;
use aquifer::resident::CoreStorage;
use aquifer::resident::PageStore;
use aquifer::resident::WalStore;
use aquifer::stateless::UringStorage;
use aquifer::types::Lsn;
use aquifer::types::PageId;
use aquifer::types::StorageError;
use aquifer::PAGE_SIZE;

fn pid(db_id: u32, space_id: u32, page_no: u32) -> PageId {
    PageId {
        db_id,
        space_id,
        page_no,
    }
}

/// Fills the payload region with the pattern `i % 255` and marks the page
/// initialized, as a buffer-pool caller would before a write.
fn patterned_page() -> AlignedBuf {
    let mut buf = AlignedBuf::new(PAGE_SIZE);
    for i in 4..PAGE_SIZE {
        buf.write_byte(i, (i % 255) as u8);
    }
    buf.set_init_len(PAGE_SIZE);
    buf
}

#[test]
fn write_then_read_round_trip() {
    let storage = UringStorage::new(String::from("data"));
    let page = pid(0, 1, 88);
    let (stamped, res) = storage.prepare_write_page(page, patterned_page());
    let (path, offset) = res.unwrap();
    assert_eq!(path, "data/space_1_seg_0000.db");
    assert_eq!(offset, 88 * PAGE_SIZE as u64);
    assert_eq!(stamped.init_len(), PAGE_SIZE);

    // The stamped image is exactly what the disk would hand back.
    let (back, res) = complete_read_page(page, stamped, PAGE_SIZE);
    assert!(res.is_ok());
    for i in 4..PAGE_SIZE {
        assert_eq!(back.read_byte(i), (i % 255) as u8);
    }
}

#[test]
fn stamped_header_matches_crc32_of_payload() {
    let storage = UringStorage::new(String::from("data"));
    let (stamped, res) = storage.prepare_write_page(pid(0, 1, 88), patterned_page());
    assert!(res.is_ok());

    let mut payload = Vec::new();
    for i in 4..PAGE_SIZE {
        payload.push(stamped.read_byte(i));
    }
    let expected = crc32fast::hash(&payload);
    let stored = u32::from_be_bytes([
        stamped.read_byte(0),
        stamped.read_byte(1),
        stamped.read_byte(2),
        stamped.read_byte(3),
    ]);
    assert_eq!(stored, expected);
}

#[test]
fn corrupting_one_payload_byte_is_detected() {
    let storage = UringStorage::new(String::from("data"));
    let page = pid(0, 1, 88);
    let (mut stamped, res) = storage.prepare_write_page(page, patterned_page());
    assert!(res.is_ok());

    // Flip one byte at payload offset 100 (absolute offset 104), as a
    // direct edit of the segment file would.
    let original = stamped.read_byte(104);
    stamped.write_byte(104, original ^ 0x01);

    let (_, res) = complete_read_page(page, stamped, PAGE_SIZE);
    assert!(matches!(res, Err(StorageError::Corruption(p)) if p == page));
}

#[test]
fn corrupting_the_header_is_detected() {
    let storage = UringStorage::new(String::from("data"));
    let page = pid(0, 1, 88);
    let (mut stamped, res) = storage.prepare_write_page(page, patterned_page());
    assert!(res.is_ok());

    let original = stamped.read_byte(2);
    stamped.write_byte(2, original ^ 0x80);

    let (_, res) = complete_read_page(page, stamped, PAGE_SIZE);
    assert!(matches!(res, Err(StorageError::Corruption(p)) if p == page));
}

#[test]
fn unwritten_preallocated_page_fails_verification() {
    // Policy: a page that was pre-allocated but never written reads back
    // as all zeros; its zero header does not match the checksum of a zero
    // payload, so the read reports corruption rather than silently
    // handing out an unstamped page.
    let page = pid(0, 1, 3);
    let zeros = {
        let mut b = AlignedBuf::new(PAGE_SIZE);
        b.ensure_init_up_to(PAGE_SIZE);
        b
    };
    let (_, res) = complete_read_page(page, zeros, PAGE_SIZE);
    assert!(matches!(res, Err(StorageError::Corruption(p)) if p == page));
}

#[test]
fn short_read_is_its_own_error() {
    let page = pid(0, 1, 7);
    let buf = AlignedBuf::new(PAGE_SIZE);
    let (back, res) = complete_read_page(page, buf, 4096);
    assert!(matches!(res, Err(StorageError::ShortRead)));
    assert_eq!(back.init_len(), 4096);
}

#[test]
fn short_write_is_its_own_error() {
    assert!(matches!(
        complete_write_page(PAGE_SIZE - 1),
        Err(StorageError::ShortWrite)
    ));
    assert!(complete_write_page(PAGE_SIZE).is_ok());
}

#[test]
fn wrong_sized_buffer_is_refused() {
    let storage = UringStorage::new(String::from("data"));
    let small = AlignedBuf::new(4096);
    let (back, res) = storage.prepare_write_page(pid(0, 1, 0), small);
    assert!(matches!(res, Err(StorageError::UnalignedBuffer)));
    assert_eq!(back.len(), 4096);

    let small = AlignedBuf::new(4096);
    let (_, res) = complete_read_page(pid(0, 1, 0), small, 4096);
    assert!(matches!(res, Err(StorageError::UnalignedBuffer)));
}

#[test]
fn locate_is_deterministic_and_follows_the_formula() {
    let storage = UringStorage::new(String::from("base"));
    // page_no = k * 131072 + r with k = 3, r = 17.
    let page = pid(0, 5, 3 * 131072 + 17);
    let (path1, off1) = storage.get_location(page);
    let (path2, off2) = storage.get_location(page);
    assert_eq!(path1, path2);
    assert_eq!(off1, off2);
    assert_eq!(path1, "base/space_5_seg_0003.db");
    assert_eq!(off1, 17 * PAGE_SIZE as u64);
}

#[test]
fn segment_names_grow_past_four_digits() {
    let storage = UringStorage::new(String::from("base"));
    let (path, offset) = storage.get_location(pid(0, 12345, 10000 * 131072));
    assert_eq!(path, "base/space_12345_seg_10000.db");
    assert_eq!(offset, 0);
}

#[test]
fn ensure_init_zero_fills_and_is_monotonic() {
    let mut buf = AlignedBuf::new(PAGE_SIZE);
    assert_eq!(buf.init_len(), 0);
    buf.ensure_init_up_to(100);
    assert_eq!(buf.init_len(), 100);
    for i in 0..100 {
        assert_eq!(buf.read_byte(i), 0);
    }
    // A second call with the same or a smaller target changes nothing.
    buf.ensure_init_up_to(100);
    assert_eq!(buf.init_len(), 100);
    buf.ensure_init_up_to(50);
    assert_eq!(buf.init_len(), 100);
    // Clamped to the capacity.
    buf.ensure_init_up_to(PAGE_SIZE + 1000);
    assert_eq!(buf.init_len(), PAGE_SIZE);
}

#[test]
fn set_init_len_never_shrinks() {
    let mut buf = AlignedBuf::new(PAGE_SIZE);
    buf.set_init_len(200);
    assert_eq!(buf.init_len(), 200);
    buf.set_init_len(10);
    assert_eq!(buf.init_len(), 200);
    buf.set_init_len(PAGE_SIZE + 5);
    assert_eq!(buf.init_len(), PAGE_SIZE);
}

#[test]
fn wal_lsn_sequence() {
    let mut core = CoreStorage::new(0, String::from("data"), String::from("wal"));
    let db = 7;
    assert_eq!(core.append_wal(db, &[0u8; 10]).unwrap(), Lsn(0));
    assert_eq!(core.append_wal(db, &[0u8; 15]).unwrap(), Lsn(10));
    assert_eq!(core.append_wal(db, &[0u8; 7]).unwrap(), Lsn(25));
    // Tails are per database.
    assert_eq!(core.append_wal(8, &[0u8; 3]).unwrap(), Lsn(0));
    assert_eq!(core.append_wal(db, &[0u8; 1]).unwrap(), Lsn(32));
}

#[test]
fn truncate_wal_never_reclaims_past_the_mark_or_the_tail() {
    let mut core = CoreStorage::new(0, String::from("data"), String::from("wal"));
    core.append_wal(7, &[0u8; 25]).unwrap();
    assert_eq!(core.truncate_wal(7, Lsn(10)), 10);
    assert_eq!(core.truncate_wal(7, Lsn(100)), 25);
    assert_eq!(core.truncate_wal(9, Lsn(5)), 0);
}

#[test]
fn extent_allocations_do_not_overlap() {
    let mut core = CoreStorage::new(0, String::from("data"), String::from("wal"));
    let first = core.allocate_extent(3, 2, 10).unwrap();
    let second = core.allocate_extent(3, 2, 5).unwrap();
    assert_eq!(first, 0);
    assert_eq!(second, 10);
    // The runs [0, 10) and [10, 15) are disjoint.
    assert!(first + 10 <= second);
    // Another space starts from its own tail.
    assert_eq!(core.allocate_extent(3, 9, 4).unwrap(), 0);
}

#[test]
fn extent_allocation_reports_exhaustion() {
    let mut core = CoreStorage::new(0, String::from("data"), String::from("wal"));
    assert_eq!(core.allocate_extent(1, 1, u32::MAX).unwrap(), 0);
    assert!(matches!(
        core.allocate_extent(1, 1, 1),
        Err(StorageError::OutOfSpace)
    ));
}

#[test]
fn free_extent_names_the_byte_range() {
    let core = CoreStorage::new(0, String::from("data"), String::from("wal"));
    let (start, len) = core.free_extent(1, 2, 3, 2);
    assert_eq!(start, 3 * PAGE_SIZE as u64);
    assert_eq!(len, 2 * PAGE_SIZE as u64);
}

#[test]
fn resident_addressing_encodes_database_space_and_segment() {
    let core = CoreStorage::new(0, String::from("d"), String::from("w"));
    let (path, offset) = core.get_data_location(pid(7, 2, 88));
    assert_eq!(path, "d/db_7/space_2_seg_0000.dat");
    assert_eq!(offset, 88 * PAGE_SIZE as u64);
    assert_eq!(core.get_wal_location(7), "w/wal_7.log");
}

#[test]
fn manager_mounts_and_spawns_core_local_workers() {
    let config = StorageConfig {
        data_dir: String::from("data"),
        wal_dir: String::from("wal"),
        io_uring_entries: 1024,
    };
    let manager = StorageManager::mount(config).unwrap();
    let mut worker = manager.local_worker(3);
    assert_eq!(worker.lifecycle_state(), BackendState::Mounted);
    worker.note_handle_opened();
    assert_eq!(worker.lifecycle_state(), BackendState::Serving);
    // Workers start with fresh, core-local state.
    assert_eq!(worker.append_wal(1, &[0u8; 4]).unwrap(), Lsn(0));
}

#[test]
fn batch_write_prepare_stamps_every_page_in_order() {
    let core = CoreStorage::new(0, String::from("d"), String::from("w"));
    // The run crosses a segment boundary: pages 131070, 131071, 131072.
    let start = pid(7, 2, 131070);
    let bufs = vec![patterned_page(), patterned_page(), patterned_page()];
    let (stamped, res) = core.prepare_write_pages(start, bufs);
    let locs = res.unwrap();
    assert_eq!(locs.len(), 3);
    assert_eq!(locs[0].0, "d/db_7/space_2_seg_0000.dat");
    assert_eq!(locs[0].1, 131070 * PAGE_SIZE as u64);
    assert_eq!(locs[1].1, 131071 * PAGE_SIZE as u64);
    assert_eq!(locs[2].0, "d/db_7/space_2_seg_0001.dat");
    assert_eq!(locs[2].1, 0);

    // Every stamped page reads back whole and intact.
    let ns = vec![PAGE_SIZE; 3];
    let (back, verdict) = complete_read_pages(start, stamped, &ns);
    assert!(verdict.is_ok());
    assert_eq!(back.len(), 3);
}

#[test]
fn batch_read_reports_a_bad_page() {
    let core = CoreStorage::new(0, String::from("d"), String::from("w"));
    let start = pid(1, 1, 0);
    let bufs = vec![patterned_page(), patterned_page()];
    let (mut stamped, res) = core.prepare_write_pages(start, bufs);
    assert!(res.is_ok());

    // Corrupt one payload byte of the second page.
    let mut second = stamped.pop().unwrap();
    let original = second.read_byte(500);
    second.write_byte(500, original ^ 0x10);
    stamped.push(second);

    let ns = vec![PAGE_SIZE; 2];
    let (_, verdict) = complete_read_pages(start, stamped, &ns);
    assert!(matches!(verdict, Err(StorageError::Corruption(p)) if p == pid(1, 1, 1)));
}

#[test]
fn batch_read_reports_a_short_page() {
    let core = CoreStorage::new(0, String::from("d"), String::from("w"));
    let start = pid(1, 1, 0);
    let bufs = vec![patterned_page(), patterned_page()];
    let (stamped, res) = core.prepare_write_pages(start, bufs);
    assert!(res.is_ok());
    let ns = vec![PAGE_SIZE, 100];
    let (_, verdict) = complete_read_pages(start, stamped, &ns);
    assert!(matches!(verdict, Err(StorageError::ShortRead)));
}

#[test]
fn batch_write_refuses_a_wrong_sized_buffer_whole() {
    let core = CoreStorage::new(0, String::from("d"), String::from("w"));
    let bufs = vec![patterned_page(), AlignedBuf::new(4096)];
    let (back, res) = core.prepare_write_pages(pid(1, 1, 0), bufs);
    assert!(matches!(res, Err(StorageError::UnalignedBuffer)));
    // Nothing was stamped: the first buffer's header bytes are untouched.
    assert_eq!(back[0].read_byte(0), 0);
    assert_eq!(back[1].len(), 4096);
}

#[test]
fn batch_write_completion_checks_the_total() {
    assert!(complete_write_pages(3, 3 * PAGE_SIZE).is_ok());
    assert!(matches!(
        complete_write_pages(3, 3 * PAGE_SIZE - 1),
        Err(StorageError::ShortWrite)
    ));
}

#[test]
fn resident_write_page_stamps_like_the_stateless_backend() {
    let core = CoreStorage::new(0, String::from("d"), String::from("w"));
    let page = pid(7, 2, 88);
    let (stamped, res) = core.prepare_write_page(page, patterned_page());
    let (path, offset) = res.unwrap();
    assert_eq!(path, "d/db_7/space_2_seg_0000.dat");
    assert_eq!(offset, 88 * PAGE_SIZE as u64);
    let (_, res) = complete_read_page(page, stamped, PAGE_SIZE);
    assert!(res.is_ok());
}
