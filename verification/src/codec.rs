use vstd::prelude::*;

use crate::buffer::spec_ensure_init;
use crate::buffer::AlignedBuf;
use crate::types::PageId;
use crate::types::StorageError;
use crate::PAGE_SIZE;

verus! {

/// What the CRC-32 of a byte sequence is. The value is pinned only by the
/// outside implementation, which computes it from the bytes alone.
pub uninterp spec fn crc32_of(bytes: Seq<u8>) -> u32;

/// Relies on crc32fast::hash: the CRC-32 of the given bytes, a pure
/// function of them alone.
#[verifier::external_body]
fn crc32(bytes: &[u8]) -> (r: u32)
    ensures
        r == crc32_of(bytes@),
{
    crc32fast::hash(bytes)
}

/// The four big-endian bytes of a 32-bit value.
pub open spec fn spec_be_bytes_of_u32(x: u32) -> Seq<u8> {
    seq![
        ((x >> 24) & 0xff) as u8,
        ((x >> 16) & 0xff) as u8,
        ((x >> 8) & 0xff) as u8,
        (x & 0xff) as u8,
    ]
}

/// The 32-bit value read big-endian from four bytes.
pub open spec fn spec_u32_of_be_bytes(s: Seq<u8>) -> u32
    recommends
        s.len() == 4,
{
    (((s[0] as u32) << 24) | ((s[1] as u32) << 16) | ((s[2] as u32) << 8) | (s[3] as u32)) as u32
}

/// Decoding the big-endian bytes of a value gives the value back.
pub proof fn lemma_be_decode_encode(x: u32)
    ensures
        spec_u32_of_be_bytes(spec_be_bytes_of_u32(x)) == x,
{
    let b0 = ((x >> 24) & 0xff) as u8;
    let b1 = ((x >> 16) & 0xff) as u8;
    let b2 = ((x >> 8) & 0xff) as u8;
    let b3 = (x & 0xff) as u8;
    assert((((b0 as u32) << 24) | ((b1 as u32) << 16) | ((b2 as u32) << 8) | (b3 as u32)) as u32
        == x) by (bit_vector)
        requires
            b0 == ((x >> 24) & 0xff) as u8,
            b1 == ((x >> 16) & 0xff) as u8,
            b2 == ((x >> 8) & 0xff) as u8,
            b3 == (x & 0xff) as u8,
    ;
}

/// Encoding the value read from four bytes gives the same four bytes back,
/// so the big-endian header encoding is one-to-one.
pub proof fn lemma_be_encode_decode(s: Seq<u8>)
    requires
        s.len() == 4,
    ensures
        spec_be_bytes_of_u32(spec_u32_of_be_bytes(s)) == s,
{
    let b0 = s[0];
    let b1 = s[1];
    let b2 = s[2];
    let b3 = s[3];
    let x = spec_u32_of_be_bytes(s);
    assert(((x >> 24) & 0xff) as u8 == b0 && ((x >> 16) & 0xff) as u8 == b1 && ((x >> 8) & 0xff)
        as u8 == b2 && (x & 0xff) as u8 == b3) by (bit_vector)
        requires
            x == (((b0 as u32) << 24) | ((b1 as u32) << 16) | ((b2 as u32) << 8) | (b3
                as u32)) as u32,
    ;
    assert(spec_be_bytes_of_u32(x) =~= s);
}

/// The payload region of a page image: everything after the header.
pub open spec fn spec_payload(b: Seq<u8>) -> Seq<u8> {
    b.subrange(4, PAGE_SIZE as int)
}

/// The page image after stamping: the payload's checksum written big-endian
/// over the first four bytes, the payload untouched.
pub open spec fn spec_stamp(b: Seq<u8>) -> Seq<u8> {
    spec_be_bytes_of_u32(crc32_of(spec_payload(b))) + spec_payload(b)
}

/// Whether a full page image carries the checksum of its own payload.
pub open spec fn spec_page_ok(b: Seq<u8>) -> bool {
    spec_u32_of_be_bytes(b.subrange(0, 4)) == crc32_of(spec_payload(b))
}

/// Fully initializes the page (zero-filling whatever the caller left
/// unwritten), computes the checksum over the payload region and writes it
/// big-endian into the header.
pub fn stamp_page(buf: &mut AlignedBuf)
    requires
        old(buf).wf(),
        old(buf).cap() == PAGE_SIZE,
    ensures
        final(buf).wf(),
        final(buf).cap() == PAGE_SIZE,
        final(buf).init_count() == PAGE_SIZE,
        final(buf).bytes() == spec_stamp(
            spec_ensure_init(old(buf).bytes(), old(buf).init_count(), PAGE_SIZE as int).0,
        ),
{
    buf.ensure_init_up_to(PAGE_SIZE);
    let ghost prepared = buf.bytes();
    let checksum = {
        let s = buf.as_init_slice();
        let payload = vstd::slice::slice_subrange(s, 4, PAGE_SIZE);
        proof {
            assert(s@ =~= prepared);
            assert(payload@ =~= spec_payload(prepared));
        }
        crc32(payload)
    };
    buf.write_byte(0, ((checksum >> 24) & 0xff) as u8);
    buf.write_byte(1, ((checksum >> 16) & 0xff) as u8);
    buf.write_byte(2, ((checksum >> 8) & 0xff) as u8);
    buf.write_byte(3, (checksum & 0xff) as u8);
    proof {
        assert(buf.bytes() =~= spec_stamp(prepared));
    }
}

/// Recomputes the payload's checksum and compares it with the stored
/// header; a mismatch is reported as corruption of the given page.
pub fn verify_page(buf: &AlignedBuf, page_id: PageId) -> (r: Result<(), StorageError>)
    requires
        buf.wf(),
        buf.cap() == PAGE_SIZE,
        buf.init_count() == PAGE_SIZE,
    ensures
        r is Ok <==> spec_page_ok(buf.bytes()),
        !spec_page_ok(buf.bytes()) ==> r == Err::<(), StorageError>(
            StorageError::Corruption(page_id),
        ),
{
    let b0 = buf.read_byte(0);
    let b1 = buf.read_byte(1);
    let b2 = buf.read_byte(2);
    let b3 = buf.read_byte(3);
    let stored = ((b0 as u32) << 24) | ((b1 as u32) << 16) | ((b2 as u32) << 8) | (b3 as u32);
    let computed = {
        let s = buf.as_init_slice();
        let payload = vstd::slice::slice_subrange(s, 4, PAGE_SIZE);
        proof {
            assert(s@ =~= buf.bytes());
            assert(payload@ =~= spec_payload(buf.bytes()));
        }
        crc32(payload)
    };
    proof {
        assert(buf.bytes().subrange(0, 4) =~= seq![b0, b1, b2, b3]);
    }
    if stored == computed {
        Ok(())
    } else {
        Err(StorageError::Corruption(page_id))
    }
}

/// Finishes a page read whose completion transferred the given number of
/// bytes: marks what the kernel filled as initialized, reports a short
/// transfer, and otherwise verifies the page's checksum. The buffer always
/// comes back, whatever the outcome.
pub fn complete_read_page(page_id: PageId, buf: AlignedBuf, transferred: usize) -> (r: (
    AlignedBuf,
    Result<(), StorageError>,
))
    requires
        buf.wf(),
        transferred <= PAGE_SIZE,
    ensures
        r.0.wf(),
        r.0.bytes() == buf.bytes(),
        r.0.cap() == buf.cap(),
        buf.cap() != PAGE_SIZE ==> r.1 == Err::<(), StorageError>(StorageError::UnalignedBuffer)
            && r.0.init_count() == buf.init_count(),
        buf.cap() == PAGE_SIZE ==> r.0.init_count() == (if transferred as int > buf.init_count() {
            transferred as int
        } else {
            buf.init_count()
        }),
        buf.cap() == PAGE_SIZE && transferred < PAGE_SIZE ==> r.1 == Err::<(), StorageError>(
            StorageError::ShortRead,
        ),
        buf.cap() == PAGE_SIZE && transferred == PAGE_SIZE ==> {
            &&& (r.1 is Ok <==> spec_page_ok(buf.bytes()))
            &&& (!spec_page_ok(buf.bytes()) ==> r.1 == Err::<(), StorageError>(
                StorageError::Corruption(page_id),
            ))
        },
{
    let mut buf = buf;
    if buf.len() != PAGE_SIZE {
        return (buf, Err(StorageError::UnalignedBuffer));
    }
    buf.set_init_len(transferred);
    if transferred < PAGE_SIZE {
        return (buf, Err(StorageError::ShortRead));
    }
    let res = verify_page(&buf, page_id);
    (buf, res)
}

/// Finishes a page write: the kernel must have accepted the full page;
/// anything less is a short write, an error distinct from corruption and
/// from a plain I/O failure.
pub fn complete_write_page(transferred: usize) -> (r: Result<(), StorageError>)
    ensures
        r is Ok <==> transferred == PAGE_SIZE,
        transferred != PAGE_SIZE ==> r == Err::<(), StorageError>(StorageError::ShortWrite),
{
    if transferred == PAGE_SIZE {
        Ok(())
    } else {
        Err(StorageError::ShortWrite)
    }
}

/// Whether one page of a batch read came back whole and intact: the
/// buffer is exactly one page, the kernel transferred all of it, and the
/// image carries its payload's checksum.
pub open spec fn spec_read_good(b: Seq<u8>, transferred: int) -> bool {
    &&& b.len() == PAGE_SIZE
    &&& transferred == PAGE_SIZE
    &&& spec_page_ok(b)
}

/// Finishes a batch read of physically contiguous pages starting at
/// `start_page_id`: each buffer is completed like a single-page read, in
/// order, and the batch succeeds exactly when every page came back whole
/// and intact. Every buffer comes back, whatever the outcome.
pub fn complete_read_pages(
    start_page_id: PageId,
    bufs: Vec<AlignedBuf>,
    transferred: &Vec<usize>,
) -> (r: (Vec<AlignedBuf>, Result<(), StorageError>))
    requires
        transferred@.len() == bufs@.len(),
        forall|i: int| 0 <= i < bufs@.len() ==> bufs@[i].wf() && transferred@[i] <= PAGE_SIZE,
        start_page_id.page_no + bufs@.len() <= u32::MAX as int + 1,
    ensures
        r.0@.len() == bufs@.len(),
        forall|i: int|
            #![trigger r.0@[i]]
            0 <= i < bufs@.len() ==> r.0@[i].wf() && r.0@[i].bytes() == bufs@[i].bytes(),
        r.1 is Ok <==> (forall|i: int|
            0 <= i < bufs@.len() ==> spec_read_good(bufs@[i].bytes(), transferred@[i] as int)),
{
    let n = bufs.len();
    let ghost all = bufs@;
    let mut rest = bufs;
    let mut out: Vec<AlignedBuf> = Vec::new();
    let mut verdict: Result<(), StorageError> = Ok(());
    while out.len() < n
        invariant
            n == all.len(),
            out@.len() + rest@.len() == n,
            rest@ == all.subrange(out@.len() as int, n as int),
            transferred@.len() == n,
            forall|i: int| 0 <= i < n ==> all[i].wf() && transferred@[i] <= PAGE_SIZE,
            start_page_id.page_no + n <= u32::MAX as int + 1,
            forall|i: int|
                #![trigger out@[i]]
                0 <= i < out@.len() ==> out@[i].wf() && out@[i].bytes() == all[i].bytes(),
            verdict is Ok <==> (forall|i: int|
                0 <= i < out@.len() ==> spec_read_good(all[i].bytes(), transferred@[i] as int)),
        decreases n - out@.len(),
    {
        let ghost k = out@.len() as int;
        let buf = rest.remove(0);
        proof {
            assert(buf == all[k]);
            assert(rest@ =~= all.subrange(k + 1, n as int));
        }
        let page_id = PageId {
            db_id: start_page_id.db_id,
            space_id: start_page_id.space_id,
            page_no: start_page_id.page_no + (out.len() as u32),
        };
        let t = transferred[out.len()];
        let (done, res) = complete_read_page(page_id, buf, t);
        verdict = if verdict.is_ok() {
            res
        } else {
            verdict
        };
        let ghost out_before = out@;
        out.push(done);
        proof {
            assert forall|i: int| 0 <= i < out@.len() implies out@[i].wf() && out@[i].bytes()
                == all[i].bytes() by {
                if i < k {
                    assert(out@[i] == out_before[i]);
                    assert(out_before[i].wf());
                } else {
                    assert(out@[i] == done);
                    assert(done.wf());
                }
            }
        }
    }
    (out, verdict)
}

/// Finishes a batch write: the kernel must have accepted every byte of
/// every page; anything less is a short write for the batch as a whole.
pub fn complete_write_pages(num_pages: usize, transferred: usize) -> (r: Result<
    (),
    StorageError,
>)
    requires
        num_pages * PAGE_SIZE <= usize::MAX,
    ensures
        r is Ok <==> transferred == num_pages * PAGE_SIZE,
        transferred != num_pages * PAGE_SIZE ==> r == Err::<(), StorageError>(
            StorageError::ShortWrite,
        ),
{
    if transferred == num_pages * PAGE_SIZE {
        Ok(())
    } else {
        Err(StorageError::ShortWrite)
    }
}

/// Stamping a page and verifying the result always succeeds, and the
/// payload that verification sees is exactly the payload that was stamped:
/// the write/read round trip preserves every payload byte.
pub proof fn lemma_stamp_verify_round_trip(b: Seq<u8>, init: int)
    requires
        b.len() == PAGE_SIZE,
        0 <= init <= b.len(),
    ensures
        ({
            let prepared = spec_ensure_init(b, init, PAGE_SIZE as int).0;
            let stamped = spec_stamp(prepared);
            &&& stamped.len() == PAGE_SIZE
            &&& spec_page_ok(stamped)
            &&& spec_payload(stamped) == spec_payload(prepared)
        }),
{
    let prepared = spec_ensure_init(b, init, PAGE_SIZE as int).0;
    let stamped = spec_stamp(prepared);
    let crc = crc32_of(spec_payload(prepared));
    assert(stamped.subrange(0, 4) =~= spec_be_bytes_of_u32(crc));
    assert(spec_payload(stamped) =~= spec_payload(prepared));
    lemma_be_decode_encode(crc);
}

/// A page image whose header does not decode to its payload's checksum
/// never verifies; in particular, altering the header of a well-formed
/// page while keeping its payload is always detected, because the header
/// encoding is one-to-one.
pub proof fn lemma_header_corruption_detected(good: Seq<u8>, bad: Seq<u8>)
    requires
        good.len() == PAGE_SIZE,
        bad.len() == PAGE_SIZE,
        spec_page_ok(good),
        spec_payload(bad) == spec_payload(good),
        bad.subrange(0, 4) != good.subrange(0, 4),
    ensures
        !spec_page_ok(bad),
{
    if spec_page_ok(bad) {
        lemma_be_encode_decode(good.subrange(0, 4));
        lemma_be_encode_decode(bad.subrange(0, 4));
    }
}

} // verus!
