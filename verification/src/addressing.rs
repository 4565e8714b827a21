use vstd::prelude::*;

use vstd::string::StringExecFns;

use crate::PAGES_PER_SEGMENT;
use crate::PAGE_SIZE;

verus! {

/// The character of one decimal digit.
pub open spec fn spec_digit_char(d: int) -> char
    recommends
        0 <= d <= 9,
{
    if d == 0 {
        '0'
    } else if d == 1 {
        '1'
    } else if d == 2 {
        '2'
    } else if d == 3 {
        '3'
    } else if d == 4 {
        '4'
    } else if d == 5 {
        '5'
    } else if d == 6 {
        '6'
    } else if d == 7 {
        '7'
    } else if d == 8 {
        '8'
    } else {
        '9'
    }
}

/// The decimal digits of a non-negative number, most significant first.
pub open spec fn spec_dec(n: int) -> Seq<char>
    recommends
        n >= 0,
    decreases n,
{
    if n < 10 {
        seq![spec_digit_char(n)]
    } else {
        spec_dec(n / 10).push(spec_digit_char(n % 10))
    }
}

/// The decimal digits of a non-negative number, zero-padded on the left to
/// at least four places.
pub open spec fn spec_dec4(n: int) -> Seq<char>
    recommends
        n >= 0,
{
    if n < 10 {
        seq!['0', '0', '0'] + spec_dec(n)
    } else if n < 100 {
        seq!['0', '0'] + spec_dec(n)
    } else if n < 1000 {
        seq!['0'] + spec_dec(n)
    } else {
        spec_dec(n)
    }
}

/// Appends the character of one decimal digit.
fn push_digit(s: &mut String, d: u32)
    requires
        d <= 9,
    ensures
        final(s)@ == old(s)@ + seq![spec_digit_char(d as int)],
{
    if d == 0 {
        s.append("0");
        proof {
            reveal_strlit("0");
            assert(("0")@ =~= seq![spec_digit_char(0)]);
        }
    } else if d == 1 {
        s.append("1");
        proof {
            reveal_strlit("1");
            assert(("1")@ =~= seq![spec_digit_char(1)]);
        }
    } else if d == 2 {
        s.append("2");
        proof {
            reveal_strlit("2");
            assert(("2")@ =~= seq![spec_digit_char(2)]);
        }
    } else if d == 3 {
        s.append("3");
        proof {
            reveal_strlit("3");
            assert(("3")@ =~= seq![spec_digit_char(3)]);
        }
    } else if d == 4 {
        s.append("4");
        proof {
            reveal_strlit("4");
            assert(("4")@ =~= seq![spec_digit_char(4)]);
        }
    } else if d == 5 {
        s.append("5");
        proof {
            reveal_strlit("5");
            assert(("5")@ =~= seq![spec_digit_char(5)]);
        }
    } else if d == 6 {
        s.append("6");
        proof {
            reveal_strlit("6");
            assert(("6")@ =~= seq![spec_digit_char(6)]);
        }
    } else if d == 7 {
        s.append("7");
        proof {
            reveal_strlit("7");
            assert(("7")@ =~= seq![spec_digit_char(7)]);
        }
    } else if d == 8 {
        s.append("8");
        proof {
            reveal_strlit("8");
            assert(("8")@ =~= seq![spec_digit_char(8)]);
        }
    } else {
        s.append("9");
        proof {
            reveal_strlit("9");
            assert(("9")@ =~= seq![spec_digit_char(9)]);
        }
    }
}

/// Appends the decimal digits of a number.
pub fn push_dec(s: &mut String, n: u32)
    ensures
        final(s)@ == old(s)@ + spec_dec(n as int),
    decreases n,
{
    if n >= 10 {
        push_dec(s, n / 10);
        push_digit(s, n % 10);
        proof {
            assert(final(s)@ =~= old(s)@ + spec_dec(n as int));
        }
    } else {
        push_digit(s, n);
    }
}

/// Appends the decimal digits of a number, zero-padded to four places.
pub fn push_dec4(s: &mut String, n: u32)
    ensures
        final(s)@ == old(s)@ + spec_dec4(n as int),
{
    if n < 10 {
        s.append("000");
        proof {
            reveal_strlit("000");
            assert(("000")@ =~= seq!['0', '0', '0']);
        }
    } else if n < 100 {
        s.append("00");
        proof {
            reveal_strlit("00");
            assert(("00")@ =~= seq!['0', '0']);
        }
    } else if n < 1000 {
        s.append("0");
        proof {
            reveal_strlit("0");
            assert(("0")@ =~= seq!['0']);
        }
    }
    push_dec(s, n);
    proof {
        assert(final(s)@ =~= old(s)@ + spec_dec4(n as int));
    }
}

/// Which segment file a page number falls in.
pub open spec fn spec_segment_no(page_no: int) -> int {
    page_no / (PAGES_PER_SEGMENT as int)
}

/// The page's index within its segment file.
pub open spec fn spec_local_page(page_no: int) -> int {
    page_no % (PAGES_PER_SEGMENT as int)
}

/// The page's byte offset within its segment file.
pub open spec fn spec_page_offset(page_no: int) -> int {
    spec_local_page(page_no) * (PAGE_SIZE as int)
}

/// The byte offset within its segment file of the given page.
pub fn page_offset(page_no: u32) -> (r: u64)
    ensures
        r as int == spec_page_offset(page_no as int),
{
    let local = page_no % PAGES_PER_SEGMENT;
    (local as u64) * (PAGE_SIZE as u64)
}

/// A page number `k * PAGES_PER_SEGMENT + r` lands in segment `k` at byte
/// offset `r * PAGE_SIZE` of that segment, and addressing is a pure
/// function, so the same page id always resolves to the same place.
pub proof fn lemma_addressing(k: int, r: int)
    requires
        0 <= k,
        0 <= r < PAGES_PER_SEGMENT,
    ensures
        spec_segment_no(k * (PAGES_PER_SEGMENT as int) + r) == k,
        spec_page_offset(k * (PAGES_PER_SEGMENT as int) + r) == r * (PAGE_SIZE as int),
{
    vstd::arithmetic::div_mod::lemma_fundamental_div_mod_converse(
        k * (PAGES_PER_SEGMENT as int) + r,
        PAGES_PER_SEGMENT as int,
        k,
        r,
    );
}

/// File name of a data segment in the single-tenant layout.
pub open spec fn spec_segment_file_name(space_id: int, segment_no: int) -> Seq<char> {
    ("space_")@ + spec_dec(space_id) + ("_seg_")@ + spec_dec4(segment_no) + (".db")@
}

/// Builds the single-tenant data segment file name.
pub fn segment_file_name(space_id: u32, segment_no: u32) -> (r: String)
    ensures
        r@ == spec_segment_file_name(space_id as int, segment_no as int),
{
    let mut s = String::new();
    s.append("space_");
    push_dec(&mut s, space_id);
    s.append("_seg_");
    push_dec4(&mut s, segment_no);
    s.append(".db");
    proof {
        assert(s@ =~= spec_segment_file_name(space_id as int, segment_no as int));
    }
    s
}

/// File name of a data segment in the multi-tenant layout, under a
/// per-database directory.
pub open spec fn spec_tenant_segment_file_name(db_id: int, space_id: int, segment_no: int) -> Seq<
    char,
> {
    ("db_")@ + spec_dec(db_id) + ("/space_")@ + spec_dec(space_id) + ("_seg_")@ + spec_dec4(
        segment_no,
    ) + (".dat")@
}

/// Builds the multi-tenant data segment file name.
pub fn tenant_segment_file_name(db_id: u32, space_id: u32, segment_no: u32) -> (r: String)
    ensures
        r@ == spec_tenant_segment_file_name(db_id as int, space_id as int, segment_no as int),
{
    let mut s = String::new();
    s.append("db_");
    push_dec(&mut s, db_id);
    s.append("/space_");
    push_dec(&mut s, space_id);
    s.append("_seg_");
    push_dec4(&mut s, segment_no);
    s.append(".dat");
    proof {
        assert(s@ =~= spec_tenant_segment_file_name(
            db_id as int,
            space_id as int,
            segment_no as int,
        ));
    }
    s
}

/// File name of one database's write-ahead log.
pub open spec fn spec_wal_file_name(db_id: int) -> Seq<char> {
    ("wal_")@ + spec_dec(db_id) + (".log")@
}

/// Builds the write-ahead log file name for a database.
pub fn wal_file_name(db_id: u32) -> (r: String)
    ensures
        r@ == spec_wal_file_name(db_id as int),
{
    let mut s = String::new();
    s.append("wal_");
    push_dec(&mut s, db_id);
    s.append(".log");
    proof {
        assert(s@ =~= spec_wal_file_name(db_id as int));
    }
    s
}

/// A base directory joined with a relative file name.
pub open spec fn spec_join(base: Seq<char>, name: Seq<char>) -> Seq<char> {
    base + ("/")@ + name
}

/// Joins a base directory and a relative file name.
pub fn join_path(base: &String, name: &String) -> (r: String)
    ensures
        r@ == spec_join(base@, name@),
{
    let mut s = base.clone();
    s.append("/");
    s.append(name.as_str());
    proof {
        assert(s@ =~= spec_join(base@, name@));
    }
    s
}

} // verus!
