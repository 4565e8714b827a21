use vstd::prelude::*;

verus! {

/// The bytes of `b` with the range `[from, to)` zero-filled.
pub open spec fn spec_zero_fill(b: Seq<u8>, from: int, to: int) -> Seq<u8> {
    Seq::new(b.len(), |i: int| if from <= i < to { 0u8 } else { b[i] })
}

/// The (bytes, initialized length) of a buffer after extending its
/// initialized prefix to `n` (clamped to the capacity): every byte between
/// the old prefix and the target is zero-filled first, so the newly covered
/// range is deterministic rather than arbitrary memory.
pub open spec fn spec_ensure_init(b: Seq<u8>, init: int, n: int) -> (Seq<u8>, int) {
    let target = if n < b.len() { n } else { b.len() as int };
    if init < target {
        (spec_zero_fill(b, init, target), target)
    } else {
        (b, init)
    }
}

/// An exclusively owned buffer for page I/O, with a fixed capacity and a
/// separately tracked initialized prefix.
///
/// Only bytes below the initialized length may be read; the accessors
/// enforce that bound, so no reader can observe a byte that no write or
/// completed I/O has filled. The initialized prefix only ever grows. The
/// type has no `Clone`: a buffer in flight to the kernel must have exactly
/// one owner, and it is handed back to the caller with every result.
pub struct AlignedBuf {
    data: Vec<u8>,
    init: usize,
}

impl AlignedBuf {
    /// The whole backing region, as a sequence of bytes.
    pub closed spec fn bytes(&self) -> Seq<u8> {
        self.data@
    }

    /// Fixed capacity in bytes.
    pub open spec fn cap(&self) -> int {
        self.bytes().len() as int
    }

    /// Length of the initialized prefix.
    pub closed spec fn init_count(&self) -> int {
        self.init as int
    }

    pub open spec fn wf(&self) -> bool {
        0 <= self.init_count() <= self.cap()
    }

    /// A fresh buffer of the given capacity with nothing initialized.
    pub fn new(size: usize) -> (r: AlignedBuf)
        ensures
            r.wf(),
            r.cap() == size,
            r.init_count() == 0,
    {
        let mut data: Vec<u8> = Vec::new();
        while data.len() < size
            invariant
                data.len() <= size,
            decreases size - data.len(),
        {
            data.push(0u8);
        }
        AlignedBuf { data, init: 0 }
    }

    /// Capacity in bytes.
    pub fn len(&self) -> (r: usize)
        ensures
            r as int == self.cap(),
    {
        self.data.len()
    }

    /// Current length of the initialized prefix.
    pub fn init_len(&self) -> (r: usize)
        ensures
            r as int == self.init_count(),
    {
        self.init
    }

    /// Marks bytes up to `n` (clamped to the capacity) as initialized, for
    /// use after a completed I/O filled them; never shrinks the prefix.
    pub fn set_init_len(&mut self, n: usize)
        requires
            old(self).wf(),
        ensures
            final(self).wf(),
            final(self).bytes() == old(self).bytes(),
            final(self).init_count() == if n as int > old(self).init_count() {
                if n as int <= old(self).cap() { n as int } else { old(self).cap() }
            } else {
                old(self).init_count()
            },
    {
        let cap = self.data.len();
        let m = if n < cap { n } else { cap };
        if m > self.init {
            self.init = m;
        }
    }

    /// Zero-fills any uninitialized bytes below `n` (clamped to the
    /// capacity) and advances the initialized prefix to cover them, so that
    /// checksumming or submitting the buffer never reads undefined memory.
    pub fn ensure_init_up_to(&mut self, n: usize)
        requires
            old(self).wf(),
        ensures
            final(self).wf(),
            final(self).bytes() == spec_ensure_init(old(self).bytes(), old(self).init_count(), n as int).0,
            final(self).init_count() == spec_ensure_init(old(self).bytes(), old(self).init_count(), n as int).1,
    {
        let ghost b0 = self.bytes();
        let ghost i0 = self.init_count();
        let cap = self.data.len();
        let target = if n < cap { n } else { cap };
        if self.init < target {
            while self.init < target
                invariant
                    self.data@.len() == b0.len(),
                    0 <= i0 <= self.init as int <= target as int,
                    target <= self.data@.len(),
                    forall|j: int| 0 <= j < i0 ==> self.data@[j] == b0[j],
                    forall|j: int| i0 <= j < self.init as int ==> self.data@[j] == 0u8,
                    forall|j: int| self.init as int <= j < b0.len() ==> self.data@[j] == b0[j],
                decreases target - self.init,
            {
                let ghost pre = self.data@;
                let ghost pi = self.init as int;
                self.data.set(self.init, 0u8);
                self.init = self.init + 1;
                proof {
                    assert(self.data@ == pre.update(pi, 0u8));
                    assert forall|j: int| i0 <= j < self.init as int implies self.data@[j]
                        == 0u8 by {
                        if j < pi {
                            assert(self.data@[j] == pre[j]);
                        } else {
                            assert(j == pi);
                        }
                    }
                }
            }
            proof {
                assert(self.bytes() =~= spec_zero_fill(b0, i0, target as int));
            }
        }
    }

    /// Reads one byte of the initialized prefix.
    pub fn read_byte(&self, i: usize) -> (r: u8)
        requires
            self.wf(),
            (i as int) < self.init_count(),
        ensures
            r == self.bytes()[i as int],
    {
        self.data[i]
    }

    /// Writes one byte anywhere in the capacity; the initialized prefix is
    /// unchanged, so a write above it stays unreadable until the caller
    /// marks it initialized.
    pub fn write_byte(&mut self, i: usize, v: u8)
        requires
            old(self).wf(),
            (i as int) < old(self).cap(),
        ensures
            final(self).wf(),
            final(self).bytes() == old(self).bytes().update(i as int, v),
            final(self).init_count() == old(self).init_count(),
    {
        self.data.set(i, v);
    }

    /// The initialized prefix, the only safe read surface.
    pub fn as_init_slice(&self) -> (r: &[u8])
        requires
            self.wf(),
        ensures
            r@ == self.bytes().subrange(0, self.init_count()),
    {
        vstd::slice::slice_subrange(self.data.as_slice(), 0, self.init)
    }
}

/// Extending the initialized prefix never shrinks it, the newly covered
/// bytes are exactly zero, bytes below the old prefix keep their values,
/// and a second extension to the same or a smaller target changes nothing.
pub proof fn lemma_ensure_init_properties(b: Seq<u8>, init: int, n: int, m: int)
    requires
        0 <= init <= b.len(),
        m <= n,
    ensures
        ({
            let (b1, i1) = spec_ensure_init(b, init, n);
            let (b2, i2) = spec_ensure_init(b1, i1, m);
            &&& init <= i1 <= b.len()
            &&& b1.len() == b.len()
            &&& (forall|j: int| 0 <= j < init ==> b1[j] == b[j])
            &&& (forall|j: int| init <= j < i1 ==> b1[j] == 0u8)
            &&& b2 == b1
            &&& i2 == i1
        }),
{
    let (b1, i1) = spec_ensure_init(b, init, n);
    let target = if n < b.len() { n } else { b.len() as int };
    if init < target {
        assert(b1 == spec_zero_fill(b, init, target));
    }
}

} // verus!
