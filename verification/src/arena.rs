//! Linear buffer packer for the geometry arena: sequential, alignment-
//! respecting appends of byte streams into a fixed-capacity buffer, with a
//! monotonically non-decreasing write cursor and no partial writes.
use vstd::prelude::*;

use crate::RenderError;

verus! {

/// True when `a` is a power of two. Only such alignments are accepted by
/// the packer, matching the natural alignment of any element type.
pub open spec fn is_power_of_two(a: usize) -> bool {
    a > 0 && (a & ((a - 1) as usize)) == 0
}

/// The smallest value `>= cursor` that is a multiple of `align`.
pub open spec fn align_up(cursor: int, align: int) -> int
    recommends
        0 < align,
        0 <= cursor,
{
    if cursor % align == 0 {
        cursor
    } else {
        cursor + (align - cursor % align)
    }
}

/// `align_up` lands on a multiple of the alignment, never moves the cursor
/// backwards, and skips less than one full alignment unit.
pub proof fn lemma_align_up(cursor: int, align: int)
    requires
        0 < align,
        0 <= cursor,
    ensures
        align_up(cursor, align) % align == 0,
        cursor <= align_up(cursor, align) < cursor + align,
{
    vstd::arithmetic::div_mod::lemma_mod_bound(cursor, align);
    if cursor % align != 0 {
        vstd::arithmetic::div_mod::lemma_fundamental_div_mod(cursor, align);
        assert(align_up(cursor, align) == (cursor / align + 1) * align) by {
            assert(align * (cursor / align) + align == (cursor / align + 1) * align)
                by (nonlinear_arith);
        }
        vstd::arithmetic::div_mod::lemma_mod_multiples_basic(cursor / align + 1, align);
    }
}

/// Law: for any sequence of appends whose alignments are powers of two (or
/// merely positive), every returned offset is a multiple of the alignment
/// requested for it, and offsets are monotonically non-decreasing across
/// calls: an append of `len > 0` bytes at cursor `c` returns
/// `align_up(c, a1)` and leaves the cursor past it, so the next returned
/// offset `align_up(align_up(c, a1) + len, a2)` is at least as large.
pub proof fn lemma_append_offsets_aligned_and_monotonic(c: int, a1: int, len: int, a2: int)
    requires
        0 <= c,
        0 < a1,
        0 < a2,
        0 < len,
    ensures
        align_up(c, a1) % a1 == 0,
        align_up(align_up(c, a1) + len, a2) % a2 == 0,
        align_up(c, a1) <= align_up(align_up(c, a1) + len, a2),
{
    lemma_align_up(c, a1);
    lemma_align_up(align_up(c, a1) + len, a2);
}

/// Four, the natural alignment of every mesh stream element, is a power
/// of two.
pub proof fn lemma_four_is_power_of_two()
    ensures
        is_power_of_two(4),
{
    assert((4usize & 3usize) == 0) by (bit_vector);
}

/// A byte buffer of fixed capacity filled front to back by `append`. The
/// written prefix is materialized in `data`; `data.len()` is the write
/// cursor and never exceeds `capacity`.
pub struct BufferBuilder {
    pub data: Vec<u8>,
    pub capacity: usize,
}

impl BufferBuilder {
    /// The write cursor: how many bytes of the buffer are taken so far.
    pub open spec fn written(self) -> int {
        self.data@.len() as int
    }

    /// Everything written so far, gaps inserted for alignment included.
    pub open spec fn contents(self) -> Seq<u8> {
        self.data@
    }

    pub open spec fn wf(self) -> bool {
        self.data@.len() <= self.capacity
    }

    /// A fresh packer over an empty buffer of `capacity` bytes.
    pub fn new(capacity: usize) -> (r: Self)
        ensures
            r.wf(),
            r.capacity == capacity,
            r.written() == 0,
    {
        BufferBuilder { data: Vec::new(), capacity }
    }

    /// The current write cursor.
    pub fn written_bytes(&self) -> (r: usize)
        ensures
            r == self.written(),
    {
        self.data.len()
    }

    /// Appends `bytes` at the cursor rounded up to `align`, zero-filling
    /// the alignment gap, and returns the offset the data starts at.
    ///
    /// An empty input returns offset 0 without touching the buffer (the
    /// offset is not meaningful in that case). An alignment that is not a
    /// power of two, or an append that would overrun the capacity, is
    /// rejected with nothing written: contents already in the buffer are
    /// never altered by a failed call.
    pub fn append(&mut self, bytes: &[u8], align: usize) -> (r: Result<usize, RenderError>)
        requires
            old(self).wf(),
        ensures
            final(self).wf(),
            final(self).capacity == old(self).capacity,
            old(self).written() <= final(self).written(),
            bytes@.len() == 0 ==> r == Ok::<usize, RenderError>(0) && *final(self) == *old(
                self,
            ),
            bytes@.len() > 0 && !is_power_of_two(align) ==> r == Err::<usize, RenderError>(
                RenderError::AlignmentNotPowerOfTwo,
            ) && *final(self) == *old(self),
            bytes@.len() > 0 && is_power_of_two(align) && align_up(
                old(self).written(),
                align as int,
            ) + bytes@.len() > old(self).capacity ==> r == Err::<usize, RenderError>(
                RenderError::ArenaCapacityExceeded,
            ) && *final(self) == *old(self),
            bytes@.len() > 0 && is_power_of_two(align) && align_up(
                old(self).written(),
                align as int,
            ) + bytes@.len() <= old(self).capacity ==> {
                let start = align_up(old(self).written(), align as int);
                &&& r == Ok::<usize, RenderError>(start as usize)
                &&& start % align as int == 0
                &&& old(self).written() <= start < old(self).written() + align
                &&& final(self).written() == start + bytes@.len()
                &&& final(self).contents() == old(self).contents() + Seq::new(
                    (start - old(self).written()) as nat,
                    |i: int| 0u8,
                ) + bytes@
                &&& forall|i: int|
                    0 <= i < old(self).written() ==> final(self).contents()[i] == old(
                        self,
                    ).contents()[i]
                &&& forall|i: int|
                    0 <= i < bytes@.len() ==> final(self).contents()[start + i] == bytes@[i]
            },
    {
        if bytes.len() == 0 {
            return Ok(0);
        }
        if !(align > 0 && (align & (align - 1)) == 0) {
            return Err(RenderError::AlignmentNotPowerOfTwo);
        }
        let written = self.data.len();
        let rem = written % align;
        let pad = if rem == 0 {
            0
        } else {
            align - rem
        };
        proof {
            lemma_align_up(written as int, align as int);
            assert(written + pad == align_up(written as int, align as int));
        }
        if pad > self.capacity - written {
            return Err(RenderError::ArenaCapacityExceeded);
        }
        let start = written + pad;
        if bytes.len() > self.capacity - start {
            return Err(RenderError::ArenaCapacityExceeded);
        }
        let ghost pre = *self;
        let mut k: usize = 0;
        while k < pad
            invariant
                k <= pad,
                start == written + pad,
                start + bytes@.len() <= pre.capacity,
                self.capacity == pre.capacity,
                self.data@ == pre.data@ + Seq::new(k as nat, |i: int| 0u8),
                written == pre.data@.len(),
            decreases pad - k,
        {
            self.data.push(0u8);
            k += 1;
            proof {
                assert(self.data@ == pre.data@ + Seq::new(k as nat, |i: int| 0u8));
            }
        }
        let ghost padded = *self;
        let mut j: usize = 0;
        while j < bytes.len()
            invariant
                j <= bytes@.len(),
                start + bytes@.len() <= pre.capacity,
                self.capacity == pre.capacity,
                padded.data@.len() == start,
                self.data@ == padded.data@ + bytes@.subrange(0, j as int),
            decreases bytes@.len() - j,
        {
            self.data.push(bytes[j]);
            j += 1;
            proof {
                assert(self.data@ == padded.data@ + bytes@.subrange(0, j as int));
            }
        }
        proof {
            assert(bytes@.subrange(0, bytes@.len() as int) == bytes@);
            assert(self.data@ == pre.data@ + Seq::new(pad as nat, |i: int| 0u8) + bytes@);
        }
        Ok(start)
    }
}

} // verus!
