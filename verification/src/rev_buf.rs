//! A borrowed-style byte buffer which is incrementally filled and initialized
//! from its tail end, together with the cursor that grants write access to the
//! unfilled remainder.
//!
//! The buffer is a "double cursor" over a fixed region: bytes at index
//! `filled` and above are logically filled, bytes at index `init` and above
//! hold a defined value, and the filled region is always a subset of the
//! defined region:
//!
//! ```text
//! [              capacity             ]
//! [ unfilled |         filled         ]
//! [    uninitialized    | initialized ]
//! ```
//!
//! Exclusive access is handled by ownership transfer: `unfilled` consumes the
//! buffer and hands back a [`RevBorrowedCursor`]; `finish` returns the buffer
//! once the write session is over.

use vstd::prelude::*;
use vstd::slice::slice_subrange;

verus! {

/// Abstract state of a reverse-filling buffer: the bytes of the region and
/// the two tracking boundaries.
pub ghost struct BufAbs {
    /// The contents of the whole region. Entries below `init` are mere
    /// placeholders: they must never be read as valid data.
    pub bytes: Seq<u8>,
    /// Bytes at index `filled` and above are logically filled.
    pub filled: int,
    /// Bytes at index `init` and above hold a defined value.
    pub init: int,
}

/// A fixed-capacity byte region that grows backward: filled and defined bytes
/// accumulate from the high end toward the low end.
pub struct RevBorrowedBuf {
    /// The region's data.
    data: Vec<u8>,
    /// The starting index (inclusively) where the values are filled.
    filled: usize,
    /// The starting index (inclusively) where the values are defined.
    init: usize,
}

impl View for RevBorrowedBuf {
    type V = BufAbs;

    closed spec fn view(&self) -> BufAbs {
        BufAbs {
            bytes: self.data@,
            filled: self.filled as int,
            init: self.init as int,
        }
    }
}

impl RevBorrowedBuf {
    /// The double-cursor invariant: the defined region contains the filled
    /// region, and both boundaries lie inside the region.
    pub open spec fn wf(self) -> bool {
        0 <= self@.init <= self@.filled <= self@.bytes.len()
    }

    /// The contents of the filled region, `[filled, capacity)`.
    pub open spec fn filled_seq(self) -> Seq<u8> {
        self@.bytes.subrange(self@.filled, self@.bytes.len() as int)
    }

    /// Wraps a fully defined region: nothing is filled yet, but every byte
    /// holds a defined value.
    pub fn from_filled(data: Vec<u8>) -> (buf: Self)
        ensures
            buf.wf(),
            buf@.bytes == data@,
            buf@.filled == data@.len(),
            buf@.init == 0,
    {
        let filled = data.len();
        RevBorrowedBuf { data, filled, init: 0 }
    }

    /// Wraps a raw region: nothing is filled and nothing is considered
    /// defined, whatever values the storage happens to hold.
    pub fn from_raw(data: Vec<u8>) -> (buf: Self)
        ensures
            buf.wf(),
            buf@.bytes == data@,
            buf@.filled == data@.len(),
            buf@.init == data@.len(),
    {
        let len = data.len();
        RevBorrowedBuf { data, filled: len, init: len }
    }

    /// Returns the total capacity of the buffer.
    pub fn capacity(&self) -> (n: usize)
        ensures
            n == self@.bytes.len(),
    {
        self.data.len()
    }

    /// Returns the amount of bytes which are filled.
    pub fn len(&self) -> (n: usize)
        requires
            self.wf(),
        ensures
            n == self@.bytes.len() - self@.filled,
    {
        self.data.len() - self.filled
    }

    /// Returns `true` if the buffer has no capacity at all.
    pub fn is_empty(&self) -> (b: bool)
        ensures
            b == (self@.bytes.len() == 0),
    {
        self.data.len() == 0
    }

    /// Returns the amount of bytes of the defined part of the buffer.
    pub fn init_len(&self) -> (n: usize)
        requires
            self.wf(),
        ensures
            n == self@.bytes.len() - self@.init,
    {
        self.data.len() - self.init
    }

    /// Returns a shared reference to the filled portion of the buffer.
    pub fn filled(&self) -> (r: &[u8])
        requires
            self.wf(),
        ensures
            r@ == self.filled_seq(),
            r@.len() == self@.bytes.len() - self@.filled,
    {
        slice_subrange(self.data.as_slice(), self.filled, self.data.len())
    }

    /// Writes `v` at index `i` of the filled portion, counted from the start
    /// of the filled region.
    pub fn filled_mut(&mut self, i: usize, v: u8)
        requires
            old(self).wf(),
            i < old(self)@.bytes.len() - old(self)@.filled,
        ensures
            final(self).wf(),
            final(self)@.bytes == old(self)@.bytes.update(old(self)@.filled + i, v),
            final(self)@.filled == old(self)@.filled,
            final(self)@.init == old(self)@.init,
    {
        let n = self.data.len();
        assert(self.filled + i < n);
        let idx = self.filled + i;
        self.data.set(idx, v);
    }

    /// Clears the buffer, resetting the filled region to empty.
    ///
    /// The number of defined bytes is not changed, and the contents of the
    /// buffer are not modified.
    pub fn clear(&mut self)
        requires
            old(self).wf(),
        ensures
            final(self).wf(),
            final(self)@.bytes == old(self)@.bytes,
            final(self)@.filled == old(self)@.bytes.len(),
            final(self)@.init == old(self)@.init,
    {
        self.filled = self.data.len();
    }

    /// Asserts that all bytes at index `n` and above are defined.
    ///
    /// Definedness is never undone, so this does nothing when called with a
    /// boundary above what is already tracked.
    pub fn set_init(&mut self, n: usize)
        requires
            old(self).wf(),
        ensures
            final(self).wf(),
            final(self)@.bytes == old(self)@.bytes,
            final(self)@.filled == old(self)@.filled,
            final(self)@.init == vstd::math::min(old(self)@.init, n as int),
            final(self)@.init <= old(self)@.init,
    {
        if n < self.init {
            self.init = n;
        }
    }

    /// Returns a cursor over the unfilled part of the buffer.
    ///
    /// The cursor takes the buffer over for the write session; `finish`
    /// hands it back.
    pub fn unfilled(self) -> (c: RevBorrowedCursor)
        requires
            self.wf(),
        ensures
            c.wf(),
            c@.buf == self@,
            c@.start == self@.filled,
    {
        let start = self.filled;
        RevBorrowedCursor { buf: self, start }
    }
}

/// Abstract state of a cursor: the state of the buffer it owns together with
/// the snapshot of the filled boundary taken when the write session began.
pub ghost struct CursorAbs {
    /// The owned buffer's state.
    pub buf: BufAbs,
    /// The filled boundary at the time the cursor's lineage was created.
    pub start: int,
}

/// A writeable view of the unfilled portion of a [`RevBorrowedBuf`].
///
/// Data can be written directly with [`append`](RevBorrowedCursor::append),
/// or byte by byte through `init_mut`, `uninit_mut` and `as_mut` followed by
/// [`advance`](RevBorrowedCursor::advance) to report how many bytes were
/// written. Written bytes become part of the filled portion of the buffer
/// and can no longer be reached through the cursor.
pub struct RevBorrowedCursor {
    /// The owned buffer.
    buf: RevBorrowedBuf,
    /// The filled boundary of the buffer at the time of the lineage's
    /// creation; `buf.filled <= start` always holds.
    start: usize,
}

impl View for RevBorrowedCursor {
    type V = CursorAbs;

    closed spec fn view(&self) -> CursorAbs {
        CursorAbs { buf: self.buf@, start: self.start as int }
    }
}

impl RevBorrowedCursor {
    /// The cursor invariant: the owned buffer is well formed and its filled
    /// boundary never rose above the recorded snapshot.
    pub open spec fn wf(self) -> bool {
        0 <= self@.buf.init <= self@.buf.filled <= self@.start <= self@.buf.bytes.len()
    }

    /// Remaining writable space: the current filled boundary of the buffer.
    pub open spec fn capacity_spec(self) -> int {
        self@.buf.filled
    }

    /// Bytes written through this lineage since its creation.
    pub open spec fn written_spec(self) -> int {
        self@.start - self@.buf.filled
    }

    /// The contents of the buffer's filled region, `[filled, capacity)`.
    pub open spec fn filled_seq(self) -> Seq<u8> {
        self@.buf.bytes.subrange(self@.buf.filled, self@.buf.bytes.len() as int)
    }

    /// The contents of the whole defined region, `[init, capacity)`.
    pub open spec fn init_seq(self) -> Seq<u8> {
        self@.buf.bytes.subrange(self@.buf.init, self@.buf.bytes.len() as int)
    }

    /// Reborrows this cursor: hands out a cursor over the same buffer with
    /// the same lineage snapshot, so `written` keeps counting bytes written
    /// before the reborrow.
    ///
    /// Since a cursor keeps unique access to its buffer, the reborrowed
    /// cursor takes the session over from the one it was derived from.
    pub fn reborrow(self) -> (c: Self)
        ensures
            c@ == self@,
            c.written_spec() == self.written_spec(),
    {
        self
    }

    /// Ends the write session and hands the buffer back, with the boundary
    /// updates the session made.
    pub fn finish(self) -> (buf: RevBorrowedBuf)
        requires
            self.wf(),
        ensures
            buf.wf(),
            buf@ == self@.buf,
    {
        self.buf
    }

    /// Returns the available space in the cursor.
    pub fn capacity(&self) -> (n: usize)
        ensures
            n == self.capacity_spec(),
    {
        self.buf.filled
    }

    /// Returns the number of bytes written to this cursor's lineage since it
    /// was created from a `RevBorrowedBuf`.
    ///
    /// If this cursor was reborrowed from another, the count covers both: it
    /// runs from the creation of the original, not from the reborrow.
    pub fn written(&self) -> (n: usize)
        requires
            self.wf(),
        ensures
            n == self.written_spec(),
    {
        self.start - self.buf.filled
    }

    /// Returns a shared reference to the defined portion reachable through
    /// the cursor's buffer, `[init, capacity)`.
    pub fn init_ref(&self) -> (r: &[u8])
        requires
            self.wf(),
        ensures
            r@ == self.init_seq(),
            r@.len() == self@.buf.bytes.len() - self@.buf.init,
    {
        slice_subrange(self.buf.data.as_slice(), self.buf.init, self.buf.data.len())
    }

    /// Writes `v` at index `i` of the defined portion `[init, capacity)`,
    /// counted from the defined boundary.
    pub fn init_mut(&mut self, i: usize, v: u8)
        requires
            old(self).wf(),
            i < old(self)@.buf.bytes.len() - old(self)@.buf.init,
        ensures
            final(self).wf(),
            final(self)@.buf.bytes == old(self)@.buf.bytes.update(old(self)@.buf.init + i, v),
            final(self)@.buf.filled == old(self)@.buf.filled,
            final(self)@.buf.init == old(self)@.buf.init,
            final(self)@.start == old(self)@.start,
    {
        let n = self.buf.data.len();
        assert(self.buf.init + i < n);
        let idx = self.buf.init + i;
        self.buf.data.set(idx, v);
    }

    /// Writes `v` at index `i` of the never-yet-defined prefix `[0, init)`.
    ///
    /// Writing here is always allowed; the caller must report what was made
    /// defined through `set_init` or `advance`.
    pub fn uninit_mut(&mut self, i: usize, v: u8)
        requires
            old(self).wf(),
            i < old(self)@.buf.init,
        ensures
            final(self).wf(),
            final(self)@.buf.bytes == old(self)@.buf.bytes.update(i as int, v),
            final(self)@.buf.filled == old(self)@.buf.filled,
            final(self)@.buf.init == old(self)@.buf.init,
            final(self)@.start == old(self)@.start,
    {
        self.buf.data.set(i, v);
    }

    /// Writes `v` at index `i` of the whole unfilled range `[0, filled)`.
    ///
    /// The caller must not leave a byte of the defined portion without a
    /// defined value; the boundary bookkeeping does not shrink on its own.
    pub fn as_mut(&mut self, i: usize, v: u8)
        requires
            old(self).wf(),
            i < old(self)@.buf.filled,
        ensures
            final(self).wf(),
            final(self)@.buf.bytes == old(self)@.buf.bytes.update(i as int, v),
            final(self)@.buf.filled == old(self)@.buf.filled,
            final(self)@.buf.init == old(self)@.buf.init,
            final(self)@.start == old(self)@.start,
    {
        self.buf.data.set(i, v);
    }

    /// Advances the cursor by asserting that the `n` bytes just below the
    /// filled boundary have been filled in.
    ///
    /// The buffer's filled portion grows by `n` bytes and the capacity of
    /// this cursor shrinks by `n` bytes. The caller must have given those
    /// bytes their intended values beforehand.
    pub fn advance(&mut self, n: usize)
        requires
            old(self).wf(),
            n <= old(self).capacity_spec(),
        ensures
            final(self).wf(),
            final(self)@.buf.bytes == old(self)@.buf.bytes,
            final(self)@.buf.filled == old(self)@.buf.filled - n,
            final(self)@.buf.init == vstd::math::min(
                old(self)@.buf.init,
                final(self)@.buf.filled,
            ),
            final(self)@.buf.init <= old(self)@.buf.init,
            final(self)@.buf.filled <= old(self)@.buf.filled,
            final(self)@.start == old(self)@.start,
    {
        self.buf.filled = self.buf.filled - n;
        if self.buf.filled < self.buf.init {
            self.buf.init = self.buf.filled;
        }
    }

    /// Makes every byte in the cursor defined: zero-fills the whole
    /// never-yet-defined prefix `[0, init)` and moves the defined boundary
    /// to 0.
    pub fn ensure_init(&mut self)
        requires
            old(self).wf(),
        ensures
            final(self).wf(),
            final(self)@.buf.bytes.len() == old(self)@.buf.bytes.len(),
            forall|i: int|
                0 <= i < old(self)@.buf.init ==> final(self)@.buf.bytes[i] == 0,
            forall|i: int|
                old(self)@.buf.init <= i < old(self)@.buf.bytes.len()
                    ==> final(self)@.buf.bytes[i] == old(self)@.buf.bytes[i],
            final(self)@.buf.filled == old(self)@.buf.filled,
            final(self)@.buf.init == 0,
            final(self)@.buf.init <= old(self)@.buf.init,
            final(self)@.start == old(self)@.start,
    {
        let end = self.buf.init;
        let mut i: usize = 0;
        while i < end
            invariant
                i <= end,
                end == old(self)@.buf.init,
                self@.buf.bytes.len() == old(self)@.buf.bytes.len(),
                self@.buf.filled == old(self)@.buf.filled,
                self@.buf.init == old(self)@.buf.init,
                self@.start == old(self)@.start,
                old(self).wf(),
                forall|k: int| 0 <= k < i ==> self@.buf.bytes[k] == 0,
                forall|k: int|
                    i <= k < old(self)@.buf.bytes.len()
                        ==> self@.buf.bytes[k] == old(self)@.buf.bytes[k],
            decreases end - i,
        {
            self.buf.data.set(i, 0);
            i = i + 1;
        }
        self.buf.init = 0;
    }

    /// Asserts that the top `n` bytes of the unfilled range are defined:
    /// moves the defined boundary down to `filled - n`, saturating at 0.
    ///
    /// Definedness is never undone, so this does nothing when called with
    /// fewer bytes than are already known to be defined.
    pub fn set_init(&mut self, n: usize)
        requires
            old(self).wf(),
        ensures
            final(self).wf(),
            final(self)@.buf.bytes == old(self)@.buf.bytes,
            final(self)@.buf.filled == old(self)@.buf.filled,
            final(self)@.buf.init == vstd::math::min(
                old(self)@.buf.init,
                vstd::math::max(old(self)@.buf.filled - n, 0),
            ),
            final(self)@.buf.init <= old(self)@.buf.init,
            final(self)@.start == old(self)@.start,
    {
        let target = if n <= self.buf.filled {
            self.buf.filled - n
        } else {
            0
        };
        if target < self.buf.init {
            self.buf.init = target;
        }
    }

    /// Appends data to the cursor, advancing the position within its buffer.
    ///
    /// The bytes are copied into the top of the unfilled range, marked
    /// defined, and the filled boundary moves down by `data.len()`: the new
    /// filled region is `data` followed by what was filled before. When
    /// `data` is longer than the remaining capacity the call is rejected and
    /// the cursor is left exactly as it was; no partial write happens.
    pub fn append(&mut self, data: &[u8]) -> (r: Result<(), CapacityError>)
        requires
            old(self).wf(),
        ensures
            final(self).wf(),
            r is Ok <==> data@.len() <= old(self).capacity_spec(),
            r is Err ==> final(self)@ == old(self)@,
            final(self)@.buf.bytes.len() == old(self)@.buf.bytes.len(),
            final(self)@.start == old(self)@.start,
            final(self)@.buf.filled <= old(self)@.buf.filled,
            final(self)@.buf.init <= old(self)@.buf.init,
            r is Ok ==> {
                &&& final(self)@.buf.filled == old(self)@.buf.filled - data@.len()
                &&& final(self)@.buf.init == vstd::math::min(
                    old(self)@.buf.init,
                    final(self)@.buf.filled,
                )
                &&& final(self)@.buf.bytes == old(self)@.buf.bytes.subrange(
                    0,
                    final(self)@.buf.filled,
                ) + data@ + old(self).filled_seq()
                &&& final(self).filled_seq() == data@ + old(self).filled_seq()
            },
    {
        if data.len() > self.buf.filled {
            return Err(CapacityError);
        }
        let new_filled = self.buf.filled - data.len();
        let ghost pre = self@;
        let mut i: usize = 0;
        while i < data.len()
            invariant
                i <= data@.len(),
                pre.buf.filled <= pre.buf.bytes.len(),
                data@.len() <= pre.buf.filled,
                new_filled == pre.buf.filled - data@.len(),
                self@.buf.bytes.len() == pre.buf.bytes.len(),
                self@.buf.filled == pre.buf.filled,
                self@.buf.init == pre.buf.init,
                self@.start == pre.start,
                forall|k: int|
                    new_filled <= k < new_filled + i ==> self@.buf.bytes[k] == data@[k
                        - new_filled],
                forall|k: int|
                    0 <= k < pre.buf.bytes.len() && !(new_filled <= k < new_filled + i)
                        ==> self@.buf.bytes[k] == pre.buf.bytes[k],
            decreases data@.len() - i,
        {
            let b = *vstd::slice::slice_index_get(data, i);
            self.buf.data.set(new_filled + i, b);
            i = i + 1;
        }
        if new_filled < self.buf.init {
            self.buf.init = new_filled;
        }
        self.buf.filled = new_filled;
        proof {
            assert(self@.buf.bytes =~= pre.buf.bytes.subrange(0, new_filled as int) + data@
                + pre.buf.bytes.subrange(pre.buf.filled, pre.buf.bytes.len() as int));
            assert(self.filled_seq() =~= data@ + pre.buf.bytes.subrange(
                pre.buf.filled,
                pre.buf.bytes.len() as int,
            ));
        }
        Ok(())
    }
}

/// The error `append` returns when the supplied data does not fit into the
/// remaining unfilled capacity.
#[derive(Clone, Copy, Debug, PartialEq, Eq, Structural)]
pub struct CapacityError;

/// Law: in every reachable buffer state the boundaries are ordered,
/// `0 <= init <= filled <= capacity`. Every constructor establishes `wf` and
/// every operation preserves it, so the ordering holds throughout.
pub proof fn lemma_buf_boundaries(buf: &RevBorrowedBuf)
    requires
        buf.wf(),
    ensures
        0 <= buf@.init,
        buf@.init <= buf@.filled,
        buf@.filled <= buf@.bytes.len(),
{
}

/// Law: in every reachable cursor state the boundaries are ordered,
/// `0 <= init <= filled <= start <= capacity`, so the filled boundary never
/// rises above the snapshot taken when the lineage began.
pub proof fn lemma_cursor_boundaries(c: &RevBorrowedCursor)
    requires
        c.wf(),
    ensures
        0 <= c@.buf.init,
        c@.buf.init <= c@.buf.filled,
        c@.buf.filled <= c@.start,
        c@.start <= c@.buf.bytes.len(),
        c.written_spec() >= 0,
{
}

/// Law: round trip. Take the full content of a fully defined region,
/// clear the buffer, and append the content again in two chunks, tail chunk
/// first. Whatever split point was chosen, the filled region afterward is
/// exactly the original content.
///
/// `s0`, `s1`, `s2` are the filled regions after `clear`, after the first
/// `append`, and after the second; the hypotheses are what `clear` and
/// `append` ensure about them.
pub proof fn lemma_round_trip(full: Seq<u8>, k: int, s0: Seq<u8>, s1: Seq<u8>, s2: Seq<u8>)
    requires
        0 <= k <= full.len(),
        s0 == Seq::<u8>::empty(),
        s1 == full.subrange(k, full.len() as int) + s0,
        s2 == full.subrange(0, k) + s1,
    ensures
        s2 == full,
{
    assert(s2 =~= full);
}

/// Law: `ensure_init` on a cursor over a raw region of capacity `N` leaves
/// the defined boundary at 0 and every byte of `[0, N)` reading as zero.
///
/// `pre` and `post` are the cursor before and after the call; the hypotheses
/// about `post` are what `ensure_init` ensures.
pub proof fn lemma_ensure_init_raw(pre: &RevBorrowedCursor, post: &RevBorrowedCursor)
    requires
        pre.wf(),
        pre@.buf.init == pre@.buf.bytes.len(),
        post@.buf.bytes.len() == pre@.buf.bytes.len(),
        post@.buf.init == 0,
        forall|i: int| 0 <= i < pre@.buf.init ==> post@.buf.bytes[i] == 0,
    ensures
        forall|i: int| 0 <= i < post@.buf.bytes.len() ==> post@.buf.bytes[i] == 0,
{
}

} // verus!

