use vstd::prelude::*;
use crate::error::Error;

verus! {

/// One contiguous range of a buffer that takes part in a transfer, given by
/// its offset from the buffer's start and its length in bytes.
#[derive(Debug, Clone, Copy, PartialEq, Eq, Structural)]
pub struct MemVec {
    pub offset: u64,
    pub len: usize,
}

impl MemVec {
    /// The first position past the range.
    pub open spec fn end(self) -> int {
        self.offset + self.len
    }

    /// Whether the range lies inside a buffer of `buf_len` bytes.
    pub open spec fn fits(self, buf_len: nat) -> bool {
        self.end() <= buf_len
    }
}

/// The total number of bytes that a list of ranges asks for.
pub open spec fn total_len(ranges: Seq<MemVec>) -> nat
    decreases ranges.len(),
{
    if ranges.len() == 0 {
        0
    } else {
        total_len(ranges.drop_last()) + ranges.last().len as nat
    }
}

/// `buf` with the range `range` overwritten by the first `range.len` bytes of
/// `data`; positions outside the range keep their bytes.
pub open spec fn stored(buf: Seq<u8>, range: MemVec, data: Seq<u8>) -> Seq<u8> {
    Seq::new(
        buf.len(),
        |i: int|
            if range.offset <= i < range.end() {
                data[i - range.offset]
            } else {
                buf[i]
            },
    )
}

/// `buf` with every position of `range` set to `byte`.
pub open spec fn filled(buf: Seq<u8>, range: MemVec, byte: u8) -> Seq<u8> {
    Seq::new(
        buf.len(),
        |i: int|
            if range.offset <= i < range.end() {
                byte
            } else {
                buf[i]
            },
    )
}

/// Filling the single range that spans a whole buffer leaves a buffer of the
/// same length in which every byte is the fill byte, whatever it held before.
pub proof fn fill_whole_overwrites_all(buf: Seq<u8>, byte: u8)
    requires
        buf.len() <= usize::MAX,
    ensures
        filled(buf, MemVec { offset: 0, len: buf.len() as usize }, byte).len() == buf.len(),
        forall|i: int|
            0 <= i < buf.len() ==> #[trigger] filled(
                buf,
                MemVec { offset: 0, len: buf.len() as usize },
                byte,
            )[i] == byte,
{
}

/// Storing into a range changes no byte outside it and keeps the buffer's
/// length.
pub proof fn store_keeps_outside(buf: Seq<u8>, range: MemVec, data: Seq<u8>)
    ensures
        stored(buf, range, data).len() == buf.len(),
        forall|i: int|
            0 <= i < buf.len() && !(range.offset <= i < range.end()) ==> #[trigger] stored(
                buf,
                range,
                data,
            )[i] == buf[i],
{
}

/// A byte allocation of fixed length together with the number of parties that
/// currently hold it. The allocation can be taken out again only by a sole
/// holder.
#[derive(Debug)]
pub struct VecIoWrapper {
    inner: Vec<u8>,
    holders: usize,
}

impl View for VecIoWrapper {
    type V = Seq<u8>;

    closed spec fn view(&self) -> Seq<u8> {
        self.inner@
    }
}

impl VecIoWrapper {
    /// The number of parties that hold the buffer.
    pub closed spec fn holders(&self) -> nat {
        self.holders as nat
    }

    /// The wrapper as it is once one more party holds it.
    pub closed spec fn shared(self) -> VecIoWrapper {
        VecIoWrapper { inner: self.inner, holders: (self.holders + 1) as usize }
    }

    /// A wrapper that gains a holder keeps its bytes and counts one more.
    pub proof fn shared_counts_one_more(self)
        requires
            self.holders() < usize::MAX,
        ensures
            self.shared()@ == self@,
            self.shared().holders() == self.holders() + 1,
    {
    }

    /// Every wrapper has at least one holder.
    pub open spec fn wf(&self) -> bool {
        self.holders() >= 1
    }

    /// Wraps `vec`, with the caller as its only holder.
    pub fn new(vec: Vec<u8>) -> (w: Self)
        ensures
            w@ == vec@,
            w.holders() == 1,
            w.wf(),
    {
        VecIoWrapper { inner: vec, holders: 1 }
    }

    /// The length of the buffer in bytes.
    pub fn len(&self) -> (n: usize)
        ensures
            n == self@.len(),
    {
        self.inner.len()
    }

    /// The bytes of the buffer, to read.
    pub fn as_slice(&self) -> (bytes: &[u8])
        ensures
            bytes@ == self@,
    {
        self.inner.as_slice()
    }

    /// The number of holders.
    pub fn strong_count(&self) -> (n: usize)
        ensures
            n == self.holders(),
    {
        self.holders
    }

    /// Records one more holder. Returns `false`, and changes nothing, when
    /// the count cannot grow any further.
    pub fn share(&mut self) -> (added: bool)
        ensures
            final(self)@ == old(self)@,
            added == (old(self).holders() < usize::MAX),
            added ==> *final(self) == old(self).shared(),
            added ==> final(self).holders() == old(self).holders() + 1,
            !added ==> *final(self) == *old(self),
            old(self).wf() ==> final(self).wf(),
    {
        if self.holders < usize::MAX {
            self.holders = self.holders + 1;
            true
        } else {
            false
        }
    }

    /// Records that one holder has let go. The last holder cannot let go this
    /// way: it takes the allocation out with `unwrap`. Returns whether a
    /// holder was removed.
    pub fn release(&mut self) -> (removed: bool)
        ensures
            final(self)@ == old(self)@,
            removed == (old(self).holders() > 1),
            removed ==> final(self).holders() == old(self).holders() - 1,
            !removed ==> final(self).holders() == old(self).holders(),
            old(self).wf() ==> final(self).wf(),
    {
        if self.holders > 1 {
            self.holders = self.holders - 1;
            true
        } else {
            false
        }
    }

    /// Whether `range` lies inside the buffer.
    pub fn contains(&self, range: &MemVec) -> (inside: bool)
        ensures
            inside == range.fits(self@.len()),
    {
        let n: usize = self.inner.len();
        range.offset <= n as u64 && range.len <= n - range.offset as usize
    }

    /// Checks a list of ranges against the buffer. Returns the ranges as
    /// pairs of start position and length when each of them lies inside the
    /// buffer, and `None` when one does not.
    pub fn as_scatter_view(&self, ranges: &[MemVec]) -> (view: Option<Vec<(usize, usize)>>)
        ensures
            view is Some <==> forall|i: int|
                0 <= i < ranges@.len() ==> (#[trigger] ranges@[i]).fits(self@.len()),
            view matches Some(v) ==> v@.len() == ranges@.len() && forall|i: int|
                0 <= i < ranges@.len() ==> (#[trigger] v@[i]) == (
                    ranges@[i].offset as usize,
                    ranges@[i].len,
                ),
    {
        let mut out: Vec<(usize, usize)> = Vec::new();
        let mut k: usize = 0;
        while k < ranges.len()
            invariant
                k <= ranges@.len(),
                out@.len() == k,
                forall|i: int| 0 <= i < k ==> (#[trigger] ranges@[i]).fits(self@.len()),
                forall|i: int|
                    0 <= i < k ==> (#[trigger] out@[i]) == (
                        ranges@[i].offset as usize,
                        ranges@[i].len,
                    ),
            decreases ranges@.len() - k,
        {
            let r: MemVec = ranges[k];
            if !self.contains(&r) {
                return None;
            }
            out.push((r.offset as usize, r.len));
            k = k + 1;
        }
        Some(out)
    }

    /// Sets every byte of `range` to `byte`. Returns `false`, and changes
    /// nothing, when the range does not lie inside the buffer.
    pub fn fill(&mut self, range: &MemVec, byte: u8) -> (done: bool)
        ensures
            done == range.fits(old(self)@.len()),
            done ==> final(self)@ == filled(old(self)@, *range, byte),
            !done ==> final(self)@ == old(self)@,
            final(self).holders() == old(self).holders(),
    {
        if !self.contains(range) {
            return false;
        }
        let n: usize = self.inner.len();
        let start: usize = range.offset as usize;
        let mut k: usize = 0;
        while k < range.len
            invariant
                k <= range.len,
                start == range.offset,
                start + range.len <= n,
                n == self.inner@.len(),
                self.inner@.len() == old(self).inner@.len(),
                self.holders == old(self).holders,
                forall|i: int|
                    0 <= i < self.inner@.len() ==> #[trigger] self.inner@[i] == (if start <= i
                        < start + k {
                        byte
                    } else {
                        old(self).inner@[i]
                    }),
            decreases range.len - k,
        {
            self.inner.set(start + k, byte);
            k = k + 1;
        }
        assert(self.inner@ =~= filled(old(self)@, *range, byte));
        true
    }

    /// Copies the first `range.len` bytes of `data` into `range`. Returns
    /// `false`, and changes nothing, when the range does not lie inside the
    /// buffer or `data` is shorter than the range.
    pub fn store(&mut self, range: &MemVec, data: &[u8]) -> (done: bool)
        ensures
            done == (range.fits(old(self)@.len()) && range.len <= data@.len()),
            done ==> final(self)@ == stored(old(self)@, *range, data@),
            !done ==> final(self)@ == old(self)@,
            final(self).holders() == old(self).holders(),
    {
        if !self.contains(range) || data.len() < range.len {
            return false;
        }
        let n: usize = self.inner.len();
        let start: usize = range.offset as usize;
        let mut k: usize = 0;
        while k < range.len
            invariant
                k <= range.len,
                range.len <= data@.len(),
                start == range.offset,
                start + range.len <= n,
                n == self.inner@.len(),
                self.inner@.len() == old(self).inner@.len(),
                self.holders == old(self).holders,
                forall|i: int|
                    0 <= i < self.inner@.len() ==> #[trigger] self.inner@[i] == (if start <= i
                        < start + k {
                        data@[i - start]
                    } else {
                        old(self).inner@[i]
                    }),
            decreases range.len - k,
        {
            self.inner.set(start + k, data[k]);
            k = k + 1;
        }
        assert(self.inner@ =~= stored(old(self)@, *range, data@));
        true
    }

    /// Takes the allocation out of the wrapper. Only a sole holder gets it;
    /// with any other count the wrapper is dropped and the call fails with
    /// `BufferStillReferenced`.
    pub fn unwrap(self) -> (r: Result<Vec<u8>, Error>)
        ensures
            self.holders() == 1 ==> (r matches Ok(v) && v@ == self@),
            self.holders() != 1 ==> r == Err::<Vec<u8>, Error>(Error::BufferStillReferenced),
    {
        if self.holders == 1 {
            Ok(self.inner)
        } else {
            Err(Error::BufferStillReferenced)
        }
    }
}

} // verus!
