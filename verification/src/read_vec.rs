use vstd::prelude::*;
use core::task::Context;
use crate::error::Error;
use crate::poll::Poll;
use crate::io_source::{IoSource, PendingOperation};
use crate::uring_fut::UringFutState;
use crate::uring_mem::{filled, total_len, MemVec, VecIoWrapper};

verus! {

/// The state of a read: the file offset and the wrapped buffer before
/// submission, the requested length beside the token afterwards.
pub type ReadState = UringFutState<(u64, VecIoWrapper), usize>;

/// The number of bytes that a read in state `state` asks for; 0 once it is
/// over.
pub open spec fn requested_len(state: ReadState) -> nat {
    match state {
        UringFutState::Init((_, buf)) => buf@.len(),
        UringFutState::Wait((_, n)) => n as nat,
        _ => 0,
    }
}

/// A read from a source, at a byte offset, into a buffer that the caller
/// hands over and gets back filled. It does nothing unless it is polled.
///
/// Dropping the read before it is over does not withdraw the operation from
/// the source: the buffer stays with the operation until the source is done
/// with it, and its result is then lost.
#[must_use]
pub struct ReadVec<'a, R: IoSource> {
    reader: &'a R,
    state: ReadState,
}

impl<'a, R: IoSource> ReadVec<'a, R> {
    /// Where the read stands.
    pub closed spec fn state(&self) -> ReadState {
        self.state
    }

    /// The source that is read from.
    pub closed spec fn reader(&self) -> &R {
        self.reader
    }

    /// Whether `out` is what the read makes of the finished operation
    /// `result` that was submitted for `requested` bytes: an error is passed
    /// on; a buffer that is back with a single holder and the requested
    /// length is unwrapped; any other buffer is an `InternalInvariantError`.
    pub open spec fn completes_as(
        requested: usize,
        result: Result<(u32, VecIoWrapper), Error>,
        out: Result<Vec<u8>, Error>,
    ) -> bool {
        match result {
            Err(e) => out == Err::<Vec<u8>, Error>(e),
            Ok((_, buf)) => if buf.holders() == 1 && buf@.len() == requested {
                out matches Ok(v) && v@ == buf@
            } else {
                out == Err::<Vec<u8>, Error>(Error::InternalInvariantError)
            },
        }
    }

    /// Whether `r` is what the read makes of submitting `seed` to `reader`:
    /// the operation was recorded as a second holder of the buffer, the
    /// source was handed the file offset, the buffer and the one range that
    /// spans it, and its answer was taken as `submitted` says. A buffer whose
    /// count of holders cannot grow is not submitted at all.
    pub open spec fn submits_as(
        reader: &R,
        seed: (u64, VecIoWrapper),
        r: Result<(PendingOperation, usize), Error>,
    ) -> bool {
        if seed.1.holders() >= usize::MAX {
            r == Err::<(PendingOperation, usize), Error>(Error::InternalInvariantError)
        } else {
            exists|ranges: &[MemVec], answer: Result<PendingOperation, Error>|
                ranges@.len() == 1 && ranges@[0].offset == 0 && ranges@[0].len == seed.1@.len()
                    && #[trigger] R::read_to_mem.ensures(
                    (reader, seed.0, seed.1.shared(), ranges),
                    answer,
                ) && match answer {
                    Ok(op) => r matches Ok(kept) && kept.0 == op && kept.1 == seed.1@.len(),
                    Err(_) => r == Err::<(PendingOperation, usize), Error>(
                        Error::SubmissionError,
                    ),
                }
        }
    }

    /// Whether one completion poll of the operation `op`, submitted for
    /// `requested` bytes, may report `out` and leave the read in `after`:
    /// while the source answers `Pending` the read waits on under the same
    /// token; once it answers `Ready` the read is over and reports what
    /// `completes_as` allows.
    pub open spec fn polls_as(
        reader: &R,
        cx: &Context<'_>,
        op: PendingOperation,
        requested: usize,
        out: Poll<Result<Vec<u8>, Error>>,
        after: ReadState,
    ) -> bool {
        exists|answer: Poll<Result<(u32, VecIoWrapper), Error>>|
            #[trigger] R::poll_complete.ensures((reader, cx, &op), answer) && match answer {
                Poll::Pending => out is Pending && after == UringFutState::<
                    (u64, VecIoWrapper),
                    usize,
                >::Wait((op, requested)),
                Poll::Ready(result) => after is Done && (out matches Poll::Ready(r)
                    && Self::completes_as(requested, result, r)),
            }
    }

    /// Whether a poll of a read in state `before` may report `out` and leave
    /// the read in `after`. A new read is submitted first: a rejection ends
    /// it at once with `SubmissionError`, and otherwise the new operation is
    /// polled in the same step. A waiting read is polled. A read that is over
    /// answers `InternalInvariantError`.
    pub open spec fn steps_as(
        reader: &R,
        cx: &Context<'_>,
        before: ReadState,
        out: Poll<Result<Vec<u8>, Error>>,
        after: ReadState,
    ) -> bool {
        match before {
            UringFutState::Init(seed) => exists|r: Result<(PendingOperation, usize), Error>| #[trigger]
                Self::submits_as(reader, seed, r) && match r {
                    Err(e) => after is Processing && out == Poll::Ready(
                        Err::<Vec<u8>, Error>(e),
                    ),
                    Ok((op, requested)) => Self::polls_as(reader, cx, op, requested, out, after),
                },
            UringFutState::Wait((op, requested)) => Self::polls_as(
                reader,
                cx,
                op,
                requested,
                out,
                after,
            ),
            _ => after is Processing && out == Poll::Ready(
                Err::<Vec<u8>, Error>(Error::InternalInvariantError),
            ),
        }
    }

    /// A read of `vec.len()` bytes from `reader`, starting `file_offset`
    /// bytes into it. Nothing is submitted yet; `vec` is wrapped with the
    /// read as its only holder.
    pub fn new(reader: &'a R, file_offset: u64, vec: Vec<u8>) -> (read: Self)
        ensures
            read.state() matches UringFutState::Init((off, buf)) && off == file_offset && buf@
                == vec@ && buf.holders() == 1,
    {
        ReadVec { reader, state: UringFutState::new((file_offset, VecIoWrapper::new(vec))) }
    }

    /// Whether nothing was submitted yet.
    pub fn is_init(&self) -> (b: bool)
        ensures
            b == (self.state() is Init),
    {
        match &self.state {
            UringFutState::Init(_) => true,
            _ => false,
        }
    }

    /// Whether an operation is in flight.
    pub fn is_waiting(&self) -> (b: bool)
        ensures
            b == (self.state() is Wait),
    {
        match &self.state {
            UringFutState::Wait(_) => true,
            _ => false,
        }
    }

    /// The single range that a read into a buffer of `len` bytes submits:
    /// the whole buffer, so that the ranges add up to the length asked for.
    pub fn whole_buffer(len: usize) -> (ranges: Vec<MemVec>)
        ensures
            ranges@ == seq![(MemVec { offset: 0, len })],
            total_len(ranges@) == len,
            ranges@[0].fits(len as nat),
    {
        let mut ranges: Vec<MemVec> = Vec::new();
        ranges.push(MemVec { offset: 0, len });
        assert(ranges@ =~= seq![(MemVec { offset: 0, len })]);
        assert(ranges@.drop_last() =~= Seq::<MemVec>::empty());
        assert(total_len(ranges@.drop_last()) == 0);
        ranges
    }

    /// What the read makes of the source's answer to a submission of
    /// `requested` bytes: the token is kept with the requested length, and a
    /// rejection, whatever it holds, becomes `SubmissionError`.
    pub fn submitted(requested: usize, answer: Result<PendingOperation, Error>) -> (out: Result<
        (PendingOperation, usize),
        Error,
    >)
        ensures
            match answer {
                Ok(op) => out == Ok::<(PendingOperation, usize), Error>((op, requested)),
                Err(_) => out == Err::<(PendingOperation, usize), Error>(Error::SubmissionError),
            },
    {
        match answer {
            Ok(op) => Ok((op, requested)),
            Err(_) => Err(Error::SubmissionError),
        }
    }

    /// What the read makes of a finished operation that was submitted for
    /// `requested` bytes. An error of the source is passed on, and the buffer
    /// is lost with it. On success the operation must have let go of the
    /// buffer, so that it is back with a single holder, and it must have the
    /// length it was submitted with: then its allocation is
    /// returned; otherwise the read fails with `InternalInvariantError`. The
    /// number of bytes transferred does not change the outcome: a short
    /// transfer is not retried.
    pub fn completed(requested: usize, result: Result<(u32, VecIoWrapper), Error>) -> (out: Result<
        Vec<u8>,
        Error,
    >)
        ensures
            Self::completes_as(requested, result, out),
    {
        match result {
            Err(e) => Err(e),
            Ok((_, buf)) => {
                if buf.len() != requested {
                    return Err(Error::InternalInvariantError);
                }
                match buf.unwrap() {
                    Ok(v) => Ok(v),
                    Err(_) => Err(Error::InternalInvariantError),
                }
            },
        }
    }

    /// Whatever the source answers, a poll that reports `Pending` leaves the
    /// read waiting: a waiting read exactly as it was, a new read under its
    /// new token with the length of its buffer. A poll that reports a result
    /// leaves the read over. No poll takes a read back to before its
    /// submission.
    pub proof fn pending_keeps_waiting(
        reader: &R,
        cx: &Context<'_>,
        before: ReadState,
        out: Poll<Result<Vec<u8>, Error>>,
        after: ReadState,
    )
        requires
            Self::steps_as(reader, cx, before, out, after),
        ensures
            out is Pending ==> after is Wait && requested_len(after) == requested_len(before),
            out is Pending && before is Wait ==> after == before,
            out is Pending ==> before is Init || before is Wait,
            out is Ready ==> !after.is_live(),
            !(after is Init),
    {
    }

    /// A read that ends without ever waiting for an operation, so that its
    /// state is left taken out, reports `SubmissionError` if it was new and
    /// `InternalInvariantError` if it was over already; a read whose
    /// submission was accepted never ends that way.
    pub proof fn rejected_submission_never_waits(
        reader: &R,
        cx: &Context<'_>,
        before: ReadState,
        out: Poll<Result<Vec<u8>, Error>>,
        after: ReadState,
    )
        requires
            Self::steps_as(reader, cx, before, out, after),
            after is Processing,
        ensures
            before matches UringFutState::Init((_, buf)) && buf.holders() < usize::MAX ==> out
                == Poll::Ready(Err::<Vec<u8>, Error>(Error::SubmissionError)),
            !before.is_live() ==> out == Poll::Ready(
                Err::<Vec<u8>, Error>(Error::InternalInvariantError),
            ),
            !(before is Wait),
    {
    }

    /// Whatever the source answers, a buffer that a poll hands out has the
    /// length that the read asked for, however many bytes were transferred.
    pub proof fn returned_length_is_requested(
        reader: &R,
        cx: &Context<'_>,
        before: ReadState,
        out: Poll<Result<Vec<u8>, Error>>,
        after: ReadState,
    )
        requires
            Self::steps_as(reader, cx, before, out, after),
        ensures
            out matches Poll::Ready(Ok(v)) ==> v@.len() == requested_len(before),
    {
    }

    /// When the source has overwritten the whole of a buffer of `before.len()`
    /// bytes with zeroes and hands it back with a single holder, the read
    /// succeeds with a buffer of the same length in which every byte is zero,
    /// whatever the buffer held before.
    pub proof fn zero_fill_reads_all_zero(
        before: Seq<u8>,
        transferred: u32,
        buf: VecIoWrapper,
        out: Result<Vec<u8>, Error>,
    )
        requires
            before.len() <= usize::MAX,
            buf.holders() == 1,
            buf@ == filled(before, MemVec { offset: 0, len: before.len() as usize }, 0),
            Self::completes_as(before.len() as usize, Ok((transferred, buf)), out),
        ensures
            out matches Ok(v) && v@.len() == before.len() && forall|i: int|
                0 <= i < before.len() ==> #[trigger] v@[i] == 0,
    {
    }

    /// A buffer that comes back from a finished operation while a second
    /// party still holds it is never handed out: the read fails with
    /// `InternalInvariantError`.
    pub proof fn second_holder_fails(
        requested: usize,
        transferred: u32,
        buf: VecIoWrapper,
        out: Result<Vec<u8>, Error>,
    )
        requires
            buf.holders() > 1,
            Self::completes_as(requested, Ok((transferred, buf)), out),
        ensures
            out == Err::<Vec<u8>, Error>(Error::InternalInvariantError),
    {
    }

    /// Resumes the read. The first call records the operation as a second
    /// holder of the buffer, submits the whole buffer as one range at the
    /// file offset and polls the new operation once; later calls poll the
    /// operation in flight. `cx` goes to the source with each completion
    /// poll, so that it can wake the task.
    ///
    /// The source decides what is reported, and `steps_as` says what the read
    /// makes of each of its answers. Whatever it answers: a rejected
    /// submission is reported at once as `SubmissionError` and the read never
    /// waits; `Pending` leaves a waiting read as it was; and a buffer that
    /// comes out has the length that was asked for.
    pub fn poll(&mut self, cx: &Context<'_>) -> (out: Poll<Result<Vec<u8>, Error>>)
        ensures
            final(self).reader() == old(self).reader(),
            Self::steps_as(old(self).reader(), cx, old(self).state(), out, final(self).state()),
            out is Pending ==> final(self).state() is Wait,
            out is Pending && old(self).state() is Wait ==> final(self).state() == old(
                self,
            ).state(),
            out is Ready ==> !final(self).state().is_live(),
            !(final(self).state() is Init),
            old(self).state() matches UringFutState::Init((_, buf)) && buf.holders() < usize::MAX
                && final(self).state() is Processing ==> out == Poll::Ready(
                Err::<Vec<u8>, Error>(Error::SubmissionError),
            ),
            out matches Poll::Ready(Ok(v)) ==> v@.len() == requested_len(old(self).state()),
    {
        let mut state: ReadState = UringFutState::Processing;
        core::mem::swap(&mut self.state, &mut state);
        let reader: &R = self.reader;
        let ghost before = state;
        let step = state.advance(
            |seed: (u64, VecIoWrapper)| -> (r: Result<(PendingOperation, usize), Error>)
                ensures
                    Self::submits_as(reader, seed, r)
                {
                    let (file_offset, mut wrapped) = seed;
                    let requested: usize = wrapped.len();
                    if wrapped.share() {
                        let ranges = Self::whole_buffer(requested);
                        Self::submitted(
                            requested,
                            reader.read_to_mem(file_offset, wrapped, ranges.as_slice()),
                        )
                    } else {
                        Err(Error::InternalInvariantError)
                    }
                },
            |op: &PendingOperation| -> (p: Poll<Result<(u32, VecIoWrapper), Error>>)
                ensures
                    R::poll_complete.ensures((reader, cx, op), p)
                { reader.poll_complete(cx, op) },
        );
        let out = match step {
            Err(e) => Poll::Ready(Err(e)),
            Ok((new_state, ret)) => {
                self.state = new_state;
                match ret {
                    Poll::Pending => Poll::Pending,
                    Poll::Ready((result, requested)) => Poll::Ready(
                        Self::completed(requested, result),
                    ),
                }
            },
        };
        proof {
            Self::pending_keeps_waiting(reader, cx, before, out, self.state);
            Self::returned_length_is_requested(reader, cx, before, out, self.state);
            if self.state is Processing {
                Self::rejected_submission_never_waits(reader, cx, before, out, self.state);
            }
        }
        out
    }
}

} // verus!
