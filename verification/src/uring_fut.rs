use vstd::prelude::*;
use crate::error::Error;
use crate::poll::Poll;
use crate::io_source::PendingOperation;

verus! {

/// Where an operation stands: not yet submitted, submitted and awaited, or
/// over. `T` is what submission needs; `W` is kept beside the token while the
/// operation is in flight and handed out with its result.
#[derive(Debug)]
pub enum UringFutState<T, W> {
    /// Nothing was submitted yet.
    Init(T),
    /// The operation is in flight under this token.
    Wait((PendingOperation, W)),
    /// The result was handed out.
    Done,
    /// The state was taken out to be advanced and nothing was put back.
    Processing,
}

/// The state and the report that follow a completion poll of the operation
/// `op`: still waiting on `Pending`, over on `Ready`.
pub open spec fn after_poll<T, W, R>(op: PendingOperation, wait_data: W, polled: Poll<R>) -> (
    UringFutState<T, W>,
    Poll<(R, W)>,
) {
    match polled {
        Poll::Pending => (UringFutState::Wait((op, wait_data)), Poll::Pending),
        Poll::Ready(r) => (UringFutState::Done, Poll::Ready((r, wait_data))),
    }
}

/// A completion poll never takes an operation back to before its
/// submission, and it ends the operation exactly when the source reports
/// `Ready`; while the source reports `Pending` the operation waits under the
/// same token with the same data.
pub proof fn poll_moves_forward<T, W, R>(op: PendingOperation, wait_data: W, polled: Poll<R>)
    ensures
        !(after_poll::<T, W, R>(op, wait_data, polled).0 is Init),
        polled is Ready <==> after_poll::<T, W, R>(op, wait_data, polled).0 is Done,
        polled is Pending <==> after_poll::<T, W, R>(op, wait_data, polled).0
            == UringFutState::<T, W>::Wait((op, wait_data)),
        polled is Pending <==> after_poll::<T, W, R>(op, wait_data, polled).1 is Pending,
{
}

impl<T, W> UringFutState<T, W> {
    /// Whether the operation can still be advanced.
    pub open spec fn is_live(self) -> bool {
        self is Init || self is Wait
    }

    /// The state of an operation that is yet to be submitted with `start`.
    pub fn new(start: T) -> (s: Self)
        ensures
            s == UringFutState::<T, W>::Init(start),
    {
        UringFutState::Init(start)
    }

    /// What `advance` may return from the state `self` with the two
    /// functions: a failed submission ends in its error; otherwise the
    /// operation, new or already in flight, is polled once and the outcome is
    /// that of `after_poll`. A state that is over cannot be advanced: that is
    /// reported as `InternalInvariantError`.
    pub open spec fn advanced<S, C, R>(
        self,
        start: S,
        complete: C,
        out: Result<(Self, Poll<(R, W)>), Error>,
    ) -> bool where
        S: FnOnce(T) -> Result<(PendingOperation, W), Error>,
        C: FnOnce(&PendingOperation) -> Poll<R>,
     {
        match self {
            UringFutState::Init(seed) => exists|sr: Result<(PendingOperation, W), Error>|
                #[trigger] start.ensures((seed,), sr) && match sr {
                    Err(e) => out == Err::<(Self, Poll<(R, W)>), Error>(e),
                    Ok((op, w)) => exists|pr: Poll<R>|
                        #[trigger] complete.ensures((&op,), pr) && out == Ok::<
                            (Self, Poll<(R, W)>),
                            Error,
                        >(after_poll(op, w, pr)),
                },
            UringFutState::Wait((op, w)) => exists|pr: Poll<R>|
                #[trigger] complete.ensures((&op,), pr) && out == Ok::<
                    (Self, Poll<(R, W)>),
                    Error,
                >(after_poll(op, w, pr)),
            _ => out == Err::<(Self, Poll<(R, W)>), Error>(Error::InternalInvariantError),
        }
    }

    /// Takes the operation one step further. From `Init`, `start` submits it;
    /// if that fails the error is returned and no state is left. The
    /// operation is then polled once with `complete`, in the same call after
    /// a submission: `Pending` leaves it waiting under the same token,
    /// `Ready` ends it and hands out the result with the data kept beside the
    /// token. Advancing a state that is over is a fault of the caller, and is
    /// answered with `InternalInvariantError` without calling either
    /// function.
    pub fn advance<S, C, R>(self, start: S, complete: C) -> (out: Result<
        (Self, Poll<(R, W)>),
        Error,
    >) where
        S: FnOnce(T) -> Result<(PendingOperation, W), Error>,
        C: FnOnce(&PendingOperation) -> Poll<R>,

        requires
            self matches UringFutState::Init(seed) ==> start.requires((seed,)),
            self matches UringFutState::Init(seed) ==> forall|op: PendingOperation, w: W|
                #[trigger] start.ensures((seed,), Ok((op, w))) ==> complete.requires((&op,)),
            self matches UringFutState::Wait((op, w)) ==> complete.requires((&op,)),
        ensures
            self.advanced(start, complete, out),
    {
        let (op, wait_data) = match self {
            UringFutState::Init(seed) => {
                match start(seed) {
                    Ok(submitted) => submitted,
                    Err(e) => {
                        return Err(e);
                    },
                }
            },
            UringFutState::Wait(op_data) => op_data,
            UringFutState::Done => {
                return Err(Error::InternalInvariantError);
            },
            UringFutState::Processing => {
                return Err(Error::InternalInvariantError);
            },
        };
        let polled = complete(&op);
        Ok(Self::polled(op, wait_data, polled))
    }

    /// The state and the report that follow the answer `polled` to a
    /// completion poll of the operation `op`, which is in flight with
    /// `wait_data` beside it.
    pub fn polled<R>(op: PendingOperation, wait_data: W, polled: Poll<R>) -> (out: (
        Self,
        Poll<(R, W)>,
    ))
        ensures
            out == after_poll::<T, W, R>(op, wait_data, polled),
    {
        match polled {
            Poll::Pending => (UringFutState::Wait((op, wait_data)), Poll::Pending),
            Poll::Ready(r) => (UringFutState::Done, Poll::Ready((r, wait_data))),
        }
    }
}

} // verus!
