use vstd::prelude::*;
use core::task::Context;
use crate::error::Error;
use crate::poll::Poll;
use crate::uring_mem::{MemVec, VecIoWrapper};

verus! {

/// `core::task::Context`, the handle through which a polled task is woken.
/// Nothing is stated of it: it is only passed on to the source.
#[verifier::external_type_specification]
#[verifier::external_body]
pub struct ExContext<'a>(Context<'a>);

/// The token that a source hands out for a submitted operation. It ties later
/// completion polls to that operation and means nothing else to the holder.
#[derive(Debug, Clone, Copy, PartialEq, Eq, Structural)]
pub struct PendingOperation {
    id: u64,
}

impl PendingOperation {
    /// The number that the source chose for the operation.
    pub closed spec fn spec_id(self) -> u64 {
        self.id
    }

    /// A token for the operation that the source numbers `id`.
    pub fn new(id: u64) -> (op: Self)
        ensures
            op.spec_id() == id,
    {
        PendingOperation { id }
    }

    /// The number that the source chose for the operation.
    pub fn id(&self) -> (id: u64)
        ensures
            id == self.spec_id(),
    {
        self.id
    }
}

/// What a source of bytes must offer so that reads can be driven against it:
/// submit a read now, and ask later, without blocking, whether it is done.
///
/// A token is polled by one task only, and not again once it was reported
/// ready. The two methods promise nothing about what they return: callers
/// handle every outcome.
pub trait IoSource {
    /// Submits a read that starts `file_offset` bytes into the source and
    /// lands in the ranges `mem_offsets` of `mem`. The buffer stays with the
    /// operation from here on, and the operation is already counted among
    /// its holders. Fails when the source rejects the request.
    fn read_to_mem(&self, file_offset: u64, mem: VecIoWrapper, mem_offsets: &[MemVec]) -> Result<
        PendingOperation,
        Error,
    >;

    /// Asks whether the operation behind `token` is done. `Pending` when it
    /// is not, and the source then sees to it that the waker of `cx` is woken
    /// once the operation completes. Otherwise the number of bytes
    /// transferred together with the buffer, which the operation has let go
    /// of with `release`, or the error that ended it.
    fn poll_complete(&self, cx: &Context<'_>, token: &PendingOperation) -> Poll<
        Result<(u32, VecIoWrapper), Error>,
    >;
}

} // verus!
