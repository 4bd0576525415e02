use std::cell::{Cell, RefCell};
use std::sync::atomic::{AtomicUsize, Ordering};
use std::sync::Arc;
use std::task::{Context, Wake, Waker};

use cros_async::error::Error;
use cros_async::poll::Poll;
use cros_async::io_source::{IoSource, PendingOperation};
use cros_async::read_vec::ReadVec;
use cros_async::uring_mem::{MemVec, VecIoWrapper};

/// A source that reads as an endless run of zero bytes. A read completes
/// after `delay` polls that report `Pending`.
struct ZeroSource {
    delay: u32,
    reject: bool,
    fail_with: Option<i32>,
    keep_reference: bool,
    transfer_at_most: Option<usize>,
    in_flight: RefCell<Option<(u64, VecIoWrapper, Vec<MemVec>)>>,
    waited: Cell<u32>,
    submitted: Cell<u32>,
    polled: Cell<u32>,
    last_offset: Cell<u64>,
    seen_while_pending: RefCell<Vec<Vec<u8>>>,
    waker: RefCell<Option<Waker>>,
}

/// Counts how often it was woken.
struct WakeCount(AtomicUsize);

impl Wake for WakeCount {
    fn wake(self: Arc<Self>) {
        self.0.fetch_add(1, Ordering::SeqCst);
    }
}

impl ZeroSource {
    fn new() -> Self {
        ZeroSource {
            delay: 0,
            reject: false,
            fail_with: None,
            keep_reference: false,
            transfer_at_most: None,
            in_flight: RefCell::new(None),
            waited: Cell::new(0),
            submitted: Cell::new(0),
            polled: Cell::new(0),
            last_offset: Cell::new(0),
            seen_while_pending: RefCell::new(Vec::new()),
            waker: RefCell::new(None),
        }
    }
}

fn contents(buf: &VecIoWrapper) -> Vec<u8> {
    buf.as_slice().to_vec()
}

impl IoSource for ZeroSource {
    fn read_to_mem(
        &self,
        file_offset: u64,
        mem: VecIoWrapper,
        mem_offsets: &[MemVec],
    ) -> Result<PendingOperation, Error> {
        if self.reject {
            return Err(Error::CompletionError(11));
        }
        let id = u64::from(self.submitted.get()) + 1;
        self.submitted.set(self.submitted.get() + 1);
        self.last_offset.set(file_offset);
        self.waited.set(0);
        *self.in_flight.borrow_mut() = Some((id, mem, mem_offsets.to_vec()));
        Ok(PendingOperation::new(id))
    }

    fn poll_complete(
        &self,
        cx: &Context<'_>,
        token: &PendingOperation,
    ) -> Poll<Result<(u32, VecIoWrapper), Error>> {
        self.polled.set(self.polled.get() + 1);
        if self.waited.get() < self.delay {
            *self.waker.borrow_mut() = Some(cx.waker().clone());
            self.waited.set(self.waited.get() + 1);
            let slot = self.in_flight.borrow();
            let (_, mem, _) = slot.as_ref().unwrap();
            self.seen_while_pending.borrow_mut().push(contents(mem));
            return Poll::Pending;
        }
        let (id, mut mem, ranges) = self.in_flight.borrow_mut().take().unwrap();
        assert_eq!(id, token.id());
        if let Some(code) = self.fail_with {
            return Poll::Ready(Err(Error::CompletionError(code)));
        }
        let mut done: usize = 0;
        for r in ranges.iter() {
            let mut len = r.len;
            if let Some(most) = self.transfer_at_most {
                len = len.min(most - done.min(most));
            }
            assert!(mem.fill(&MemVec { offset: r.offset, len }, 0));
            done += len;
        }
        if !self.keep_reference {
            assert!(mem.release());
        }
        Poll::Ready(Ok((done as u32, mem)))
    }
}

fn poll_once<R: IoSource>(read: &mut ReadVec<'_, R>) -> Poll<Result<Vec<u8>, Error>> {
    let waker = Waker::from(Arc::new(WakeCount(AtomicUsize::new(0))));
    let cx = Context::from_waker(&waker);
    read.poll(&cx)
}

fn drive<R: IoSource>(read: &mut ReadVec<'_, R>) -> (Result<Vec<u8>, Error>, u32) {
    let mut pendings = 0;
    loop {
        match poll_once(read) {
            Poll::Pending => pendings += 1,
            Poll::Ready(r) => return (r, pendings),
        }
        assert!(pendings < 1000);
    }
}

#[test]
fn readvec() {
    let source = ZeroSource::new();
    let v = vec![0x55u8; 32];
    let v_ptr = v.as_ptr();
    let mut read = ReadVec::new(&source, 0, v);
    let (ret, _) = drive(&mut read);
    let ret_v = ret.unwrap();
    assert_eq!(v_ptr, ret_v.as_ptr());
    assert!(ret_v.iter().all(|&b| b == 0));
    assert_eq!(ret_v.len(), 32);
}

#[test]
fn zero_source_overwrites_any_length_at_any_offset() {
    let cases: [(usize, u64); 5] = [(1, 0), (7, 3), (32, 4096), (1000, u64::MAX), (4096, 1 << 40)];
    for (len, offset) in cases {
        let mut source = ZeroSource::new();
        source.delay = 2;
        let v = vec![0xa5u8; len];
        let v_ptr = v.as_ptr();
        let mut read = ReadVec::new(&source, offset, v);
        let (ret, pendings) = drive(&mut read);
        let ret_v = ret.unwrap();
        assert_eq!(pendings, 2);
        assert_eq!(ret_v.len(), len);
        assert_eq!(ret_v, vec![0u8; len]);
        assert_eq!(v_ptr, ret_v.as_ptr());
        assert_eq!(source.last_offset.get(), offset);
    }
}

#[test]
fn empty_buffer_reads_nothing() {
    let source = ZeroSource::new();
    let mut read = ReadVec::new(&source, 9, Vec::new());
    assert_eq!(drive(&mut read), (Ok(Vec::new()), 0));
}

#[test]
fn whole_buffer_is_submitted_as_one_range() {
    assert_eq!(
        ReadVec::<ZeroSource>::whole_buffer(32),
        vec![MemVec { offset: 0, len: 32 }]
    );
    let mut source = ZeroSource::new();
    source.delay = 1;
    let mut read = ReadVec::new(&source, 0, vec![1u8; 5]);
    assert!(matches!(poll_once(&mut read), Poll::Pending));
    let slot = source.in_flight.borrow();
    let (_, mem, ranges) = slot.as_ref().unwrap();
    assert_eq!(ranges, &vec![MemVec { offset: 0, len: 5 }]);
    assert_eq!(mem.len(), 5);
    assert_eq!(mem.strong_count(), 2);
}

#[test]
fn rejected_submission_fails_on_first_poll() {
    let mut source = ZeroSource::new();
    source.reject = true;
    let mut read = ReadVec::new(&source, 0, vec![0x55u8; 8]);
    assert!(read.is_init());
    match poll_once(&mut read) {
        Poll::Ready(r) => assert_eq!(r, Err(Error::SubmissionError)),
        Poll::Pending => panic!("a rejected read must not wait"),
    }
    assert!(!read.is_waiting());
    assert!(!read.is_init());
    assert_eq!(source.polled.get(), 0);
    assert!(source.in_flight.borrow().is_none());
}

#[test]
fn pending_polls_leave_the_buffer_alone() {
    let mut source = ZeroSource::new();
    source.delay = 5;
    let mut read = ReadVec::new(&source, 0, vec![0x55u8; 16]);
    for _ in 0..5 {
        assert!(matches!(poll_once(&mut read), Poll::Pending));
        assert!(read.is_waiting());
    }
    let seen = source.seen_while_pending.borrow().clone();
    assert_eq!(seen.len(), 5);
    for snapshot in seen {
        assert_eq!(snapshot, vec![0x55u8; 16]);
    }
    assert_eq!(source.submitted.get(), 1);
    match poll_once(&mut read) {
        Poll::Ready(r) => assert_eq!(r, Ok(vec![0u8; 16])),
        Poll::Pending => panic!("the read is complete"),
    }
    assert!(!read.is_waiting());
}

#[test]
fn second_holder_at_completion_is_an_invariant_error() {
    let mut source = ZeroSource::new();
    source.keep_reference = true;
    let mut read = ReadVec::new(&source, 0, vec![0x55u8; 4]);
    assert_eq!(drive(&mut read).0, Err(Error::InternalInvariantError));
}

#[test]
fn completed_checks_holders_and_length() {
    let buf = VecIoWrapper::new(vec![1, 2, 3]);
    assert_eq!(ReadVec::<ZeroSource>::completed(3, Ok((3, buf))), Ok(vec![1, 2, 3]));

    let mut shared = VecIoWrapper::new(vec![1, 2, 3]);
    assert!(shared.share());
    assert_eq!(
        ReadVec::<ZeroSource>::completed(3, Ok((3, shared))),
        Err(Error::InternalInvariantError)
    );

    let other = VecIoWrapper::new(vec![1, 2]);
    assert_eq!(
        ReadVec::<ZeroSource>::completed(3, Ok((2, other))),
        Err(Error::InternalInvariantError)
    );

    assert_eq!(
        ReadVec::<ZeroSource>::completed(3, Err(Error::CompletionError(5))),
        Err(Error::CompletionError(5))
    );
}

#[test]
fn submitted_keeps_token_and_names_rejection() {
    let op = PendingOperation::new(7);
    assert_eq!(ReadVec::<ZeroSource>::submitted(12, Ok(op)), Ok((op, 12)));
    assert_eq!(
        ReadVec::<ZeroSource>::submitted(12, Err(Error::CompletionError(3))),
        Err(Error::SubmissionError)
    );
}

#[test]
fn full_transfer_returns_requested_length() {
    let source = ZeroSource::new();
    let mut read = ReadVec::new(&source, 0, vec![9u8; 77]);
    let out = drive(&mut read).0.unwrap();
    assert_eq!(out.len(), 77);
}

#[test]
fn short_transfer_is_not_retried() {
    let mut source = ZeroSource::new();
    source.transfer_at_most = Some(3);
    let mut read = ReadVec::new(&source, 0, vec![0x55u8; 6]);
    let out = drive(&mut read).0.unwrap();
    assert_eq!(out, vec![0, 0, 0, 0x55, 0x55, 0x55]);
    assert_eq!(source.submitted.get(), 1);
}

#[test]
fn completion_error_is_passed_on() {
    let mut source = ZeroSource::new();
    source.delay = 1;
    source.fail_with = Some(5);
    let mut read = ReadVec::new(&source, 0, vec![0x55u8; 6]);
    assert_eq!(drive(&mut read), (Err(Error::CompletionError(5)), 1));
}

#[test]
fn sequential_reads_are_independent() {
    let mut source = ZeroSource::new();
    source.delay = 1;
    let mut first = ReadVec::new(&source, 0, vec![1u8; 10]);
    assert!(first.is_init());
    assert_eq!(drive(&mut first), (Ok(vec![0u8; 10]), 1));
    assert!(!first.is_init());

    let mut second = ReadVec::new(&source, 10, vec![2u8; 20]);
    assert!(second.is_init());
    assert_eq!(drive(&mut second), (Ok(vec![0u8; 20]), 1));
    assert_eq!(source.submitted.get(), 2);

    source.fail_with = Some(1);
    let mut third = ReadVec::new(&source, 0, vec![3u8; 4]);
    assert_eq!(drive(&mut third).0, Err(Error::CompletionError(1)));
    source.fail_with = None;
    let mut fourth = ReadVec::new(&source, 0, vec![4u8; 4]);
    assert!(fourth.is_init());
    assert_eq!(drive(&mut fourth).0, Ok(vec![0u8; 4]));
}

#[test]
fn polling_a_finished_read_is_a_fault() {
    let source = ZeroSource::new();
    let mut read = ReadVec::new(&source, 0, vec![1u8; 2]);
    assert_eq!(drive(&mut read).0, Ok(vec![0u8; 2]));
    match poll_once(&mut read) {
        Poll::Ready(r) => assert_eq!(r, Err(Error::InternalInvariantError)),
        Poll::Pending => panic!("a finished read cannot wait"),
    }
    assert_eq!(source.submitted.get(), 1);
}

#[test]
fn pending_poll_hands_the_waker_to_the_source() {
    let mut source = ZeroSource::new();
    source.delay = 1;
    let count = Arc::new(WakeCount(AtomicUsize::new(0)));
    let waker = Waker::from(count.clone());
    let cx = Context::from_waker(&waker);
    let mut read = ReadVec::new(&source, 0, vec![1u8; 2]);
    assert!(matches!(read.poll(&cx), Poll::Pending));
    source.waker.borrow_mut().take().unwrap().wake();
    assert_eq!(count.0.load(Ordering::SeqCst), 1);
    assert!(matches!(read.poll(&cx), Poll::Ready(Ok(_))));
}
