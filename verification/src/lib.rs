//! Completion-style asynchronous reads into caller-owned buffers.
//!
//! A read is submitted once to a backing source and polled until the source
//! reports it complete. While the read is in flight the buffer is held through
//! a wrapper that counts its holders, and the plain allocation is handed back
//! to the caller only once the wrapper has a single holder again.
//!
//! `uring_mem` holds the buffer wrapper and the ranges of a transfer,
//! `io_source` what a source must offer, `uring_fut` the state machine that
//! every operation follows, and `read_vec` the read itself. `balloon` holds
//! the rules of a memory balloon device, a consumer of such reads, and
//! `endian` the byte order of its configuration space.

pub mod error;
pub mod poll;
pub mod uring_mem;
pub mod io_source;
pub mod uring_fut;
pub mod read_vec;
pub mod endian;
pub mod balloon;
