//! User-space half of a kernel-bypass network queue driver.
//!
//! Work requests are validated, translated into the fixed-offset wire
//! layout shared with the kernel peer and published into
//! single-producer/single-consumer ring buffers that the peer drains;
//! completions are read back from a kernel-populated ring.
//! This crate holds the ring-buffer index protocol, the work-request
//! lifecycle (validation, translation, enqueue, completion drain) and the
//! encoding of the one notification command that asks the kernel to process
//! newly posted work.

pub mod cq;
pub mod notify;
pub mod qp;
pub mod queue;
pub mod recv;
pub mod send;
pub mod wire;
pub mod wr;
