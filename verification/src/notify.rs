//! Notification transport: the one fixed-size command that asks the kernel
//! peer to process newly posted send work.
//!
//! The command is written to a device file descriptor by the caller; the
//! write's return value — a full write against anything else — is the sole
//! error signal this crate consumes from that exchange.  This module builds
//! the command bytes, classifies the write result, and combines it with the
//! request-loop outcome: a failed notification takes priority over any
//! per-request error from the same call.

use vstd::prelude::*;

use crate::wire::push_u16;
use crate::wire::push_u32;
use crate::wire::push_u64;
use crate::wire::u16_le;
use crate::wire::u32_le;
use crate::wire::u64_le;
use crate::wr::QueueError;
use crate::wr::SendFailure;

verus! {

/// Command number of the post-send request in the device's command set.
pub const POST_SEND_CMD: u32 = 28;

/// Size in bytes of the encoded command.
pub const DOORBELL_CMD_BYTES: usize = 32;

/// Size in bytes of the response structure the kernel fills, in 32-bit
/// words as the header wants it.
pub const DOORBELL_RESP_WORDS: u16 = 1;

/// Size in bytes the header advertises for one send work request.
pub const SEND_WR_BYTES: u32 = 128;

/// The encoded command: header (command number, command and response sizes
/// in 32-bit words), the address of the caller's response buffer, the
/// queue pair handle, zero immediate work-request and scatter-gather
/// counts (the work is already in the ring), and the advertised
/// work-request size.
pub open spec fn spec_doorbell_bytes(qp_handle: u32, response_addr: u64) -> Seq<u8> {
    u32_le(POST_SEND_CMD) + u16_le((DOORBELL_CMD_BYTES / 4) as u16) + u16_le(DOORBELL_RESP_WORDS)
        + u64_le(response_addr) + u32_le(qp_handle) + u32_le(0) + u32_le(0) + u32_le(SEND_WR_BYTES)
}

/// Build the notification command for one post-send call.
pub fn post_send_db_bytes(qp_handle: u32, response_addr: u64) -> (out: Vec<u8>)
    ensures
        out@ == spec_doorbell_bytes(qp_handle, response_addr),
        out@.len() == DOORBELL_CMD_BYTES,
{
    let mut out: Vec<u8> = Vec::new();
    push_u32(&mut out, POST_SEND_CMD);
    proof {
        assert(out@ =~= u32_le(POST_SEND_CMD));
    }
    push_u16(&mut out, (DOORBELL_CMD_BYTES / 4) as u16);
    push_u16(&mut out, DOORBELL_RESP_WORDS);
    push_u64(&mut out, response_addr);
    push_u32(&mut out, qp_handle);
    push_u32(&mut out, 0);
    push_u32(&mut out, 0);
    push_u32(&mut out, SEND_WR_BYTES);
    out
}

/// Classify the result of the notification write: only a complete write of
/// the command succeeds.  A short write reports `short_write_code`, the
/// error code the caller read after the write; a failed write reports its
/// own code.
pub fn post_send_db_result(written: Result<usize, i32>, short_write_code: i32) -> (r: Result<
    (),
    i32,
>)
    ensures
        written matches Ok(n) && n == DOORBELL_CMD_BYTES ==> r == Ok::<(), i32>(()),
        written matches Ok(n) && n != DOORBELL_CMD_BYTES ==> r == Err::<(), i32>(short_write_code),
        written matches Err(e) ==> r == Err::<(), i32>(e),
{
    match written {
        Ok(n) => {
            if n == DOORBELL_CMD_BYTES {
                Ok(())
            } else {
                Err(short_write_code)
            }
        },
        Err(e) => Err(e),
    }
}

/// Combine the request-loop outcome with the notification outcome.  A
/// failed notification overrides any per-request error from the same
/// call; otherwise the first per-request failure, with its position, is
/// reported; otherwise the call succeeded.  The notification is issued,
/// and its result combined here, even when some or all requests failed.
pub fn finish_post_send(posted: Result<(), (usize, QueueError)>, db: Result<(), i32>) -> (r: Result<
    (),
    SendFailure,
>)
    ensures
        db matches Err(e) ==> r == Err::<(), SendFailure>(SendFailure::Notification(e)),
        db is Ok ==> (posted matches Err((i, e)) ==> r == Err::<(), SendFailure>(
            SendFailure::Request(i, e),
        )),
        db is Ok && posted is Ok ==> r == Ok::<(), SendFailure>(()),
{
    match db {
        Err(e) => Err(SendFailure::Notification(e)),
        Ok(()) => match posted {
            Err((i, e)) => Err(SendFailure::Request(i, e)),
            Ok(()) => Ok(()),
        },
    }
}

} // verus!
