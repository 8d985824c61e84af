//! Caller-facing work-request model.
//!
//! A work request names an operation, an ordered scatter-gather list and an
//! opcode-specific payload.  The payload is a tagged variant keyed by the
//! opcode, so the translation step manipulates typed data, never raw
//! overlapping storage; handle-to-key resolution (memory regions, memory
//! windows, address handles) happens outside this crate, which receives the
//! resolved keys and routing bytes as plain values.

use vstd::prelude::*;

verus! {

/// The transport types a queue pair can have.
#[derive(Clone, Copy, Debug, PartialEq, Eq, Structural)]
pub enum QpType {
    /// reliable connected
    Rc,
    /// unreliable connected
    Uc,
    /// unreliable datagram
    Ud,
}

/// Transport state of a queue pair.
#[derive(Clone, Copy, Debug, PartialEq, Eq, Structural)]
pub enum QpState {
    Reset,
    Init,
    ReadyToReceive,
    ReadyToSend,
    Drained,
    Faulted,
}

/// Operation named by a send work request.
#[derive(Clone, Copy, Debug, PartialEq, Eq, Structural)]
pub enum WrOpcode {
    RdmaWrite,
    RdmaWriteWithImm,
    Send,
    SendWithImm,
    RdmaRead,
    AtomicCmpAndSwp,
    AtomicFetchAndAdd,
    LocalInv,
    BindMw,
    SendWithInv,
}

/// How a request-list call failed: a malformed request, a full ring, or a
/// queue pair that has latched an unrecoverable error code (returned for
/// every operation until externally reset).
#[derive(Clone, Copy, Debug, PartialEq, Eq, Structural)]
pub enum QueueError {
    InvalidArgument,
    OutOfResources,
    Fatal(i32),
}

/// Overall outcome of a send call: either one request failed (with its
/// position in the list), or the kernel-notification write itself failed,
/// which takes priority over any per-request error.
#[derive(Clone, Copy, Debug, PartialEq, Eq, Structural)]
pub enum SendFailure {
    Request(usize, QueueError),
    Notification(i32),
}

/// Request the payload be copied into the queue entry instead of referenced.
pub const SEND_FLAG_INLINE: u32 = 8;

/// Request a completion entry for this request.
pub const SEND_FLAG_SIGNALED: u32 = 2;

/// Size in bytes of the resolved routing data of an address handle.
pub const AV_BYTES: usize = 40;

/// One scatter-gather entry: a caller-side address range and its local key.
#[derive(Clone, Copy, Debug, PartialEq, Eq, Structural)]
pub struct Sge {
    pub addr: u64,
    pub length: u32,
    pub lkey: u32,
}

/// Resolved destination routing data for unreliable-datagram sends.  When
/// the reuse counter `ah_num` is zero the routing bytes themselves are
/// copied into the queue entry.
#[derive(Debug)]
pub struct AddressHandle {
    pub ah_num: i32,
    pub av: Vec<u8>,
}

/// Mathematical value of an [`AddressHandle`].
pub struct AddressHandleV {
    pub ah_num: i32,
    pub av: Seq<u8>,
}

impl View for AddressHandle {
    type V = AddressHandleV;

    open spec fn view(&self) -> AddressHandleV {
        AddressHandleV { ah_num: self.ah_num, av: self.av@ }
    }
}

/// Opcode-specific payload of a send work request.
#[derive(Debug)]
pub enum WrPayload {
    /// no opcode-specific payload
    Plain,
    /// remote address range for RDMA reads and writes
    Rdma { remote_addr: u64, rkey: u32 },
    /// operands of an atomic operation on a remote 8-byte value
    Atomic { remote_addr: u64, compare_add: u64, swap: u64, rkey: u32 },
    /// destination addressing of an unreliable-datagram send
    Ud { remote_qpn: u32, remote_qkey: u32, ah: AddressHandle },
    /// parameters of a memory-window bind, with the keys already resolved
    BindMw { addr: u64, length: u64, mr_lkey: u32, mw_rkey: u32, rkey: u32, access: u32 },
}

/// Mathematical value of a [`WrPayload`].
pub enum WrPayloadV {
    Plain,
    Rdma { remote_addr: u64, rkey: u32 },
    Atomic { remote_addr: u64, compare_add: u64, swap: u64, rkey: u32 },
    Ud { remote_qpn: u32, remote_qkey: u32, ah: AddressHandleV },
    BindMw { addr: u64, length: u64, mr_lkey: u32, mw_rkey: u32, rkey: u32, access: u32 },
}

impl View for WrPayload {
    type V = WrPayloadV;

    open spec fn view(&self) -> WrPayloadV {
        match self {
            WrPayload::Plain => WrPayloadV::Plain,
            WrPayload::Rdma { remote_addr, rkey } => WrPayloadV::Rdma {
                remote_addr: *remote_addr,
                rkey: *rkey,
            },
            WrPayload::Atomic { remote_addr, compare_add, swap, rkey } => WrPayloadV::Atomic {
                remote_addr: *remote_addr,
                compare_add: *compare_add,
                swap: *swap,
                rkey: *rkey,
            },
            WrPayload::Ud { remote_qpn, remote_qkey, ah } => WrPayloadV::Ud {
                remote_qpn: *remote_qpn,
                remote_qkey: *remote_qkey,
                ah: ah@,
            },
            WrPayload::BindMw { addr, length, mr_lkey, mw_rkey, rkey, access } => (
                WrPayloadV::BindMw {
                    addr: *addr,
                    length: *length,
                    mr_lkey: *mr_lkey,
                    mw_rkey: *mw_rkey,
                    rkey: *rkey,
                    access: *access,
                }
            ),
        }
    }
}

/// A send work request.  When the inline flag is set, `inline_segments[i]`
/// holds the bytes behind `sg_list[i]`, read on the caller's side of the
/// memory boundary.
#[derive(Debug)]
pub struct SendWr {
    pub wr_id: u64,
    pub opcode: WrOpcode,
    pub send_flags: u32,
    pub imm_data: u32,
    pub sg_list: Vec<Sge>,
    pub inline_segments: Vec<Vec<u8>>,
    pub payload: WrPayload,
}

/// Mathematical value of a [`SendWr`].
pub struct SendWrV {
    pub wr_id: u64,
    pub opcode: WrOpcode,
    pub send_flags: u32,
    pub imm_data: u32,
    pub sg_list: Seq<Sge>,
    pub inline_segments: Seq<Seq<u8>>,
    pub payload: WrPayloadV,
}

impl View for SendWr {
    type V = SendWrV;

    open spec fn view(&self) -> SendWrV {
        SendWrV {
            wr_id: self.wr_id,
            opcode: self.opcode,
            send_flags: self.send_flags,
            imm_data: self.imm_data,
            sg_list: self.sg_list@,
            inline_segments: self.inline_segments@.map_values(|v: Vec<u8>| v@),
            payload: self.payload@,
        }
    }
}

/// A receive work request: an identifier and the buffers to land data in.
#[derive(Debug)]
pub struct RecvWr {
    pub wr_id: u64,
    pub sg_list: Vec<Sge>,
}

/// Mathematical value of a [`RecvWr`].
pub struct RecvWrV {
    pub wr_id: u64,
    pub sg_list: Seq<Sge>,
}

impl View for RecvWr {
    type V = RecvWrV;

    open spec fn view(&self) -> RecvWrV {
        RecvWrV { wr_id: self.wr_id, sg_list: self.sg_list@ }
    }
}

/// Sum of the scatter-gather lengths of `s`.
pub open spec fn spec_sge_total(s: Seq<Sge>) -> int
    decreases s.len(),
{
    if s.len() == 0 {
        0
    } else {
        spec_sge_total(s.drop_last()) + s.last().length
    }
}

/// The two atomic operations.
pub open spec fn is_atomic_op(op: WrOpcode) -> bool {
    op == WrOpcode::AtomicCmpAndSwp || op == WrOpcode::AtomicFetchAndAdd
}

/// Sum the scatter-gather lengths of `sg_list`.
pub fn sge_total(sg_list: &Vec<Sge>) -> (r: u64)
    requires
        sg_list@.len() <= 0xFFFF_FFFF,
    ensures
        r == spec_sge_total(sg_list@),
{
    let n = sg_list.len();
    let mut sum: u64 = 0;
    let mut i: usize = 0;
    while i < n
        invariant
            i <= n,
            n == sg_list@.len(),
            n <= 0xFFFF_FFFF,
            sum == spec_sge_total(sg_list@.subrange(0, i as int)),
            sum <= (i as u64) * 0xFFFF_FFFFu64,
        decreases n - i,
    {
        proof {
            assert(sg_list@.subrange(0, i + 1).drop_last() =~= sg_list@.subrange(0, i as int));
            assert(sg_list@.subrange(0, i + 1).last() == sg_list@[i as int]);
        }
        sum = sum + sg_list[i].length as u64;
        i = i + 1;
    }
    proof {
        assert(sg_list@.subrange(0, n as int) =~= sg_list@);
    }
    sum
}

} // verus!
