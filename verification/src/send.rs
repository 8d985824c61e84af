//! Send queue manager: validation, translation into the wire entry,
//! speculative slot fill, fullness re-check and commit.
//!
//! Requests are processed strictly in list order.  A request list stops at
//! its first failure; entries already committed stay committed.  The caller
//! serializes concurrent posters on one queue and, after the loop, issues
//! exactly one kernel notification covering everything enqueued in the call
//! (see the notification module).

use vstd::prelude::*;

use crate::qp::QueuePair;
use crate::qp::SEND_WQE_OVERHEAD;
use crate::qp::SGE_BYTES;
use crate::queue::ring_add;
use crate::queue::splice;
use crate::wire::DmaInfo;
use crate::wire::DmaInfoV;
use crate::wire::DmaPayload;
use crate::wire::DmaPayloadV;
use crate::wire::KernelSendWr;
use crate::wire::KernelSendWrV;
use crate::wire::SendWqe;
use crate::wire::SendWqeV;
use crate::wire::WqePayload;
use crate::wire::WqePayloadV;
use crate::wire::encode_send_wqe;
use crate::wire::lemma_encode_dma_payload_len;
use crate::wire::lemma_encode_send_wqe_len;
use crate::wire::lemma_encode_wr_payload_len;
use crate::wire::spec_encode_send_wqe;
use crate::wr::AV_BYTES;
use crate::wr::QpType;
use crate::wr::QueueError;
use crate::wr::SEND_FLAG_INLINE;
use crate::wr::SendWr;
use crate::wr::SendWrV;
use crate::wr::Sge;
use crate::wr::WrOpcode;
use crate::wr::WrPayload;
use crate::wr::WrPayloadV;
use crate::wr::is_atomic_op;
use crate::wr::sge_total;
use crate::wr::spec_sge_total;

verus! {

/// The opcode-specific payload variant a request must carry, given the
/// opcode and the queue pair's transport type.
pub open spec fn spec_payload_shape_ok(t: QpType, w: SendWrV) -> bool {
    match w.opcode {
        WrOpcode::RdmaWrite | WrOpcode::RdmaWriteWithImm | WrOpcode::RdmaRead => w.payload
            is Rdma,
        WrOpcode::AtomicCmpAndSwp | WrOpcode::AtomicFetchAndAdd => w.payload is Atomic,
        WrOpcode::Send | WrOpcode::SendWithImm => if t == QpType::Ud {
            w.payload matches WrPayloadV::Ud { ah, .. } && ah.av.len() == AV_BYTES
        } else {
            w.payload is Plain
        },
        WrOpcode::BindMw => w.payload is BindMw,
        WrOpcode::LocalInv | WrOpcode::SendWithInv => w.payload is Plain,
    }
}

/// The request asks for its payload to be copied inline.
pub open spec fn spec_inline_requested(w: SendWrV) -> bool {
    w.send_flags & SEND_FLAG_INLINE != 0
}

/// Each carried inline segment holds exactly the bytes its descriptor names.
pub open spec fn spec_inline_consistent(w: SendWrV) -> bool {
    &&& w.inline_segments.len() == w.sg_list.len()
    &&& forall|i: int|
        0 <= i < w.sg_list.len() ==> #[trigger] w.inline_segments[i].len() == w.sg_list[i].length
}

/// All validation rules of the send path: scatter-gather count within the
/// queue's limit, total length expressible in the 32-bit length field,
/// payload variant matching the opcode, atomics at least eight bytes long
/// on an eight-byte-aligned remote address, inline payloads within the
/// inline limit, and memory-window binds empty, without immediate data and
/// only on connection-oriented transports.
pub open spec fn spec_send_wr_valid(qp: QueuePair, w: SendWrV) -> bool {
    let total = spec_sge_total(w.sg_list);
    &&& w.sg_list.len() <= qp.sq.max_sge
    &&& total <= u32::MAX
    &&& spec_payload_shape_ok(qp.qp_type, w)
    &&& (is_atomic_op(w.opcode) ==> total >= 8 && (w.payload matches WrPayloadV::Atomic {
        remote_addr,
        ..
    } && remote_addr & 0x7 == 0))
    &&& (spec_inline_requested(w) ==> total <= qp.sq.max_inline && spec_inline_consistent(w))
    &&& (w.opcode == WrOpcode::BindMw ==> total == 0 && w.sg_list.len() == 0 && w.imm_data == 0
        && (qp.qp_type == QpType::Rc || qp.qp_type == QpType::Uc))
}

/// Check that the payload variant matches the opcode and transport type.
fn payload_shape_ok(t: QpType, wr: &SendWr) -> (r: bool)
    ensures
        r == spec_payload_shape_ok(t, wr@),
{
    match wr.opcode {
        WrOpcode::RdmaWrite | WrOpcode::RdmaWriteWithImm | WrOpcode::RdmaRead => match &wr.payload {
            WrPayload::Rdma { .. } => true,
            _ => false,
        },
        WrOpcode::AtomicCmpAndSwp | WrOpcode::AtomicFetchAndAdd => match &wr.payload {
            WrPayload::Atomic { .. } => true,
            _ => false,
        },
        WrOpcode::Send | WrOpcode::SendWithImm => if t == QpType::Ud {
            match &wr.payload {
                WrPayload::Ud { ah, .. } => ah.av.len() == AV_BYTES,
                _ => false,
            }
        } else {
            match &wr.payload {
                WrPayload::Plain => true,
                _ => false,
            }
        },
        WrOpcode::BindMw => match &wr.payload {
            WrPayload::BindMw { .. } => true,
            _ => false,
        },
        WrOpcode::LocalInv | WrOpcode::SendWithInv => match &wr.payload {
            WrPayload::Plain => true,
            _ => false,
        },
    }
}

/// Validate one send request against the queue pair's limits and return
/// the summed scatter-gather length.  Returns `Ok` exactly on the requests
/// [`spec_send_wr_valid`] admits; everything else is an invalid argument.
pub fn validate_send_wr(qp: &QueuePair, wr: &SendWr) -> (r: Result<u32, QueueError>)
    ensures
        r matches Ok(l) ==> spec_send_wr_valid(*qp, wr@) && l == spec_sge_total(wr@.sg_list),
        r is Err ==> !spec_send_wr_valid(*qp, wr@) && r == Err::<u32, QueueError>(
            QueueError::InvalidArgument,
        ),
{
    if wr.sg_list.len() > qp.sq.max_sge as usize {
        return Err(QueueError::InvalidArgument);
    }
    let total = sge_total(&wr.sg_list);
    if total > 0xFFFF_FFFF {
        return Err(QueueError::InvalidArgument);
    }
    if !payload_shape_ok(qp.qp_type, wr) {
        return Err(QueueError::InvalidArgument);
    }
    if wr.opcode == WrOpcode::AtomicCmpAndSwp || wr.opcode == WrOpcode::AtomicFetchAndAdd {
        if total < 8 {
            return Err(QueueError::InvalidArgument);
        }
        match &wr.payload {
            WrPayload::Atomic { remote_addr, .. } => {
                if *remote_addr & 0x7 != 0 {
                    return Err(QueueError::InvalidArgument);
                }
            },
            _ => {
                return Err(QueueError::InvalidArgument);
            },
        }
    }
    if wr.send_flags & SEND_FLAG_INLINE != 0 {
        if total > qp.sq.max_inline as u64 {
            return Err(QueueError::InvalidArgument);
        }
        if wr.inline_segments.len() != wr.sg_list.len() {
            return Err(QueueError::InvalidArgument);
        }
        let n = wr.sg_list.len();
        let mut i: usize = 0;
        while i < n
            invariant
                i <= n,
                n == wr.sg_list@.len(),
                spec_inline_requested(wr@),
                wr@.inline_segments.len() == wr@.sg_list.len(),
                forall|t: int|
                    0 <= t < i ==> #[trigger] wr@.inline_segments[t].len()
                        == wr@.sg_list[t].length,
            decreases n - i,
        {
            if wr.inline_segments[i].len() != wr.sg_list[i].length as usize {
                proof {
                    assert(wr@.inline_segments[i as int] == wr.inline_segments@[i as int]@);
                    assert(!spec_inline_consistent(wr@));
                }
                return Err(QueueError::InvalidArgument);
            }
            i = i + 1;
        }
    }
    if wr.opcode == WrOpcode::BindMw {
        if total != 0 {
            return Err(QueueError::InvalidArgument);
        }
        if wr.sg_list.len() != 0 {
            return Err(QueueError::InvalidArgument);
        }
        if wr.imm_data != 0 {
            return Err(QueueError::InvalidArgument);
        }
        if !(qp.qp_type == QpType::Rc || qp.qp_type == QpType::Uc) {
            return Err(QueueError::InvalidArgument);
        }
    }
    Ok(total as u32)
}

/// Translation of a caller request into the kernel-facing request: the
/// shared header fields are copied, the opcode selects which payload
/// variant is carried over, and everything else is left zeroed.  Datagram
/// routing bytes are not copied here; that happens in
/// [`spec_init_send_wqe`] when the handle's reuse counter is zero.
pub open spec fn spec_convert_send_wr(t: QpType, u: SendWrV) -> KernelSendWrV {
    KernelSendWrV {
        wr_id: u.wr_id,
        num_sge: u.sg_list.len() as u32,
        opcode: u.opcode,
        send_flags: u.send_flags,
        imm_data: u.imm_data,
        payload: match u.opcode {
            WrOpcode::RdmaWrite | WrOpcode::RdmaWriteWithImm | WrOpcode::RdmaRead => match (
            u.payload) {
                WrPayloadV::Rdma { remote_addr, rkey } => WqePayloadV::Rdma { remote_addr, rkey },
                _ => WqePayloadV::Zeroed,
            },
            WrOpcode::Send | WrOpcode::SendWithImm => if t == QpType::Ud {
                match u.payload {
                    WrPayloadV::Ud { remote_qpn, remote_qkey, ah } => WqePayloadV::Ud {
                        remote_qpn,
                        remote_qkey,
                        ah_num: ah.ah_num as u32,
                        av: Seq::empty(),
                    },
                    _ => WqePayloadV::Zeroed,
                }
            } else {
                WqePayloadV::Zeroed
            },
            WrOpcode::AtomicCmpAndSwp | WrOpcode::AtomicFetchAndAdd => match u.payload {
                WrPayloadV::Atomic { remote_addr, compare_add, swap, rkey } => (
                WqePayloadV::Atomic { remote_addr, compare_add, swap, rkey }),
                _ => WqePayloadV::Zeroed,
            },
            WrOpcode::BindMw => match u.payload {
                WrPayloadV::BindMw { addr, length, mr_lkey, mw_rkey, rkey, access } => (
                WqePayloadV::Mw { addr, length, mr_lkey, mw_rkey, rkey, access }),
                _ => WqePayloadV::Zeroed,
            },
            WrOpcode::LocalInv | WrOpcode::SendWithInv => WqePayloadV::Zeroed,
        },
    }
}

/// Translate a caller request into the kernel-facing request.
pub fn convert_send_wr(t: QpType, uwr: &SendWr) -> (k: KernelSendWr)
    requires
        uwr.sg_list@.len() <= 0xFFFF_FFFF,
    ensures
        k@ == spec_convert_send_wr(t, uwr@),
{
    let payload: WqePayload = match uwr.opcode {
        WrOpcode::RdmaWrite | WrOpcode::RdmaWriteWithImm | WrOpcode::RdmaRead => match
            &uwr.payload {
            WrPayload::Rdma { remote_addr, rkey } => WqePayload::Rdma {
                remote_addr: *remote_addr,
                rkey: *rkey,
            },
            _ => WqePayload::Zeroed,
        },
        WrOpcode::Send | WrOpcode::SendWithImm => if t == QpType::Ud {
            match &uwr.payload {
                WrPayload::Ud { remote_qpn, remote_qkey, ah } => WqePayload::Ud {
                    remote_qpn: *remote_qpn,
                    remote_qkey: *remote_qkey,
                    ah_num: ah.ah_num as u32,
                    av: Vec::new(),
                },
                _ => WqePayload::Zeroed,
            }
        } else {
            WqePayload::Zeroed
        },
        WrOpcode::AtomicCmpAndSwp | WrOpcode::AtomicFetchAndAdd => match &uwr.payload {
            WrPayload::Atomic { remote_addr, compare_add, swap, rkey } => WqePayload::Atomic {
                remote_addr: *remote_addr,
                compare_add: *compare_add,
                swap: *swap,
                rkey: *rkey,
            },
            _ => WqePayload::Zeroed,
        },
        WrOpcode::BindMw => match &uwr.payload {
            WrPayload::BindMw { addr, length, mr_lkey, mw_rkey, rkey, access } => (
            WqePayload::Mw {
                addr: *addr,
                length: *length,
                mr_lkey: *mr_lkey,
                mw_rkey: *mw_rkey,
                rkey: *rkey,
                access: *access,
            }),
            _ => WqePayload::Zeroed,
        },
        WrOpcode::LocalInv | WrOpcode::SendWithInv => WqePayload::Zeroed,
    };
    let k = KernelSendWr {
        wr_id: uwr.wr_id,
        num_sge: uwr.sg_list.len() as u32,
        opcode: uwr.opcode,
        send_flags: uwr.send_flags,
        imm_data: uwr.imm_data,
        payload,
    };
    proof {
        assert(k@.payload =~= spec_convert_send_wr(t, uwr@).payload);
        assert(k@ =~= spec_convert_send_wr(t, uwr@));
    }
    k
}

/// The inline segments, joined in list order.
pub open spec fn spec_concat_segments(segs: Seq<Seq<u8>>) -> Seq<u8>
    decreases segs.len(),
{
    if segs.len() == 0 {
        Seq::empty()
    } else {
        spec_concat_segments(segs.drop_last()) + segs.last()
    }
}

/// When each segment holds as many bytes as its descriptor names, the
/// joined payload is exactly the summed scatter-gather length long.
pub proof fn lemma_concat_matches_total(segs: Seq<Seq<u8>>, sgl: Seq<Sge>)
    requires
        segs.len() == sgl.len(),
        forall|i: int| 0 <= i < sgl.len() ==> #[trigger] segs[i].len() == sgl[i].length,
    ensures
        spec_concat_segments(segs).len() == spec_sge_total(sgl),
    decreases sgl.len(),
{
    if sgl.len() > 0 {
        assert(forall|i: int|
            0 <= i < sgl.drop_last().len() ==> #[trigger] segs.drop_last()[i].len()
                == sgl.drop_last()[i].length);
        lemma_concat_matches_total(segs.drop_last(), sgl.drop_last());
    }
}

/// Join the inline segments in list order.
pub fn concat_segments(segs: &Vec<Vec<u8>>) -> (out: Vec<u8>)
    ensures
        out@ == spec_concat_segments(segs@.map_values(|v: Vec<u8>| v@)),
{
    let ghost mapped = segs@.map_values(|v: Vec<u8>| v@);
    let n = segs.len();
    let mut out: Vec<u8> = Vec::new();
    proof {
        assert(mapped.subrange(0, 0) =~= Seq::<Seq<u8>>::empty());
        assert(out@ =~= spec_concat_segments(mapped.subrange(0, 0)));
    }
    let mut i: usize = 0;
    while i < n
        invariant
            i <= n,
            n == segs@.len(),
            mapped == segs@.map_values(|v: Vec<u8>| v@),
            out@ == spec_concat_segments(mapped.subrange(0, i as int)),
        decreases n - i,
    {
        proof {
            assert(mapped.subrange(0, i + 1).drop_last() =~= mapped.subrange(0, i as int));
            assert(mapped.subrange(0, i + 1).last() == mapped[i as int]);
            assert(mapped[i as int] == segs@[i as int]@);
        }
        crate::wire::push_bytes(&mut out, &segs[i]);
        i = i + 1;
    }
    proof {
        assert(mapped.subrange(0, n as int) =~= mapped);
    }
    out
}

/// Copy a byte vector.
pub fn copy_bytes(src: &Vec<u8>) -> (out: Vec<u8>)
    ensures
        out@ == src@,
{
    let n = src.len();
    let mut out: Vec<u8> = Vec::new();
    let mut i: usize = 0;
    while i < n
        invariant
            i <= n,
            n == src@.len(),
            out@ == src@.subrange(0, i as int),
        decreases n - i,
    {
        out.push(src[i]);
        proof {
            assert(out@ =~= src@.subrange(0, i + 1));
        }
        i = i + 1;
    }
    proof {
        assert(src@.subrange(0, n as int) =~= src@);
    }
    out
}

/// Copy a scatter-gather list verbatim.
pub fn copy_sges(src: &Vec<Sge>) -> (out: Vec<Sge>)
    ensures
        out@ == src@,
{
    let n = src.len();
    let mut out: Vec<Sge> = Vec::new();
    let mut i: usize = 0;
    while i < n
        invariant
            i <= n,
            n == src@.len(),
            out@ == src@.subrange(0, i as int),
        decreases n - i,
    {
        out.push(src[i]);
        proof {
            assert(out@ =~= src@.subrange(0, i + 1));
        }
        i = i + 1;
    }
    proof {
        assert(src@.subrange(0, n as int) =~= src@);
    }
    out
}

/// The whole translation step: the converted request (with the routing
/// bytes copied in when the queue pair is a datagram one and the handle's
/// reuse counter is zero), the remote address the DMA engine works on, the
/// DMA bookkeeping (remaining = total length, current segment and offset
/// zero), the payload copied inline or the descriptors copied verbatim,
/// and the stamped sequence number.
pub open spec fn spec_init_send_wqe(t: QpType, new_ssn: u32, u: SendWrV, length: u32) -> SendWqeV {
    let base = spec_convert_send_wr(t, u);
    let kwr = if t == QpType::Ud {
        match u.payload {
            WrPayloadV::Ud { ah, .. } => if ah.ah_num == 0 {
                KernelSendWrV {
                    payload: match base.payload {
                        WqePayloadV::Ud { remote_qpn, remote_qkey, ah_num, .. } => (
                        WqePayloadV::Ud { remote_qpn, remote_qkey, ah_num, av: ah.av }),
                        p => p,
                    },
                    ..base
                }
            } else {
                base
            },
            _ => base,
        }
    } else {
        base
    };
    SendWqeV {
        wr: kwr,
        iova: match u.payload {
            WrPayloadV::Atomic { remote_addr, .. } => remote_addr,
            WrPayloadV::Rdma { remote_addr, .. } => remote_addr,
            _ => 0,
        },
        state: 0,
        ssn: new_ssn,
        dma: DmaInfoV {
            length,
            resid: length,
            cur_sge: 0,
            num_sge: u.sg_list.len() as u32,
            sge_offset: 0,
            payload: if spec_inline_requested(u) {
                DmaPayloadV::Inline { data: spec_concat_segments(u.inline_segments) }
            } else {
                DmaPayloadV::Sges { list: u.sg_list }
            },
        },
    }
}

/// Build the wire entry for one validated send request and stamp the next
/// sequence number, incrementing the queue pair's counter.
pub fn init_send_wqe(qp: &mut QueuePair, uwr: &SendWr, length: u32) -> (wqe: SendWqe)
    requires
        spec_send_wr_valid(*old(qp), uwr@),
        length == spec_sge_total(uwr@.sg_list),
    ensures
        final(qp).ssn == vstd::wrapping::u32_specs::wrapping_add(old(qp).ssn, 1),
        final(qp).qp_type == old(qp).qp_type,
        final(qp).state == old(qp).state,
        final(qp).sq == old(qp).sq,
        final(qp).rq == old(qp).rq,
        final(qp).cur_index == old(qp).cur_index,
        final(qp).err == old(qp).err,
        wqe@ == spec_init_send_wqe(old(qp).qp_type, final(qp).ssn, uwr@, length),
{
    let kwr0 = convert_send_wr(qp.qp_type, uwr);
    let KernelSendWr { wr_id, num_sge, opcode, send_flags, imm_data, payload } = kwr0;
    let payload2: WqePayload = if qp.qp_type == QpType::Ud {
        match (&uwr.payload, payload) {
            (WrPayload::Ud { ah, .. }, WqePayload::Ud { remote_qpn, remote_qkey, ah_num, av }) => {
                if ah.ah_num == 0 {
                    WqePayload::Ud {
                        remote_qpn,
                        remote_qkey,
                        ah_num,
                        av: copy_bytes(&ah.av),
                    }
                } else {
                    WqePayload::Ud { remote_qpn, remote_qkey, ah_num, av }
                }
            },
            (_, p) => p,
        }
    } else {
        payload
    };
    let kwr = KernelSendWr { wr_id, num_sge, opcode, send_flags, imm_data, payload: payload2 };
    let iova: u64 = match &uwr.payload {
        WrPayload::Atomic { remote_addr, .. } => *remote_addr,
        WrPayload::Rdma { remote_addr, .. } => *remote_addr,
        _ => 0,
    };
    let dma_payload: DmaPayload = if uwr.send_flags & SEND_FLAG_INLINE != 0 {
        DmaPayload::Inline { data: concat_segments(&uwr.inline_segments) }
    } else {
        DmaPayload::Sges { list: copy_sges(&uwr.sg_list) }
    };
    qp.ssn = qp.ssn.wrapping_add(1);
    let wqe = SendWqe {
        wr: kwr,
        iova,
        state: 0,
        ssn: qp.ssn,
        dma: DmaInfo {
            length,
            resid: length,
            cur_sge: 0,
            num_sge,
            sge_offset: 0,
            payload: dma_payload,
        },
    };
    proof {
        assert(wqe@.wr =~= spec_init_send_wqe(old(qp).qp_type, qp.ssn, uwr@, length).wr);
        assert(wqe@.dma =~= spec_init_send_wqe(old(qp).qp_type, qp.ssn, uwr@, length).dma);
        assert(wqe@ =~= spec_init_send_wqe(old(qp).qp_type, qp.ssn, uwr@, length));
    }
    wqe
}

/// The parts of a queue pair that one send changes: the send ring's
/// publication cursor and bytes, and the sequence counter.
#[verifier::ext_equal]
pub struct SendState {
    pub producer_index: u32,
    pub data: Seq<u8>,
    pub ssn: u32,
}

impl QueuePair {
    /// The send-side state of this queue pair.
    pub open spec fn send_state(self) -> SendState {
        SendState {
            producer_index: self.sq.queue.producer_index,
            data: self.sq.queue.data@,
            ssn: self.ssn,
        }
    }
}

/// One step of the send path, as a function of the send-side state: the
/// sticky-fatal check, validation, the speculative fill of the producer
/// slot (which happens, and bumps the sequence counter, even when the ring
/// then turns out to be full), and the commit.  The slot write lands in
/// the one slot that is never live, so a failed request clobbers no
/// committed entry and leaves the producer index unchanged.
pub open spec fn spec_post_one_send(qp: QueuePair, st: SendState, w: SendWrV) -> (SendState, Result<
    (),
    QueueError,
>) {
    if qp.err != 0 {
        (st, Err(QueueError::Fatal(qp.err)))
    } else if !spec_send_wr_valid(qp, w) {
        (st, Err(QueueError::InvalidArgument))
    } else {
        let length = spec_sge_total(w.sg_list) as u32;
        let new_ssn = vstd::wrapping::u32_specs::wrapping_add(st.ssn, 1);
        let wqe = spec_init_send_wqe(qp.qp_type, new_ssn, w, length);
        let enc = spec_encode_send_wqe(wqe);
        let off = qp.sq.queue.spec_addr_from_index(st.producer_index);
        let data1 = splice(st.data, off as int, enc);
        if ring_add(st.producer_index, 1, qp.sq.queue.index_mask) == qp.sq.queue.consumer_index {
            (SendState { producer_index: st.producer_index, data: data1, ssn: new_ssn }, Err(
                QueueError::OutOfResources,
            ))
        } else {
            (SendState {
                producer_index: ring_add(st.producer_index, 1, qp.sq.queue.index_mask),
                data: data1,
                ssn: new_ssn,
            }, Ok(()))
        }
    }
}

/// A valid request's encoded entry fits in one element of the send ring.
pub proof fn lemma_send_wqe_fits(qp: QueuePair, new_ssn: u32, w: SendWrV, length: u32)
    requires
        qp.wf(),
        spec_send_wr_valid(qp, w),
        length == spec_sge_total(w.sg_list),
    ensures
        spec_encode_send_wqe(spec_init_send_wqe(qp.qp_type, new_ssn, w, length)).len()
            <= qp.sq.queue.elem_size(),
{
    let wqe = spec_init_send_wqe(qp.qp_type, new_ssn, w, length);
    lemma_encode_send_wqe_len(wqe);
    lemma_encode_wr_payload_len(wqe.wr.payload);
    lemma_encode_dma_payload_len(wqe.dma.payload);
    if spec_inline_requested(w) {
        lemma_concat_matches_total(w.inline_segments, w.sg_list);
    }
    assert(spec_encode_send_wqe(wqe).len() <= SEND_WQE_OVERHEAD + (if SGE_BYTES * qp.sq.max_sge
        > qp.sq.max_inline as u64 {
        (SGE_BYTES * qp.sq.max_sge) as int
    } else {
        qp.sq.max_inline as int
    }));
}

/// Post one send request: sticky-fatal check, validation, translation,
/// speculative fill of the producer slot, fullness re-check, commit.
pub fn post_one_send(qp: &mut QueuePair, uwr: &SendWr) -> (r: Result<(), QueueError>)
    requires
        old(qp).wf(),
    ensures
        final(qp).wf(),
        ({
            let (st1, r1) = spec_post_one_send(*old(qp), old(qp).send_state(), uwr@);
            &&& r == r1
            &&& final(qp).sq.queue.producer_index == st1.producer_index
            &&& final(qp).sq.queue.data@ == st1.data
            &&& final(qp).ssn == st1.ssn
        }),
        final(qp).qp_type == old(qp).qp_type,
        final(qp).state == old(qp).state,
        final(qp).err == old(qp).err,
        final(qp).cur_index == old(qp).cur_index,
        final(qp).rq == old(qp).rq,
        final(qp).sq.max_sge == old(qp).sq.max_sge,
        final(qp).sq.max_inline == old(qp).sq.max_inline,
        final(qp).sq.queue.index_mask == old(qp).sq.queue.index_mask,
        final(qp).sq.queue.log2_elem_size == old(qp).sq.queue.log2_elem_size,
        final(qp).sq.queue.consumer_index == old(qp).sq.queue.consumer_index,
{
    if qp.err != 0 {
        return Err(QueueError::Fatal(qp.err));
    }
    let length = match validate_send_wr(qp, uwr) {
        Err(e) => {
            return Err(e);
        },
        Ok(l) => l,
    };
    let wqe = init_send_wqe(qp, uwr, length);
    proof {
        lemma_send_wqe_fits(*old(qp), qp.ssn, uwr@, length);
    }
    let enc = encode_send_wqe(&wqe);
    let prod = qp.sq.queue.load_producer_index();
    qp.sq.queue.write_slot(prod, &enc);
    if qp.sq.queue.queue_full() {
        return Err(QueueError::OutOfResources);
    }
    qp.sq.queue.advance_producer();
    Ok(())
}

/// Views of a request list.
pub open spec fn spec_wr_views(l: Seq<SendWr>) -> Seq<SendWrV> {
    l.map_values(|w: SendWr| w@)
}

/// The send path over the first `n` requests of a list, stopping at the
/// first failure and recording its position.
pub open spec fn spec_post_send_prefix(
    qp: QueuePair,
    st0: SendState,
    wrs: Seq<SendWrV>,
    n: int,
) -> (SendState, Result<(), (int, QueueError)>)
    decreases n,
{
    if n <= 0 {
        (st0, Ok(()))
    } else {
        let (st, r) = spec_post_send_prefix(qp, st0, wrs, n - 1);
        match r {
            Err(e) => (st, Err(e)),
            Ok(_) => {
                let (st2, r2) = spec_post_one_send(qp, st, wrs[n - 1]);
                match r2 {
                    Ok(_) => (st2, Ok(())),
                    Err(e) => (st2, Err((n - 1, e))),
                }
            },
        }
    }
}

/// Once a prefix has failed, longer prefixes change nothing more.
pub proof fn lemma_post_send_prefix_stable(
    qp: QueuePair,
    st0: SendState,
    wrs: Seq<SendWrV>,
    n: int,
    m: int,
)
    requires
        0 <= n <= m,
        spec_post_send_prefix(qp, st0, wrs, n).1 is Err,
    ensures
        spec_post_send_prefix(qp, st0, wrs, m) == spec_post_send_prefix(qp, st0, wrs, n),
    decreases m - n,
{
    if m > n {
        lemma_post_send_prefix_stable(qp, st0, wrs, n, m - 1);
    }
}

/// `spec_post_one_send` reads only the fixed configuration of the queue
/// pair, never its send-side state.
pub proof fn lemma_post_one_send_config(qp1: QueuePair, qp2: QueuePair, st: SendState, w: SendWrV)
    requires
        qp1.err == qp2.err,
        qp1.qp_type == qp2.qp_type,
        qp1.sq.max_sge == qp2.sq.max_sge,
        qp1.sq.max_inline == qp2.sq.max_inline,
        qp1.sq.queue.index_mask == qp2.sq.queue.index_mask,
        qp1.sq.queue.log2_elem_size == qp2.sq.queue.log2_elem_size,
        qp1.sq.queue.consumer_index == qp2.sq.queue.consumer_index,
    ensures
        spec_post_one_send(qp1, st, w) == spec_post_one_send(qp2, st, w),
{
    assert(spec_send_wr_valid(qp1, w) == spec_send_wr_valid(qp2, w));
    assert(qp1.sq.queue.spec_addr_from_index(st.producer_index)
        == qp2.sq.queue.spec_addr_from_index(st.producer_index));
}

/// Post a list of send requests in order, stopping at the first failure;
/// requests committed before the failure stay committed, and the error
/// reports the failing request's position.  The caller then issues exactly
/// one kernel notification for the whole call, whether or not the list ran
/// to completion, and combines the outcomes with
/// [`crate::notify::finish_post_send`].
pub fn rxe_post_send(qp: &mut QueuePair, wr_list: &Vec<SendWr>) -> (r: Result<
    (),
    (usize, QueueError),
>)
    requires
        old(qp).wf(),
    ensures
        final(qp).wf(),
        ({
            let (stf, rf) = spec_post_send_prefix(
                *old(qp),
                old(qp).send_state(),
                spec_wr_views(wr_list@),
                wr_list@.len() as int,
            );
            &&& final(qp).sq.queue.producer_index == stf.producer_index
            &&& final(qp).sq.queue.data@ == stf.data
            &&& final(qp).ssn == stf.ssn
            &&& (rf is Ok ==> r is Ok)
            &&& (rf matches Err((i, e)) ==> 0 <= i < wr_list@.len() && r == Err::<
                (),
                (usize, QueueError),
            >((i as usize, e)))
        }),
        final(qp).qp_type == old(qp).qp_type,
        final(qp).state == old(qp).state,
        final(qp).err == old(qp).err,
        final(qp).cur_index == old(qp).cur_index,
        final(qp).rq == old(qp).rq,
        final(qp).sq.max_sge == old(qp).sq.max_sge,
        final(qp).sq.max_inline == old(qp).sq.max_inline,
        final(qp).sq.queue.index_mask == old(qp).sq.queue.index_mask,
        final(qp).sq.queue.log2_elem_size == old(qp).sq.queue.log2_elem_size,
        final(qp).sq.queue.consumer_index == old(qp).sq.queue.consumer_index,
{
    let ghost wrs = spec_wr_views(wr_list@);
    let n = wr_list.len();
    let mut i: usize = 0;
    while i < n
        invariant
            i <= n,
            n == wr_list@.len(),
            wrs == spec_wr_views(wr_list@),
            qp.wf(),
            qp.qp_type == old(qp).qp_type,
            qp.state == old(qp).state,
            qp.err == old(qp).err,
            qp.cur_index == old(qp).cur_index,
            qp.rq == old(qp).rq,
            qp.sq.max_sge == old(qp).sq.max_sge,
            qp.sq.max_inline == old(qp).sq.max_inline,
            qp.sq.queue.index_mask == old(qp).sq.queue.index_mask,
            qp.sq.queue.log2_elem_size == old(qp).sq.queue.log2_elem_size,
            qp.sq.queue.consumer_index == old(qp).sq.queue.consumer_index,
            ({
                let (st, r0) = spec_post_send_prefix(*old(qp), old(qp).send_state(), wrs, i as int);
                &&& r0 is Ok
                &&& qp.sq.queue.producer_index == st.producer_index
                &&& qp.sq.queue.data@ == st.data
                &&& qp.ssn == st.ssn
            }),
        decreases n - i,
    {
        let ghost qp_before = *qp;
        let ghost (st_i, r_i) = spec_post_send_prefix(*old(qp), old(qp).send_state(), wrs, i as int);
        let r = post_one_send(qp, &wr_list[i]);
        proof {
            assert(qp_before.send_state() =~= st_i);
            assert(wrs[i as int] == wr_list@[i as int]@);
            lemma_post_one_send_config(qp_before, *old(qp), st_i, wrs[i as int]);
        }
        match r {
            Ok(()) => {
                i = i + 1;
            },
            Err(e) => {
                proof {
                    lemma_post_send_prefix_stable(
                        *old(qp),
                        old(qp).send_state(),
                        wrs,
                        i + 1,
                        n as int,
                    );
                }
                return Err((i, e));
            },
        }
    }
    Ok(())
}

} // verus!
