//! Wire layout of queue entries.
//!
//! Every entry placed in a ring is produced by the explicit encode step in
//! this module: fixed-width little-endian fields at fixed offsets, as the
//! externally imposed layout fixes them.  The opcode-specific payload is a
//! union region of one fixed size whose live variant is implied by the
//! opcode, never by a stored tag; the trailing data region holds either the
//! inline payload bytes or the scatter-gather descriptor array, told apart
//! by the inline send flag, with their extent given by the bookkeeping
//! fields (total length, segment count).  Internal logic manipulates the
//! typed structures; only this step flattens them to bytes.

use vstd::prelude::*;

use crate::wr::Sge;
use crate::wr::WrOpcode;

verus! {

/// Little-endian bytes of a 16-bit value.
pub open spec fn u16_le(x: u16) -> Seq<u8> {
    seq![(x & 0xff) as u8, ((x >> 8) & 0xff) as u8]
}

/// Little-endian bytes of a 32-bit value.
pub open spec fn u32_le(x: u32) -> Seq<u8> {
    seq![
        (x & 0xff) as u8,
        ((x >> 8) & 0xff) as u8,
        ((x >> 16) & 0xff) as u8,
        ((x >> 24) & 0xff) as u8,
    ]
}

/// Little-endian bytes of a 64-bit value.
pub open spec fn u64_le(x: u64) -> Seq<u8> {
    seq![
        (x & 0xff) as u8,
        ((x >> 8) & 0xff) as u8,
        ((x >> 16) & 0xff) as u8,
        ((x >> 24) & 0xff) as u8,
        ((x >> 32) & 0xff) as u8,
        ((x >> 40) & 0xff) as u8,
        ((x >> 48) & 0xff) as u8,
        ((x >> 56) & 0xff) as u8,
    ]
}

proof fn lemma_u16_byte_bounds(x: u16)
    by (bit_vector)
    ensures
        x & 0xff < 256,
        (x >> 8) & 0xff < 256,
{
}

proof fn lemma_u32_byte_bounds(x: u32)
    by (bit_vector)
    ensures
        x & 0xff < 256,
        (x >> 8) & 0xff < 256,
        (x >> 16) & 0xff < 256,
        (x >> 24) & 0xff < 256,
{
}

proof fn lemma_u64_byte_bounds(x: u64)
    by (bit_vector)
    ensures
        x & 0xff < 256,
        (x >> 8) & 0xff < 256,
        (x >> 16) & 0xff < 256,
        (x >> 24) & 0xff < 256,
        (x >> 32) & 0xff < 256,
        (x >> 40) & 0xff < 256,
        (x >> 48) & 0xff < 256,
        (x >> 56) & 0xff < 256,
{
}

/// Append the little-endian bytes of `x`.
pub fn push_u16(out: &mut Vec<u8>, x: u16)
    ensures
        final(out)@ == old(out)@ + u16_le(x),
{
    proof {
        lemma_u16_byte_bounds(x);
    }
    out.push((x & 0xff) as u8);
    out.push(((x >> 8) & 0xff) as u8);
    proof {
        assert(out@ =~= old(out)@ + u16_le(x));
    }
}

/// Append the little-endian bytes of `x`.
pub fn push_u32(out: &mut Vec<u8>, x: u32)
    ensures
        final(out)@ == old(out)@ + u32_le(x),
{
    proof {
        lemma_u32_byte_bounds(x);
    }
    out.push((x & 0xff) as u8);
    out.push(((x >> 8) & 0xff) as u8);
    out.push(((x >> 16) & 0xff) as u8);
    out.push(((x >> 24) & 0xff) as u8);
    proof {
        assert(out@ =~= old(out)@ + u32_le(x));
    }
}

/// Append the little-endian bytes of `x`.
pub fn push_u64(out: &mut Vec<u8>, x: u64)
    ensures
        final(out)@ == old(out)@ + u64_le(x),
{
    proof {
        lemma_u64_byte_bounds(x);
    }
    out.push((x & 0xff) as u8);
    out.push(((x >> 8) & 0xff) as u8);
    out.push(((x >> 16) & 0xff) as u8);
    out.push(((x >> 24) & 0xff) as u8);
    out.push(((x >> 32) & 0xff) as u8);
    out.push(((x >> 40) & 0xff) as u8);
    out.push(((x >> 48) & 0xff) as u8);
    out.push(((x >> 56) & 0xff) as u8);
    proof {
        assert(out@ =~= old(out)@ + u64_le(x));
    }
}

/// Append a copy of `b`.
pub fn push_bytes(out: &mut Vec<u8>, b: &Vec<u8>)
    ensures
        final(out)@ == old(out)@ + b@,
{
    let n = b.len();
    let mut i: usize = 0;
    while i < n
        invariant
            i <= n,
            n == b@.len(),
            out@ == old(out)@ + b@.subrange(0, i as int),
        decreases n - i,
    {
        out.push(b[i]);
        proof {
            assert(out@ =~= old(out)@ + b@.subrange(0, i + 1));
        }
        i = i + 1;
    }
    proof {
        assert(b@.subrange(0, n as int) =~= b@);
    }
}

/// `n` zero bytes: a reserved or padding region of the fixed layout.
pub open spec fn zeros(n: int) -> Seq<u8> {
    Seq::new(n as nat, |i: int| 0u8)
}

/// `s` cut or zero-padded to exactly `n` bytes: a fixed-size region filled
/// from a byte string.
pub open spec fn take_pad(s: Seq<u8>, n: int) -> Seq<u8> {
    Seq::new(n as nat, |i: int| if i < s.len() { s[i] } else { 0u8 })
}

/// Append `n` zero bytes.
pub fn push_zeros(out: &mut Vec<u8>, n: usize)
    ensures
        final(out)@ == old(out)@ + zeros(n as int),
{
    let mut i: usize = 0;
    while i < n
        invariant
            i <= n,
            out@ == old(out)@ + zeros(i as int),
        decreases n - i,
    {
        out.push(0);
        proof {
            assert(out@ =~= old(out)@ + zeros(i + 1));
        }
        i = i + 1;
    }
}

/// Append `b`, cut or zero-padded to exactly `n` bytes.
pub fn push_padded(out: &mut Vec<u8>, b: &Vec<u8>, n: usize)
    ensures
        final(out)@ == old(out)@ + take_pad(b@, n as int),
{
    let mut i: usize = 0;
    while i < n
        invariant
            i <= n,
            out@ == old(out)@ + take_pad(b@, i as int),
        decreases n - i,
    {
        if i < b.len() {
            out.push(b[i]);
        } else {
            out.push(0);
        }
        proof {
            assert(out@ =~= old(out)@ + take_pad(b@, i + 1));
        }
        i = i + 1;
    }
}

/// Numeric code an opcode is encoded as.
pub open spec fn spec_opcode_code(op: WrOpcode) -> u32 {
    match op {
        WrOpcode::RdmaWrite => 0,
        WrOpcode::RdmaWriteWithImm => 1,
        WrOpcode::Send => 2,
        WrOpcode::SendWithImm => 3,
        WrOpcode::RdmaRead => 4,
        WrOpcode::AtomicCmpAndSwp => 5,
        WrOpcode::AtomicFetchAndAdd => 6,
        WrOpcode::LocalInv => 7,
        WrOpcode::BindMw => 8,
        WrOpcode::SendWithInv => 9,
    }
}

/// Numeric code an opcode is encoded as.
pub fn opcode_code(op: WrOpcode) -> (r: u32)
    ensures
        r == spec_opcode_code(op),
{
    match op {
        WrOpcode::RdmaWrite => 0,
        WrOpcode::RdmaWriteWithImm => 1,
        WrOpcode::Send => 2,
        WrOpcode::SendWithImm => 3,
        WrOpcode::RdmaRead => 4,
        WrOpcode::AtomicCmpAndSwp => 5,
        WrOpcode::AtomicFetchAndAdd => 6,
        WrOpcode::LocalInv => 7,
        WrOpcode::BindMw => 8,
        WrOpcode::SendWithInv => 9,
    }
}

/// Opcode-specific payload of a queue entry, in its kernel-facing shape:
/// datagram routing is reduced to plain numbers plus (when the handle's
/// reuse counter was zero) the copied routing bytes.
#[derive(Debug)]
pub enum WqePayload {
    /// opcodes whose payload region is left zeroed
    Zeroed,
    Rdma { remote_addr: u64, rkey: u32 },
    Atomic { remote_addr: u64, compare_add: u64, swap: u64, rkey: u32 },
    Ud { remote_qpn: u32, remote_qkey: u32, ah_num: u32, av: Vec<u8> },
    Mw { addr: u64, length: u64, mr_lkey: u32, mw_rkey: u32, rkey: u32, access: u32 },
}

/// Mathematical value of a [`WqePayload`].
pub enum WqePayloadV {
    Zeroed,
    Rdma { remote_addr: u64, rkey: u32 },
    Atomic { remote_addr: u64, compare_add: u64, swap: u64, rkey: u32 },
    Ud { remote_qpn: u32, remote_qkey: u32, ah_num: u32, av: Seq<u8> },
    Mw { addr: u64, length: u64, mr_lkey: u32, mw_rkey: u32, rkey: u32, access: u32 },
}

impl View for WqePayload {
    type V = WqePayloadV;

    open spec fn view(&self) -> WqePayloadV {
        match self {
            WqePayload::Zeroed => WqePayloadV::Zeroed,
            WqePayload::Rdma { remote_addr, rkey } => WqePayloadV::Rdma {
                remote_addr: *remote_addr,
                rkey: *rkey,
            },
            WqePayload::Atomic { remote_addr, compare_add, swap, rkey } => WqePayloadV::Atomic {
                remote_addr: *remote_addr,
                compare_add: *compare_add,
                swap: *swap,
                rkey: *rkey,
            },
            WqePayload::Ud { remote_qpn, remote_qkey, ah_num, av } => WqePayloadV::Ud {
                remote_qpn: *remote_qpn,
                remote_qkey: *remote_qkey,
                ah_num: *ah_num,
                av: av@,
            },
            WqePayload::Mw { addr, length, mr_lkey, mw_rkey, rkey, access } => WqePayloadV::Mw {
                addr: *addr,
                length: *length,
                mr_lkey: *mr_lkey,
                mw_rkey: *mw_rkey,
                rkey: *rkey,
                access: *access,
            },
        }
    }
}

/// Trailing data region of a queue entry: either the payload bytes copied
/// inline, or the scatter-gather descriptors copied verbatim.
#[derive(Debug)]
pub enum DmaPayload {
    Inline { data: Vec<u8> },
    Sges { list: Vec<Sge> },
}

/// Mathematical value of a [`DmaPayload`].
pub enum DmaPayloadV {
    Inline { data: Seq<u8> },
    Sges { list: Seq<Sge> },
}

impl View for DmaPayload {
    type V = DmaPayloadV;

    open spec fn view(&self) -> DmaPayloadV {
        match self {
            DmaPayload::Inline { data } => DmaPayloadV::Inline { data: data@ },
            DmaPayload::Sges { list } => DmaPayloadV::Sges { list: list@ },
        }
    }
}

/// DMA bookkeeping of a queue entry.
#[derive(Debug)]
pub struct DmaInfo {
    /// total transfer length in bytes
    pub length: u32,
    /// bytes still to transfer
    pub resid: u32,
    /// current scatter-gather segment
    pub cur_sge: u32,
    /// number of scatter-gather segments
    pub num_sge: u32,
    /// offset into the current segment
    pub sge_offset: u32,
    pub payload: DmaPayload,
}

/// Mathematical value of a [`DmaInfo`].
pub struct DmaInfoV {
    pub length: u32,
    pub resid: u32,
    pub cur_sge: u32,
    pub num_sge: u32,
    pub sge_offset: u32,
    pub payload: DmaPayloadV,
}

impl View for DmaInfo {
    type V = DmaInfoV;

    open spec fn view(&self) -> DmaInfoV {
        DmaInfoV {
            length: self.length,
            resid: self.resid,
            cur_sge: self.cur_sge,
            num_sge: self.num_sge,
            sge_offset: self.sge_offset,
            payload: self.payload@,
        }
    }
}

/// Kernel-facing form of a send work request.
#[derive(Debug)]
pub struct KernelSendWr {
    pub wr_id: u64,
    pub num_sge: u32,
    pub opcode: WrOpcode,
    pub send_flags: u32,
    pub imm_data: u32,
    pub payload: WqePayload,
}

/// Mathematical value of a [`KernelSendWr`].
pub struct KernelSendWrV {
    pub wr_id: u64,
    pub num_sge: u32,
    pub opcode: WrOpcode,
    pub send_flags: u32,
    pub imm_data: u32,
    pub payload: WqePayloadV,
}

impl View for KernelSendWr {
    type V = KernelSendWrV;

    open spec fn view(&self) -> KernelSendWrV {
        KernelSendWrV {
            wr_id: self.wr_id,
            num_sge: self.num_sge,
            opcode: self.opcode,
            send_flags: self.send_flags,
            imm_data: self.imm_data,
            payload: self.payload@,
        }
    }
}

/// A send queue entry: the translated request plus bookkeeping.
#[derive(Debug)]
pub struct SendWqe {
    pub wr: KernelSendWr,
    /// remote address the DMA engine works on
    pub iova: u64,
    pub state: u32,
    /// sequence number stamped from the queue pair's counter
    pub ssn: u32,
    pub dma: DmaInfo,
}

/// Mathematical value of a [`SendWqe`].
pub struct SendWqeV {
    pub wr: KernelSendWrV,
    pub iova: u64,
    pub state: u32,
    pub ssn: u32,
    pub dma: DmaInfoV,
}

impl View for SendWqe {
    type V = SendWqeV;

    open spec fn view(&self) -> SendWqeV {
        SendWqeV {
            wr: self.wr@,
            iova: self.iova,
            state: self.state,
            ssn: self.ssn,
            dma: self.dma@,
        }
    }
}

/// A receive queue entry.
#[derive(Debug)]
pub struct RecvWqe {
    pub wr_id: u64,
    pub num_sge: u32,
    pub dma: DmaInfo,
}

/// Mathematical value of a [`RecvWqe`].
pub struct RecvWqeV {
    pub wr_id: u64,
    pub num_sge: u32,
    pub dma: DmaInfoV,
}

impl View for RecvWqe {
    type V = RecvWqeV;

    open spec fn view(&self) -> RecvWqeV {
        RecvWqeV { wr_id: self.wr_id, num_sge: self.num_sge, dma: self.dma@ }
    }
}

/// Size in bytes of the opcode-specific payload region: one fixed union
/// region sized by its largest variant (datagram addressing plus the
/// routing bytes), with the shorter variants zero-padded in place.
pub const WR_PAYLOAD_BYTES: u64 = 56;

/// Encoding of the opcode-specific payload region: always
/// [`WR_PAYLOAD_BYTES`] long, the live variant implied by the opcode.
/// Each variant writes its fields in order at the region's start; a
/// reserved word and zero padding fill the rest.
pub open spec fn spec_encode_wr_payload(p: WqePayloadV) -> Seq<u8> {
    match p {
        WqePayloadV::Zeroed => zeros(56),
        WqePayloadV::Rdma { remote_addr, rkey } => u64_le(remote_addr) + u32_le(rkey) + u32_le(0)
            + zeros(40),
        WqePayloadV::Atomic { remote_addr, compare_add, swap, rkey } => u64_le(remote_addr)
            + u64_le(compare_add) + u64_le(swap) + u32_le(rkey) + u32_le(0) + zeros(24),
        WqePayloadV::Ud { remote_qpn, remote_qkey, ah_num, av } => u32_le(remote_qpn) + u32_le(
            remote_qkey,
        ) + u32_le(ah_num) + u32_le(0) + take_pad(av, 40),
        WqePayloadV::Mw { addr, length, mr_lkey, mw_rkey, rkey, access } => u64_le(addr) + u64_le(
            length,
        ) + u32_le(mr_lkey) + u32_le(mw_rkey) + u32_le(rkey) + u32_le(access) + zeros(24),
    }
}

/// Scatter-gather descriptors, encoded in order.
pub open spec fn spec_encode_sges(s: Seq<Sge>) -> Seq<u8>
    decreases s.len(),
{
    if s.len() == 0 {
        Seq::empty()
    } else {
        spec_encode_sges(s.drop_last()) + u64_le(s.last().addr) + u32_le(s.last().length) + u32_le(
            s.last().lkey,
        )
    }
}

/// Encoding of the trailing data region: the inline payload bytes or the
/// descriptor array, written bare.  Which one lies there is implied by the
/// inline send flag, and its extent by the total-length and segment-count
/// fields of the DMA bookkeeping.
pub open spec fn spec_encode_dma_payload(p: DmaPayloadV) -> Seq<u8> {
    match p {
        DmaPayloadV::Inline { data } => data,
        DmaPayloadV::Sges { list } => spec_encode_sges(list),
    }
}

/// Encoding of a whole send queue entry: the kernel-facing request, then
/// the bookkeeping words — status, state, the DMA target address, the
/// opcode mask, the first/last packet sequence numbers, the acknowledged
/// length, the stamped sequence number and the outstanding-read-atomic
/// count (all but state, address and sequence number start zeroed) — then
/// the DMA bookkeeping and the trailing data region.
pub open spec fn spec_encode_send_wqe(w: SendWqeV) -> Seq<u8> {
    u64_le(w.wr.wr_id) + u32_le(w.wr.num_sge) + u32_le(spec_opcode_code(w.wr.opcode)) + u32_le(
        w.wr.send_flags,
    ) + u32_le(w.wr.imm_data) + spec_encode_wr_payload(w.wr.payload)  // status
     + u32_le(0) + u32_le(w.state) + u64_le(w.iova)  // mask, first_psn, last_psn, ack_length
     + u32_le(0) + u32_le(0) + u32_le(0) + u32_le(0) + u32_le(w.ssn)  // has_rd_atomic
     + u32_le(0) + u32_le(w.dma.length) + u32_le(w.dma.resid) + u32_le(w.dma.cur_sge) + u32_le(
        w.dma.num_sge,
    ) + u32_le(w.dma.sge_offset)  // reserved
     + u32_le(0) + spec_encode_dma_payload(w.dma.payload)
}

/// Encoding of a whole receive queue entry: identifier, segment count, a
/// padding word, the DMA bookkeeping and the descriptor array.
pub open spec fn spec_encode_recv_wqe(w: RecvWqeV) -> Seq<u8> {
    u64_le(w.wr_id) + u32_le(w.num_sge)  // padding
     + u32_le(0) + u32_le(w.dma.length) + u32_le(w.dma.resid) + u32_le(w.dma.cur_sge) + u32_le(
        w.dma.num_sge,
    ) + u32_le(w.dma.sge_offset)  // reserved
     + u32_le(0) + spec_encode_dma_payload(w.dma.payload)
}

/// Encode the opcode-specific payload region.
pub fn encode_wr_payload(p: &WqePayload) -> (out: Vec<u8>)
    ensures
        out@ == spec_encode_wr_payload(p@),
{
    let mut out: Vec<u8> = Vec::new();
    match p {
        WqePayload::Zeroed => {
            push_zeros(&mut out, 56);
            proof {
                assert(out@ =~= zeros(56));
            }
        },
        WqePayload::Rdma { remote_addr, rkey } => {
            push_u64(&mut out, *remote_addr);
            proof {
                assert(out@ =~= u64_le(*remote_addr));
            }
            push_u32(&mut out, *rkey);
            push_u32(&mut out, 0);
            push_zeros(&mut out, 40);
        },
        WqePayload::Atomic { remote_addr, compare_add, swap, rkey } => {
            push_u64(&mut out, *remote_addr);
            proof {
                assert(out@ =~= u64_le(*remote_addr));
            }
            push_u64(&mut out, *compare_add);
            push_u64(&mut out, *swap);
            push_u32(&mut out, *rkey);
            push_u32(&mut out, 0);
            push_zeros(&mut out, 24);
        },
        WqePayload::Ud { remote_qpn, remote_qkey, ah_num, av } => {
            push_u32(&mut out, *remote_qpn);
            proof {
                assert(out@ =~= u32_le(*remote_qpn));
            }
            push_u32(&mut out, *remote_qkey);
            push_u32(&mut out, *ah_num);
            push_u32(&mut out, 0);
            push_padded(&mut out, av, 40);
        },
        WqePayload::Mw { addr, length, mr_lkey, mw_rkey, rkey, access } => {
            push_u64(&mut out, *addr);
            proof {
                assert(out@ =~= u64_le(*addr));
            }
            push_u64(&mut out, *length);
            push_u32(&mut out, *mr_lkey);
            push_u32(&mut out, *mw_rkey);
            push_u32(&mut out, *rkey);
            push_u32(&mut out, *access);
            push_zeros(&mut out, 24);
        },
    }
    out
}

/// Encode the scatter-gather descriptors in order.
pub fn encode_sges(list: &Vec<Sge>) -> (out: Vec<u8>)
    ensures
        out@ == spec_encode_sges(list@),
{
    let n = list.len();
    let mut out: Vec<u8> = Vec::new();
    proof {
        assert(list@.subrange(0, 0) =~= Seq::<Sge>::empty());
    }
    let mut i: usize = 0;
    while i < n
        invariant
            i <= n,
            n == list@.len(),
            out@ == spec_encode_sges(list@.subrange(0, i as int)),
        decreases n - i,
    {
        proof {
            assert(list@.subrange(0, i + 1).drop_last() =~= list@.subrange(0, i as int));
            assert(list@.subrange(0, i + 1).last() == list@[i as int]);
        }
        push_u64(&mut out, list[i].addr);
        push_u32(&mut out, list[i].length);
        push_u32(&mut out, list[i].lkey);
        i = i + 1;
    }
    proof {
        assert(list@.subrange(0, n as int) =~= list@);
    }
    out
}

/// Encode the trailing data region.
pub fn encode_dma_payload(p: &DmaPayload) -> (out: Vec<u8>)
    ensures
        out@ == spec_encode_dma_payload(p@),
{
    match p {
        DmaPayload::Inline { data } => {
            let mut out: Vec<u8> = Vec::new();
            push_bytes(&mut out, data);
            proof {
                assert(out@ =~= data@);
            }
            out
        },
        DmaPayload::Sges { list } => encode_sges(list),
    }
}

/// Encode a whole send queue entry.
pub fn encode_send_wqe(w: &SendWqe) -> (out: Vec<u8>)
    ensures
        out@ == spec_encode_send_wqe(w@),
{
    let mut out: Vec<u8> = Vec::new();
    push_u64(&mut out, w.wr.wr_id);
    proof {
        assert(out@ =~= u64_le(w.wr.wr_id));
    }
    push_u32(&mut out, w.wr.num_sge);
    push_u32(&mut out, opcode_code(w.wr.opcode));
    push_u32(&mut out, w.wr.send_flags);
    push_u32(&mut out, w.wr.imm_data);
    let pb = encode_wr_payload(&w.wr.payload);
    push_bytes(&mut out, &pb);
    push_u32(&mut out, 0); // status
    push_u32(&mut out, w.state);
    push_u64(&mut out, w.iova);
    push_u32(&mut out, 0); // mask
    push_u32(&mut out, 0); // first_psn
    push_u32(&mut out, 0); // last_psn
    push_u32(&mut out, 0); // ack_length
    push_u32(&mut out, w.ssn);
    push_u32(&mut out, 0); // has_rd_atomic
    push_u32(&mut out, w.dma.length);
    push_u32(&mut out, w.dma.resid);
    push_u32(&mut out, w.dma.cur_sge);
    push_u32(&mut out, w.dma.num_sge);
    push_u32(&mut out, w.dma.sge_offset);
    push_u32(&mut out, 0); // reserved
    let db = encode_dma_payload(&w.dma.payload);
    push_bytes(&mut out, &db);
    out
}

/// Encode a whole receive queue entry.
pub fn encode_recv_wqe(w: &RecvWqe) -> (out: Vec<u8>)
    ensures
        out@ == spec_encode_recv_wqe(w@),
{
    let mut out: Vec<u8> = Vec::new();
    push_u64(&mut out, w.wr_id);
    proof {
        assert(out@ =~= u64_le(w.wr_id));
    }
    push_u32(&mut out, w.num_sge);
    push_u32(&mut out, 0); // padding
    push_u32(&mut out, w.dma.length);
    push_u32(&mut out, w.dma.resid);
    push_u32(&mut out, w.dma.cur_sge);
    push_u32(&mut out, w.dma.num_sge);
    push_u32(&mut out, w.dma.sge_offset);
    push_u32(&mut out, 0); // reserved
    let db = encode_dma_payload(&w.dma.payload);
    push_bytes(&mut out, &db);
    out
}

/// Length of an encoded scatter-gather descriptor array.
pub proof fn lemma_encode_sges_len(s: Seq<Sge>)
    ensures
        spec_encode_sges(s).len() == 16 * s.len(),
    decreases s.len(),
{
    if s.len() > 0 {
        lemma_encode_sges_len(s.drop_last());
    }
}

/// The opcode-specific payload region is always the same fixed size.
pub proof fn lemma_encode_wr_payload_len(p: WqePayloadV)
    ensures
        spec_encode_wr_payload(p).len() == WR_PAYLOAD_BYTES,
{
}

/// Length of an encoded trailing data region.
pub proof fn lemma_encode_dma_payload_len(p: DmaPayloadV)
    ensures
        spec_encode_dma_payload(p).len() == match p {
            DmaPayloadV::Inline { data } => data.len() as int,
            DmaPayloadV::Sges { list } => 16 * list.len() as int,
        },
{
    match p {
        DmaPayloadV::Sges { list } => {
            lemma_encode_sges_len(list);
        },
        _ => {},
    }
}

/// Length of an encoded send queue entry: the fixed offsets up to the
/// trailing data region, then that region.
pub proof fn lemma_encode_send_wqe_len(w: SendWqeV)
    ensures
        spec_encode_send_wqe(w).len() == 88 + spec_encode_wr_payload(w.wr.payload).len()
            + spec_encode_dma_payload(w.dma.payload).len(),
{
}

/// Length of an encoded receive queue entry.
pub proof fn lemma_encode_recv_wqe_len(w: RecvWqeV)
    ensures
        spec_encode_recv_wqe(w).len() == 40 + spec_encode_dma_payload(w.dma.payload).len(),
{
}

} // verus!
