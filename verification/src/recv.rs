//! Receive queue manager.
//!
//! Receive requests are validated against the queue's scatter-gather limit,
//! translated into receive queue entries and committed in order.  No kernel
//! notification is issued: the kernel discovers new receive buffers lazily.
//! A call on a queue pair whose transport is still in its reset state is
//! rejected up front as a whole.

use vstd::prelude::*;

use crate::qp::QueuePair;
use crate::qp::RECV_WQE_OVERHEAD;
use crate::qp::SGE_BYTES;
use crate::qp::WorkQueue;
use crate::queue::ring_add;
use crate::queue::splice;
use crate::wire::DmaInfo;
use crate::wire::DmaInfoV;
use crate::wire::DmaPayload;
use crate::wire::DmaPayloadV;
use crate::wire::RecvWqe;
use crate::wire::RecvWqeV;
use crate::wire::encode_recv_wqe;
use crate::wire::lemma_encode_dma_payload_len;
use crate::wire::lemma_encode_recv_wqe_len;
use crate::wire::spec_encode_recv_wqe;
use crate::wr::QpState;
use crate::wr::QueueError;
use crate::wr::RecvWr;
use crate::wr::RecvWrV;
use crate::wr::sge_total;
use crate::wr::spec_sge_total;
use crate::send::copy_sges;

verus! {

/// Validation rules of the receive path: scatter-gather count within the
/// queue's limit and total length expressible in the 32-bit length field.
pub open spec fn spec_recv_wr_valid(rq: WorkQueue, w: RecvWrV) -> bool {
    &&& w.sg_list.len() <= rq.max_sge
    &&& spec_sge_total(w.sg_list) <= u32::MAX
}

/// Translation of a receive request into its queue entry: the caller's
/// identifier, the descriptors copied verbatim, and DMA bookkeeping with
/// everything still to transfer.
pub open spec fn spec_recv_wqe(w: RecvWrV) -> RecvWqeV {
    let total = spec_sge_total(w.sg_list) as u32;
    RecvWqeV {
        wr_id: w.wr_id,
        num_sge: w.sg_list.len() as u32,
        dma: DmaInfoV {
            length: total,
            resid: total,
            cur_sge: 0,
            num_sge: w.sg_list.len() as u32,
            sge_offset: 0,
            payload: DmaPayloadV::Sges { list: w.sg_list },
        },
    }
}

/// The parts of a work queue that one receive post changes.
#[verifier::ext_equal]
pub struct RecvState {
    pub producer_index: u32,
    pub data: Seq<u8>,
}

impl WorkQueue {
    /// The producer-side state of this work queue.
    pub open spec fn recv_state(self) -> RecvState {
        RecvState { producer_index: self.queue.producer_index, data: self.queue.data@ }
    }
}

/// One step of the receive path: the fullness check comes first, then
/// validation, then the slot fill and commit.
pub open spec fn spec_post_one_recv(rq: WorkQueue, st: RecvState, w: RecvWrV) -> (RecvState, Result<
    (),
    QueueError,
>) {
    if ring_add(st.producer_index, 1, rq.queue.index_mask) == rq.queue.consumer_index {
        (st, Err(QueueError::OutOfResources))
    } else if !spec_recv_wr_valid(rq, w) {
        (st, Err(QueueError::InvalidArgument))
    } else {
        let enc = spec_encode_recv_wqe(spec_recv_wqe(w));
        let off = rq.queue.spec_addr_from_index(st.producer_index);
        (RecvState {
            producer_index: ring_add(st.producer_index, 1, rq.queue.index_mask),
            data: splice(st.data, off as int, enc),
        }, Ok(()))
    }
}

/// A valid receive request's encoded entry fits in one ring element.
pub proof fn lemma_recv_wqe_fits(rq: WorkQueue, w: RecvWrV)
    requires
        rq.rq_wf(),
        spec_recv_wr_valid(rq, w),
    ensures
        spec_encode_recv_wqe(spec_recv_wqe(w)).len() <= rq.queue.elem_size(),
{
    lemma_encode_recv_wqe_len(spec_recv_wqe(w));
    lemma_encode_dma_payload_len(spec_recv_wqe(w).dma.payload);
    assert(spec_encode_recv_wqe(spec_recv_wqe(w)).len() <= RECV_WQE_OVERHEAD + SGE_BYTES
        * rq.max_sge);
}

/// Post one receive request: fullness check, validation, translation,
/// slot fill, commit.
pub fn rxe_post_one_recv(rq: &mut WorkQueue, wr: &RecvWr) -> (r: Result<(), QueueError>)
    requires
        old(rq).rq_wf(),
    ensures
        final(rq).rq_wf(),
        ({
            let (st1, r1) = spec_post_one_recv(*old(rq), old(rq).recv_state(), wr@);
            &&& r == r1
            &&& final(rq).queue.producer_index == st1.producer_index
            &&& final(rq).queue.data@ == st1.data
        }),
        final(rq).max_sge == old(rq).max_sge,
        final(rq).max_inline == old(rq).max_inline,
        final(rq).queue.index_mask == old(rq).queue.index_mask,
        final(rq).queue.log2_elem_size == old(rq).queue.log2_elem_size,
        final(rq).queue.consumer_index == old(rq).queue.consumer_index,
{
    if rq.queue.queue_full() {
        return Err(QueueError::OutOfResources);
    }
    if wr.sg_list.len() > rq.max_sge as usize {
        return Err(QueueError::InvalidArgument);
    }
    let total = sge_total(&wr.sg_list);
    if total > 0xFFFF_FFFF {
        return Err(QueueError::InvalidArgument);
    }
    let wqe = RecvWqe {
        wr_id: wr.wr_id,
        num_sge: wr.sg_list.len() as u32,
        dma: DmaInfo {
            length: total as u32,
            resid: total as u32,
            cur_sge: 0,
            num_sge: wr.sg_list.len() as u32,
            sge_offset: 0,
            payload: DmaPayload::Sges { list: copy_sges(&wr.sg_list) },
        },
    };
    proof {
        assert(wqe@.dma =~= spec_recv_wqe(wr@).dma);
        assert(wqe@ =~= spec_recv_wqe(wr@));
        lemma_recv_wqe_fits(*rq, wr@);
    }
    let enc = encode_recv_wqe(&wqe);
    let prod = rq.queue.load_producer_index();
    rq.queue.write_slot(prod, &enc);
    rq.queue.advance_producer();
    Ok(())
}

/// Views of a receive request list.
pub open spec fn spec_recv_wr_views(l: Seq<RecvWr>) -> Seq<RecvWrV> {
    l.map_values(|w: RecvWr| w@)
}

/// The receive path over the first `n` requests of a list, stopping at the
/// first failure and recording its position.
pub open spec fn spec_post_recv_prefix(
    rq: WorkQueue,
    st0: RecvState,
    wrs: Seq<RecvWrV>,
    n: int,
) -> (RecvState, Result<(), (int, QueueError)>)
    decreases n,
{
    if n <= 0 {
        (st0, Ok(()))
    } else {
        let (st, r) = spec_post_recv_prefix(rq, st0, wrs, n - 1);
        match r {
            Err(e) => (st, Err(e)),
            Ok(_) => {
                let (st2, r2) = spec_post_one_recv(rq, st, wrs[n - 1]);
                match r2 {
                    Ok(_) => (st2, Ok(())),
                    Err(e) => (st2, Err((n - 1, e))),
                }
            },
        }
    }
}

/// Once a prefix has failed, longer prefixes change nothing more.
pub proof fn lemma_post_recv_prefix_stable(
    rq: WorkQueue,
    st0: RecvState,
    wrs: Seq<RecvWrV>,
    n: int,
    m: int,
)
    requires
        0 <= n <= m,
        spec_post_recv_prefix(rq, st0, wrs, n).1 is Err,
    ensures
        spec_post_recv_prefix(rq, st0, wrs, m) == spec_post_recv_prefix(rq, st0, wrs, n),
    decreases m - n,
{
    if m > n {
        lemma_post_recv_prefix_stable(rq, st0, wrs, n, m - 1);
    }
}

/// `spec_post_one_recv` reads only the fixed configuration of the work
/// queue, never its producer-side state.
pub proof fn lemma_post_one_recv_config(rq1: WorkQueue, rq2: WorkQueue, st: RecvState, w: RecvWrV)
    requires
        rq1.max_sge == rq2.max_sge,
        rq1.queue.index_mask == rq2.queue.index_mask,
        rq1.queue.log2_elem_size == rq2.queue.log2_elem_size,
        rq1.queue.consumer_index == rq2.queue.consumer_index,
    ensures
        spec_post_one_recv(rq1, st, w) == spec_post_one_recv(rq2, st, w),
{
    assert(spec_recv_wr_valid(rq1, w) == spec_recv_wr_valid(rq2, w));
    assert(rq1.queue.spec_addr_from_index(st.producer_index) == rq2.queue.spec_addr_from_index(
        st.producer_index,
    ));
}

/// Post a list of receive requests in order, stopping at the first
/// failure; requests committed before the failure stay committed.  A queue
/// pair whose transport is still in its reset state rejects the whole call
/// up front as an invalid argument, reported at position zero.
pub fn rxe_post_recv(qp: &mut QueuePair, wr_list: &Vec<RecvWr>) -> (r: Result<
    (),
    (usize, QueueError),
>)
    requires
        old(qp).wf(),
    ensures
        final(qp).wf(),
        final(qp).qp_type == old(qp).qp_type,
        final(qp).state == old(qp).state,
        final(qp).err == old(qp).err,
        final(qp).cur_index == old(qp).cur_index,
        final(qp).ssn == old(qp).ssn,
        final(qp).sq == old(qp).sq,
        final(qp).rq.max_sge == old(qp).rq.max_sge,
        final(qp).rq.max_inline == old(qp).rq.max_inline,
        final(qp).rq.queue.index_mask == old(qp).rq.queue.index_mask,
        final(qp).rq.queue.log2_elem_size == old(qp).rq.queue.log2_elem_size,
        final(qp).rq.queue.consumer_index == old(qp).rq.queue.consumer_index,
        old(qp).state == QpState::Reset ==> *final(qp) == *old(qp) && r == Err::<
            (),
            (usize, QueueError),
        >((0, QueueError::InvalidArgument)),
        old(qp).state != QpState::Reset ==> ({
            let (stf, rf) = spec_post_recv_prefix(
                old(qp).rq,
                old(qp).rq.recv_state(),
                spec_recv_wr_views(wr_list@),
                wr_list@.len() as int,
            );
            &&& final(qp).rq.queue.producer_index == stf.producer_index
            &&& final(qp).rq.queue.data@ == stf.data
            &&& (rf is Ok ==> r is Ok)
            &&& (rf matches Err((i, e)) ==> 0 <= i < wr_list@.len() && r == Err::<
                (),
                (usize, QueueError),
            >((i as usize, e)))
        }),
{
    if qp.state == QpState::Reset {
        return Err((0, QueueError::InvalidArgument));
    }
    let ghost wrs = spec_recv_wr_views(wr_list@);
    let n = wr_list.len();
    let mut i: usize = 0;
    while i < n
        invariant
            i <= n,
            n == wr_list@.len(),
            wrs == spec_recv_wr_views(wr_list@),
            old(qp).state != QpState::Reset,
            qp.wf(),
            qp.qp_type == old(qp).qp_type,
            qp.state == old(qp).state,
            qp.err == old(qp).err,
            qp.cur_index == old(qp).cur_index,
            qp.ssn == old(qp).ssn,
            qp.sq == old(qp).sq,
            qp.rq.max_sge == old(qp).rq.max_sge,
            qp.rq.max_inline == old(qp).rq.max_inline,
            qp.rq.queue.index_mask == old(qp).rq.queue.index_mask,
            qp.rq.queue.log2_elem_size == old(qp).rq.queue.log2_elem_size,
            qp.rq.queue.consumer_index == old(qp).rq.queue.consumer_index,
            ({
                let (st, r0) = spec_post_recv_prefix(
                    old(qp).rq,
                    old(qp).rq.recv_state(),
                    wrs,
                    i as int,
                );
                &&& r0 is Ok
                &&& qp.rq.queue.producer_index == st.producer_index
                &&& qp.rq.queue.data@ == st.data
            }),
        decreases n - i,
    {
        let ghost rq_before = qp.rq;
        let ghost (st_i, r_i) = spec_post_recv_prefix(
            old(qp).rq,
            old(qp).rq.recv_state(),
            wrs,
            i as int,
        );
        let r = rxe_post_one_recv(&mut qp.rq, &wr_list[i]);
        proof {
            assert(rq_before.recv_state() =~= st_i);
            assert(wrs[i as int] == wr_list@[i as int]@);
            lemma_post_one_recv_config(rq_before, old(qp).rq, st_i, wrs[i as int]);
        }
        match r {
            Ok(()) => {
                i = i + 1;
            },
            Err(e) => {
                proof {
                    lemma_post_recv_prefix_stable(
                        old(qp).rq,
                        old(qp).rq.recv_state(),
                        wrs,
                        i + 1,
                        n as int,
                    );
                }
                return Err((i, e));
            },
        }
    }
    Ok(())
}

} // verus!
