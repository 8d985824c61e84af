//! Queue pair and work queue state.
//!
//! A queue pair owns one send queue and one receive queue, each wrapping a
//! ring buffer, a monotonically increasing sequence counter, a local cursor
//! into the send ring, and a sticky fatal-error code that, once set, is
//! returned for every subsequent operation until externally reset.

use vstd::prelude::*;

use crate::queue::RingBuffer;
use crate::queue::ring_add;
use crate::wr::QpState;
use crate::wr::QpType;

verus! {

/// Error code latched by `check_qp_queue_full` when the send ring is full.
pub const ENOSPC: i32 = 28;

/// Fixed byte overhead of an encoded send queue entry: everything up to
/// the trailing inline payload or scatter-gather descriptor array,
/// including the fixed-size opcode-specific payload region.
pub const SEND_WQE_OVERHEAD: u64 = 144;

/// Fixed byte overhead of an encoded receive queue entry: everything except
/// the trailing scatter-gather descriptor array.
pub const RECV_WQE_OVERHEAD: u64 = 40;

/// Encoded size of one scatter-gather descriptor.
pub const SGE_BYTES: u64 = 16;

/// A work queue: the ring plus the validation limits fixed at creation.
pub struct WorkQueue {
    pub queue: RingBuffer,
    /// largest accepted scatter-gather list
    pub max_sge: u32,
    /// largest accepted inline payload, in bytes
    pub max_inline: u32,
}

impl WorkQueue {
    /// Every entry a send queue accepts must fit in one ring element.
    pub open spec fn sq_wf(self) -> bool {
        &&& self.queue.wf()
        &&& self.queue.elem_size() >= SEND_WQE_OVERHEAD + (if SGE_BYTES * self.max_sge
            > self.max_inline as u64 {
            (SGE_BYTES * self.max_sge) as int
        } else {
            self.max_inline as int
        })
    }

    /// Every entry a receive queue accepts must fit in one ring element.
    pub open spec fn rq_wf(self) -> bool {
        &&& self.queue.wf()
        &&& self.queue.elem_size() >= RECV_WQE_OVERHEAD + SGE_BYTES * self.max_sge
    }
}

/// One connection endpoint: a send queue, a receive queue, the sequence
/// counter stamped into outgoing entries, a local send-ring cursor, and the
/// sticky fatal-error code (zero when healthy).
pub struct QueuePair {
    pub qp_type: QpType,
    pub state: QpState,
    pub sq: WorkQueue,
    pub rq: WorkQueue,
    pub ssn: u32,
    pub cur_index: u32,
    pub err: i32,
}

impl QueuePair {
    pub open spec fn wf(self) -> bool {
        &&& self.sq.sq_wf()
        &&& self.rq.rq_wf()
        &&& self.cur_index <= self.sq.queue.index_mask
    }

    /// Move the local send-ring cursor one slot forward.
    pub fn advance_qp_cur_index(&mut self)
        requires
            old(self).wf(),
        ensures
            final(self).wf(),
            final(self).cur_index == ring_add(
                old(self).cur_index,
                1,
                old(self).sq.queue.index_mask,
            ),
            final(self).qp_type == old(self).qp_type,
            final(self).state == old(self).state,
            final(self).sq == old(self).sq,
            final(self).rq == old(self).rq,
            final(self).ssn == old(self).ssn,
            final(self).err == old(self).err,
    {
        proof {
            crate::queue::lemma_next_index(self.cur_index, self.sq.queue.index_mask);
            crate::queue::lemma_masked_in_range(
                ((self.cur_index + 1) as u32),
                self.sq.queue.index_mask,
            );
        }
        self.cur_index = (self.cur_index + 1) & self.sq.queue.index_mask;
    }

    /// Report the sticky error code, first latching `ENOSPC` if advancing
    /// the local cursor by one would catch up with the consumer index of
    /// the send ring (read with an acquire load in shared memory).  Returns
    /// zero exactly when the queue pair is healthy and that ring position
    /// is free.
    pub fn check_qp_queue_full(&mut self) -> (r: i32)
        requires
            old(self).wf(),
        ensures
            final(self).wf(),
            r == final(self).err,
            old(self).err != 0 ==> *final(self) == *old(self) && r == old(self).err,
            old(self).err == 0 && ring_add(old(self).cur_index, 1, old(self).sq.queue.index_mask)
                == old(self).sq.queue.consumer_index ==> r == ENOSPC && final(self).err == ENOSPC,
            old(self).err == 0 && ring_add(old(self).cur_index, 1, old(self).sq.queue.index_mask)
                != old(self).sq.queue.consumer_index ==> *final(self) == *old(self) && r == 0,
            final(self).qp_type == old(self).qp_type,
            final(self).state == old(self).state,
            final(self).sq == old(self).sq,
            final(self).rq == old(self).rq,
            final(self).ssn == old(self).ssn,
            final(self).cur_index == old(self).cur_index,
    {
        let cons = self.sq.queue.load_consumer_index();
        if self.err != 0 {
            return self.err;
        }
        proof {
            crate::queue::lemma_next_index(self.cur_index, self.sq.queue.index_mask);
        }
        if cons == ((self.cur_index + 1) & self.sq.queue.index_mask) {
            self.err = ENOSPC;
        }
        self.err
    }
}

} // verus!
