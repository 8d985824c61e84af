//! Completion queue poller: a non-blocking, bounded drain of the
//! kernel-populated completion ring.
//!
//! The completion queue keeps a local read cursor distinct from the ring's
//! raw consumer index, so entries can be read before the reclaim point
//! moves.  The poller copies entries out at the cursor and advances both
//! the cursor and the consumer index; it stops early, without error, the
//! instant the ring reports empty.

use vstd::prelude::*;

use crate::queue::RingBuffer;
use crate::queue::ring_add;
use crate::queue::ring_dist;

verus! {

/// A completion queue: the kernel-filled ring and the local read cursor.
pub struct CompletionQueue {
    pub queue: RingBuffer,
    /// local read cursor, distinct from the ring's consumer index
    pub cur_index: u32,
}

/// `ring_add` by zero steps goes nowhere.
pub proof fn lemma_ring_add_zero(c: u32, m: u32)
    by (bit_vector)
    requires
        c <= m,
        (((m as u64) + 1) as u64) & (m as u64) == 0,
    ensures
        ring_add(c, 0, m) == c,
{
}

/// Successive single steps accumulate.
pub proof fn lemma_ring_add_chain(c: u32, k: u32, m: u32)
    by (bit_vector)
    requires
        k < 0xFFFF_FFFFu32,
        (((m as u64) + 1) as u64) & (m as u64) == 0,
    ensures
        ring_add(ring_add(c, k, m), 1, m) == ring_add(c, (k + 1) as u32, m),
{
}

/// The distance from a position to itself is zero.
pub proof fn lemma_ring_dist_zero(c: u32, m: u32)
    by (bit_vector)
    requires
        (((m as u64) + 1) as u64) & (m as u64) == 0,
    ensures
        ring_dist(c, c, m) == 0,
{
}

/// A read cursor that has not reached the producer index may step forward
/// without leaving the span between the consumer and producer indices.
pub proof fn lemma_cursor_step(cons: u32, cur: u32, p: u32, m: u32)
    by (bit_vector)
    requires
        1 <= m < 0x8000_0000u32,
        (((m as u64) + 1) as u64) & (m as u64) == 0,
        cons <= m,
        cur <= m,
        p <= m,
        ring_dist(cons, cur, m) <= ring_dist(cons, p, m),
        cur != p,
    ensures
        ring_add(cur, 1, m) <= m,
        ring_dist(cons, ring_add(cur, 1, m), m) <= ring_dist(cons, p, m),
{
}

/// One drain step: with the cursor short of the producer index, stepping
/// the cursor shortens its distance to the producer by one, stepping the
/// consumer alongside keeps their spacing, and the cursor stays between
/// the consumer and producer indices.
#[verifier::rlimit(60)]
pub proof fn lemma_poll_step(cons: u32, cur: u32, p: u32, m: u32)
    by (bit_vector)
    requires
        1 <= m < 0x8000_0000u32,
        (((m as u64) + 1) as u64) & (m as u64) == 0,
        cons <= m,
        cur <= m,
        p <= m,
        ring_dist(cons, cur, m) <= ring_dist(cons, p, m),
        cur != p,
    ensures
        ring_dist(cur, p, m) >= 1,
        ring_add(cons, 1, m) <= m,
        ring_add(cur, 1, m) <= m,
        ring_dist(ring_add(cur, 1, m), p, m) == ring_dist(cur, p, m) - 1,
        ring_dist(ring_add(cons, 1, m), ring_add(cur, 1, m), m) == ring_dist(cons, cur, m),
        ring_dist(ring_add(cons, 1, m), ring_add(cur, 1, m), m) <= ring_dist(
            ring_add(cons, 1, m),
            p,
            m,
        ),
{
}

impl CompletionQueue {
    /// Well-formed: the ring itself, and the read cursor inside the span
    /// from the consumer index (the reclaim point) to the producer index —
    /// reading ahead never passes what is published, and an empty ring
    /// (equal indices) forces the cursor onto them.
    pub open spec fn wf(self) -> bool {
        &&& self.queue.wf()
        &&& self.cur_index <= self.queue.index_mask
        &&& ring_dist(self.queue.consumer_index, self.cur_index, self.queue.index_mask)
            <= ring_dist(
            self.queue.consumer_index,
            self.queue.producer_index,
            self.queue.index_mask,
        )
    }

    /// Number of completions published but not yet read past.
    pub open spec fn spec_readable(self) -> u32 {
        ring_dist(self.cur_index, self.queue.producer_index, self.queue.index_mask)
    }

    /// True when the read cursor has caught up with the producer index:
    /// nothing is left to read.  In shared memory the producer index is
    /// read with an acquire load here, so the caller also sees the
    /// contents of every published entry.
    pub fn check_cq_queue_empty(&self) -> (r: bool)
        ensures
            r == (self.cur_index == self.queue.producer_index),
    {
        self.cur_index == self.queue.producer_index
    }

    /// Move the local read cursor one slot forward, past an entry that is
    /// published but not yet read (the cursor has not caught up with the
    /// producer index).
    pub fn advance_cq_cur_index(&mut self)
        requires
            old(self).wf(),
            old(self).cur_index != old(self).queue.producer_index,
        ensures
            final(self).wf(),
            final(self).cur_index == ring_add(
                old(self).cur_index,
                1,
                old(self).queue.index_mask,
            ),
            final(self).queue == old(self).queue,
    {
        proof {
            crate::queue::lemma_next_index(self.cur_index, self.queue.index_mask);
            lemma_cursor_step(
                self.queue.consumer_index,
                self.cur_index,
                self.queue.producer_index,
                self.queue.index_mask,
            );
        }
        self.cur_index = (self.cur_index + 1) & self.queue.index_mask;
    }
}

/// Drain at most `ne` completions into `wc`, copying each entry at the
/// read cursor and advancing both the consumer index and the cursor.
/// Returns how many entries were copied: the smaller of `ne` and the
/// number published and unread, and zero on an empty ring, which mutates
/// neither the producer nor the consumer index.  Never blocks.
pub fn rxe_poll_cq(cq: &mut CompletionQueue, ne: usize, wc: &mut Vec<Vec<u8>>) -> (n: usize)
    requires
        old(cq).wf(),
    ensures
        final(cq).wf(),
        n == if ne <= old(cq).spec_readable() {
            ne as int
        } else {
            old(cq).spec_readable() as int
        },
        final(cq).queue.index_mask == old(cq).queue.index_mask,
        final(cq).queue.log2_elem_size == old(cq).queue.log2_elem_size,
        final(cq).queue.data == old(cq).queue.data,
        final(cq).queue.producer_index == old(cq).queue.producer_index,
        final(cq).queue.consumer_index == ring_add(
            old(cq).queue.consumer_index,
            n as u32,
            old(cq).queue.index_mask,
        ),
        final(cq).cur_index == ring_add(old(cq).cur_index, n as u32, old(cq).queue.index_mask),
        final(wc)@.len() == old(wc)@.len() + n,
        final(wc)@.subrange(0, old(wc)@.len() as int) == old(wc)@,
        forall|t: int|
            0 <= t < n ==> #[trigger] final(wc)@[old(wc)@.len() + t]@
                == old(cq).queue.spec_slot_bytes(
                ring_add(old(cq).cur_index, t as u32, old(cq).queue.index_mask),
            ),
{
    let ghost m = cq.queue.index_mask;
    let ghost cur0 = cq.cur_index;
    let ghost cons0 = cq.queue.consumer_index;
    let ghost dist0 = cq.spec_readable();
    proof {
        lemma_ring_add_zero(cur0, m);
        lemma_ring_add_zero(cons0, m);
        assert(wc@.subrange(0, wc@.len() as int) =~= wc@);
    }
    let mut npolled: usize = 0;
    while npolled < ne && !cq.check_cq_queue_empty()
        invariant
            cq.wf(),
            npolled <= ne,
            npolled <= dist0,
            m == cq.queue.index_mask,
            cq.queue.index_mask == old(cq).queue.index_mask,
            cq.queue.log2_elem_size == old(cq).queue.log2_elem_size,
            cq.queue.data == old(cq).queue.data,
            cq.queue.producer_index == old(cq).queue.producer_index,
            cur0 == old(cq).cur_index,
            cons0 == old(cq).queue.consumer_index,
            dist0 == old(cq).spec_readable(),
            cq.cur_index == ring_add(cur0, npolled as u32, m),
            cq.queue.consumer_index == ring_add(cons0, npolled as u32, m),
            ring_dist(cq.cur_index, cq.queue.producer_index, m) == dist0 - npolled,
            wc@.len() == old(wc)@.len() + npolled,
            wc@.subrange(0, old(wc)@.len() as int) == old(wc)@,
            forall|t: int|
                0 <= t < npolled ==> #[trigger] wc@[old(wc)@.len() + t]@
                    == old(cq).queue.spec_slot_bytes(ring_add(cur0, t as u32, m)),
        decreases ne - npolled,
    {
        proof {
            lemma_poll_step(
                cq.queue.consumer_index,
                cq.cur_index,
                cq.queue.producer_index,
                m,
            );
            lemma_ring_add_chain(cur0, npolled as u32, m);
            lemma_ring_add_chain(cons0, npolled as u32, m);
        }
        let entry = cq.queue.read_slot(cq.cur_index);
        wc.push(entry);
        cq.advance_cq_cur_index();
        cq.queue.advance_consumer();
        npolled = npolled + 1;
        proof {
            assert(wc@.subrange(0, old(wc)@.len() as int) =~= old(wc)@);
        }
    }
    proof {
        if npolled < ne {
            lemma_ring_dist_zero(cq.cur_index, m);
        }
    }
    npolled
}

} // verus!
