//! Single-producer/single-consumer circular buffer over a flat byte array.
//!
//! One slot is always kept unused so that an empty ring (`producer ==
//! consumer`) can be told apart from a full one (`(producer + 1) & mask ==
//! consumer`).  Exactly one execution context ever advances the producer
//! index and exactly one ever advances the consumer index.  When the ring is
//! placed in memory shared with the kernel peer, the producer must publish
//! the new producer index with a release store after filling the slot, and a
//! reader that wants to see slot contents must first load the producer index
//! with an acquire load; the consumer index is released and acquired
//! symmetrically.  This module captures the index arithmetic and the slot
//! contents; the store/load functions below are the points where those
//! ordered accesses happen.

use vstd::prelude::*;

verus! {

/// Successor of index `i`, `d` steps forward, in a ring whose capacity is
/// `mask + 1` (a power of two).
pub open spec fn ring_add(i: u32, d: u32, mask: u32) -> u32 {
    ((((i as u64) + (d as u64)) as u64) & (mask as u64)) as u32
}

/// Number of slots from `from` (inclusive) to `to` (exclusive), walking
/// forward around the ring.
pub open spec fn ring_dist(from: u32, to: u32, mask: u32) -> u32 {
    ((((to as u64) + (mask as u64) + 1 - (from as u64)) as u64) & (mask as u64)) as u32
}

/// Fixed-capacity circular buffer: a header (element-size exponent, index
/// mask, the two indices) followed by the element array.  In the external
/// binary layout the two indices live in their own padded regions; here they
/// are plain fields and the byte array is owned.
pub struct RingBuffer {
    /// log2 of the element size in bytes
    pub log2_elem_size: u32,
    /// capacity - 1; the capacity is a power of two
    pub index_mask: u32,
    /// publication cursor, advanced only by the producing context
    pub producer_index: u32,
    /// reclaim cursor, advanced only by the consuming context
    pub consumer_index: u32,
    /// the element array
    pub data: Vec<u8>,
}

impl RingBuffer {
    /// Size of one element in bytes.
    pub open spec fn elem_size(self) -> u64 {
        1u64 << (self.log2_elem_size as u64)
    }

    /// Total size of the element array in bytes.
    pub open spec fn data_size(self) -> u64 {
        (((self.index_mask as u64) + 1) as u64) << (self.log2_elem_size as u64)
    }

    /// Well-formedness: power-of-two capacity of at least two, both indices
    /// in range, and the byte array exactly `capacity * elem_size` long.
    pub open spec fn wf(self) -> bool {
        &&& self.log2_elem_size < 32
        &&& 1 <= self.index_mask < 0x8000_0000u32
        &&& (((self.index_mask as u64) + 1) as u64) & (self.index_mask as u64) == 0
        &&& self.producer_index <= self.index_mask
        &&& self.consumer_index <= self.index_mask
        &&& self.data.len() == self.data_size()
        &&& self.data_size() <= 0xFFFF_FFFFu64
    }

    pub open spec fn spec_empty(self) -> bool {
        self.producer_index == self.consumer_index
    }

    pub open spec fn spec_full(self) -> bool {
        ring_add(self.producer_index, 1, self.index_mask) == self.consumer_index
    }

    /// Byte offset of the slot that `index` designates.
    pub open spec fn spec_addr_from_index(self, index: u32) -> u64 {
        (((index as u64) & (self.index_mask as u64)) as u64) << (self.log2_elem_size as u64)
    }

    /// Slot index designated by byte offset `addr`.
    pub open spec fn spec_index_from_addr(self, addr: u64) -> u32 {
        ((addr >> (self.log2_elem_size as u64)) & (self.index_mask as u64)) as u32
    }

    /// The bytes of the slot that `index` designates.
    pub open spec fn spec_slot_bytes(self, index: u32) -> Seq<u8> {
        self.data@.subrange(
            self.spec_addr_from_index(index) as int,
            self.spec_addr_from_index(index) + self.elem_size(),
        )
    }

    /// Allocate a zero-filled, empty ring.  Returns `None` unless the mask
    /// is `2^k - 1` for some `k >= 1` and the element array fits the
    /// 32-bit offset space.
    pub fn new(log2_elem_size: u32, index_mask: u32) -> (r: Option<RingBuffer>)
        ensures
            r is Some <==> ({
                &&& log2_elem_size < 32
                &&& 1 <= index_mask < 0x8000_0000u32
                &&& (((index_mask as u64) + 1) as u64) & (index_mask as u64) == 0
                &&& (((index_mask as u64) + 1) as u64) << (log2_elem_size as u64)
                    <= 0xFFFF_FFFFu64
            }),
            r matches Some(q) ==> {
                &&& q.wf()
                &&& q.log2_elem_size == log2_elem_size
                &&& q.index_mask == index_mask
                &&& q.producer_index == 0
                &&& q.consumer_index == 0
                &&& q.spec_empty()
                &&& q.data@ == Seq::new(q.data_size() as nat, |i: int| 0u8)
            },
    {
        if log2_elem_size >= 32 {
            return None;
        }
        if index_mask < 1 || index_mask >= 0x8000_0000 {
            return None;
        }
        if ((index_mask as u64) + 1) & (index_mask as u64) != 0 {
            return None;
        }
        let size: u64 = ((index_mask as u64) + 1) << log2_elem_size;
        if size > 0xFFFF_FFFF {
            return None;
        }
        let n = size as usize;
        let mut data: Vec<u8> = Vec::new();
        let mut i: usize = 0;
        while i < n
            invariant
                i <= n,
                data@.len() == i,
                forall|t: int| 0 <= t < i ==> data@[t] == 0u8,
            decreases n - i,
        {
            data.push(0);
            i = i + 1;
        }
        let q = RingBuffer {
            log2_elem_size,
            index_mask,
            producer_index: 0,
            consumer_index: 0,
            data,
        };
        proof {
            assert(q.data@ =~= Seq::new(q.data_size() as nat, |i: int| 0u8));
        }
        Some(q)
    }

    /// True when the ring holds no entries.  In shared memory the producing
    /// side's index is read with an acquire load here, so that the caller
    /// also sees the contents of every published slot.
    pub fn queue_empty(&self) -> (r: bool)
        ensures
            r == self.spec_empty(),
    {
        self.producer_index == self.consumer_index
    }

    /// True when posting one more entry would make the producer index catch
    /// up with the consumer index; the slot at the producer index itself is
    /// the one deliberately kept unused.  In shared memory the consumer
    /// index is read with an acquire load here.
    pub fn queue_full(&self) -> (r: bool)
        requires
            self.wf(),
        ensures
            r == self.spec_full(),
    {
        proof {
            lemma_next_index(self.producer_index, self.index_mask);
        }
        ((self.producer_index + 1) & self.index_mask) == self.consumer_index
    }

    /// Move the publication cursor one slot forward.  In shared memory this
    /// is the release store that publishes the slot contents written before
    /// the call.
    pub fn advance_producer(&mut self)
        requires
            old(self).wf(),
        ensures
            final(self).wf(),
            final(self).producer_index == ring_add(old(self).producer_index, 1, old(self).index_mask),
            final(self).consumer_index == old(self).consumer_index,
            final(self).log2_elem_size == old(self).log2_elem_size,
            final(self).index_mask == old(self).index_mask,
            final(self).data == old(self).data,
    {
        proof {
            lemma_next_index(self.producer_index, self.index_mask);
            lemma_masked_in_range(((self.producer_index + 1) as u32), self.index_mask);
        }
        self.producer_index = (self.producer_index + 1) & self.index_mask;
    }

    /// Move the reclaim cursor one slot forward, releasing that slot for
    /// reuse by the producing context.  In shared memory this is a release
    /// store, issued only after the caller has finished reading the slot.
    pub fn advance_consumer(&mut self)
        requires
            old(self).wf(),
        ensures
            final(self).wf(),
            final(self).consumer_index == ring_add(old(self).consumer_index, 1, old(self).index_mask),
            final(self).producer_index == old(self).producer_index,
            final(self).log2_elem_size == old(self).log2_elem_size,
            final(self).index_mask == old(self).index_mask,
            final(self).data == old(self).data,
    {
        proof {
            lemma_next_index(self.consumer_index, self.index_mask);
            lemma_masked_in_range(((self.consumer_index + 1) as u32), self.index_mask);
        }
        self.consumer_index = (self.consumer_index + 1) & self.index_mask;
    }

    /// Read one's own already-published producer index (relaxed in shared
    /// memory: the producing side is its only writer).
    pub fn load_producer_index(&self) -> (r: u32)
        ensures
            r == self.producer_index,
    {
        self.producer_index
    }

    /// Overwrite the producer index (release store in shared memory).
    pub fn store_producer_index(&mut self, index: u32)
        requires
            index <= old(self).index_mask,
        ensures
            final(self).producer_index == index,
            final(self).consumer_index == old(self).consumer_index,
            final(self).log2_elem_size == old(self).log2_elem_size,
            final(self).index_mask == old(self).index_mask,
            final(self).data == old(self).data,
            old(self).wf() ==> final(self).wf(),
    {
        self.producer_index = index;
    }

    /// Read one's own already-published consumer index (relaxed in shared
    /// memory: the consuming side is its only writer).
    pub fn load_consumer_index(&self) -> (r: u32)
        ensures
            r == self.consumer_index,
    {
        self.consumer_index
    }

    /// Overwrite the consumer index (release store in shared memory).
    pub fn store_consumer_index(&mut self, index: u32)
        requires
            index <= old(self).index_mask,
        ensures
            final(self).consumer_index == index,
            final(self).producer_index == old(self).producer_index,
            final(self).log2_elem_size == old(self).log2_elem_size,
            final(self).index_mask == old(self).index_mask,
            final(self).data == old(self).data,
            old(self).wf() ==> final(self).wf(),
    {
        self.consumer_index = index;
    }

    /// Byte offset of the slot `index` designates; any index is first
    /// reduced modulo the capacity by the mask.
    pub fn addr_from_index(&self, index: u32) -> (addr: usize)
        requires
            self.wf(),
        ensures
            addr == self.spec_addr_from_index(index),
            addr + self.elem_size() <= self.data.len(),
    {
        let masked = index & self.index_mask;
        let off: u64 = (masked as u64) << self.log2_elem_size;
        proof {
            lemma_slot_in_bounds(self.index_mask, self.log2_elem_size, index);
        }
        off as usize
    }

    /// Byte offset of the slot the producer index designates.
    pub fn producer_addr(&self) -> (addr: usize)
        requires
            self.wf(),
        ensures
            addr == self.spec_addr_from_index(self.producer_index),
            addr + self.elem_size() <= self.data.len(),
    {
        self.addr_from_index(self.producer_index)
    }

    /// Byte offset of the slot the consumer index designates.
    pub fn consumer_addr(&self) -> (addr: usize)
        requires
            self.wf(),
        ensures
            addr == self.spec_addr_from_index(self.consumer_index),
            addr + self.elem_size() <= self.data.len(),
    {
        self.addr_from_index(self.consumer_index)
    }

    /// Slot index that byte offset `addr` falls in.
    pub fn index_from_addr(&self, addr: usize) -> (r: u32)
        requires
            self.wf(),
            addr < self.data.len(),
        ensures
            r == self.spec_index_from_addr(addr as u64),
            r <= self.index_mask,
    {
        let a: u64 = addr as u64;
        let r: u64 = (a >> self.log2_elem_size) & (self.index_mask as u64);
        proof {
            let k = self.log2_elem_size;
            let m = self.index_mask;
            assert(((a >> (k as u64)) & (m as u64)) <= (m as u64)) by (bit_vector);
        }
        r as u32
    }

    /// Copy `bytes` into the front of the slot `index` designates, leaving
    /// the rest of that slot and all other slots untouched.
    pub fn write_slot(&mut self, index: u32, bytes: &Vec<u8>)
        requires
            old(self).wf(),
            bytes@.len() <= old(self).elem_size(),
        ensures
            final(self).wf(),
            final(self).log2_elem_size == old(self).log2_elem_size,
            final(self).index_mask == old(self).index_mask,
            final(self).producer_index == old(self).producer_index,
            final(self).consumer_index == old(self).consumer_index,
            final(self).data@ == splice(
                old(self).data@,
                old(self).spec_addr_from_index(index) as int,
                bytes@,
            ),
    {
        let off = self.addr_from_index(index);
        let n = bytes.len();
        let ghost orig = self.data@;
        let mut j: usize = 0;
        while j < n
            invariant
                j <= n,
                n == bytes@.len(),
                n <= self.elem_size(),
                off == self.spec_addr_from_index(index),
                off + self.elem_size() <= self.data.len(),
                self.data@.len() == orig.len(),
                self.log2_elem_size == old(self).log2_elem_size,
                self.index_mask == old(self).index_mask,
                self.producer_index == old(self).producer_index,
                self.consumer_index == old(self).consumer_index,
                self.data@.len() == old(self).data@.len(),
                orig == old(self).data@,
                forall|t: int| 0 <= t < j ==> self.data@[off + t] == bytes@[t],
                forall|t: int| 0 <= t < orig.len() && !(off <= t < off + j) ==> self.data@[t] == orig[t],
            decreases n - j,
        {
            self.data[off + j] = bytes[j];
            j += 1;
        }
        proof {
            assert(self.data@ =~= splice(orig, off as int, bytes@));
        }
    }

    /// Copy of the whole slot `index` designates.
    pub fn read_slot(&self, index: u32) -> (out: Vec<u8>)
        requires
            self.wf(),
        ensures
            out@ == self.spec_slot_bytes(index),
    {
        let off = self.addr_from_index(index);
        proof {
            let k = self.log2_elem_size;
            assert((1u64 << (k as u64)) <= 0x8000_0000u64 && (1u64 << (k as u64)) >= 1u64)
                by (bit_vector)
                requires
                    k < 32,
            ;
        }
        let n: usize = (1u64 << self.log2_elem_size) as usize;
        let mut out: Vec<u8> = Vec::new();
        let mut j: usize = 0;
        while j < n
            invariant
                j <= n,
                n == self.elem_size(),
                off == self.spec_addr_from_index(index),
                off + n <= self.data.len(),
                out@ == self.data@.subrange(off as int, off + j),
            decreases n - j,
        {
            out.push(self.data[off + j]);
            proof {
                assert(out@ =~= self.data@.subrange(off as int, off + j + 1));
            }
            j += 1;
        }
        out
    }
}

/// `s` with `b` written over its bytes starting at offset `off`.
pub open spec fn splice(s: Seq<u8>, off: int, b: Seq<u8>) -> Seq<u8> {
    s.subrange(0, off) + b + s.subrange(off + b.len(), s.len() as int)
}

/// The successor index computed in 32-bit arithmetic agrees with `ring_add`.
pub proof fn lemma_next_index(p: u32, m: u32)
    by (bit_vector)
    requires
        p < 0xFFFF_FFFFu32,
    ensures
        (((p + 1) as u32) & m) == ring_add(p, 1, m),
{
}

/// A masked value never exceeds the mask.
pub proof fn lemma_masked_in_range(x: u32, m: u32)
    by (bit_vector)
    ensures
        (x & m) <= m,
{
}

/// Slot offsets stay inside the element array.
pub proof fn lemma_slot_in_bounds(m: u32, k: u32, i: u32)
    by (bit_vector)
    requires
        k < 32,
        1 <= m < 0x8000_0000u32,
        (((m as u64) + 1) as u64) & (m as u64) == 0,
    ensures
        ((i as u64) & (m as u64)) <= (m as u64),
        ((((i as u64) & (m as u64)) as u64) << (k as u64)) + (1u64 << (k as u64))
            <= ((((m as u64) + 1) as u64) << (k as u64)),
        i <= m ==> ((i as u64) & (m as u64)) == (i as u64),
{
}

/// Slot addressing is invertible: for every valid index, the index read
/// back from that slot's byte offset is the index itself.
pub proof fn lemma_index_addr_roundtrip(q: RingBuffer, i: u32)
    requires
        q.wf(),
        i <= q.index_mask,
    ensures
        q.spec_index_from_addr(q.spec_addr_from_index(i)) == i,
{
    let m = q.index_mask;
    let k = q.log2_elem_size;
    assert(((((((i as u64) & (m as u64)) as u64) << (k as u64)) >> (k as u64)) & (m as u64)) as u32
        == i) by (bit_vector)
        requires
            k < 32,
            i <= m,
            1 <= m < 0x8000_0000u32,
            (((m as u64) + 1) as u64) & (m as u64) == 0,
    ;
}

/// A ring is never simultaneously empty and full: with at least two slots,
/// advancing the producer by one never lands back on the producer index.
pub proof fn lemma_empty_full_disjoint(q: RingBuffer)
    requires
        q.wf(),
    ensures
        !(q.spec_empty() && q.spec_full()),
{
    let p = q.producer_index;
    let m = q.index_mask;
    assert(ring_add(p, 1, m) != p) by (bit_vector)
        requires
            p <= m,
            1 <= m < 0x8000_0000u32,
            (((m as u64) + 1) as u64) & (m as u64) == 0,
    ;
}

/// Slot contents written before the producer index is advanced are exactly
/// what a reader positioned at the written slot sees afterwards: `w` is `q`
/// with `bytes` written at the producer slot and the producer index then
/// advanced; read through the consumer index of `w` (which, `q` being
/// empty, designates the written slot), the slot starts with `bytes`.
pub proof fn lemma_slot_write_then_publish(q: RingBuffer, w: RingBuffer, bytes: Seq<u8>)
    requires
        q.wf(),
        q.spec_empty(),
        bytes.len() <= q.elem_size(),
        w.log2_elem_size == q.log2_elem_size,
        w.index_mask == q.index_mask,
        w.consumer_index == q.consumer_index,
        w.producer_index == ring_add(q.producer_index, 1, q.index_mask),
        w.data@ == splice(q.data@, q.spec_addr_from_index(q.producer_index) as int, bytes),
    ensures
        w.spec_slot_bytes(w.consumer_index).subrange(0, bytes.len() as int) == bytes,
{
    lemma_slot_in_bounds(q.index_mask, q.log2_elem_size, q.producer_index);
    assert(w.spec_addr_from_index(w.consumer_index) == q.spec_addr_from_index(q.producer_index));
    assert(w.spec_slot_bytes(w.consumer_index).subrange(0, bytes.len() as int) =~= bytes);
}

} // verus!
