use librxe::queue::RingBuffer;

fn new_ring(log2_elem_size: u32, index_mask: u32) -> RingBuffer {
    let len = ((index_mask as usize) + 1) << log2_elem_size;
    RingBuffer {
        log2_elem_size,
        index_mask,
        producer_index: 0,
        consumer_index: 0,
        data: vec![0u8; len],
    }
}

#[test]
fn check_queue_empty() {
    let mut q = new_ring(0xA, 0xFFFF);
    q.store_consumer_index(0xFFFF);
    q.store_producer_index(0xFFFF);
    assert!(q.queue_empty());
}

#[test]
fn check_producer_addr() {
    let mut q = new_ring(0xA, 0xFFFF);
    q.store_producer_index(0xCCCC);
    assert_eq!(q.producer_addr(), (0xCCCCusize) << 0xA);
}

#[test]
fn check_advance_producer() {
    let mut q = new_ring(0xA, 0xFFFF);
    q.store_producer_index(0xCCCC);
    q.advance_producer();
    assert_eq!(q.load_producer_index(), 0xCCCC + 1);
}

#[test]
fn constructor_checks_its_parameters() {
    let q = RingBuffer::new(4, 0x3).unwrap();
    assert!(q.queue_empty());
    assert_eq!(q.data.len(), 4 << 4);
    assert!(q.data.iter().all(|b| *b == 0));
    // a mask that is not one less than a power of two is refused
    assert!(RingBuffer::new(4, 0x5).is_none());
    // a zero mask (capacity one) is refused
    assert!(RingBuffer::new(4, 0x0).is_none());
    // an element array past the 32-bit offset space is refused
    assert!(RingBuffer::new(31, 0x3).is_none());
}

#[test]
fn advance_producer_wraps_at_mask() {
    let mut q = new_ring(4, 0x7);
    q.store_producer_index(0x7);
    q.advance_producer();
    assert_eq!(q.load_producer_index(), 0);
}

#[test]
fn empty_and_full_never_together() {
    let mut q = new_ring(4, 0x3);
    // empty: producer == consumer
    assert!(q.queue_empty());
    assert!(!q.queue_full());
    // fill all three usable slots
    q.advance_producer();
    q.advance_producer();
    q.advance_producer();
    assert!(q.queue_full());
    assert!(!q.queue_empty());
}

#[test]
fn full_formula_matches_indices() {
    let mut q = new_ring(4, 0x3);
    q.store_producer_index(2);
    q.store_consumer_index(3);
    // (2 + 1) & 3 == 3 == consumer
    assert!(q.queue_full());
    q.store_consumer_index(0);
    assert!(!q.queue_full());
}

#[test]
fn index_address_round_trip() {
    let q = new_ring(6, 0xF);
    for i in 0..=0xFu32 {
        let addr = q.addr_from_index(i);
        assert_eq!(q.index_from_addr(addr), i);
    }
}

#[test]
fn slot_bytes_survive_publish() {
    let mut q = new_ring(4, 0x3);
    let bytes: Vec<u8> = vec![0xDE, 0xAD, 0xBE, 0xEF, 0x01];
    let slot = q.load_producer_index();
    q.write_slot(slot, &bytes);
    q.advance_producer();
    // the ring was empty, so the consumer index designates the written slot
    let read = q.read_slot(q.load_consumer_index());
    assert_eq!(&read[..bytes.len()], &bytes[..]);
}

#[test]
fn write_slot_leaves_other_slots_alone() {
    let mut q = new_ring(4, 0x3);
    let ones: Vec<u8> = vec![1u8; 16];
    q.write_slot(2, &ones);
    let untouched = q.read_slot(1);
    assert!(untouched.iter().all(|b| *b == 0));
    assert_eq!(q.read_slot(2), ones);
}
