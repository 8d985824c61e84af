use librxe::cq::CompletionQueue;
use librxe::cq::rxe_poll_cq;
use librxe::queue::RingBuffer;

fn new_cq(log2_elem_size: u32, index_mask: u32) -> CompletionQueue {
    let len = ((index_mask as usize) + 1) << log2_elem_size;
    CompletionQueue {
        queue: RingBuffer {
            log2_elem_size,
            index_mask,
            producer_index: 0,
            consumer_index: 0,
            data: vec![0u8; len],
        },
        cur_index: 0,
    }
}

/// Stand in for the kernel peer: write an entry at the producer slot and
/// publish it.
fn publish(cq: &mut CompletionQueue, fill: u8) {
    let slot = cq.queue.load_producer_index();
    let entry = vec![fill; 1 << cq.queue.log2_elem_size];
    cq.queue.write_slot(slot, &entry);
    cq.queue.advance_producer();
}

#[test]
fn empty_ring_polls_zero_and_mutates_nothing() {
    let mut cq = new_cq(4, 0x3);
    let mut wc: Vec<Vec<u8>> = Vec::new();
    let n = rxe_poll_cq(&mut cq, 8, &mut wc);
    assert_eq!(n, 0);
    assert_eq!(cq.queue.load_producer_index(), 0);
    assert_eq!(cq.queue.load_consumer_index(), 0);
    assert_eq!(cq.cur_index, 0);
    assert!(wc.is_empty());
}

#[test]
fn poll_copies_entries_in_order_and_advances_both_cursors() {
    let mut cq = new_cq(4, 0x3);
    publish(&mut cq, 0x11);
    publish(&mut cq, 0x22);
    publish(&mut cq, 0x33);
    let mut wc: Vec<Vec<u8>> = Vec::new();
    let n = rxe_poll_cq(&mut cq, 2, &mut wc);
    assert_eq!(n, 2);
    assert_eq!(wc.len(), 2);
    assert!(wc[0].iter().all(|b| *b == 0x11));
    assert!(wc[1].iter().all(|b| *b == 0x22));
    assert_eq!(cq.queue.load_consumer_index(), 2);
    assert_eq!(cq.cur_index, 2);
    // the third entry is still there
    let n2 = rxe_poll_cq(&mut cq, 8, &mut wc);
    assert_eq!(n2, 1);
    assert!(wc[2].iter().all(|b| *b == 0x33));
    assert_eq!(cq.queue.load_consumer_index(), 3);
}

#[test]
fn poll_stops_at_published_count() {
    let mut cq = new_cq(4, 0x3);
    publish(&mut cq, 0x44);
    let mut wc: Vec<Vec<u8>> = Vec::new();
    assert_eq!(rxe_poll_cq(&mut cq, 100, &mut wc), 1);
    assert_eq!(wc.len(), 1);
}

#[test]
fn cursor_helpers_track_the_producer() {
    let mut cq = new_cq(4, 0x3);
    assert!(cq.check_cq_queue_empty());
    publish(&mut cq, 0x55);
    assert!(!cq.check_cq_queue_empty());
    cq.advance_cq_cur_index();
    assert!(cq.check_cq_queue_empty());
    assert_eq!(cq.cur_index, 1);
}
