use librxe::qp::QueuePair;
use librxe::qp::WorkQueue;
use librxe::queue::RingBuffer;
use librxe::recv::rxe_post_recv;
use librxe::wr::QpState;
use librxe::wr::QpType;
use librxe::wr::QueueError;
use librxe::wr::RecvWr;
use librxe::wr::Sge;

fn new_ring(log2_elem_size: u32, index_mask: u32) -> RingBuffer {
    let len = ((index_mask as usize) + 1) << log2_elem_size;
    RingBuffer {
        log2_elem_size,
        index_mask,
        producer_index: 0,
        consumer_index: 0,
        data: vec![0u8; len],
    }
}

fn new_qp(index_mask: u32) -> QueuePair {
    QueuePair {
        qp_type: QpType::Rc,
        state: QpState::ReadyToReceive,
        sq: WorkQueue { queue: new_ring(8, index_mask), max_sge: 4, max_inline: 64 },
        rq: WorkQueue { queue: new_ring(8, index_mask), max_sge: 4, max_inline: 0 },
        ssn: 0,
        cur_index: 0,
        err: 0,
    }
}

fn recv(wr_id: u64, num_sge: usize) -> RecvWr {
    RecvWr {
        wr_id,
        sg_list: vec![Sge { addr: 0x40, length: 16, lkey: 9 }; num_sge],
    }
}

#[test]
fn first_commits_second_over_limit_stops_list() {
    let mut qp = new_qp(0x3);
    let wrs = vec![recv(1, 1), recv(2, 5), recv(3, 1)];
    assert_eq!(
        rxe_post_recv(&mut qp, &wrs),
        Err((1, QueueError::InvalidArgument))
    );
    // the first request committed; no later request was attempted
    assert_eq!(qp.rq.queue.load_producer_index(), 1);
}

#[test]
fn reset_state_rejects_whole_call() {
    let mut qp = new_qp(0x3);
    qp.state = QpState::Reset;
    assert_eq!(
        rxe_post_recv(&mut qp, &vec![recv(1, 1)]),
        Err((0, QueueError::InvalidArgument))
    );
    assert_eq!(qp.rq.queue.load_producer_index(), 0);
}

#[test]
fn full_receive_ring_out_of_resources() {
    let mut qp = new_qp(0x1);
    // capacity 2: one usable slot
    assert_eq!(rxe_post_recv(&mut qp, &vec![recv(1, 1)]), Ok(()));
    assert_eq!(
        rxe_post_recv(&mut qp, &vec![recv(2, 1)]),
        Err((0, QueueError::OutOfResources))
    );
    assert_eq!(qp.rq.queue.load_producer_index(), 1);
}

#[test]
fn receive_entry_layout() {
    let mut qp = new_qp(0x3);
    assert_eq!(rxe_post_recv(&mut qp, &vec![recv(0x0A0B0C0D, 2)]), Ok(()));
    let slot = qp.rq.queue.read_slot(0);
    let mut expected: Vec<u8> = Vec::new();
    expected.extend_from_slice(&[0x0D, 0x0C, 0x0B, 0x0A, 0, 0, 0, 0]); // wr_id
    expected.extend_from_slice(&[2, 0, 0, 0]); // num_sge
    expected.extend_from_slice(&[0, 0, 0, 0]); // padding
    expected.extend_from_slice(&[32, 0, 0, 0]); // dma.length: two 16-byte entries
    expected.extend_from_slice(&[32, 0, 0, 0]); // dma.resid
    expected.extend_from_slice(&[0, 0, 0, 0]); // dma.cur_sge
    expected.extend_from_slice(&[2, 0, 0, 0]); // dma.num_sge
    expected.extend_from_slice(&[0, 0, 0, 0]); // dma.sge_offset
    expected.extend_from_slice(&[0, 0, 0, 0]); // reserved
    expected.extend_from_slice(&[0x40, 0, 0, 0, 0, 0, 0, 0]); // sge.addr
    expected.extend_from_slice(&[16, 0, 0, 0]); // sge.length
    expected.extend_from_slice(&[9, 0, 0, 0]); // sge.lkey
    expected.extend_from_slice(&[0x40, 0, 0, 0, 0, 0, 0, 0]);
    expected.extend_from_slice(&[16, 0, 0, 0]);
    expected.extend_from_slice(&[9, 0, 0, 0]);
    assert_eq!(&slot[..expected.len()], &expected[..]);
}
