use librxe::qp::QueuePair;
use librxe::qp::WorkQueue;
use librxe::queue::RingBuffer;
use librxe::send::rxe_post_send;
use librxe::send::validate_send_wr;
use librxe::wr::AddressHandle;
use librxe::wr::QpState;
use librxe::wr::QpType;
use librxe::wr::QueueError;
use librxe::wr::SendWr;
use librxe::wr::Sge;
use librxe::wr::WrOpcode;
use librxe::wr::WrPayload;
use librxe::wr::AV_BYTES;
use librxe::wr::SEND_FLAG_INLINE;

fn new_ring(log2_elem_size: u32, index_mask: u32) -> RingBuffer {
    let len = ((index_mask as usize) + 1) << log2_elem_size;
    RingBuffer {
        log2_elem_size,
        index_mask,
        producer_index: 0,
        consumer_index: 0,
        data: vec![0u8; len],
    }
}

fn new_qp(qp_type: QpType, index_mask: u32) -> QueuePair {
    QueuePair {
        qp_type,
        state: QpState::ReadyToSend,
        sq: WorkQueue { queue: new_ring(8, index_mask), max_sge: 4, max_inline: 64 },
        rq: WorkQueue { queue: new_ring(8, index_mask), max_sge: 4, max_inline: 0 },
        ssn: 0,
        cur_index: 0,
        err: 0,
    }
}

fn plain_send(wr_id: u64) -> SendWr {
    SendWr {
        wr_id,
        opcode: WrOpcode::Send,
        send_flags: 0,
        imm_data: 0,
        sg_list: vec![Sge { addr: 0x10, length: 3, lkey: 7 }],
        inline_segments: vec![],
        payload: WrPayload::Plain,
    }
}

#[test]
fn sends_advance_producer_until_full() {
    let mut qp = new_qp(QpType::Rc, 0x3);
    // capacity 4: three usable slots
    assert_eq!(rxe_post_send(&mut qp, &vec![plain_send(1)]), Ok(()));
    assert_eq!(qp.sq.queue.load_producer_index(), 1);
    assert_eq!(rxe_post_send(&mut qp, &vec![plain_send(2)]), Ok(()));
    assert_eq!(qp.sq.queue.load_producer_index(), 2);
    assert_eq!(rxe_post_send(&mut qp, &vec![plain_send(3)]), Ok(()));
    assert_eq!(qp.sq.queue.load_producer_index(), 3);
    // the fourth request finds the ring full; the producer index is unchanged
    assert_eq!(
        rxe_post_send(&mut qp, &vec![plain_send(4)]),
        Err((0, QueueError::OutOfResources))
    );
    assert_eq!(qp.sq.queue.load_producer_index(), 3);
}

#[test]
fn smallest_ring_takes_one_send() {
    let mut qp = new_qp(QpType::Rc, 0x1);
    // capacity 2: one usable slot
    assert_eq!(rxe_post_send(&mut qp, &vec![plain_send(1)]), Ok(()));
    assert_eq!(qp.sq.queue.load_producer_index(), 1);
    assert_eq!(
        rxe_post_send(&mut qp, &vec![plain_send(2)]),
        Err((0, QueueError::OutOfResources))
    );
    assert_eq!(qp.sq.queue.load_producer_index(), 1);
}

#[test]
fn sticky_fatal_short_circuits() {
    let mut qp = new_qp(QpType::Rc, 0x3);
    qp.err = 5;
    let wrs = vec![plain_send(1), plain_send(2)];
    assert_eq!(rxe_post_send(&mut qp, &wrs), Err((0, QueueError::Fatal(5))));
    assert_eq!(qp.sq.queue.load_producer_index(), 0);
    assert_eq!(qp.ssn, 0);
    // the error is returned again until externally reset
    assert_eq!(rxe_post_send(&mut qp, &wrs), Err((0, QueueError::Fatal(5))));
    qp.err = 0;
    assert_eq!(rxe_post_send(&mut qp, &wrs), Ok(()));
}

#[test]
fn inline_at_limit_succeeds_one_byte_over_fails() {
    let mut qp = new_qp(QpType::Rc, 0x3);
    let at_limit = SendWr {
        wr_id: 1,
        opcode: WrOpcode::Send,
        send_flags: SEND_FLAG_INLINE,
        imm_data: 0,
        sg_list: vec![Sge { addr: 0, length: 64, lkey: 0 }],
        inline_segments: vec![vec![0xAB; 64]],
        payload: WrPayload::Plain,
    };
    assert_eq!(rxe_post_send(&mut qp, &vec![at_limit]), Ok(()));
    assert_eq!(qp.sq.queue.load_producer_index(), 1);
    let over_limit = SendWr {
        wr_id: 2,
        opcode: WrOpcode::Send,
        send_flags: SEND_FLAG_INLINE,
        imm_data: 0,
        sg_list: vec![Sge { addr: 0, length: 65, lkey: 0 }],
        inline_segments: vec![vec![0xAB; 65]],
        payload: WrPayload::Plain,
    };
    assert_eq!(
        rxe_post_send(&mut qp, &vec![over_limit]),
        Err((0, QueueError::InvalidArgument))
    );
    assert_eq!(qp.sq.queue.load_producer_index(), 1);
}

#[test]
fn atomic_requires_length_and_alignment() {
    let qp = new_qp(QpType::Rc, 0x3);
    let good = SendWr {
        wr_id: 1,
        opcode: WrOpcode::AtomicCmpAndSwp,
        send_flags: 0,
        imm_data: 0,
        sg_list: vec![Sge { addr: 0, length: 8, lkey: 0 }],
        inline_segments: vec![],
        payload: WrPayload::Atomic { remote_addr: 0x1000, compare_add: 1, swap: 2, rkey: 3 },
    };
    assert!(validate_send_wr(&qp, &good).is_ok());
    let misaligned = SendWr {
        payload: WrPayload::Atomic { remote_addr: 0x1001, compare_add: 1, swap: 2, rkey: 3 },
        ..good
    };
    assert_eq!(
        validate_send_wr(&qp, &misaligned),
        Err(QueueError::InvalidArgument)
    );
    let short = SendWr {
        wr_id: 1,
        opcode: WrOpcode::AtomicFetchAndAdd,
        send_flags: 0,
        imm_data: 0,
        sg_list: vec![Sge { addr: 0, length: 4, lkey: 0 }],
        inline_segments: vec![],
        payload: WrPayload::Atomic { remote_addr: 0x1000, compare_add: 1, swap: 2, rkey: 3 },
    };
    assert_eq!(
        validate_send_wr(&qp, &short),
        Err(QueueError::InvalidArgument)
    );
}

#[test]
fn bind_mw_rules() {
    let qp = new_qp(QpType::Rc, 0x3);
    let good = SendWr {
        wr_id: 1,
        opcode: WrOpcode::BindMw,
        send_flags: 0,
        imm_data: 0,
        sg_list: vec![],
        inline_segments: vec![],
        payload: WrPayload::BindMw {
            addr: 0x2000,
            length: 0x100,
            mr_lkey: 1,
            mw_rkey: 2,
            rkey: 3,
            access: 4,
        },
    };
    assert!(validate_send_wr(&qp, &good).is_ok());
    let with_imm = SendWr { imm_data: 9, ..good };
    assert_eq!(
        validate_send_wr(&qp, &with_imm),
        Err(QueueError::InvalidArgument)
    );
    let with_sge = SendWr {
        sg_list: vec![Sge { addr: 0, length: 1, lkey: 0 }],
        imm_data: 0,
        ..with_imm
    };
    assert_eq!(
        validate_send_wr(&qp, &with_sge),
        Err(QueueError::InvalidArgument)
    );
    // memory-window binds need a connection-oriented transport
    let ud_qp = new_qp(QpType::Ud, 0x3);
    let on_ud = SendWr {
        sg_list: vec![],
        ..with_sge
    };
    assert_eq!(
        validate_send_wr(&ud_qp, &on_ud),
        Err(QueueError::InvalidArgument)
    );
}

#[test]
fn sg_count_over_limit_rejected() {
    let qp = new_qp(QpType::Rc, 0x3);
    let sge = Sge { addr: 0, length: 1, lkey: 0 };
    let wr = SendWr {
        wr_id: 1,
        opcode: WrOpcode::Send,
        send_flags: 0,
        imm_data: 0,
        sg_list: vec![sge; 5],
        inline_segments: vec![],
        payload: WrPayload::Plain,
    };
    assert_eq!(validate_send_wr(&qp, &wr), Err(QueueError::InvalidArgument));
}

#[test]
fn datagram_send_needs_routing_data() {
    let mut qp = new_qp(QpType::Ud, 0x3);
    let good = SendWr {
        wr_id: 1,
        opcode: WrOpcode::Send,
        send_flags: 0,
        imm_data: 0,
        sg_list: vec![Sge { addr: 0, length: 4, lkey: 0 }],
        inline_segments: vec![],
        payload: WrPayload::Ud {
            remote_qpn: 0x17,
            remote_qkey: 0x1234,
            ah: AddressHandle { ah_num: 0, av: vec![0x5A; AV_BYTES] },
        },
    };
    assert_eq!(rxe_post_send(&mut qp, &vec![good]), Ok(()));
    let bad_av = SendWr {
        wr_id: 2,
        opcode: WrOpcode::Send,
        send_flags: 0,
        imm_data: 0,
        sg_list: vec![Sge { addr: 0, length: 4, lkey: 0 }],
        inline_segments: vec![],
        payload: WrPayload::Ud {
            remote_qpn: 0x17,
            remote_qkey: 0x1234,
            ah: AddressHandle { ah_num: 0, av: vec![0x5A; AV_BYTES - 1] },
        },
    };
    assert_eq!(
        rxe_post_send(&mut qp, &vec![bad_av]),
        Err((0, QueueError::InvalidArgument))
    );
}

#[test]
fn rdma_write_accepted_on_datagram_pair() {
    let mut qp = new_qp(QpType::Ud, 0x3);
    let wr = SendWr {
        wr_id: 1,
        opcode: WrOpcode::RdmaWrite,
        send_flags: 0,
        imm_data: 0,
        sg_list: vec![Sge { addr: 0, length: 4, lkey: 0 }],
        inline_segments: vec![],
        payload: WrPayload::Rdma { remote_addr: 0x3000, rkey: 5 },
    };
    assert_eq!(rxe_post_send(&mut qp, &vec![wr]), Ok(()));
    assert_eq!(qp.sq.queue.load_producer_index(), 1);
    let slot = qp.sq.queue.read_slot(0);
    // payload union region: the remote address and key of the write
    assert_eq!(&slot[24..32], &[0, 0x30, 0, 0, 0, 0, 0, 0]);
    assert_eq!(&slot[32..36], &[5, 0, 0, 0]);
}

#[test]
fn empty_list_posts_nothing() {
    let mut qp = new_qp(QpType::Rc, 0x3);
    assert_eq!(rxe_post_send(&mut qp, &vec![]), Ok(()));
    assert_eq!(qp.sq.queue.load_producer_index(), 0);
    assert_eq!(qp.ssn, 0);
}

#[test]
fn routing_bytes_copied_when_reuse_counter_is_zero() {
    let mut qp = new_qp(QpType::Ud, 0x3);
    let wr = SendWr {
        wr_id: 1,
        opcode: WrOpcode::Send,
        send_flags: 0,
        imm_data: 0,
        sg_list: vec![Sge { addr: 0, length: 4, lkey: 0 }],
        inline_segments: vec![],
        payload: WrPayload::Ud {
            remote_qpn: 0x17,
            remote_qkey: 0x1234,
            ah: AddressHandle { ah_num: 0, av: vec![0x5A; AV_BYTES] },
        },
    };
    assert_eq!(rxe_post_send(&mut qp, &vec![wr]), Ok(()));
    let slot = qp.sq.queue.read_slot(0);
    // payload union region: remote qpn, remote qkey, reuse counter, a
    // reserved word, then the copied routing bytes
    assert_eq!(&slot[24..28], &[0x17, 0, 0, 0]);
    assert_eq!(&slot[28..32], &[0x34, 0x12, 0, 0]);
    assert_eq!(&slot[32..36], &[0, 0, 0, 0]);
    assert_eq!(&slot[36..40], &[0, 0, 0, 0]);
    assert!(slot[40..40 + AV_BYTES].iter().all(|b| *b == 0x5A));
}

#[test]
fn routing_bytes_not_copied_for_reused_handle() {
    let mut qp = new_qp(QpType::Ud, 0x3);
    let wr = SendWr {
        wr_id: 1,
        opcode: WrOpcode::Send,
        send_flags: 0,
        imm_data: 0,
        sg_list: vec![Sge { addr: 0, length: 4, lkey: 0 }],
        inline_segments: vec![],
        payload: WrPayload::Ud {
            remote_qpn: 0x17,
            remote_qkey: 0x1234,
            ah: AddressHandle { ah_num: 9, av: vec![0x5A; AV_BYTES] },
        },
    };
    assert_eq!(rxe_post_send(&mut qp, &vec![wr]), Ok(()));
    let slot = qp.sq.queue.read_slot(0);
    assert_eq!(&slot[24..28], &[0x17, 0, 0, 0]);
    assert_eq!(&slot[32..36], &[9, 0, 0, 0]);
    // the routing-byte region stays zeroed
    assert!(slot[40..40 + AV_BYTES].iter().all(|b| *b == 0));
}

#[test]
fn list_stops_at_first_failure_and_keeps_commits() {
    let mut qp = new_qp(QpType::Rc, 0x3);
    let sge = Sge { addr: 0, length: 1, lkey: 0 };
    let bad = SendWr {
        wr_id: 2,
        opcode: WrOpcode::Send,
        send_flags: 0,
        imm_data: 0,
        sg_list: vec![sge; 5],
        inline_segments: vec![],
        payload: WrPayload::Plain,
    };
    let wrs = vec![plain_send(1), bad, plain_send(3)];
    assert_eq!(
        rxe_post_send(&mut qp, &wrs),
        Err((1, QueueError::InvalidArgument))
    );
    // the first request stays committed; the third was never attempted
    assert_eq!(qp.sq.queue.load_producer_index(), 1);
    assert_eq!(qp.ssn, 1);
}

#[test]
fn sequence_counter_stamps_each_accepted_request() {
    let mut qp = new_qp(QpType::Rc, 0x3);
    assert_eq!(rxe_post_send(&mut qp, &vec![plain_send(1), plain_send(2)]), Ok(()));
    assert_eq!(qp.ssn, 2);
}

#[test]
fn encoded_entry_layout() {
    let mut qp = new_qp(QpType::Rc, 0x3);
    let wr = SendWr {
        wr_id: 0x0102030405060708,
        opcode: WrOpcode::Send,
        send_flags: 0,
        imm_data: 0,
        sg_list: vec![Sge { addr: 0x10, length: 3, lkey: 7 }],
        inline_segments: vec![],
        payload: WrPayload::Plain,
    };
    assert_eq!(rxe_post_send(&mut qp, &vec![wr]), Ok(()));
    let slot = qp.sq.queue.read_slot(0);
    let mut expected: Vec<u8> = Vec::new();
    expected.extend_from_slice(&[0x08, 0x07, 0x06, 0x05, 0x04, 0x03, 0x02, 0x01]); // wr_id
    expected.extend_from_slice(&[1, 0, 0, 0]); // num_sge
    expected.extend_from_slice(&[2, 0, 0, 0]); // opcode
    expected.extend_from_slice(&[0, 0, 0, 0]); // send_flags
    expected.extend_from_slice(&[0, 0, 0, 0]); // imm_data
    expected.extend_from_slice(&[0; 56]); // payload union region, zeroed
    expected.extend_from_slice(&[0, 0, 0, 0]); // status
    expected.extend_from_slice(&[0, 0, 0, 0]); // state
    expected.extend_from_slice(&[0, 0, 0, 0, 0, 0, 0, 0]); // iova
    expected.extend_from_slice(&[0, 0, 0, 0]); // mask
    expected.extend_from_slice(&[0, 0, 0, 0]); // first_psn
    expected.extend_from_slice(&[0, 0, 0, 0]); // last_psn
    expected.extend_from_slice(&[0, 0, 0, 0]); // ack_length
    expected.extend_from_slice(&[1, 0, 0, 0]); // ssn
    expected.extend_from_slice(&[0, 0, 0, 0]); // has_rd_atomic
    expected.extend_from_slice(&[3, 0, 0, 0]); // dma.length
    expected.extend_from_slice(&[3, 0, 0, 0]); // dma.resid
    expected.extend_from_slice(&[0, 0, 0, 0]); // dma.cur_sge
    expected.extend_from_slice(&[1, 0, 0, 0]); // dma.num_sge
    expected.extend_from_slice(&[0, 0, 0, 0]); // dma.sge_offset
    expected.extend_from_slice(&[0, 0, 0, 0]); // reserved
    expected.extend_from_slice(&[0x10, 0, 0, 0, 0, 0, 0, 0]); // sge.addr
    expected.extend_from_slice(&[3, 0, 0, 0]); // sge.length
    expected.extend_from_slice(&[7, 0, 0, 0]); // sge.lkey
    assert_eq!(expected.len(), 160);
    assert_eq!(&slot[..expected.len()], &expected[..]);
}
