use librxe::notify::finish_post_send;
use librxe::notify::post_send_db_bytes;
use librxe::notify::post_send_db_result;
use librxe::notify::DOORBELL_CMD_BYTES;
use librxe::wr::QueueError;
use librxe::wr::SendFailure;

#[test]
fn doorbell_command_layout() {
    let bytes = post_send_db_bytes(7, 0xDEADBEEF);
    let mut expected: Vec<u8> = Vec::new();
    expected.extend_from_slice(&[28, 0, 0, 0]); // command number
    expected.extend_from_slice(&[8, 0]); // command size in words
    expected.extend_from_slice(&[1, 0]); // response size in words
    expected.extend_from_slice(&[0xEF, 0xBE, 0xAD, 0xDE, 0, 0, 0, 0]); // response address
    expected.extend_from_slice(&[7, 0, 0, 0]); // queue pair handle
    expected.extend_from_slice(&[0, 0, 0, 0]); // work-request count
    expected.extend_from_slice(&[0, 0, 0, 0]); // scatter-gather count
    expected.extend_from_slice(&[128, 0, 0, 0]); // advertised request size
    assert_eq!(bytes, expected);
    assert_eq!(bytes.len(), DOORBELL_CMD_BYTES);
}

#[test]
fn only_a_full_write_counts_as_notified() {
    assert_eq!(post_send_db_result(Ok(DOORBELL_CMD_BYTES), 5), Ok(()));
    assert_eq!(post_send_db_result(Ok(DOORBELL_CMD_BYTES - 1), 5), Err(5));
    assert_eq!(post_send_db_result(Err(9), 5), Err(9));
}

#[test]
fn notification_failure_overrides_request_error() {
    assert_eq!(
        finish_post_send(Err((2, QueueError::OutOfResources)), Err(9)),
        Err(SendFailure::Notification(9))
    );
    assert_eq!(
        finish_post_send(Ok(()), Err(9)),
        Err(SendFailure::Notification(9))
    );
    assert_eq!(
        finish_post_send(Err((2, QueueError::OutOfResources)), Ok(())),
        Err(SendFailure::Request(2, QueueError::OutOfResources))
    );
    assert_eq!(finish_post_send(Ok(()), Ok(())), Ok(()));
}
