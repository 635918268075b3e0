use breadx_shim::cbox::CBox;
use breadx_shim::error::ConnectionError;
use breadx_shim::reply::{classify_poll, classify_wait, FetchedReply, ReplyError, ReplyState};
use breadx_shim::request::ReplyKind;
use breadx_shim::{XcbDisplay, XcbReply};

fn reply_with_count(count: u8) -> CBox<u8> {
    let mut bytes = vec![0u8; 32];
    bytes[0] = 1;
    bytes[1] = count;
    CBox::new(0x2000, bytes)
}

fn error_packet() -> CBox<u8> {
    let mut bytes = vec![0u8; 32];
    bytes[1] = 3;
    CBox::new(0x3000, bytes)
}

#[test]
fn poll_outcomes_are_classified() {
    assert_eq!(classify_poll(0, false, false), ReplyState::NotReady);
    assert_eq!(classify_poll(1, false, false), ReplyState::NotReady);
    assert_eq!(classify_poll(1, true, false), ReplyState::Reply);
    assert_eq!(classify_poll(1, false, true), ReplyState::ProtocolError);
    assert_eq!(classify_poll(-1, true, false), ReplyState::Reply);
    // nothing found: the outputs do not count
    assert_eq!(classify_poll(0, true, false), ReplyState::NotReady);
    assert_eq!(classify_poll(0, false, true), ReplyState::NotReady);
    assert_eq!(classify_poll(0, true, true), ReplyState::NotReady);
}

#[test]
fn wait_outcomes_are_classified() {
    assert_eq!(classify_wait(true, false), ReplyState::Reply);
    assert_eq!(classify_wait(false, true), ReplyState::ProtocolError);
    assert_eq!(classify_wait(false, false), ReplyState::Failed);
}

#[test]
fn poll_before_the_server_answers_is_not_ready() {
    let mut display = XcbDisplay::from_ptr(0x10, true, 0);
    let seq = display.send_request_impl(ReplyKind::ReplyWithFds, 12, 0).unwrap();
    let polled = display.poll_for_reply_impl(seq, 0, None, None);
    assert!(matches!(polled, Ok(None)));
    let polled = display.poll_for_reply_impl(seq, 1, None, None);
    assert!(matches!(polled, Ok(None)));
    // the sequence number is pending still
    let polled = display.poll_for_reply_impl(seq, 1, Some(reply_with_count(2)), None);
    assert_eq!(polled.unwrap().unwrap().fd_count(), 2);
}

#[test]
fn polled_reply_of_a_plain_request_has_no_descriptors() {
    let mut display = XcbDisplay::from_ptr(0x10, true, 0);
    let seq = display.send_request_impl(ReplyKind::ReplyWithoutFds, 5, 0).unwrap();
    let fetched = display
        .poll_for_reply_impl(seq, 1, Some(reply_with_count(4)), None)
        .unwrap()
        .unwrap();
    assert_eq!(fetched.fd_count(), 0);
    assert_eq!(fetched.reply().as_ptr(), 0x2000);
    assert_eq!(fetched.reply().as_ref()[1], 4);
}

#[test]
fn second_retrieval_does_not_extract_again() {
    let mut display = XcbDisplay::from_ptr(0x10, true, 0);
    display.send_request_impl(ReplyKind::ReplyWithFds, 5, 0).unwrap();
    let first = display.wait_for_reply_impl(5, Some(reply_with_count(1)), None, 0).unwrap();
    assert_eq!(first.fd_count(), 1);
    let second = display.wait_for_reply_impl(5, Some(reply_with_count(1)), None, 0).unwrap();
    assert_eq!(second.fd_count(), 0);
    let third = display.poll_for_reply_impl(5, 1, Some(reply_with_count(1)), None);
    assert_eq!(third.unwrap().unwrap().fd_count(), 0);
}

#[test]
fn protocol_error_hands_the_packet_on_and_keeps_the_sequence_pending() {
    let mut display = XcbDisplay::from_ptr(0x10, true, 0);
    display.send_request_impl(ReplyKind::ReplyWithFds, 5, 0).unwrap();
    match display.poll_for_reply_impl(5, 1, None, Some(error_packet())) {
        Err(ReplyError::Protocol(packet)) => {
            assert_eq!(packet.as_ptr(), 0x3000);
            assert_eq!(packet.as_ref()[1], 3);
        }
        other => panic!("{:?}", other),
    }
    match display.wait_for_reply_impl(5, None, Some(error_packet()), 0) {
        Err(ReplyError::Protocol(packet)) => assert_eq!(packet.as_ref().len(), 32),
        other => panic!("{:?}", other),
    }
    assert_eq!(display.extract_fds(reply_with_count(6).as_ref(), 5), 6);
}

#[test]
fn wait_without_reply_or_error_is_a_connection_failure() {
    let mut display = XcbDisplay::from_ptr(0x10, true, 0);
    display.send_request_impl(ReplyKind::ReplyWithFds, 5, 0).unwrap();
    let failed = display.wait_for_reply_impl(5, None, None, 1);
    assert!(matches!(failed, Err(ReplyError::Connection(ConnectionError::Io))));
    let failed = display.wait_for_reply_impl(5, None, None, 0);
    assert!(matches!(failed, Err(ReplyError::Connection(ConnectionError::NoError))));
    let failed = display.wait_for_reply_impl(5, None, None, 7);
    assert!(matches!(failed, Err(ReplyError::Connection(ConnectionError::FdPassingFailed))));
    assert_eq!(display.extract_fds(reply_with_count(6).as_ref(), 5), 6);
}

#[test]
fn fetched_reply_is_joined_with_its_descriptors() {
    let fetched = FetchedReply::new(reply_with_count(2), 2);
    assert_eq!(fetched.fd_count(), 2);
    let reply = fetched.with_fds(vec![7, 9]);
    let (data, fds) = reply.into_raw_parts();
    assert_eq!(data.len(), 32);
    assert_eq!(data[0], 1);
    assert_eq!(data[1], 2);
    assert_eq!(fds, vec![7, 9]);
}

#[test]
fn reply_is_taken_apart_into_owned_bytes() {
    let reply = XcbReply::new(CBox::new(0x40, vec![1, 0, 9, 0]), Vec::new());
    let (data, fds) = reply.into_raw_parts();
    assert_eq!(data, vec![1, 0, 9, 0]);
    assert!(fds.is_empty());
}

#[test]
fn synchronisation_reports_the_server_s_error() {
    let display = XcbDisplay::from_ptr(0x10, true, 0);
    assert!(display.synchronize_impl(None).is_ok());
    match display.synchronize_impl(Some(error_packet())) {
        Err(ReplyError::Protocol(packet)) => assert_eq!(packet.as_ptr(), 0x3000),
        other => panic!("{:?}", other),
    }
    assert!(matches!(XcbDisplay::wrap_error(error_packet()), ReplyError::Protocol(_)));
}
