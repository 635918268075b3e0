use breadx_shim::error::{
    connection_status, error_from_code, is_out_of_memory, ConnectionError, ConnectionStatus,
    XCB_CONN_CLOSED_EXT_NOTSUPPORTED, XCB_CONN_CLOSED_FDPASSING_FAILED,
    XCB_CONN_CLOSED_INVALID_SCREEN, XCB_CONN_CLOSED_MEM_INSUFFICIENT, XCB_CONN_CLOSED_PARSE_ERR,
    XCB_CONN_CLOSED_REQ_LEN_EXCEED, XCB_CONN_ERROR,
};

#[test]
fn healthy_connection_has_no_error() {
    assert_eq!(connection_status(0), ConnectionStatus::Healthy);
    assert_eq!(error_from_code(0), None);
}

#[test]
fn each_native_state_has_its_category() {
    assert_eq!(error_from_code(XCB_CONN_ERROR), Some(ConnectionError::Io));
    assert_eq!(
        error_from_code(XCB_CONN_CLOSED_EXT_NOTSUPPORTED),
        Some(ConnectionError::MissingExtension("<unknown>"))
    );
    assert_eq!(
        error_from_code(XCB_CONN_CLOSED_REQ_LEN_EXCEED),
        Some(ConnectionError::RequestTooLong)
    );
    assert_eq!(
        error_from_code(XCB_CONN_CLOSED_PARSE_ERR),
        Some(ConnectionError::MalformedReply)
    );
    assert_eq!(
        error_from_code(XCB_CONN_CLOSED_INVALID_SCREEN),
        Some(ConnectionError::InvalidScreen)
    );
    assert_eq!(
        error_from_code(XCB_CONN_CLOSED_FDPASSING_FAILED),
        Some(ConnectionError::FdPassingFailed)
    );
}

#[test]
fn unrecognised_states_are_unknown_errors() {
    assert_eq!(error_from_code(8), Some(ConnectionError::Unknown));
    assert_eq!(error_from_code(-1), Some(ConnectionError::Unknown));
    assert_eq!(error_from_code(i32::MAX), Some(ConnectionError::Unknown));
    assert_eq!(error_from_code(i32::MIN), Some(ConnectionError::Unknown));
}

#[test]
fn out_of_memory_is_not_an_error_value() {
    assert_eq!(
        connection_status(XCB_CONN_CLOSED_MEM_INSUFFICIENT),
        ConnectionStatus::OutOfMemory
    );
    assert!(is_out_of_memory(XCB_CONN_CLOSED_MEM_INSUFFICIENT));
    assert!(is_out_of_memory(3));
    for code in [0, 1, 2, 4, 5, 6, 7, 8, -3] {
        assert!(!is_out_of_memory(code));
        assert!(!matches!(connection_status(code), ConnectionStatus::OutOfMemory));
    }
}

#[test]
fn native_state_codes_have_their_values() {
    assert_eq!(XCB_CONN_ERROR, 1);
    assert_eq!(XCB_CONN_CLOSED_EXT_NOTSUPPORTED, 2);
    assert_eq!(XCB_CONN_CLOSED_MEM_INSUFFICIENT, 3);
    assert_eq!(XCB_CONN_CLOSED_REQ_LEN_EXCEED, 4);
    assert_eq!(XCB_CONN_CLOSED_PARSE_ERR, 5);
    assert_eq!(XCB_CONN_CLOSED_INVALID_SCREEN, 6);
    assert_eq!(XCB_CONN_CLOSED_FDPASSING_FAILED, 7);
}

#[test]
fn each_category_has_its_text() {
    assert_eq!(ConnectionError::Io.message(), "an unknown I/O error occurred");
    assert_eq!(ConnectionError::MissingExtension("XFIXES").message(), "XFIXES");
    assert_eq!(ConnectionError::RequestTooLong.message(), "request length exceeded");
    assert_eq!(ConnectionError::MalformedReply.message(), "failed to parse server reply");
    assert_eq!(ConnectionError::InvalidScreen.message(), "invalid screen");
    assert_eq!(ConnectionError::FdPassingFailed.message(), "failed to pass FD");
    assert_eq!(ConnectionError::Unknown.message(), "unknown error");
    assert_eq!(ConnectionError::NoError.message(), "no error");
    assert_eq!(ConnectionError::EventWaitFailed.message(), "Failed to wait for event");
    assert_eq!(ConnectionError::ConnectFailed.message(), "failed to connect to X server");
    assert_eq!(
        ConnectionError::ThreadInitFailed.message(),
        "failed to initialize threading"
    );
}

#[test]
fn only_transport_failures_wrap_the_os_error() {
    assert!(ConnectionError::Io.wraps_os_error());
    assert!(!ConnectionError::Unknown.wraps_os_error());
    assert!(!ConnectionError::NoError.wraps_os_error());
    assert!(!ConnectionError::MissingExtension("<unknown>").wraps_os_error());
}
