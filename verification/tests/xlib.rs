use breadx_shim::error::ConnectionError;
use breadx_shim::request::ReplyKind;
use breadx_shim::{ThreadSafe, ThreadSafety, ThreadUnsafe, XlibDisplay};

#[test]
fn unthreaded_display_needs_no_initialisation() {
    assert!(!ThreadUnsafe::needs_initialization());
    assert_eq!(ThreadUnsafe::initialize(0), Ok(()));
    assert_eq!(ThreadUnsafe::initialize(1), Ok(()));
}

#[test]
fn threaded_display_fails_where_initialisation_failed() {
    assert!(ThreadSafe::needs_initialization());
    assert_eq!(ThreadSafe::initialize(0), Err(ConnectionError::ThreadInitFailed));
    assert_eq!(ThreadSafe::initialize(1), Ok(()));
    assert_eq!(ThreadSafe::initialize(-1), Ok(()));
    // judging the one status again gives the one answer
    assert_eq!(ThreadSafe::initialize(1), ThreadSafe::initialize(1));
}

#[test]
fn opened_display_is_owned_and_its_connection_borrowed() {
    let display = XlibDisplay::<ThreadUnsafe>::connect(0x5000, 1, 0x6000).unwrap();
    assert_eq!(display.as_xlib_connection(), 0x5000);
    assert_eq!(display.as_xcb_connection(), 0x6000);
    assert!(display.disconnects_on_drop());
    assert!(!display.xcb().disconnects_on_drop());
    assert_eq!(display.xcb().default_screen_index(), 1);
    assert!(display.xcb().needs_setup());
}

#[test]
fn display_that_did_not_open_is_a_connect_failure() {
    assert_eq!(
        XlibDisplay::<ThreadSafe>::connect(0, 0, 0).err(),
        Some(ConnectionError::ConnectFailed)
    );
    assert_eq!(
        XlibDisplay::<ThreadUnsafe>::connect(0, 3, 0x6000).err(),
        Some(ConnectionError::ConnectFailed)
    );
}

#[test]
fn adopted_display_keeps_the_ownership_it_was_given() {
    let borrowed = XlibDisplay::<ThreadSafe>::from_ptr(0x5000, false, 0, 0x6000);
    assert!(!borrowed.disconnects_on_drop());
    assert!(!borrowed.xcb().disconnects_on_drop());
    let owned = XlibDisplay::<ThreadSafe>::from_ptr(0x5000, true, 0, 0x6000);
    assert!(owned.disconnects_on_drop());
    assert!(!owned.xcb().disconnects_on_drop());
}

#[test]
fn both_views_share_one_sequence_space() {
    let mut display = XlibDisplay::<ThreadUnsafe>::from_ptr(0x5000, true, 0, 0x6000);
    assert_eq!(display.xcb_mut().send_request_impl(ReplyKind::ReplyWithFds, 8, 0), Ok(8));
    assert_eq!(display.as_xlib_connection(), 0x5000);
    assert_eq!(display.xcb_mut().extract_fds(&[1, 2], 8), 2);
    assert_eq!(display.xcb_mut().extract_fds(&[1, 2], 8), 0);
}
