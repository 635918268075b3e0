//! Error categories of a native connection, and the mapping of the native
//! error state to them.

use vstd::prelude::*;

verus! {

/// Native error state: the transport failed.
pub const XCB_CONN_ERROR: i32 = 1;

/// Native error state: the server lacks an extension that the connection needs.
pub const XCB_CONN_CLOSED_EXT_NOTSUPPORTED: i32 = 2;

/// Native error state: the native library ran out of memory.
pub const XCB_CONN_CLOSED_MEM_INSUFFICIENT: i32 = 3;

/// Native error state: a request was longer than the server accepts.
pub const XCB_CONN_CLOSED_REQ_LEN_EXCEED: i32 = 4;

/// Native error state: the server's reply could not be parsed.
pub const XCB_CONN_CLOSED_PARSE_ERR: i32 = 5;

/// Native error state: the requested screen does not exist.
pub const XCB_CONN_CLOSED_INVALID_SCREEN: i32 = 6;

/// Native error state: a file descriptor could not be passed.
pub const XCB_CONN_CLOSED_FDPASSING_FAILED: i32 = 7;

/// A failure that an adapter operation reports to its caller.
#[derive(Debug, Clone, Copy, PartialEq, Eq)]
pub enum ConnectionError {
    /// The transport failed; the host's last OS error, where there is one,
    /// says more.
    Io,
    /// The named extension is not present on the server.
    MissingExtension(&'static str),
    /// A request exceeded the negotiated maximum length.
    RequestTooLong,
    /// The server sent bytes that do not parse.
    MalformedReply,
    /// The screen index is not valid for this server.
    InvalidScreen,
    /// Passing a file descriptor failed.
    FdPassingFailed,
    /// The native library reported a state that has no category.
    Unknown,
    /// An operation failed while the connection reports no error state.
    NoError,
    /// Waiting for an event ended without an event and without an error state.
    EventWaitFailed,
    /// The legacy library could not open the display.
    ConnectFailed,
    /// The legacy library could not initialise its thread support.
    ThreadInitFailed,
}

/// What a native error state means for the adapter.
#[derive(Debug, Clone, Copy, PartialEq, Eq)]
pub enum ConnectionStatus {
    /// The connection is usable.
    Healthy,
    /// The native library ran out of memory: not an error value, the host's
    /// allocation-failure path is to be taken.
    OutOfMemory,
    /// The connection has failed with the given category.
    Failed(ConnectionError),
}

/// The category of each native error state.
pub open spec fn status_of(code: i32) -> ConnectionStatus {
    if code == 0 {
        ConnectionStatus::Healthy
    } else if code == XCB_CONN_ERROR {
        ConnectionStatus::Failed(ConnectionError::Io)
    } else if code == XCB_CONN_CLOSED_EXT_NOTSUPPORTED {
        ConnectionStatus::Failed(ConnectionError::MissingExtension("<unknown>"))
    } else if code == XCB_CONN_CLOSED_MEM_INSUFFICIENT {
        ConnectionStatus::OutOfMemory
    } else if code == XCB_CONN_CLOSED_REQ_LEN_EXCEED {
        ConnectionStatus::Failed(ConnectionError::RequestTooLong)
    } else if code == XCB_CONN_CLOSED_PARSE_ERR {
        ConnectionStatus::Failed(ConnectionError::MalformedReply)
    } else if code == XCB_CONN_CLOSED_INVALID_SCREEN {
        ConnectionStatus::Failed(ConnectionError::InvalidScreen)
    } else if code == XCB_CONN_CLOSED_FDPASSING_FAILED {
        ConnectionStatus::Failed(ConnectionError::FdPassingFailed)
    } else {
        ConnectionStatus::Failed(ConnectionError::Unknown)
    }
}

/// The error that a native error state stands for, if it stands for one.
pub open spec fn error_of(code: i32) -> Option<ConnectionError> {
    match status_of(code) {
        ConnectionStatus::Failed(err) => Some(err),
        _ => None,
    }
}

/// The error reported for an operation that failed under the given native
/// error state: the state's own error, or `NoError` where the state shows none.
pub open spec fn error_or_fallback(code: i32) -> ConnectionError {
    match error_of(code) {
        Some(err) => err,
        None => ConnectionError::NoError,
    }
}

/// The category of a native error state.
pub fn connection_status(code: i32) -> (status: ConnectionStatus)
    ensures
        status == status_of(code),
{
    if code == 0 {
        ConnectionStatus::Healthy
    } else if code == XCB_CONN_ERROR {
        ConnectionStatus::Failed(ConnectionError::Io)
    } else if code == XCB_CONN_CLOSED_EXT_NOTSUPPORTED {
        ConnectionStatus::Failed(ConnectionError::MissingExtension("<unknown>"))
    } else if code == XCB_CONN_CLOSED_MEM_INSUFFICIENT {
        ConnectionStatus::OutOfMemory
    } else if code == XCB_CONN_CLOSED_REQ_LEN_EXCEED {
        ConnectionStatus::Failed(ConnectionError::RequestTooLong)
    } else if code == XCB_CONN_CLOSED_PARSE_ERR {
        ConnectionStatus::Failed(ConnectionError::MalformedReply)
    } else if code == XCB_CONN_CLOSED_INVALID_SCREEN {
        ConnectionStatus::Failed(ConnectionError::InvalidScreen)
    } else if code == XCB_CONN_CLOSED_FDPASSING_FAILED {
        ConnectionStatus::Failed(ConnectionError::FdPassingFailed)
    } else {
        ConnectionStatus::Failed(ConnectionError::Unknown)
    }
}

/// Whether the native error state is the one that is never turned into an
/// error value.
pub fn is_out_of_memory(code: i32) -> (fatal: bool)
    ensures
        fatal == (status_of(code) == ConnectionStatus::OutOfMemory),
        fatal == (code == XCB_CONN_CLOSED_MEM_INSUFFICIENT),
{
    code == XCB_CONN_CLOSED_MEM_INSUFFICIENT
}

/// The error that the native error state stands for; `None` for a healthy
/// connection. The out-of-memory state is not an error value and is left out.
pub fn error_from_code(code: i32) -> (error: Option<ConnectionError>)
    requires
        code != XCB_CONN_CLOSED_MEM_INSUFFICIENT,
    ensures
        error == error_of(code),
        error.is_none() <==> code == 0,
{
    match connection_status(code) {
        ConnectionStatus::Failed(err) => Some(err),
        ConnectionStatus::Healthy => None,
        ConnectionStatus::OutOfMemory => None,
    }
}

impl ConnectionError {
    /// The fixed text of each category.
    pub open spec fn message_text(self) -> Seq<char> {
        match self {
            ConnectionError::Io => "an unknown I/O error occurred"@,
            ConnectionError::MissingExtension(name) => name@,
            ConnectionError::RequestTooLong => "request length exceeded"@,
            ConnectionError::MalformedReply => "failed to parse server reply"@,
            ConnectionError::InvalidScreen => "invalid screen"@,
            ConnectionError::FdPassingFailed => "failed to pass FD"@,
            ConnectionError::Unknown => "unknown error"@,
            ConnectionError::NoError => "no error"@,
            ConnectionError::EventWaitFailed => "Failed to wait for event"@,
            ConnectionError::ConnectFailed => "failed to connect to X server"@,
            ConnectionError::ThreadInitFailed => "failed to initialize threading"@,
        }
    }

    /// The text that describes this error; for a missing extension, its name.
    pub fn message(&self) -> (text: &'static str)
        ensures
            text@ == self.message_text(),
    {
        match self {
            ConnectionError::Io => "an unknown I/O error occurred",
            ConnectionError::MissingExtension(name) => name,
            ConnectionError::RequestTooLong => "request length exceeded",
            ConnectionError::MalformedReply => "failed to parse server reply",
            ConnectionError::InvalidScreen => "invalid screen",
            ConnectionError::FdPassingFailed => "failed to pass FD",
            ConnectionError::Unknown => "unknown error",
            ConnectionError::NoError => "no error",
            ConnectionError::EventWaitFailed => "Failed to wait for event",
            ConnectionError::ConnectFailed => "failed to connect to X server",
            ConnectionError::ThreadInitFailed => "failed to initialize threading",
        }
    }

    /// Whether the host's last OS error should be attached to this error.
    pub fn wraps_os_error(&self) -> (wraps: bool)
        ensures
            wraps == (*self == ConnectionError::Io),
    {
        matches!(self, ConnectionError::Io)
    }
}

} // verus!
