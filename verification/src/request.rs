//! What the adapter decides about an outgoing request: how its extension is
//! resolved and how it is handed to the native library.

use crate::error::ConnectionError;
use crate::extension::{cached_code, ExtensionInfo};
use vstd::prelude::*;

verus! {

/// Transmission flag: the request's error, if any, is reported for the
/// request itself and not as an event.
pub const CHECKED: i32 = 1;

/// Transmission flag: the buffer is sent as it is.
pub const RAW: i32 = 2;

/// Transmission flag: the reply will carry file descriptors.
pub const REPLY_HAS_FDS: i32 = 8;

/// Number of buffers that a request is handed over in: two that the native
/// library may fill, and the request itself.
pub const BUFFER_COUNT: usize = 3;

/// What a request expects back.
#[derive(Debug, Clone, Copy, PartialEq, Eq)]
pub enum ReplyKind {
    /// Nothing.
    NoReply,
    /// A reply of bytes alone.
    ReplyWithoutFds,
    /// A reply with file descriptors beside its bytes.
    ReplyWithFds,
}

/// How a request is handed to the native library.
#[derive(Debug, Clone, Copy, PartialEq, Eq)]
pub struct SendPlan {
    /// The transmission flags.
    pub flags: i32,
    /// Number of buffers handed over.
    pub count: usize,
    /// Opcode field of the native request record; the opcode itself is in
    /// the buffer already.
    pub opcode: u8,
    /// 1 where the request expects no reply, else 0.
    pub isvoid: u8,
    /// Whether the descriptor-passing entry point is used.
    pub with_fds: bool,
}

/// The transmission flags for a request: raw always, checked unless the reply
/// is discarded, and the descriptor flag for a descriptor-bearing reply.
pub open spec fn flags_of(kind: ReplyKind, discard: bool) -> i32 {
    let carries = kind == ReplyKind::ReplyWithFds;
    if discard {
        if carries {
            10
        } else {
            2
        }
    } else {
        if carries {
            11
        } else {
            3
        }
    }
}

/// The plan for a request of the given kind with `fd_count` descriptors
/// attached.
pub open spec fn plan_of(kind: ReplyKind, discard: bool, fd_count: nat) -> SendPlan {
    SendPlan {
        flags: flags_of(kind, discard),
        count: 3,
        opcode: 0,
        isvoid: if kind == ReplyKind::NoReply {
            1
        } else {
            0
        },
        with_fds: fd_count > 0,
    }
}

/// Decides how a request is handed to the native library.
pub fn plan_request(kind: ReplyKind, discard: bool, fd_count: usize) -> (plan: SendPlan)
    ensures
        plan == plan_of(kind, discard, fd_count as nat),
{
    let carries = matches!(kind, ReplyKind::ReplyWithFds);
    let mut flags: i32 = RAW;
    if !discard {
        flags = flags | CHECKED;
        assert(2i32 | 1i32 == 3i32) by (bit_vector);
    }
    if carries {
        flags = flags | REPLY_HAS_FDS;
        assert(2i32 | 8i32 == 10i32) by (bit_vector);
        assert(3i32 | 8i32 == 11i32) by (bit_vector);
    }
    SendPlan {
        flags,
        count: BUFFER_COUNT,
        opcode: 0,
        isvoid: if matches!(kind, ReplyKind::NoReply) {
            1
        } else {
            0
        },
        with_fds: fd_count > 0,
    }
}

/// Each transmission flag is set in a plan's flags exactly when the plan
/// calls for it.
pub proof fn lemma_flags_bits(kind: ReplyKind, discard: bool)
    ensures
        flags_of(kind, discard) & RAW == RAW,
        (flags_of(kind, discard) & CHECKED == CHECKED) <==> !discard,
        (flags_of(kind, discard) & REPLY_HAS_FDS == REPLY_HAS_FDS) <==> kind
            == ReplyKind::ReplyWithFds,
{
    assert(2i32 & 2i32 == 2i32 && 2i32 & 1i32 == 0i32 && 2i32 & 8i32 == 0i32) by (bit_vector);
    assert(3i32 & 2i32 == 2i32 && 3i32 & 1i32 == 1i32 && 3i32 & 8i32 == 0i32) by (bit_vector);
    assert(10i32 & 2i32 == 2i32 && 10i32 & 1i32 == 0i32 && 10i32 & 8i32 == 8i32) by (bit_vector);
    assert(11i32 & 2i32 == 2i32 && 11i32 & 1i32 == 1i32 && 11i32 & 8i32 == 8i32) by (bit_vector);
}

/// How the opcode of a request's extension is found.
#[derive(Debug, Clone, Copy, PartialEq, Eq)]
pub enum Resolution {
    /// The request belongs to the core protocol: no opcode is stamped in.
    Core,
    /// The extension is present; its major opcode is stamped in.
    Resolved(u8),
    /// The extension is known to be absent: the request fails.
    Missing(&'static str),
    /// The server has not been asked about the extension yet.
    NeedsQuery(&'static str),
}

/// The resolution of a request's extension against what the registry holds.
pub open spec fn resolution_of(
    entries: Map<Seq<char>, Option<ExtensionInfo>>,
    extension: Option<&'static str>,
) -> Resolution {
    match extension {
        None => Resolution::Core,
        Some(name) => match cached_code(entries, name@) {
            Some(Some(code)) => Resolution::Resolved(code),
            Some(None) => Resolution::Missing(name),
            None => Resolution::NeedsQuery(name),
        },
    }
}

/// The opcode to stamp into a request once its extension is resolved, or the
/// error of a request whose extension the server lacks.
pub open spec fn opcode_of(name: &'static str, code: Option<u8>) -> Result<u8, ConnectionError> {
    match code {
        Some(code) => Ok(code),
        None => Err(ConnectionError::MissingExtension(name)),
    }
}

/// Turns the outcome of a resolution into the opcode to stamp in: an absent
/// extension fails the request with the extension's name.
pub fn require_extension(name: &'static str, code: Option<u8>) -> (opcode: Result<
    u8,
    ConnectionError,
>)
    ensures
        opcode == opcode_of(name, code),
{
    match code {
        Some(code) => Ok(code),
        None => Err(ConnectionError::MissingExtension(name)),
    }
}

/// The sequence number of a void request as the native check takes it: the
/// low 32 bits.
pub open spec fn cookie_of(seq: u64) -> u32 {
    (seq % 0x1_0000_0000) as u32
}

/// Narrows a sequence number to the width of a native void cookie.
pub fn void_cookie(seq: u64) -> (cookie: u32)
    ensures
        cookie == cookie_of(seq),
{
    (seq % 0x1_0000_0000) as u32
}

} // verus!
