//! Replies as the native library hands them out, and what the adapter makes
//! of the pointers that a reply retrieval gave back.

use crate::cbox::CBox;
use crate::error::ConnectionError;
use vstd::prelude::*;

verus! {

/// Why a reply retrieval failed.
#[derive(Debug)]
pub enum ReplyError {
    /// The server rejected the request: the error packet, to be decoded.
    Protocol(CBox<u8>),
    /// The connection failed.
    Connection(ConnectionError),
}

/// A reply that was retrieved, before its descriptors were read.
#[derive(Debug)]
pub struct FetchedReply {
    reply: CBox<u8>,
    fd_count: usize,
}

/// A reply with the descriptors that came with it.
#[derive(Debug)]
pub struct XcbReply {
    reply: CBox<u8>,
    fds: Vec<i32>,
}

impl FetchedReply {
    /// The bytes of the reply.
    pub closed spec fn bytes(self) -> Seq<u8> {
        self.reply@
    }

    /// The foreign allocation that holds the reply.
    pub closed spec fn buffer(self) -> CBox<u8> {
        self.reply
    }

    /// Number of descriptors that lie behind the reply.
    pub closed spec fn expected_fds(self) -> nat {
        self.fd_count as nat
    }

    /// A reply in `reply` that `fd_count` descriptors follow.
    pub fn new(reply: CBox<u8>, fd_count: usize) -> (fetched: FetchedReply)
        ensures
            fetched.buffer() == reply,
            fetched.bytes() == reply@,
            fetched.expected_fds() == fd_count,
    {
        FetchedReply { reply, fd_count }
    }

    /// Number of descriptors to read behind the reply.
    pub fn fd_count(&self) -> (count: usize)
        ensures
            count == self.expected_fds(),
    {
        self.fd_count
    }

    /// The foreign allocation that holds the reply.
    pub fn reply(&self) -> (reply: &CBox<u8>)
        ensures
            *reply == self.buffer(),
    {
        &self.reply
    }

    /// Joins the reply with the descriptors that were read behind it.
    pub fn with_fds(self, fds: Vec<i32>) -> (reply: XcbReply)
        requires
            fds@.len() == self.expected_fds(),
        ensures
            reply.bytes() == self.bytes(),
            reply.fds() == fds@,
    {
        XcbReply { reply: self.reply, fds }
    }
}

impl XcbReply {
    /// The bytes of the reply.
    pub closed spec fn bytes(self) -> Seq<u8> {
        self.reply@
    }

    /// The descriptors of the reply.
    pub closed spec fn fds(self) -> Seq<i32> {
        self.fds@
    }

    /// A reply of the bytes in `reply` and the descriptors `fds`.
    pub fn new(reply: CBox<u8>, fds: Vec<i32>) -> (wrapped: XcbReply)
        ensures
            wrapped.bytes() == reply@,
            wrapped.fds() == fds@,
    {
        XcbReply { reply, fds }
    }

    /// Takes the reply apart into bytes of its own, copied out of the foreign
    /// allocation, and its descriptors.
    pub fn into_raw_parts(self) -> (parts: (Vec<u8>, Vec<i32>))
        ensures
            parts.0@ == self.bytes(),
            parts.1@ == self.fds(),
    {
        let data = self.reply.clone_slice();
        assert(data@ =~= self.reply@);
        (data, self.fds)
    }
}

/// What a reply retrieval found.
#[derive(Debug, Clone, Copy, PartialEq, Eq)]
pub enum ReplyState {
    /// A reply and no error.
    Reply,
    /// An error and no reply.
    ProtocolError,
    /// Neither, on a poll: the server has not answered yet.
    NotReady,
    /// Neither, on a wait: the connection has failed.
    Failed,
}

/// What a poll found. A poll that reports nothing found is not ready,
/// whatever it left in its outputs.
pub open spec fn polled_state(found: i32, has_reply: bool, has_error: bool) -> ReplyState {
    if found == 0 {
        ReplyState::NotReady
    } else if has_reply {
        ReplyState::Reply
    } else if has_error {
        ReplyState::ProtocolError
    } else {
        ReplyState::NotReady
    }
}

/// What a wait found.
pub open spec fn waited_state(has_reply: bool, has_error: bool) -> ReplyState {
    if has_reply {
        ReplyState::Reply
    } else if has_error {
        ReplyState::ProtocolError
    } else {
        ReplyState::Failed
    }
}

/// Classifies the outcome of a poll. A reply and an error at once are a
/// breach by the native library and are left out.
pub fn classify_poll(found: i32, has_reply: bool, has_error: bool) -> (state: ReplyState)
    requires
        found != 0 ==> !(has_reply && has_error),
    ensures
        state == polled_state(found, has_reply, has_error),
        state != ReplyState::Failed,
{
    if found == 0 {
        ReplyState::NotReady
    } else if has_reply {
        ReplyState::Reply
    } else if has_error {
        ReplyState::ProtocolError
    } else {
        ReplyState::NotReady
    }
}

/// Classifies the outcome of a wait. A reply and an error at once are a
/// breach by the native library and are left out.
pub fn classify_wait(has_reply: bool, has_error: bool) -> (state: ReplyState)
    requires
        !(has_reply && has_error),
    ensures
        state == waited_state(has_reply, has_error),
        state != ReplyState::NotReady,
{
    if has_reply {
        ReplyState::Reply
    } else if has_error {
        ReplyState::ProtocolError
    } else {
        ReplyState::Failed
    }
}

} // verus!
