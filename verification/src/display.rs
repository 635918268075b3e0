//! The connection adapter: the state that it keeps beside the native
//! connection handle, and every decision that it takes on what the native
//! library gave back.

use crate::cbox::CBox;
use crate::error::{
    error_from_code, error_of, error_or_fallback, ConnectionError,
    XCB_CONN_CLOSED_MEM_INSUFFICIENT,
};
use crate::handle::NativeHandle;
use crate::extension::{
    cached_code, no_entries, recorded, ExtensionInfo, ExtensionManager, QueryAnswer,
};
use crate::pending::{fd_count_of, PendingFds};
use crate::reply::{classify_poll, classify_wait, polled_state, waited_state};
use crate::reply::{FetchedReply, ReplyError, ReplyState};
use crate::request::{opcode_of, require_extension, resolution_of, ReplyKind, Resolution};
use crate::setup::{holds_setup, kept_setup, CachedSetup};
use crate::wire::{frame_event, framed_event, holds_event, setup_declared_length, ByteOrder};
use breadx::protocol::xproto::Setup;
use vstd::prelude::*;

verus! {

/// The identifier that the native library hands out when it has none left.
pub const INVALID_XID: u32 = 0xFFFF_FFFF;

/// An adapter around a native connection.
pub struct XcbDisplay {
    /// The native connection object, and whether it is closed when the
    /// adapter goes.
    connection: NativeHandle,
    /// The handshake record, once it has been fetched.
    setup: Option<CachedSetup>,
    /// What is known of the server's extensions.
    extension_manager: ExtensionManager,
    /// The sequence numbers whose reply will carry descriptors.
    has_fds: PendingFds,
    /// The screen in use.
    screen: usize,
}

impl XcbDisplay {
    /// Address of the native connection object.
    pub closed spec fn connection(self) -> usize {
        self.connection.address()
    }

    /// Whether the adapter is the one to close the native connection.
    pub closed spec fn owns_connection(self) -> bool {
        self.connection.owned()
    }

    /// The screen in use.
    pub closed spec fn screen(self) -> usize {
        self.screen
    }

    /// The handshake record that the adapter keeps, if it has fetched one.
    pub closed spec fn cached_setup(self) -> Option<CachedSetup> {
        self.setup
    }

    /// What the adapter knows of the server's extensions.
    pub closed spec fn extensions(self) -> Map<Seq<char>, Option<ExtensionInfo>> {
        self.extension_manager@
    }

    /// The sequence numbers whose reply will carry descriptors.
    pub closed spec fn pending(self) -> Set<u64> {
        self.has_fds@
    }

    /// Whether two adapters stand for the same native connection, with the
    /// same ownership and screen.
    pub open spec fn same_handle(self, other: XcbDisplay) -> bool {
        &&& self.connection() == other.connection()
        &&& self.owns_connection() == other.owns_connection()
        &&& self.screen() == other.screen()
    }

    /// Whether an adapter is in the state of one that was just made around
    /// the given handle.
    pub open spec fn is_fresh(self, ptr: usize, disconnect: bool, screen: usize) -> bool {
        &&& self.connection() == ptr
        &&& self.owns_connection() == disconnect
        &&& self.screen() == screen
        &&& self.cached_setup() is None
        &&& self.extensions() == no_entries()
        &&& self.pending() == Set::<u64>::empty()
    }

    /// Wraps the native connection at `ptr`, which is not null. The adapter
    /// closes the connection when it goes only if `disconnect` is set.
    pub fn from_ptr(ptr: usize, disconnect: bool, screen: usize) -> (display: XcbDisplay)
        requires
            ptr != 0,
        ensures
            display.is_fresh(ptr, disconnect, screen),
    {
        XcbDisplay {
            connection: NativeHandle::new(ptr, disconnect),
            setup: None,
            extension_manager: ExtensionManager::new(),
            has_fds: PendingFds::new(),
            screen,
        }
    }

    /// Adopts a connection that the native library has just opened, unless
    /// its error state shows that opening failed.
    fn connected(ptr: usize, screen: usize, status: i32) -> (display: Result<
        XcbDisplay,
        ConnectionError,
    >)
        requires
            ptr != 0,
            status != XCB_CONN_CLOSED_MEM_INSUFFICIENT,
        ensures
            display is Ok <==> status == 0,
            display matches Ok(d) ==> d.is_fresh(ptr, true, screen),
            display matches Err(e) ==> Some(e) == error_of(status),
    {
        let this = XcbDisplay::from_ptr(ptr, true, screen);
        match this.take_error(status) {
            Some(err) => Err(err),
            None => Ok(this),
        }
    }

    /// Adopts the connection at `ptr` that was opened by display name, with
    /// the screen number and error state that the native library reported.
    /// The adapter owns the connection. A connection in an error state is
    /// refused with that state's error; closing it is left to the caller.
    pub fn connect(ptr: usize, screen: i32, status: i32) -> (display: Result<
        XcbDisplay,
        ConnectionError,
    >)
        requires
            ptr != 0,
            status != XCB_CONN_CLOSED_MEM_INSUFFICIENT,
        ensures
            display is Ok <==> status == 0,
            display matches Ok(d) ==> d.is_fresh(ptr, true, screen as usize),
            display matches Err(e) ==> Some(e) == error_of(status),
    {
        XcbDisplay::connected(ptr, #[verifier::truncate] (screen as usize), status)
    }

    /// Adopts the connection at `ptr` that was opened on a file descriptor,
    /// for the screen that the caller chose, given the error state that the
    /// native library reported. The adapter owns the connection.
    pub fn connect_to_fd(ptr: usize, screen: usize, status: i32) -> (display: Result<
        XcbDisplay,
        ConnectionError,
    >)
        requires
            ptr != 0,
            status != XCB_CONN_CLOSED_MEM_INSUFFICIENT,
        ensures
            display is Ok <==> status == 0,
            display matches Ok(d) ==> d.is_fresh(ptr, true, screen),
            display matches Err(e) ==> Some(e) == error_of(status),
    {
        XcbDisplay::connected(ptr, screen, status)
    }

    /// Address of the native connection object; it is not null.
    pub fn as_ptr(&self) -> (ptr: usize)
        ensures
            ptr == self.connection(),
            ptr != 0,
    {
        self.connection.as_ptr()
    }

    /// The screen in use.
    pub fn default_screen_index(&self) -> (screen: usize)
        ensures
            screen == self.screen(),
    {
        self.screen
    }

    /// Whether the native connection is to be closed when the adapter goes:
    /// only an adapter that owns its connection closes it.
    pub fn disconnects_on_drop(&self) -> (disconnect: bool)
        ensures
            disconnect == self.owns_connection(),
    {
        self.connection.is_owned()
    }

    /// The error that the connection's native error state stands for.
    pub fn take_error(&self, status: i32) -> (error: Option<ConnectionError>)
        requires
            status != XCB_CONN_CLOSED_MEM_INSUFFICIENT,
        ensures
            error == error_of(status),
            error is None <==> status == 0,
    {
        error_from_code(status)
    }

    /// The error to report for an operation that failed: that of the native
    /// error state, or `NoError` where the state shows none.
    pub fn take_maybe_error(&self, status: i32) -> (error: ConnectionError)
        requires
            status != XCB_CONN_CLOSED_MEM_INSUFFICIENT,
        ensures
            error == error_or_fallback(status),
    {
        match self.take_error(status) {
            Some(err) => err,
            None => ConnectionError::NoError,
        }
    }

    /// The handshake record, if it has been fetched.
    pub fn get_setup(&self) -> (setup: Option<&Setup>)
        ensures
            setup is Some <==> self.cached_setup() is Some,
            setup matches Some(record) ==> *record == self.cached_setup()->0.value(),
    {
        match &self.setup {
            Some(cached) => Some(cached.setup()),
            None => None,
        }
    }

    /// Whether the handshake record still has to be fetched.
    pub fn needs_setup(&self) -> (needed: bool)
        ensures
            needed == (self.cached_setup() is None),
    {
        self.setup.is_none()
    }

    /// Keeps a parsed handshake record, unless one is kept already: the first
    /// record stays for the life of the adapter. The result says whether the
    /// adapter has a record afterwards.
    pub fn cache_setup(&mut self, setup: Option<CachedSetup>) -> (cached: bool)
        ensures
            final(self).cached_setup() == kept_setup(old(self).cached_setup(), setup),
            cached == (final(self).cached_setup() is Some),
            final(self).same_handle(*old(self)),
            final(self).extensions() == old(self).extensions(),
            final(self).pending() == old(self).pending(),
    {
        if self.setup.is_none() {
            self.setup = setup;
        }
        self.setup.is_some()
    }

    /// Parses and keeps the handshake record in `raw`, unless one is kept
    /// already. The result says whether the adapter has a record afterwards;
    /// a record that is kept declares the length that `raw` holds.
    pub fn install_setup(&mut self, order: ByteOrder, raw: &[u8]) -> (cached: bool)
        ensures
            old(self).cached_setup() is Some ==> cached && final(self).cached_setup() == old(self).cached_setup(),
            cached == (final(self).cached_setup() is Some),
            old(self).cached_setup() is None && cached ==> holds_setup(order, raw@) && final(self).cached_setup()->0.declared_length() == setup_declared_length(order, raw@),
            final(self).same_handle(*old(self)),
            final(self).extensions() == old(self).extensions(),
            final(self).pending() == old(self).pending(),
    {
        if self.setup.is_some() {
            return true;
        }
        let parsed = CachedSetup::parse(order, raw);
        self.cache_setup(parsed)
    }

    /// Turns the identifier that the native library generated into a result:
    /// the all-ones identifier means that none could be generated.
    pub fn generate_xid_impl(&self, xid: u32, status: i32) -> (id: Result<u32, ConnectionError>)
        requires
            xid == INVALID_XID ==> status != XCB_CONN_CLOSED_MEM_INSUFFICIENT,
        ensures
            id == (if xid == INVALID_XID {
                Err(error_or_fallback(status))
            } else {
                Ok(xid)
            }),
    {
        if xid == INVALID_XID {
            Err(self.take_maybe_error(status))
        } else {
            Ok(xid)
        }
    }

    /// Turns the outcome of a native flush into a result: an outcome that is
    /// not positive means that the flush failed.
    pub fn flush_impl(&self, outcome: i32, status: i32) -> (flushed: Result<(), ConnectionError>)
        requires
            outcome <= 0 ==> status != XCB_CONN_CLOSED_MEM_INSUFFICIENT,
        ensures
            flushed == (if outcome <= 0 {
                Err(error_or_fallback(status))
            } else {
                Ok(())
            }),
    {
        if outcome <= 0 {
            Err(self.take_maybe_error(status))
        } else {
            Ok(())
        }
    }

    /// Wraps the error packet that the server sent for a request.
    pub fn wrap_error(error: CBox<u8>) -> (wrapped: ReplyError)
        ensures
            wrapped == ReplyError::Protocol(error),
    {
        ReplyError::Protocol(error)
    }

    /// Turns the outcome of the native check of a no-op request into the
    /// result of a synchronisation: no error packet means that the server has
    /// caught up.
    pub fn synchronize_impl(&self, error: Option<CBox<u8>>) -> (synced: Result<(), ReplyError>)
        ensures
            synced == (match error {
                Some(packet) => Err(ReplyError::Protocol(packet)),
                None => Ok(()),
            }),
    {
        match error {
            Some(packet) => Err(XcbDisplay::wrap_error(packet)),
            None => Ok(()),
        }
    }

    /// Brings a raw event into the decoder's layout; bytes that do not hold a
    /// whole event are a parse failure.
    pub fn parse_event(&self, order: ByteOrder, event: Vec<u8>) -> (parsed: Result<
        Vec<u8>,
        ConnectionError,
    >)
        ensures
            parsed is Ok <==> holds_event(order, event@),
            parsed matches Ok(out) ==> out@ == framed_event(order, event@),
            parsed matches Err(e) ==> e == ConnectionError::MalformedReply,
    {
        let mut event = event;
        if frame_event(order, &mut event) {
            Ok(event)
        } else {
            Err(ConnectionError::MalformedReply)
        }
    }

    /// Turns what a blocking wait for an event gave back into a result. No
    /// event means that the wait failed: with the error of the native error
    /// state, or with `EventWaitFailed` where the state shows none.
    pub fn wait_for_event_impl(
        &self,
        order: ByteOrder,
        event: Option<Vec<u8>>,
        status: i32,
    ) -> (waited: Result<Vec<u8>, ConnectionError>)
        requires
            event is None ==> status != XCB_CONN_CLOSED_MEM_INSUFFICIENT,
        ensures
            event matches Some(raw) ==> (waited is Ok <==> holds_event(order, raw@)) && (
            waited matches Ok(out) ==> out@ == framed_event(order, raw@)) && (waited matches Err(
                e,
            ) ==> e == ConnectionError::MalformedReply),
            event is None ==> waited == Err::<Vec<u8>, ConnectionError>(
                match error_of(status) {
                    Some(e) => e,
                    None => ConnectionError::EventWaitFailed,
                },
            ),
    {
        match event {
            Some(raw) => self.parse_event(order, raw),
            None => match self.take_error(status) {
                Some(err) => Err(err),
                None => Err(ConnectionError::EventWaitFailed),
            },
        }
    }

    /// Turns what a poll for an event gave back into a result. No event
    /// means that none is queued, unless the native error state shows an
    /// error.
    pub fn poll_for_event_impl(
        &self,
        order: ByteOrder,
        event: Option<Vec<u8>>,
        status: i32,
    ) -> (polled: Result<Option<Vec<u8>>, ConnectionError>)
        requires
            event is None ==> status != XCB_CONN_CLOSED_MEM_INSUFFICIENT,
        ensures
            event matches Some(raw) ==> (polled is Ok <==> holds_event(order, raw@)) && (
            polled matches Ok(out) ==> out matches Some(bytes) && bytes@ == framed_event(
                order,
                raw@,
            )) && (polled matches Err(e) ==> e == ConnectionError::MalformedReply),
            event is None ==> polled == (match error_of(status) {
                Some(e) => Err::<Option<Vec<u8>>, ConnectionError>(e),
                None => Ok(None),
            }),
    {
        match event {
            Some(raw) => match self.parse_event(order, raw) {
                Ok(out) => Ok(Some(out)),
                Err(err) => Err(err),
            },
            None => match self.take_error(status) {
                Some(err) => Err(err),
                None => Ok(None),
            },
        }
    }

    /// The registry of extensions, which the decoder of events and errors
    /// asks for the extension that a code belongs to.
    pub fn extension_manager(&self) -> (manager: &ExtensionManager)
        ensures
            manager@ == self.extensions(),
    {
        &self.extension_manager
    }

    /// Decides how the opcode of a request's extension is found: a core
    /// request needs none, a recorded extension is resolved or missing, and
    /// any other has to be asked for.
    pub fn resolve_extension(&self, extension: Option<&'static str>) -> (resolution: Resolution)
        ensures
            resolution == resolution_of(self.extensions(), extension),
    {
        match extension {
            None => Resolution::Core,
            Some(name) => match self.extension_manager.extension_code(name) {
                Some(Some(code)) => Resolution::Resolved(code),
                Some(None) => Resolution::Missing(name),
                None => Resolution::NeedsQuery(name),
            },
        }
    }

    /// Records the server's answer for an extension and gives the opcode to
    /// stamp into the request, or the error of a request whose extension the
    /// server lacks. An extension that is recorded already keeps its entry.
    pub fn record_extension(&mut self, name: &'static str, answer: QueryAnswer) -> (opcode: Result<
        u8,
        ConnectionError,
    >)
        ensures
            final(self).extensions() == recorded(old(self).extensions(), name@, answer),
            cached_code(final(self).extensions(), name@) matches Some(code) && opcode == opcode_of(
                name,
                code,
            ),
            final(self).same_handle(*old(self)),
            final(self).cached_setup() == old(self).cached_setup(),
            final(self).pending() == old(self).pending(),
    {
        let code = self.extension_manager.record_answer(name, answer);
        require_extension(name, code)
    }

    /// Completes a send: `seq` is what the native library returned for a
    /// request of kind `kind`. Zero means that the request was not sent, and
    /// the connection's error is the result. Any other number is the
    /// request's sequence number; it is recorded as pending if the reply will
    /// carry descriptors.
    pub fn send_request_impl(&mut self, kind: ReplyKind, seq: u64, status: i32) -> (sent: Result<
        u64,
        ConnectionError,
    >)
        requires
            seq == 0 ==> status != XCB_CONN_CLOSED_MEM_INSUFFICIENT,
        ensures
            sent == (if seq == 0 {
                Err(error_or_fallback(status))
            } else {
                Ok(seq)
            }),
            final(self).pending() == (if seq != 0 && kind == ReplyKind::ReplyWithFds {
                old(self).pending().insert(seq)
            } else {
                old(self).pending()
            }),
            final(self).same_handle(*old(self)),
            final(self).cached_setup() == old(self).cached_setup(),
            final(self).extensions() == old(self).extensions(),
    {
        if seq == 0 {
            return Err(self.take_maybe_error(status));
        }
        if matches!(kind, ReplyKind::ReplyWithFds) {
            self.has_fds.expect(seq);
        }
        Ok(seq)
    }

    /// Decides how many descriptors to read behind the reply to `seq`, and
    /// consumes the membership of `seq` in the pending set. A sequence number
    /// that is not pending yields none, whatever the reply holds.
    pub fn extract_fds(&mut self, reply: &[u8], seq: u64) -> (count: usize)
        ensures
            count == fd_count_of(old(self).pending(), reply@, seq),
            !old(self).pending().contains(seq) ==> count == 0,
            final(self).pending() == old(self).pending().remove(seq),
            final(self).same_handle(*old(self)),
            final(self).cached_setup() == old(self).cached_setup(),
            final(self).extensions() == old(self).extensions(),
    {
        self.has_fds.extract_fds(reply, seq)
    }

    /// Turns what a poll for the reply to `seq` gave back into a result:
    /// nothing while the server has not answered, the reply with the number
    /// of descriptors to read behind it, or the server's error. Only a reply
    /// consumes the membership of `seq` in the pending set.
    pub fn poll_for_reply_impl(
        &mut self,
        seq: u64,
        found: i32,
        reply: Option<CBox<u8>>,
        error: Option<CBox<u8>>,
    ) -> (polled: Result<Option<FetchedReply>, ReplyError>)
        requires
            found != 0 ==> !(reply is Some && error is Some),
        ensures
            match polled_state(found, reply is Some, error is Some) {
                ReplyState::Reply => polled matches Ok(Some(fetched)) && fetched.buffer()
                    == reply->0 && fetched.expected_fds() == fd_count_of(
                    old(self).pending(),
                    reply->0@,
                    seq,
                ) && final(self).pending() == old(self).pending().remove(seq),
                ReplyState::ProtocolError => polled == Err::<Option<FetchedReply>, ReplyError>(
                    ReplyError::Protocol(error->0),
                ) && final(self).pending() == old(self).pending(),
                _ => polled == Ok::<Option<FetchedReply>, ReplyError>(None) && final(self).pending() == old(self).pending(),
            },
            final(self).same_handle(*old(self)),
            final(self).cached_setup() == old(self).cached_setup(),
            final(self).extensions() == old(self).extensions(),
    {
        match classify_poll(found, reply.is_some(), error.is_some()) {
            ReplyState::Reply => match reply {
                Some(buffer) => {
                    let count = self.extract_fds(buffer.as_ref(), seq);
                    Ok(Some(FetchedReply::new(buffer, count)))
                },
                None => Ok(None),
            },
            ReplyState::ProtocolError => match error {
                Some(packet) => Err(XcbDisplay::wrap_error(packet)),
                None => Ok(None),
            },
            _ => Ok(None),
        }
    }

    /// Turns what a blocking wait for the reply to `seq` gave back into a
    /// result: the reply with the number of descriptors to read behind it,
    /// the server's error, or, where the wait gave back neither, the
    /// connection's error. Only a reply consumes the membership of `seq` in
    /// the pending set.
    pub fn wait_for_reply_impl(
        &mut self,
        seq: u64,
        reply: Option<CBox<u8>>,
        error: Option<CBox<u8>>,
        status: i32,
    ) -> (waited: Result<FetchedReply, ReplyError>)
        requires
            !(reply is Some && error is Some),
            reply is None && error is None ==> status != XCB_CONN_CLOSED_MEM_INSUFFICIENT,
        ensures
            match waited_state(reply is Some, error is Some) {
                ReplyState::Reply => waited matches Ok(fetched) && fetched.buffer() == reply->0
                    && fetched.expected_fds() == fd_count_of(
                    old(self).pending(),
                    reply->0@,
                    seq,
                ) && final(self).pending() == old(self).pending().remove(seq),
                ReplyState::ProtocolError => waited == Err::<FetchedReply, ReplyError>(
                    ReplyError::Protocol(error->0),
                ) && final(self).pending() == old(self).pending(),
                _ => waited == Err::<FetchedReply, ReplyError>(
                    ReplyError::Connection(error_or_fallback(status)),
                ) && final(self).pending() == old(self).pending(),
            },
            final(self).same_handle(*old(self)),
            final(self).cached_setup() == old(self).cached_setup(),
            final(self).extensions() == old(self).extensions(),
    {
        match classify_wait(reply.is_some(), error.is_some()) {
            ReplyState::Reply => match reply {
                Some(buffer) => {
                    let count = self.extract_fds(buffer.as_ref(), seq);
                    Ok(FetchedReply::new(buffer, count))
                },
                None => Err(ReplyError::Connection(ConnectionError::NoError)),
            },
            ReplyState::ProtocolError => match error {
                Some(packet) => Err(XcbDisplay::wrap_error(packet)),
                None => Err(ReplyError::Connection(ConnectionError::NoError)),
            },
            _ => Err(ReplyError::Connection(self.take_maybe_error(status))),
        }
    }
}

} // verus!
