//! The adapter for a connection that the legacy library opened: one native
//! display drives both the legacy library's clients and the protocol adapter.

use crate::display::XcbDisplay;
use crate::error::ConnectionError;
use crate::handle::NativeHandle;
use crate::sealed::Sealed;
use core::cell::Cell;
use core::marker::PhantomData;
use vstd::prelude::*;

verus! {

/// `core::cell::Cell`, which only marks a type as not to be shared between
/// threads: nothing is said of what it holds.
#[verifier::external_type_specification]
#[verifier::external_body]
#[verifier::reject_recursive_types(T)]
pub struct ExCell<T: ?Sized>(Cell<T>);

/// Says whether a legacy display may be used from several threads at once.
pub trait ThreadSafety: Sealed {
    /// Whether the legacy library's thread support has to be initialised
    /// before a display of this kind is opened.
    spec fn threaded() -> bool;

    /// Whether the legacy library's thread support has to be initialised
    /// before a display of this kind is opened.
    fn needs_initialization() -> (needed: bool)
        ensures
            needed == Self::threaded(),
    ;

    /// Judges the status that the legacy library's thread initialisation
    /// returned, which is zero where it failed. A kind that needs no
    /// initialisation accepts any status.
    fn initialize(status: i32) -> (ready: Result<(), ConnectionError>)
        ensures
            ready == (if Self::threaded() && status == 0 {
                Err(ConnectionError::ThreadInitFailed)
            } else {
                Ok(())
            }),
    ;
}

/// The display is not thread safe: it can be handed from thread to thread,
/// but not be used by two at once.
pub struct ThreadUnsafe {
    _private: PhantomData<Cell<()>>,
}

/// The display is thread safe.
pub struct ThreadSafe {
    _private: (),
}

impl Sealed for ThreadUnsafe {

}

impl Sealed for ThreadSafe {

}

impl ThreadSafety for ThreadUnsafe {
    open spec fn threaded() -> bool {
        false
    }

    fn needs_initialization() -> (needed: bool) {
        false
    }

    fn initialize(status: i32) -> (ready: Result<(), ConnectionError>) {
        Ok(())
    }
}

impl ThreadSafety for ThreadSafe {
    open spec fn threaded() -> bool {
        true
    }

    fn needs_initialization() -> (needed: bool) {
        true
    }

    fn initialize(status: i32) -> (ready: Result<(), ConnectionError>) {
        match status {
            0 => Err(ConnectionError::ThreadInitFailed),
            _ => Ok(()),
        }
    }
}

/// An adapter around a display of the legacy library and the native
/// connection inside it.
pub struct XlibDisplay<TS> {
    /// The adapter around the display's native connection. It does not own
    /// the connection: the legacy display does.
    xcb: XcbDisplay,
    /// The legacy display, and whether it is closed when the adapter goes.
    display: NativeHandle,
    _phantom: PhantomData<TS>,
}

impl<TS> XlibDisplay<TS> {
    /// The adapter around the display's native connection.
    pub closed spec fn inner(self) -> XcbDisplay {
        self.xcb
    }

    /// Address of the legacy display.
    pub closed spec fn display(self) -> usize {
        self.display.address()
    }

    /// Whether the adapter is the one to close the legacy display.
    pub closed spec fn owns_display(self) -> bool {
        self.display.owned()
    }

    /// Whether an adapter is in the state of one that was just made around
    /// the given legacy display and the native connection inside it.
    pub open spec fn is_fresh(self, ptr: usize, disconnect: bool, screen: usize, xcb: usize)
        -> bool {
        &&& self.display() == ptr
        &&& self.owns_display() == disconnect
        &&& self.inner().is_fresh(xcb, false, screen)
    }

    /// Address of the legacy display; it is not null.
    pub fn as_xlib_connection(&self) -> (ptr: usize)
        ensures
            ptr == self.display(),
            ptr != 0,
    {
        self.display.as_ptr()
    }

    /// Address of the native connection inside the legacy display; it is not
    /// null.
    pub fn as_xcb_connection(&self) -> (ptr: usize)
        ensures
            ptr == self.inner().connection(),
            ptr != 0,
    {
        self.xcb.as_ptr()
    }

    /// Whether the legacy display is to be closed when the adapter goes.
    pub fn disconnects_on_drop(&self) -> (disconnect: bool)
        ensures
            disconnect == self.owns_display(),
    {
        self.display.is_owned()
    }

    /// The adapter around the display's native connection.
    pub fn xcb(&self) -> (xcb: &XcbDisplay)
        ensures
            *xcb == self.inner(),
    {
        &self.xcb
    }

    /// The adapter around the display's native connection, to work on. The
    /// legacy display stays as it is.
    pub fn xcb_mut(&mut self) -> (xcb: &mut XcbDisplay)
        ensures
            *xcb == old(self).inner(),
            final(self).inner() == *final(xcb),
            final(self).display() == old(self).display(),
            final(self).owns_display() == old(self).owns_display(),
    {
        &mut self.xcb
    }
}

impl<TS: ThreadSafety> XlibDisplay<TS> {
    /// Adopts the legacy display at `ptr`, which is not null, with its
    /// default screen and the native connection inside it, at `xcb`. The
    /// adapter around the native connection never closes it: that is the
    /// legacy display's part.
    pub fn from_ptr(ptr: usize, disconnect: bool, screen: i32, xcb: usize) -> (display: Self)
        requires
            ptr != 0,
            xcb != 0,
        ensures
            display.is_fresh(ptr, disconnect, screen as usize, xcb),
            !display.inner().owns_connection(),
    {
        let inner = XcbDisplay::from_ptr(xcb, false, #[verifier::truncate] (screen as usize));
        XlibDisplay { xcb: inner, display: NativeHandle::new(ptr, disconnect), _phantom: PhantomData }
    }

    /// Adopts the legacy display that the legacy library opened at `ptr`,
    /// which is null where opening failed. The adapter owns the display.
    pub fn connect(ptr: usize, screen: i32, xcb: usize) -> (display: Result<Self, ConnectionError>)
        requires
            ptr != 0 ==> xcb != 0,
        ensures
            display is Ok <==> ptr != 0,
            display matches Ok(d) ==> d.is_fresh(ptr, true, screen as usize, xcb),
            display matches Err(e) ==> e == ConnectionError::ConnectFailed,
    {
        if ptr == 0 {
            return Err(ConnectionError::ConnectFailed);
        }
        Ok(Self::from_ptr(ptr, true, screen, xcb))
    }
}

} // verus!
