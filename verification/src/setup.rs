//! The server's handshake record, parsed once and kept.

use crate::wire::{field_u16, read_u16, setup_declared_length, setup_length_of, ByteOrder};
use breadx::protocol::xproto::Setup;
use breadx::x11_utils::TryParse;
use vstd::prelude::*;
use vstd::slice::slice_subrange;

verus! {

/// The handshake record of `breadx`, carried through as it was parsed:
/// nothing is said of what it holds.
#[verifier::external_type_specification]
#[verifier::external_body]
pub struct ExSetup(Setup);

/// `Setup::try_parse`, with the record's length field beside the record.
/// Where the bytes parse, there are at least the eight that end with the
/// length field, and the field holds what they encode in the machine's byte
/// order, which is one of the two.
#[verifier::external_body]
fn parse_setup(bytes: &[u8]) -> (parsed: Option<(u16, Setup)>)
    ensures
        parsed matches Some((length, _)) ==> bytes@.len() >= 8 && (length == field_u16(
            ByteOrder::Little,
            bytes@,
            6,
        ) || length == field_u16(ByteOrder::Big, bytes@, 6)),
{
    match Setup::try_parse(bytes) {
        Ok((setup, _)) => Some((setup.length, setup)),
        Err(_) => None,
    }
}

/// A parsed handshake record, with the length that it declares.
pub struct CachedSetup {
    declared: u16,
    value: Setup,
}

/// Whether `raw` starts with a whole handshake record: the eight bytes that
/// end with the length field, and as many bytes as the field declares.
pub open spec fn holds_setup(order: ByteOrder, raw: Seq<u8>) -> bool {
    raw.len() >= 8 && raw.len() >= setup_length_of(setup_declared_length(order, raw))
}

/// The record that an adapter keeps once `offered` comes in: the one that it
/// has already, if it has one.
pub open spec fn kept_setup(cached: Option<CachedSetup>, offered: Option<CachedSetup>) -> Option<
    CachedSetup,
> {
    if cached is Some {
        cached
    } else {
        offered
    }
}

/// A record that is kept stays: whatever is offered later, the adapter keeps
/// the same record, so that it is fetched once and read alike ever after.
pub proof fn lemma_setup_kept_once(
    cached: Option<CachedSetup>,
    first: CachedSetup,
    later: Option<CachedSetup>,
)
    ensures
        kept_setup(cached, Some(first)) is Some,
        kept_setup(kept_setup(cached, Some(first)), later) == kept_setup(cached, Some(first)),
{
}

impl CachedSetup {
    /// The value of the record's length field.
    pub closed spec fn declared_length(self) -> u16 {
        self.declared
    }

    /// The parsed record.
    pub closed spec fn value(self) -> Setup {
        self.value
    }

    /// Keeps the outcome of a parse of `raw`, if it is a record and its length
    /// field agrees with the one that `raw` declares in byte order `order`.
    pub fn from_parsed(order: ByteOrder, raw: &[u8], parsed: Option<(u16, Setup)>) -> (cached:
        Option<CachedSetup>)
        ensures
            cached is Some <==> holds_setup(order, raw@) && (parsed matches Some((length, _))
                && length == setup_declared_length(order, raw@)),
            cached matches Some(c) ==> c.declared_length() == setup_declared_length(order, raw@)
                && setup_length_of(c.declared_length() as int) <= raw@.len(),
    {
        let (declared, value) = match parsed {
            Some(pair) => pair,
            None => { return None; },
        };
        if raw.len() < 8 {
            return None;
        }
        if read_u16(order, raw, 6) != declared {
            return None;
        }
        if raw.len() < 8 + 4 * (declared as usize) {
            return None;
        }
        Some(CachedSetup { declared, value })
    }

    /// Parses the handshake record at the start of `raw`, cut to the length
    /// that it declares. `None` where `raw` does not hold a whole record,
    /// where the record does not parse, or where the parsed length field is
    /// not the declared one.
    pub fn parse(order: ByteOrder, raw: &[u8]) -> (cached: Option<CachedSetup>)
        ensures
            cached is Some ==> holds_setup(order, raw@),
            cached matches Some(c) ==> c.declared_length() == setup_declared_length(order, raw@)
                && setup_length_of(c.declared_length() as int) <= raw@.len(),
    {
        if raw.len() < 8 {
            return None;
        }
        let declared = read_u16(order, raw, 6);
        let total: usize = 8 + 4 * (declared as usize);
        if raw.len() < total {
            return None;
        }
        let record = slice_subrange(raw, 0, total);
        let parsed = parse_setup(record);
        Self::from_parsed(order, record, parsed)
    }

    /// The length field of the record.
    pub fn length(&self) -> (declared: u16)
        ensures
            declared == self.declared_length(),
    {
        self.declared
    }

    /// The parsed record.
    pub fn setup(&self) -> (setup: &Setup)
        ensures
            *setup == self.value(),
    {
        &self.value
    }
}

} // verus!
