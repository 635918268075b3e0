//! Framing of the byte buffers that the native library hands out: the
//! handshake record, replies and events.

use vstd::prelude::*;

verus! {

/// The order in which the bytes of a multi-byte field are laid out.
#[derive(Debug, Clone, Copy, PartialEq, Eq)]
pub enum ByteOrder {
    /// Least significant byte first.
    Little,
    /// Most significant byte first.
    Big,
}

/// Length of the fixed part of the handshake record that precedes the
/// counted part.
pub const SETUP_PREFIX_LEN: usize = 8;

/// Length of the fixed header of replies and events.
pub const HEADER_LEN: usize = 32;

/// Event code, in the low seven bits of the first byte, of a generic event.
pub const GENERIC_EVENT: u8 = 35;

/// Width of the sequence number that the native library embeds behind the
/// header of a generic event.
pub const EMBEDDED_SEQUENCE_LEN: usize = 4;

/// The 16-bit value that two bytes encode.
pub open spec fn decode_u16(order: ByteOrder, b0: u8, b1: u8) -> int {
    match order {
        ByteOrder::Little => b0 as int + 256 * (b1 as int),
        ByteOrder::Big => b1 as int + 256 * (b0 as int),
    }
}

/// The 32-bit value that four bytes encode.
pub open spec fn decode_u32(order: ByteOrder, b0: u8, b1: u8, b2: u8, b3: u8) -> int {
    match order {
        ByteOrder::Little => {
            b0 as int + 256 * (b1 as int) + 65536 * (b2 as int) + 16777216 * (b3 as int)
        },
        ByteOrder::Big => {
            b3 as int + 256 * (b2 as int) + 65536 * (b1 as int) + 16777216 * (b0 as int)
        },
    }
}

/// The 16-bit field at `at` in `bytes`.
pub open spec fn field_u16(order: ByteOrder, bytes: Seq<u8>, at: int) -> int
    recommends
        0 <= at,
        at + 2 <= bytes.len(),
{
    decode_u16(order, bytes[at], bytes[at + 1])
}

/// The 32-bit field at `at` in `bytes`.
pub open spec fn field_u32(order: ByteOrder, bytes: Seq<u8>, at: int) -> int
    recommends
        0 <= at,
        at + 4 <= bytes.len(),
{
    decode_u32(order, bytes[at], bytes[at + 1], bytes[at + 2], bytes[at + 3])
}

/// Reads the 16-bit field at `at`.
pub fn read_u16(order: ByteOrder, bytes: &[u8], at: usize) -> (value: u16)
    requires
        at + 2 <= bytes@.len(),
    ensures
        value == field_u16(order, bytes@, at as int),
{
    let b0: u16 = bytes[at] as u16;
    let b1: u16 = bytes[at + 1] as u16;
    match order {
        ByteOrder::Little => b0 + 256 * b1,
        ByteOrder::Big => b1 + 256 * b0,
    }
}

/// Reads the 32-bit field at `at`.
pub fn read_u32(order: ByteOrder, bytes: &[u8], at: usize) -> (value: u32)
    requires
        at + 4 <= bytes@.len(),
    ensures
        value == field_u32(order, bytes@, at as int),
{
    let b0: u32 = bytes[at] as u32;
    let b1: u32 = bytes[at + 1] as u32;
    let b2: u32 = bytes[at + 2] as u32;
    let b3: u32 = bytes[at + 3] as u32;
    match order {
        ByteOrder::Little => b0 + 256 * b1 + 65536 * b2 + 16777216 * b3,
        ByteOrder::Big => b3 + 256 * b2 + 65536 * b1 + 16777216 * b0,
    }
}

/// Total length of a handshake record whose length field holds `declared`.
pub open spec fn setup_length_of(declared: int) -> int {
    8 + 4 * declared
}

/// The length field of a handshake record: the 16-bit field at offset 6.
pub open spec fn setup_declared_length(order: ByteOrder, header: Seq<u8>) -> int
    recommends
        header.len() >= 8,
{
    field_u16(order, header, 6)
}

/// Total length of the handshake record that starts with `header`, or `None`
/// where `header` is shorter than the eight bytes that hold the length field.
pub fn setup_total_length(order: ByteOrder, header: &[u8]) -> (total: Option<usize>)
    ensures
        total.is_some() <==> header@.len() >= 8,
        total matches Some(n) ==> n == setup_length_of(setup_declared_length(order, header@)),
{
    if header.len() < SETUP_PREFIX_LEN {
        return None;
    }
    let declared: u16 = read_u16(order, header, 6);
    let counted: usize = declared as usize * 4;
    Some(counted + SETUP_PREFIX_LEN)
}

/// Total length of a reply whose length field holds `declared`.
pub open spec fn reply_length_of(declared: int) -> int {
    32 + 4 * declared
}

/// The length field of a reply or of a generic event: the 32-bit field at
/// offset 4.
pub open spec fn extended_length(order: ByteOrder, header: Seq<u8>) -> int
    recommends
        header.len() >= 8,
{
    field_u32(order, header, 4)
}

/// Total length of the reply that starts with `header`. `None` where `header`
/// is shorter than the fixed header of 32 bytes, or where the total does not
/// fit the machine's address width.
pub fn reply_total_length(order: ByteOrder, header: &[u8]) -> (total: Option<usize>)
    ensures
        total.is_some() <==> header@.len() >= 32 && reply_length_of(
            extended_length(order, header@),
        ) <= usize::MAX,
        total matches Some(n) ==> n == reply_length_of(extended_length(order, header@)),
{
    if header.len() < HEADER_LEN {
        return None;
    }
    let declared: u32 = read_u32(order, header, 4);
    let wide: u64 = 32 + 4 * (declared as u64);
    if wide > usize::MAX as u64 {
        None
    } else {
        Some(wide as usize)
    }
}

/// Whether the first header byte marks a generic event: its low seven bits
/// hold the generic event code.
pub open spec fn is_generic(first: u8) -> bool {
    first & 0x7F == GENERIC_EVENT
}

/// Number of bytes that the native library holds for the event that starts
/// with `header`: the header alone, or for a generic event the header, the
/// embedded sequence number and the counted data.
pub open spec fn event_raw_length_of(order: ByteOrder, header: Seq<u8>) -> int
    recommends
        header.len() >= 32,
{
    if is_generic(header[0]) {
        32 + 4 + 4 * extended_length(order, header)
    } else {
        32
    }
}

/// Number of bytes of the event once the embedded sequence number is gone.
pub open spec fn event_length_of(order: ByteOrder, header: Seq<u8>) -> int
    recommends
        header.len() >= 32,
{
    if is_generic(header[0]) {
        32 + 4 * extended_length(order, header)
    } else {
        32
    }
}

/// The event as the decoder expects it: the header, and for a generic event
/// the counted data that followed the embedded sequence number.
pub open spec fn framed_event(order: ByteOrder, raw: Seq<u8>) -> Seq<u8>
    recommends
        raw.len() >= 32,
        raw.len() >= event_raw_length_of(order, raw),
{
    if is_generic(raw[0]) {
        raw.subrange(0, 32) + raw.subrange(36, 36 + 4 * extended_length(order, raw))
    } else {
        raw.subrange(0, 32)
    }
}

/// Whether `raw` holds a whole event.
pub open spec fn holds_event(order: ByteOrder, raw: Seq<u8>) -> bool {
    raw.len() >= 32 && raw.len() >= event_raw_length_of(order, raw)
}

/// Number of bytes to take from the native library for the event that starts
/// with `header`. `None` where `header` is shorter than the fixed header, or
/// where the number does not fit the machine's address width.
pub fn event_raw_length(order: ByteOrder, header: &[u8]) -> (total: Option<usize>)
    ensures
        total.is_some() <==> header@.len() >= 32 && event_raw_length_of(order, header@)
            <= usize::MAX,
        total matches Some(n) ==> n == event_raw_length_of(order, header@),
{
    if header.len() < HEADER_LEN {
        return None;
    }
    if header[0] & 0x7F == GENERIC_EVENT {
        let declared: u32 = read_u32(order, header, 4);
        let wide: u64 = 36 + 4 * (declared as u64);
        if wide > usize::MAX as u64 {
            None
        } else {
            Some(wide as usize)
        }
    } else {
        Some(HEADER_LEN)
    }
}

/// Brings a raw event into the layout that the decoder expects. For a generic
/// event the counted data is moved four bytes towards the front, over the
/// embedded sequence number, and the buffer is cut to the header and the
/// data; any other event is cut to its header. A buffer that does not hold a
/// whole event is left as it is, and the result is `false`.
pub fn frame_event(order: ByteOrder, raw: &mut Vec<u8>) -> (framed: bool)
    ensures
        framed == holds_event(order, old(raw)@),
        framed ==> final(raw)@ == framed_event(order, old(raw)@),
        framed ==> final(raw)@.len() == event_length_of(order, old(raw)@),
        !framed ==> final(raw)@ == old(raw)@,
{
    let held: usize = raw.len();
    let needed = match event_raw_length(order, raw.as_slice()) {
        Some(n) => n,
        None => { return false; },
    };
    if held < needed {
        return false;
    }
    if needed == HEADER_LEN {
        raw.truncate(HEADER_LEN);
        assert(raw@ == old(raw)@.subrange(0, 32));
        return true;
    }
    let data_len: usize = needed - HEADER_LEN - EMBEDDED_SEQUENCE_LEN;
    let mut i: usize = 0;
    while i < data_len
        invariant
            i <= data_len,
            data_len + 36 == needed,
            needed <= raw@.len(),
            raw@.len() == old(raw)@.len(),
            forall|k: int| 0 <= k < 32 ==> raw@[k] == old(raw)@[k],
            forall|k: int| 32 <= k < 32 + i ==> raw@[k] == old(raw)@[k + 4],
            forall|k: int| 32 + i <= k < raw@.len() ==> raw@[k] == old(raw)@[k],
        decreases data_len - i,
    {
        let byte = raw[i + 36];
        raw.set(i + 32, byte);
        i += 1;
    }
    raw.truncate(HEADER_LEN + data_len);
    assert(raw@ =~= framed_event(order, old(raw)@));
    true
}

/// The generic-event correction leaves the header as it was and brings each
/// byte of the counted data four places forward: the four bytes that held the
/// sequence number are gone.
pub proof fn lemma_frame_generic_event(order: ByteOrder, raw: Seq<u8>)
    requires
        holds_event(order, raw),
        is_generic(raw[0]),
    ensures
        framed_event(order, raw).len() == 32 + 4 * extended_length(order, raw),
        forall|k: int| 0 <= k < 32 ==> framed_event(order, raw)[k] == raw[k],
        forall|k: int|
            32 <= k < 32 + 4 * extended_length(order, raw) ==> framed_event(order, raw)[k]
                == raw[k + 4],
{
}

} // verus!
