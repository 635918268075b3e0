use breadx_shim::wire::{
    event_raw_length, frame_event, read_u16, read_u32, reply_total_length, setup_total_length,
    ByteOrder, GENERIC_EVENT, HEADER_LEN,
};

fn numbered(len: usize) -> Vec<u8> {
    (0..len).map(|i| (i % 251) as u8).collect()
}

#[test]
fn fields_are_read_in_either_byte_order() {
    let bytes = [0x12u8, 0x34, 0x56, 0x78, 0x9A];
    assert_eq!(read_u16(ByteOrder::Little, &bytes, 0), 0x3412);
    assert_eq!(read_u16(ByteOrder::Big, &bytes, 0), 0x1234);
    assert_eq!(read_u16(ByteOrder::Little, &bytes, 3), 0x9A78);
    assert_eq!(read_u32(ByteOrder::Little, &bytes, 0), 0x7856_3412);
    assert_eq!(read_u32(ByteOrder::Big, &bytes, 1), 0x3456_789A);
    assert_eq!(read_u32(ByteOrder::Big, &[0xFF; 4], 0), u32::MAX);
    assert_eq!(read_u16(ByteOrder::Little, &[0xFF; 2], 0), u16::MAX);
}

#[test]
fn fields_agree_with_the_machine_in_its_own_order() {
    let bytes = [0x12u8, 0x34, 0x56, 0x78];
    let order = if u16::from_ne_bytes([1, 0]) == 1 { ByteOrder::Little } else { ByteOrder::Big };
    assert_eq!(read_u16(order, &bytes, 0), u16::from_ne_bytes([0x12, 0x34]));
    assert_eq!(read_u32(order, &bytes, 0), u32::from_ne_bytes(bytes));
}

#[test]
fn setup_length_is_eight_plus_four_times_the_field() {
    let mut header = [0u8; 8];
    assert_eq!(setup_total_length(ByteOrder::Little, &header), Some(8));
    header[6] = 2;
    header[7] = 1;
    assert_eq!(setup_total_length(ByteOrder::Little, &header), Some(8 + 4 * 258));
    assert_eq!(setup_total_length(ByteOrder::Big, &header), Some(8 + 4 * 513));
    header[6] = 0xFF;
    header[7] = 0xFF;
    assert_eq!(setup_total_length(ByteOrder::Big, &header), Some(8 + 4 * 65535));
}

#[test]
fn setup_length_needs_the_whole_prefix() {
    assert_eq!(setup_total_length(ByteOrder::Little, &[]), None);
    assert_eq!(setup_total_length(ByteOrder::Little, &[0; 7]), None);
    assert_eq!(setup_total_length(ByteOrder::Little, &[0; 9]), Some(8));
}

#[test]
fn reply_length_is_thirty_two_plus_four_times_the_field() {
    let mut header = [0u8; 32];
    assert_eq!(reply_total_length(ByteOrder::Little, &header), Some(32));
    header[4] = 3;
    assert_eq!(reply_total_length(ByteOrder::Little, &header), Some(44));
    assert_eq!(reply_total_length(ByteOrder::Big, &header), Some(32 + 4 * 0x0300_0000));
    header[4] = 0;
    header[7] = 5;
    assert_eq!(reply_total_length(ByteOrder::Big, &header), Some(52));
    assert_eq!(reply_total_length(ByteOrder::Big, &header[..31]), None);
}

#[test]
fn plain_event_is_its_header() {
    let raw = numbered(32);
    assert_eq!(event_raw_length(ByteOrder::Little, &raw), Some(32));
    let mut event = raw.clone();
    assert!(frame_event(ByteOrder::Little, &mut event));
    assert_eq!(event, raw);

    let mut longer = numbered(48);
    assert!(frame_event(ByteOrder::Little, &mut longer));
    assert_eq!(longer, raw);
}

#[test]
fn generic_event_loses_its_embedded_sequence_number() {
    // header, four bytes of sequence number, eight bytes of data
    let mut raw = numbered(44);
    raw[0] = GENERIC_EVENT;
    raw[4] = 2;
    raw[5] = 0;
    raw[6] = 0;
    raw[7] = 0;
    assert_eq!(event_raw_length(ByteOrder::Little, &raw), Some(44));

    let mut event = raw.clone();
    assert!(frame_event(ByteOrder::Little, &mut event));
    assert_eq!(event.len(), 32 + 8);
    assert_eq!(&event[..32], &raw[..32]);
    assert_eq!(&event[32..36], &raw[36..40]);
    assert_eq!(&event[32..], &raw[36..44]);
}

#[test]
fn generic_event_is_told_by_its_low_seven_bits() {
    let mut raw = numbered(40);
    raw[0] = GENERIC_EVENT | 0x80;
    raw[4] = 0;
    raw[5] = 0;
    raw[6] = 0;
    raw[7] = 1;
    assert_eq!(event_raw_length(ByteOrder::Big, &raw), Some(40));
    let mut event = raw.clone();
    assert!(frame_event(ByteOrder::Big, &mut event));
    assert_eq!(event.len(), 36);
    assert_eq!(&event[32..36], &raw[36..40]);

    raw[0] = 34;
    assert_eq!(event_raw_length(ByteOrder::Big, &raw), Some(32));
}

#[test]
fn generic_event_without_data_is_its_header() {
    let mut raw = numbered(36);
    raw[0] = GENERIC_EVENT;
    raw[4] = 0;
    raw[5] = 0;
    raw[6] = 0;
    raw[7] = 0;
    let mut event = raw.clone();
    assert!(frame_event(ByteOrder::Little, &mut event));
    assert_eq!(event, raw[..32].to_vec());
}

#[test]
fn short_buffers_hold_no_event() {
    let mut short = numbered(31);
    let before = short.clone();
    assert_eq!(event_raw_length(ByteOrder::Little, &short), None);
    assert!(!frame_event(ByteOrder::Little, &mut short));
    assert_eq!(short, before);

    // a generic event that declares more data than the buffer holds
    let mut cut = numbered(43);
    cut[0] = GENERIC_EVENT;
    cut[4] = 2;
    cut[5] = 0;
    cut[6] = 0;
    cut[7] = 0;
    let before = cut.clone();
    assert!(!frame_event(ByteOrder::Little, &mut cut));
    assert_eq!(cut, before);

    let mut empty: Vec<u8> = Vec::new();
    assert!(!frame_event(ByteOrder::Big, &mut empty));
    assert!(empty.is_empty());
}

#[test]
fn generic_event_code_is_the_protocol_s() {
    assert_eq!(GENERIC_EVENT, breadx::protocol::xproto::GE_GENERIC_EVENT);
    assert_eq!(HEADER_LEN, 32);
}
