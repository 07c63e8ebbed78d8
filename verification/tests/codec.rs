//! Tests for the fixed-width extraction, the attribute walker and the
//! string extraction.

use netlink_wi::bytes::{parse_attrs, u16_le_bytes, u32_le_bytes, u64_le_bytes, TlvAttr};

fn attr(code: u16, payload: Vec<u8>) -> TlvAttr {
    TlvAttr { code, payload }
}

#[test]
fn u8_round_trip() {
    for v in [0u8, 1, 127, 128, 255] {
        let a = attr(1, vec![v]);
        assert_eq!(a.as_u8(), Some(v));
    }
    assert_eq!(attr(1, vec![]).as_u8(), None);
    assert_eq!(attr(1, vec![1, 2]).as_u8(), None);
}

#[test]
fn u16_round_trip() {
    for v in [0u16, 1, 0x1234, 0x8000, u16::MAX] {
        let a = attr(1, u16_le_bytes(v));
        assert_eq!(a.as_u16(), Some(v));
    }
    assert_eq!(attr(1, vec![1]).as_u16(), None);
    assert_eq!(attr(1, vec![1, 2, 3]).as_u16(), None);
}

#[test]
fn u32_round_trip() {
    for v in [0u32, 1, 2412, 0xDEAD_BEEF, u32::MAX] {
        let a = attr(1, u32_le_bytes(v));
        assert_eq!(a.as_u32(), Some(v));
    }
    assert_eq!(attr(1, vec![1, 2]).as_u32(), None);
    assert_eq!(attr(1, vec![1, 2, 3, 4, 5]).as_u32(), None);
}

#[test]
fn u64_round_trip() {
    for v in [0u64, 1, 0x0123_4567_89AB_CDEF, u64::MAX] {
        let a = attr(1, u64_le_bytes(v));
        assert_eq!(a.as_u64(), Some(v));
    }
    assert_eq!(attr(1, vec![0, 0, 0, 0]).as_u64(), None);
}

#[test]
fn le_encoding_is_little_endian() {
    assert_eq!(u16_le_bytes(0x1234), vec![0x34, 0x12]);
    assert_eq!(u32_le_bytes(0x0102_0304), vec![0x04, 0x03, 0x02, 0x01]);
    assert_eq!(
        u64_le_bytes(0x0102_0304_0506_0708),
        vec![0x08, 0x07, 0x06, 0x05, 0x04, 0x03, 0x02, 0x01]
    );
}

#[test]
fn bool_extraction() {
    assert_eq!(attr(1, vec![0]).as_bool(), Some(false));
    assert_eq!(attr(1, vec![1]).as_bool(), Some(true));
    assert_eq!(attr(1, vec![7]).as_bool(), Some(true));
    assert_eq!(attr(1, vec![]).as_bool(), None);
    assert_eq!(attr(1, vec![0, 0]).as_bool(), None);
}

#[test]
fn i8_extraction() {
    assert_eq!(attr(1, vec![0]).as_i8(), Some(0));
    assert_eq!(attr(1, vec![127]).as_i8(), Some(127));
    assert_eq!(attr(1, vec![0xBA]).as_i8(), Some(-70));
    assert_eq!(attr(1, vec![0xFF]).as_i8(), Some(-1));
    assert_eq!(attr(1, vec![]).as_i8(), None);
}

/// Encodes one wire attribute with its header and padding, as the kernel
/// frames them.
fn encode_attr(code: u16, payload: &[u8]) -> Vec<u8> {
    let total = 4 + payload.len();
    let mut out = Vec::new();
    out.extend_from_slice(&(total as u16).to_le_bytes());
    out.extend_from_slice(&code.to_le_bytes());
    out.extend_from_slice(payload);
    while out.len() % 4 != 0 {
        out.push(0);
    }
    out
}

#[test]
fn walker_reads_attributes_in_order() {
    let mut buf = encode_attr(3, &5u32.to_le_bytes());
    buf.extend_from_slice(&encode_attr(4, b"wlan0\0"));
    let attrs = parse_attrs(&buf).expect("well-formed buffer");
    assert_eq!(attrs.len(), 2);
    assert_eq!(attrs[0].code, 3);
    assert_eq!(attrs[0].payload, 5u32.to_le_bytes().to_vec());
    assert_eq!(attrs[1].code, 4);
    assert_eq!(attrs[1].payload, b"wlan0\0".to_vec());
}

#[test]
fn walker_rejects_malformed_buffers() {
    // Truncated header.
    assert!(parse_attrs(&[4, 0, 1]).is_none());
    // Length under the four header bytes.
    assert!(parse_attrs(&[3, 0, 1, 0]).is_none());
    // Length past the end of the buffer.
    assert!(parse_attrs(&[9, 0, 1, 0, 0xAA]).is_none());
    // The empty buffer holds no attributes and is well-formed.
    assert_eq!(parse_attrs(&[]).expect("empty").len(), 0);
}

#[test]
fn nested_attributes_walk_recursively() {
    let inner = encode_attr(1, &2412u32.to_le_bytes());
    let outer = encode_attr(22, &inner);
    let attrs = parse_attrs(&outer).expect("well-formed buffer");
    assert_eq!(attrs.len(), 1);
    let nested = attrs[0].as_nested().expect("well-formed nested payload");
    assert_eq!(nested.len(), 1);
    assert_eq!(nested[0].code, 1);
    assert_eq!(nested[0].as_u32(), Some(2412));
}

#[test]
fn string_extraction_trims_trailing_nuls() {
    assert_eq!(attr(4, b"wlan0\0".to_vec()).as_string(), "wlan0");
    assert_eq!(attr(4, b"wlan0\0\0\0".to_vec()).as_string(), "wlan0");
    assert_eq!(attr(4, b"wlan0".to_vec()).as_string(), "wlan0");
    assert_eq!(attr(4, b"".to_vec()).as_string(), "");
}

#[test]
fn string_extraction_replaces_invalid_sequences() {
    // 0xFF is no valid UTF-8 byte: the replacement character appears, so
    // the bytes do not pass through unchanged.
    let s = attr(4, vec![0x61, 0xFF, 0x62]).as_string();
    assert_eq!(s, "a\u{FFFD}b");
}

#[test]
fn untrimmed_string_keeps_trailing_nuls() {
    assert_eq!(attr(52, b"net\0".to_vec()).as_string_untrimmed(), "net\0");
}
