//! Tests for reply classification, dump folding, ack handling, the
//! request builders and the end-to-end interface scenario.

use netlink_wi::attributes::MonitorFlags;
use netlink_wi::bytes::TlvAttr;
use netlink_wi::exchange::{
    device_from_replies, devices_from_replies, domains_from_replies, interface_with_index,
    interfaces_from_replies, parse_reply, process_ack, stations_from_replies, ReplyMessage,
};
use netlink_wi::interface::{ChannelWidth, InterfaceType};
use netlink_wi::netlink::{ChannelConfig, Nl80211Request, RequestKind};
use netlink_wi::NlError;

fn attr(code: u16, payload: Vec<u8>) -> TlvAttr {
    TlvAttr { code, payload }
}

fn u32_attr(code: u16, v: u32) -> TlvAttr {
    attr(code, v.to_le_bytes().to_vec())
}

/// Encodes one wire attribute with its header and padding.
fn encode_attr(code: u16, payload: &[u8]) -> Vec<u8> {
    let total = 4 + payload.len();
    let mut out = Vec::new();
    out.extend_from_slice(&(total as u16).to_le_bytes());
    out.extend_from_slice(&code.to_le_bytes());
    out.extend_from_slice(payload);
    while out.len() % 4 != 0 {
        out.push(0);
    }
    out
}

/// Frames one raw netlink message: the sixteen-byte header, and for data
/// messages the generic-netlink header and the attribute stream.
fn frame(msg_type: u16, body: &[u8]) -> Vec<u8> {
    let total = 16 + body.len();
    let mut out = Vec::new();
    out.extend_from_slice(&(total as u32).to_le_bytes());
    out.extend_from_slice(&msg_type.to_le_bytes());
    out.extend_from_slice(&0u16.to_le_bytes()); // flags
    out.extend_from_slice(&1u32.to_le_bytes()); // sequence
    out.extend_from_slice(&0u32.to_le_bytes()); // port
    out.extend_from_slice(body);
    out
}

fn genl_body(cmd: u8, attrs: &[u8]) -> Vec<u8> {
    let mut body = vec![cmd, 1, 0, 0];
    body.extend_from_slice(attrs);
    body
}

#[test]
fn classification_of_control_messages() {
    assert!(matches!(parse_reply(&frame(3, &[])), Some(ReplyMessage::Done)));
    assert!(matches!(parse_reply(&frame(1, &[])), Some(ReplyMessage::Empty)));
    // An error message carrying errno zero is an ack.
    assert!(matches!(
        parse_reply(&frame(2, &0i32.to_le_bytes())),
        Some(ReplyMessage::Ack)
    ));
    // A negative errno is a kernel error.
    match parse_reply(&frame(2, &(-16i32).to_le_bytes())) {
        Some(ReplyMessage::Error(e)) => assert_eq!(e, -16),
        other => panic!("expected an error message, got {:?}", other.is_some()),
    }
    // Truncated header.
    assert!(parse_reply(&[1, 2, 3]).is_none());
    // Declared length past the buffer.
    let mut m = frame(3, &[]);
    m[0] = 99;
    assert!(parse_reply(&m).is_none());
}

#[test]
fn payload_messages_carry_their_attributes() {
    let attrs = encode_attr(3, &7u32.to_le_bytes());
    let msg = frame(0x1C, &genl_body(5, &attrs));
    match parse_reply(&msg) {
        Some(ReplyMessage::Payload(a)) => {
            assert_eq!(a.len(), 1);
            assert_eq!(a[0].code, 3);
            assert_eq!(a[0].as_u32(), Some(7));
        },
        _ => panic!("expected a payload message"),
    }
}

fn interface_payload(if_index: u32) -> ReplyMessage {
    ReplyMessage::Payload(vec![u32_attr(3, if_index)])
}

#[test]
fn dump_returns_each_payload_until_done() {
    // Three payload messages followed by the done marker yield exactly
    // three entities and no error.
    let msgs = vec![
        interface_payload(1),
        interface_payload(2),
        ReplyMessage::Empty,
        interface_payload(3),
        ReplyMessage::Done,
    ];
    let out = interfaces_from_replies(&msgs).expect("no error");
    let indices: Vec<u32> = out.iter().map(|w| w.interface_index).collect();
    assert_eq!(indices, vec![1, 2, 3]);
}

#[test]
fn dump_stops_at_done() {
    let msgs = vec![interface_payload(1), ReplyMessage::Done, interface_payload(2)];
    let out = interfaces_from_replies(&msgs).expect("no error");
    assert_eq!(out.len(), 1);
}

#[test]
fn dump_error_discards_partial_results() {
    // Two payload messages followed by an error yield the translated
    // error; the partially accumulated entities are discarded.
    let msgs = vec![
        interface_payload(1),
        interface_payload(2),
        ReplyMessage::Error(-22),
    ];
    let err = interfaces_from_replies(&msgs).expect_err("kernel error");
    assert_eq!(err.msg, "EINVAL: Invalid argument");
}

#[test]
fn dump_decode_failure_is_an_error() {
    let msgs = vec![ReplyMessage::Payload(vec![attr(3, vec![1])]), ReplyMessage::Done];
    assert!(interfaces_from_replies(&msgs).is_err());
}

#[test]
fn station_dump_collects_stations() {
    let msgs = vec![
        ReplyMessage::Payload(vec![u32_attr(3, 4), attr(6, vec![9, 9, 9, 9, 9, 9])]),
        ReplyMessage::Done,
    ];
    let out = stations_from_replies(&msgs).expect("no error");
    assert_eq!(out.len(), 1);
    assert_eq!(out[0].interface_index, 4);
    assert_eq!(out[0].mac.as_bytes(), [9, 9, 9, 9, 9, 9]);
}

#[test]
fn domain_dump_collects_domains() {
    let msgs = vec![
        ReplyMessage::Payload(vec![attr(33, b"DE\0".to_vec())]),
        ReplyMessage::Done,
    ];
    let out = domains_from_replies(&msgs).expect("no error");
    assert_eq!(out.len(), 1);
    assert_eq!(out[0].country_code, "DE");
}

fn device_payload(wiphy_index: u32, self_managed: bool) -> ReplyMessage {
    let mut attrs = vec![u32_attr(1, wiphy_index)];
    if self_managed {
        attrs.push(attr(216, vec![]));
    }
    ReplyMessage::Payload(attrs)
}

#[test]
fn split_wiphy_dump_merges_by_index() {
    // One wiphy answered in two messages merges into one record; a second
    // wiphy stays separate, in first-seen order.
    let msgs = vec![
        device_payload(5, false),
        device_payload(7, false),
        device_payload(5, true),
        ReplyMessage::Done,
    ];
    let out = devices_from_replies(&msgs).expect("no error");
    assert_eq!(out.len(), 2);
    assert_eq!(out[0].wiphy_index, 5);
    assert!(out[0].self_managed_reg);
    assert_eq!(out[1].wiphy_index, 7);
    assert!(!out[1].self_managed_reg);
}

#[test]
fn single_wiphy_dump_filters_and_merges() {
    let msgs = vec![
        device_payload(5, false),
        device_payload(6, true),
        device_payload(5, true),
        ReplyMessage::Done,
    ];
    let d = device_from_replies(5, &msgs).expect("no error").expect("found");
    assert_eq!(d.wiphy_index, 5);
    assert!(d.self_managed_reg);
    assert!(device_from_replies(9, &msgs).expect("no error").is_none());
}

#[test]
fn ack_exchange_succeeds_without_an_error_message() {
    let msgs = vec![ReplyMessage::Empty, ReplyMessage::Ack];
    assert!(process_ack(&msgs).is_ok());
    assert!(process_ack(&vec![]).is_ok());
}

#[test]
fn ack_exchange_translates_the_first_error() {
    // The no-such-entity errno, as aborting a scan reports when no scan
    // is running.
    let msgs = vec![ReplyMessage::Empty, ReplyMessage::Error(-2), ReplyMessage::Ack];
    let err = process_ack(&msgs).expect_err("kernel error");
    assert_eq!(err.msg, "ENOENT: No such file or directory");
}

#[test]
fn errno_translation_matches_the_system_table() {
    let e = NlError::from_errno(22);
    assert_eq!(e.msg, "EINVAL: Invalid argument");
    let e = NlError::from_errno(16);
    assert_eq!(e.msg, "EBUSY: Device or resource busy");
}

#[test]
fn nl_error_new_keeps_the_message() {
    let e = NlError::new(String::from("socket closed"));
    assert_eq!(e.msg, "socket closed");
}

#[test]
fn interface_dump_end_to_end() {
    // A dump reply with one message carrying interface index 3, the name
    // "wlan0", the station interface type, a MAC address and a frequency,
    // followed by the done marker, decodes to exactly that interface.
    let mut attrs = encode_attr(3, &3u32.to_le_bytes());
    attrs.extend_from_slice(&encode_attr(4, b"wlan0\0"));
    attrs.extend_from_slice(&encode_attr(5, &2u32.to_le_bytes()));
    attrs.extend_from_slice(&encode_attr(6, &[0xAA, 0xBB, 0xCC, 0xDD, 0xEE, 0xFF]));
    attrs.extend_from_slice(&encode_attr(38, &2412u32.to_le_bytes()));
    let raw_payload = frame(0x1C, &genl_body(5, &attrs));
    let raw_done = frame(3, &[]);

    let msgs = vec![
        parse_reply(&raw_payload).expect("well-formed"),
        parse_reply(&raw_done).expect("well-formed"),
    ];
    let out = interfaces_from_replies(&msgs).expect("no error");
    assert_eq!(out.len(), 1);
    let w = &out[0];
    assert_eq!(w.interface_index, 3);
    assert_eq!(w.name, "wlan0");
    assert_eq!(w.interface_type, Some(InterfaceType::Station));
    assert_eq!(w.mac.as_bytes(), [0xAA, 0xBB, 0xCC, 0xDD, 0xEE, 0xFF]);
    assert_eq!(w.frequency, Some(2412));
}

#[test]
fn request_builders_produce_the_documented_attributes() {
    let r = Nl80211Request::list_interfaces();
    assert_eq!(r.command, 5);
    assert_eq!(r.kind, RequestKind::Dump);
    assert!(r.attributes.is_empty());

    let r = Nl80211Request::get_interface(4);
    assert_eq!(r.attributes.len(), 1);
    assert_eq!(r.attributes[0].code, 3);
    assert_eq!(r.attributes[0].payload, 4u32.to_le_bytes().to_vec());

    let r = Nl80211Request::set_interface(4, InterfaceType::Monitor);
    assert_eq!(r.command, 6);
    assert_eq!(r.kind, RequestKind::Ack);
    assert_eq!(r.attributes[1].code, 5);
    assert_eq!(r.attributes[1].payload, 6u32.to_le_bytes().to_vec());

    let r = Nl80211Request::list_stations(9);
    assert_eq!(r.command, 17);
    assert_eq!(r.kind, RequestKind::Dump);
    assert_eq!(r.attributes[0].code, 3);

    let r = Nl80211Request::list_physical_devices();
    assert_eq!(r.command, 1);
    assert_eq!(r.attributes.len(), 1);
    assert_eq!(r.attributes[0].code, 174);
    assert!(r.attributes[0].payload.is_empty());

    let r = Nl80211Request::get_physical_device(2);
    assert_eq!(r.attributes[0].code, 1);
    assert_eq!(r.attributes[1].code, 174);

    let r = Nl80211Request::get_regulatory_domain();
    assert_eq!(r.command, 31);
    assert!(r.attributes.is_empty());

    let r = Nl80211Request::trigger_scan(4);
    assert_eq!(r.command, 33);
    assert_eq!(r.kind, RequestKind::Ack);
    let r = Nl80211Request::abort_scan(4);
    assert_eq!(r.command, 114);
}

#[test]
fn set_channel_orders_optional_center_frequencies() {
    let config = ChannelConfig::new(4, 5180, ChannelWidth::Width80).with_center_freq1(5210);
    let r = Nl80211Request::set_channel(&config);
    assert_eq!(r.command, 65);
    assert_eq!(r.kind, RequestKind::Ack);
    let codes: Vec<u16> = r.attributes.iter().map(|a| a.code).collect();
    assert_eq!(codes, vec![3, 38, 159, 160]);
    assert_eq!(r.attributes[2].payload, 3u32.to_le_bytes().to_vec());
    assert_eq!(r.attributes[3].payload, 5210u32.to_le_bytes().to_vec());

    let config = ChannelConfig::new(4, 5180, ChannelWidth::Width80P80)
        .with_center_freq1(5210)
        .with_center_freq2(5775);
    let r = Nl80211Request::set_channel(&config);
    let codes: Vec<u16> = r.attributes.iter().map(|a| a.code).collect();
    assert_eq!(codes, vec![3, 38, 159, 160, 161]);

    let config = ChannelConfig::new(4, 2412, ChannelWidth::Width20);
    let r = Nl80211Request::set_channel(&config);
    let codes: Vec<u16> = r.attributes.iter().map(|a| a.code).collect();
    assert_eq!(codes, vec![3, 38, 159]);
}

#[test]
fn monitor_flags_concatenate_as_16_bit_codes() {
    let flags = vec![MonitorFlags::FcsFail, MonitorFlags::OtherBss];
    let r = Nl80211Request::set_monitor_flags(7, &flags);
    assert_eq!(r.command, 6);
    let codes: Vec<u16> = r.attributes.iter().map(|a| a.code).collect();
    assert_eq!(codes, vec![3, 5, 23]);
    // Monitor interface type in the second attribute.
    assert_eq!(r.attributes[1].payload, 6u32.to_le_bytes().to_vec());
    // Each flag's wire code as two little-endian bytes, in order.
    assert_eq!(r.attributes[2].payload, vec![1, 0, 4, 0]);
}

#[test]
fn interface_lookup_picks_the_first_match() {
    let msgs = vec![
        interface_payload(1),
        interface_payload(4),
        interface_payload(4),
        ReplyMessage::Done,
    ];
    let interfaces = interfaces_from_replies(&msgs).expect("no error");
    let found = interface_with_index(&interfaces, 4).expect("present");
    assert_eq!(found.interface_index, 4);
    assert!(interface_with_index(&interfaces, 9).is_none());
}
