//! Tests for the entity decoders: interfaces, stations, rate information,
//! per-TID statistics, physical devices and regulatory domains.

use netlink_wi::bytes::TlvAttr;
use netlink_wi::interface::{decode_interface, ChannelWidth, InterfaceType, MacAddress};
use netlink_wi::reg_domain::{decode_domain, DfsRegion};
use netlink_wi::station::{
    decode_rate, decode_station, decode_tid_stats, ConnectionType, GuardIntervals, HeRuAllocation,
    TrafficIdStats,
};
use netlink_wi::time_span::Duration;
use netlink_wi::wiphy::{decode_device, Frequency, PhysicalDevice, WifiBand};

fn attr(code: u16, payload: Vec<u8>) -> TlvAttr {
    TlvAttr { code, payload }
}

fn u32_attr(code: u16, v: u32) -> TlvAttr {
    attr(code, v.to_le_bytes().to_vec())
}

/// Encodes one wire attribute with its header and padding.
fn encode_attr(code: u16, payload: &[u8]) -> Vec<u8> {
    let total = 4 + payload.len();
    let mut out = Vec::new();
    out.extend_from_slice(&(total as u16).to_le_bytes());
    out.extend_from_slice(&code.to_le_bytes());
    out.extend_from_slice(payload);
    while out.len() % 4 != 0 {
        out.push(0);
    }
    out
}

#[test]
fn interface_fields_decode() {
    let attrs = vec![
        u32_attr(3, 7),                               // interface index
        attr(4, b"wlp3s0\0".to_vec()),                // name
        attr(6, vec![0xAA, 0xBB, 0xCC, 0xDD, 0xEE, 0xFF]), // MAC
        u32_attr(46, 11),                             // generation
        u32_attr(38, 5180),                           // frequency
        u32_attr(159, 3),                             // channel width: 80 MHz
        attr(83, vec![1]),                            // 4-address frames
        u32_attr(5, 2),                               // interface type: station
    ];
    let w = decode_interface(&attrs).expect("decodes");
    assert_eq!(w.interface_index, 7);
    assert_eq!(w.name, "wlp3s0");
    assert_eq!(w.mac.as_bytes(), [0xAA, 0xBB, 0xCC, 0xDD, 0xEE, 0xFF]);
    assert_eq!(w.generation, 11);
    assert_eq!(w.frequency, Some(5180));
    assert_eq!(w.channel_width, Some(ChannelWidth::Width80));
    assert_eq!(w.use_4address_frames, Some(true));
    assert_eq!(w.interface_type, Some(InterfaceType::Station));
    assert_eq!(w.ssid, None);
}

#[test]
fn unknown_interface_type_value_decodes_to_unknown() {
    // An unregistered interface-type value maps to the explicit unknown
    // variant; the rest of the message still decodes.
    let attrs = vec![u32_attr(5, 999), u32_attr(3, 4)];
    let w = decode_interface(&attrs).expect("unregistered value is tolerated");
    assert_eq!(w.interface_type, Some(InterfaceType::Unknown));
    assert_eq!(w.interface_index, 4);
}

#[test]
fn unknown_attribute_codes_are_skipped() {
    let attrs = vec![attr(9999, vec![1, 2, 3]), u32_attr(3, 4)];
    let w = decode_interface(&attrs).expect("unregistered attributes are skipped");
    assert_eq!(w.interface_index, 4);
}

#[test]
fn length_mismatch_is_a_decode_failure() {
    // A two-byte payload where a four-byte integer is required fails the
    // whole message.
    let attrs = vec![attr(3, vec![1, 0])];
    assert!(decode_interface(&attrs).is_err());
}

#[test]
fn mac_payload_must_be_six_bytes() {
    let attrs = vec![attr(6, vec![1, 2, 3, 4, 5])];
    assert!(decode_interface(&attrs).is_err());
}

#[test]
fn txq_statistics_decode() {
    let mut nested = encode_attr(1, &100u32.to_le_bytes()); // backlog bytes
    nested.extend_from_slice(&encode_attr(4, &7u32.to_le_bytes())); // drops
    let attrs = vec![attr(265, nested)];
    let w = decode_interface(&attrs).expect("decodes");
    let txq = w.txq_statistics.expect("present");
    assert_eq!(txq.backlog_bytes, Some(100));
    assert_eq!(txq.drops, Some(7));
    assert_eq!(txq.tx_bytes, None);
}

fn bitrate16() -> TlvAttr {
    attr(1, 1300u16.to_le_bytes().to_vec())
}

fn bitrate32() -> TlvAttr {
    attr(5, 8667u32.to_le_bytes().to_vec())
}

#[test]
fn bitrate_prefers_the_32_bit_attribute_in_either_order() {
    let r = decode_rate(&vec![bitrate16(), bitrate32()]).expect("decodes");
    assert_eq!(r.bitrate, 8667);
    let r = decode_rate(&vec![bitrate32(), bitrate16()]).expect("decodes");
    assert_eq!(r.bitrate, 8667);
}

#[test]
fn rate_defaults_and_ht_stream_thresholds() {
    let r = decode_rate(&vec![]).expect("decodes");
    assert_eq!(r.bitrate, 0);
    assert_eq!(r.connection_type, ConnectionType::Unknown);
    assert_eq!(r.guard_interval, GuardIntervals::Usec0_8);
    assert_eq!(r.channel_width, ChannelWidth::Width20);

    for (mcs, streams) in [(0u8, 1u8), (7, 1), (8, 2), (15, 2), (16, 3), (23, 3), (24, 4), (31, 4)]
    {
        let r = decode_rate(&vec![attr(2, vec![mcs])]).expect("decodes");
        assert_eq!(r.connection_type, ConnectionType::Ht);
        assert_eq!(r.mcs, mcs);
        assert_eq!(r.stream_count, streams);
    }
}

#[test]
fn rate_flags_set_width_and_guard_interval() {
    let r = decode_rate(&vec![attr(3, vec![]), attr(4, vec![])]).expect("decodes");
    assert_eq!(r.channel_width, ChannelWidth::Width40);
    assert_eq!(r.guard_interval, GuardIntervals::Usec0_4);

    // An explicit HE guard interval of an unregistered value maps to the
    // unknown variant.
    let r = decode_rate(&vec![attr(15, vec![2])]).expect("decodes");
    assert_eq!(r.guard_interval, GuardIntervals::Usec3_2);
    let r = decode_rate(&vec![attr(15, vec![9])]).expect("decodes");
    assert_eq!(r.guard_interval, GuardIntervals::Unknown);
}

#[test]
fn vht_nss_overrides_stream_count() {
    let r = decode_rate(&vec![attr(6, vec![9]), attr(7, vec![3])]).expect("decodes");
    assert_eq!(r.connection_type, ConnectionType::Vht);
    assert_eq!(r.mcs, 9);
    assert_eq!(r.stream_count, 3);
}

/// The doubly nested per-TID statistics payload: one middle entry per
/// wire TID, each carrying counter attributes.
fn tid_stats_payload(entries: &[(u16, Vec<(u16, u64)>)]) -> Vec<u8> {
    let mut middle = Vec::new();
    for (tid_code, counters) in entries {
        let mut inner = Vec::new();
        for (code, v) in counters {
            inner.extend_from_slice(&encode_attr(*code, &v.to_le_bytes()));
        }
        middle.extend_from_slice(&encode_attr(*tid_code, &inner));
    }
    middle
}

#[test]
fn tid_slot_mapping_is_code_minus_one() {
    // Every wire TID code from 1 to 17 lands in slot code - 1.
    for code in 1u16..=17 {
        let payload = tid_stats_payload(&[(code, vec![(1, 42)])]);
        let slots = decode_tid_stats(&attr(31, payload)).expect("decodes");
        assert_eq!(slots.len(), 17);
        for (i, slot) in slots.iter().enumerate() {
            if i == (code - 1) as usize {
                assert_eq!(slot.tid_number, code);
                assert_eq!(slot.rx_msdu, Some(42));
            } else {
                assert_eq!(slot.tid_number, 0);
                assert_eq!(slot.rx_msdu, None);
            }
        }
    }
}

#[test]
fn tid_code_out_of_range_is_a_decode_failure() {
    let payload = tid_stats_payload(&[(18, vec![(1, 1)])]);
    assert!(decode_tid_stats(&attr(31, payload)).is_err());
    let payload = tid_stats_payload(&[(0, vec![(1, 1)])]);
    assert!(decode_tid_stats(&attr(31, payload)).is_err());
}

#[test]
fn traffic_id_stats_new_sets_the_tid_number() {
    let t = TrafficIdStats::new(5);
    assert_eq!(t.tid_number, 5);
    assert_eq!(t.rx_msdu, None);
    assert_eq!(t.tx_msdu, None);
}

#[test]
fn station_decodes_counters_and_durations() {
    let mut info = encode_attr(7, &[0xBA]); // signal: -70 dBm
    info.extend_from_slice(&encode_attr(16, &300u32.to_le_bytes())); // connected secs
    info.extend_from_slice(&encode_attr(1, &1500u32.to_le_bytes())); // inactive millis
    info.extend_from_slice(&encode_attr(42, &2_500_000_000u64.to_le_bytes())); // assoc nanos
    info.extend_from_slice(&encode_attr(2, &1000u32.to_le_bytes())); // rx bytes
    info.extend_from_slice(&encode_attr(23, &(1u64 << 40).to_le_bytes())); // rx bytes 64
    let attrs = vec![
        u32_attr(3, 9),
        attr(6, vec![1, 2, 3, 4, 5, 6]),
        attr(21, info),
    ];
    let s = decode_station(&attrs).expect("decodes");
    assert_eq!(s.interface_index, 9);
    assert_eq!(s.mac.as_bytes(), [1, 2, 3, 4, 5, 6]);
    assert_eq!(s.signal, Some(-70));
    assert_eq!(s.connected_time, Some(Duration { secs: 300, nanos: 0 }));
    assert_eq!(s.inactive_time, Some(Duration { secs: 1, nanos: 500_000_000 }));
    assert_eq!(
        s.associated_at_boot_time,
        Some(Duration { secs: 2, nanos: 500_000_000 })
    );
    assert_eq!(s.rx_bytes, Some(1000));
    assert_eq!(s.rx_bytes64, Some(1u64 << 40));
}

#[test]
fn bss_flags_default_false_once_the_container_is_present() {
    // Flags inside the BSS-parameter attribute flip to true by presence;
    // the others default to false once the container appeared.
    let bss = encode_attr(2, &[]); // short preamble flag
    let info = encode_attr(15, &bss);
    let attrs = vec![attr(21, info)];
    let s = decode_station(&attrs).expect("decodes");
    assert_eq!(s.bss_cts_protection, Some(false));
    assert_eq!(s.bss_short_preamble, Some(true));
    assert_eq!(s.bss_short_slot_time, Some(false));

    // Without the container nothing is reported.
    let s = decode_station(&vec![u32_attr(3, 1)]).expect("decodes");
    assert_eq!(s.bss_cts_protection, None);
}

#[test]
fn station_bitrates_decode_nested() {
    let rate = encode_attr(5, &650u32.to_le_bytes());
    let info = encode_attr(8, &rate); // tx bitrate
    let attrs = vec![attr(21, info)];
    let s = decode_station(&attrs).expect("decodes");
    assert_eq!(s.tx_bitrate.expect("present").bitrate, 650);
    assert!(s.rx_bitrate.is_none());
}

fn band_payload(freqs: &[u32]) -> Vec<u8> {
    let mut middle = Vec::new();
    for (i, f) in freqs.iter().enumerate() {
        let inner = encode_attr(1, &f.to_le_bytes());
        middle.extend_from_slice(&encode_attr(i as u16, &inner));
    }
    encode_attr(1, &middle) // frequencies attribute of the band
}

fn device(wiphy_index: u32, freqs_2ghz: &[u32], self_managed: bool) -> PhysicalDevice {
    let mut attrs = vec![u32_attr(1, wiphy_index)];
    let bands = encode_attr(0, &band_payload(freqs_2ghz)); // 2.4 GHz band
    attrs.push(attr(22, bands));
    if self_managed {
        attrs.push(attr(216, vec![]));
    }
    decode_device(&attrs).expect("decodes")
}

#[test]
fn device_decodes_bands_and_frequencies() {
    let d = device(5, &[2412, 2437, 2462], false);
    assert_eq!(d.wiphy_index, 5);
    let band = d.band_2ghz.expect("present");
    let freqs: Vec<u32> = band.frequencies.iter().map(|f| f.frequency).collect();
    assert_eq!(freqs, vec![2412, 2437, 2462]);
    assert!(d.band_5ghz.is_none());
    assert!(!d.self_managed_reg);
}

#[test]
fn frequency_restriction_flags_decode() {
    let mut inner = encode_attr(1, &5260u32.to_le_bytes());
    inner.extend_from_slice(&encode_attr(2, &[])); // disabled
    inner.extend_from_slice(&encode_attr(5, &[])); // radar
    inner.extend_from_slice(&encode_attr(6, &2000u32.to_le_bytes())); // max power
    let middle = encode_attr(0, &inner);
    let bands = encode_attr(1, &encode_attr(1, &middle));
    let attrs = vec![attr(22, bands)];
    let d = decode_device(&attrs).expect("decodes");
    let band = d.band_5ghz.expect("present");
    assert_eq!(
        band.frequencies,
        vec![Frequency {
            frequency: 5260,
            disabled: true,
            no_ir: false,
            radar_detection: true,
            max_tx_power: 2000,
        }]
    );
}

#[test]
fn device_merge_concatenates_bands_and_ors_flags() {
    // Merging device A (three 2.4 GHz frequencies, not self-managed) with
    // device B (two different frequencies, self-managed) keeps the index,
    // turns the flag on, and concatenates the five frequencies in
    // B-after-A order.
    let mut a = device(5, &[2412, 2437, 2462], false);
    let b = device(5, &[2472, 2484], true);
    a.merge(&b);
    assert_eq!(a.wiphy_index, 5);
    assert!(a.self_managed_reg);
    let freqs: Vec<u32> = a
        .band_2ghz
        .expect("present")
        .frequencies
        .iter()
        .map(|f| f.frequency)
        .collect();
    assert_eq!(freqs, vec![2412, 2437, 2462, 2472, 2484]);
}

#[test]
fn device_merge_replaces_the_address_only_when_present() {
    let mut a = device(5, &[], false);
    a.mac = Some(MacAddress::from_bytes([1, 1, 1, 1, 1, 1]));
    let b = device(5, &[], false);
    a.merge(&b);
    assert_eq!(a.mac.expect("kept").as_bytes(), [1, 1, 1, 1, 1, 1]);

    let mut b2 = device(5, &[], false);
    b2.mac = Some(MacAddress::from_bytes([2, 2, 2, 2, 2, 2]));
    a.merge(&b2);
    assert_eq!(a.mac.expect("replaced").as_bytes(), [2, 2, 2, 2, 2, 2]);
}

#[test]
fn merge_keeps_an_absent_band_absent() {
    let mut a = device(3, &[2412], false);
    let b = device(3, &[], false);
    // B carries an empty 2.4 GHz band: concatenation keeps A's list.
    a.merge(&b);
    assert_eq!(a.band_2ghz.as_ref().expect("present").frequencies.len(), 1);
    assert!(a.band_5ghz.is_none());
}

#[test]
fn regulatory_domain_decodes() {
    let mut rule = encode_attr(2, &2_400_000u32.to_le_bytes()); // range start kHz
    rule.extend_from_slice(&encode_attr(3, &2_483_500u32.to_le_bytes())); // range end
    rule.extend_from_slice(&encode_attr(4, &40_000u32.to_le_bytes())); // max bandwidth
    rule.extend_from_slice(&encode_attr(6, &2_000u32.to_le_bytes())); // max EIRP
    rule.extend_from_slice(&encode_attr(1, &0x11u32.to_le_bytes())); // flags: no OFDM + DFS
    let rules = encode_attr(0, &rule);
    let attrs = vec![
        attr(33, b"FI\0".to_vec()),
        attr(146, vec![2]),
        attr(34, rules),
    ];
    let d = decode_domain(&attrs).expect("decodes");
    assert_eq!(d.country_code, "FI");
    assert_eq!(d.dfs_region, DfsRegion::Etsi);
    assert_eq!(d.wiphy_index, None);
    assert!(!d.self_managed);
    assert_eq!(d.regulatory_rules.len(), 1);
    let r = &d.regulatory_rules[0];
    assert_eq!(r.freq_range_start, 2_400_000);
    assert_eq!(r.freq_range_end, 2_483_500);
    assert_eq!(r.max_bandwidth, 40_000);
    assert_eq!(r.max_eirp, 2_000);
    assert!(r.no_ofdm);
    assert!(r.dfs);
    assert!(!r.no_cck);
}

#[test]
fn unregistered_dfs_region_is_unset() {
    let attrs = vec![attr(146, vec![77])];
    let d = decode_domain(&attrs).expect("decodes");
    assert_eq!(d.dfs_region, DfsRegion::Unset);
}

#[test]
fn rule_flags_with_undefined_bits_are_ignored_whole() {
    // Bit 9 is outside the registry: the whole bitmask is ignored and the
    // booleans keep their defaults.
    let rule = encode_attr(1, &0x211u32.to_le_bytes());
    let rules = encode_attr(0, &rule);
    let attrs = vec![attr(34, rules)];
    let d = decode_domain(&attrs).expect("decodes");
    assert!(!d.regulatory_rules[0].no_ofdm);
    assert!(!d.regulatory_rules[0].dfs);
}

#[test]
fn mac_address_formats_as_colon_separated_hex() {
    let mac = MacAddress::from_bytes([0xAA, 0xBB, 0xCC, 0xDD, 0xEE, 0xFF]);
    assert_eq!(mac.to_hex_string(), "AA:BB:CC:DD:EE:FF");
    let mac = MacAddress::from_bytes([0, 0x1F, 2, 3, 0x4A, 5]);
    assert_eq!(mac.to_hex_string(), "00:1F:02:03:4A:05");
}

#[test]
fn display_names() {
    assert_eq!(InterfaceType::Station.name(), "Station");
    assert_eq!(InterfaceType::AccessPoint.name(), "Access point");
    assert_eq!(InterfaceType::Unknown.name(), "Unknown interface type");
    assert_eq!(ChannelWidth::Width80P80.name(), "80+80 MHz");
    assert_eq!(ChannelWidth::Width20NoHT.name(), "20 MHz non-HT");
    assert_eq!(ConnectionType::Vht.name(), "VHT");
}

#[test]
fn channel_width_codes_and_mhz() {
    assert_eq!(ChannelWidth::from_code(2), ChannelWidth::Width40);
    assert_eq!(ChannelWidth::from_code(13), ChannelWidth::Unknown);
    assert_eq!(ChannelWidth::Width40.code(), 2);
    assert_eq!(ChannelWidth::Width160.mhz(), 160);
    assert_eq!(ChannelWidth::Width80P80.mhz(), 80);
    assert_eq!(ChannelWidth::Unknown.mhz(), 0);
}

#[test]
fn wifi_band_default_is_empty() {
    let b = WifiBand::default();
    assert!(b.frequencies.is_empty());
}

#[test]
fn interface_optional_fields_decode() {
    let attrs = vec![
        attr(52, b"cafe".to_vec()),                        // SSID, raw octets
        u32_attr(290, 500),                                // frequency offset kHz
        u32_attr(160, 5210),                               // center frequency 1
        u32_attr(161, 5775),                               // center frequency 2
        u32_attr(98, 2000),                                // transmit power, mBm
        attr(153, 77u64.to_le_bytes().to_vec()),           // wireless device id
    ];
    let w = decode_interface(&attrs).expect("decodes");
    assert_eq!(w.ssid.as_deref(), Some("cafe"));
    assert_eq!(w.frequency_offset, Some(500));
    assert_eq!(w.center_frequency1, Some(5210));
    assert_eq!(w.center_frequency2, Some(5775));
    assert_eq!(w.tx_power, Some(2000));
    assert_eq!(w.wdev, Some(77));
}

#[test]
fn he_rate_attributes_decode() {
    let attrs = vec![
        attr(13, vec![11]),                                // HE MCS
        attr(14, vec![2]),                                 // HE NSS
        attr(16, vec![1]),                                 // HE DCM
        attr(17, 4u16.to_le_bytes().to_vec()),             // HE RU allocation
    ];
    let r = decode_rate(&attrs).expect("decodes");
    assert_eq!(r.connection_type, ConnectionType::He);
    assert_eq!(r.mcs, 11);
    assert_eq!(r.stream_count, 2);
    assert_eq!(r.dcm_value, Some(1));
    assert_eq!(r.ru_allocation, Some(HeRuAllocation::Alloc484));

    let r = decode_rate(&vec![attr(17, 99u16.to_le_bytes().to_vec())]).expect("decodes");
    assert_eq!(r.ru_allocation, Some(HeRuAllocation::Unknown));
}

#[test]
fn bss_period_and_interval_decode() {
    let mut bss = encode_attr(4, &[3]); // DTIM period
    bss.extend_from_slice(&encode_attr(5, &100u16.to_le_bytes())); // beacon interval
    let info = encode_attr(15, &bss);
    let attrs = vec![attr(21, info)];
    let s = decode_station(&attrs).expect("decodes");
    assert_eq!(s.bss_dtim_period, Some(3));
    assert_eq!(s.bss_beacon_interval, Some(100));
}

#[test]
fn chain_signal_keeps_the_raw_bytes() {
    let info = encode_attr(25, &[200, 198]);
    let attrs = vec![attr(21, info)];
    let s = decode_station(&attrs).expect("decodes");
    assert_eq!(s.chain_signal, vec![200, 198]);
}

#[test]
fn decode_errors_name_the_failing_attribute_code() {
    // A one-digit and a three-digit code, exercising the decimal text.
    let err = decode_interface(&vec![attr(3, vec![1, 0])]).expect_err("length mismatch");
    assert_eq!(err.msg, "interface attribute payload has the wrong shape: code 3");
    let err = decode_interface(&vec![attr(159, vec![1])]).expect_err("length mismatch");
    assert_eq!(err.msg, "interface attribute payload has the wrong shape: code 159");

    let err = decode_rate(&vec![attr(5, vec![1])]).expect_err("length mismatch");
    assert_eq!(err.msg, "station attribute payload has the wrong shape: code 5");

    let payload = tid_stats_payload(&[(18, vec![(1, 1)])]);
    let err = decode_tid_stats(&attr(31, payload)).expect_err("TID out of range");
    assert_eq!(err.msg, "wire TID code outside the statistics array: code 18");
}
