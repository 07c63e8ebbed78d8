//! Wireless station entities and their decoder: per-association counters,
//! bitrate information, per-traffic-identifier statistics and the
//! station's view of its BSS.

use vstd::prelude::*;
use vstd::string::StringExecFns;

use crate::attributes::{
    ATTR_GENERATION, ATTR_IFINDEX, ATTR_MAC, ATTR_STA_INFO, BSS_BEACON_INTERVAL, BSS_CTS_PROT,
    BSS_DTIM_PERIOD, BSS_SHORT_PREAMBLE, BSS_SHORT_SLOT_TIME, RATE_BITRATE, RATE_BITRATE32,
    RATE_HE_DCM, RATE_HE_GI, RATE_HE_MCS, RATE_HE_NSS, RATE_HE_RU_ALLOC, RATE_MCS,
    RATE_MHZ_WIDTH10, RATE_MHZ_WIDTH160, RATE_MHZ_WIDTH40, RATE_MHZ_WIDTH5, RATE_MHZ_WIDTH80,
    RATE_MHZ_WIDTH80P80, RATE_SHORT_GI, RATE_VHT_MCS, RATE_VHT_NSS, STA_ASSOC_AT_BOOT_TIME,
    STA_BEACON_LOSS, STA_BEACON_RX, STA_BEACON_SIGNAL_AVG, STA_BSS_PARAM, STA_CHAIN_SIGNAL,
    STA_CONNECTED_TIME, STA_INACTIVE_TIME, STA_RX_BITRATE, STA_RX_BYTES, STA_RX_BYTES64,
    STA_RX_DROP_MISC, STA_RX_DURATION, STA_RX_PACKETS, STA_SIGNAL, STA_SIGNAL_AVG,
    STA_TID_STATS, STA_TX_BITRATE, STA_TX_BYTES, STA_TX_BYTES64, STA_TX_DURATION,
    STA_TX_FAILED, STA_TX_PACKETS, STA_TX_RETRIES, TID_RX_MSDU, TID_TX_MSDU,
    TID_TX_MSDU_FAILED, TID_TX_MSDU_RETRIES,
};
use crate::bytes::{
    attrs_view, le_bytes, lemma_u16_extraction_round_trip, lemma_u32_extraction_round_trip,
    spec_as_i8, spec_as_u16, spec_as_u32, spec_as_u64, spec_as_u8, spec_walk, u16_decimal,
    AttrModel, TlvAttr,
};
use crate::error::NlError;
use crate::interface::{
    mac_from_payload, spec_as_mac, ChannelWidth, MacAddress, TransmitQueueStats,
};
use crate::time_span::{
    spec_duration_from_millis, spec_duration_from_nanos, Duration,
};

verus! {

/// Connection or frame type, determined by which MCS attribute family the
/// kernel reported.
#[derive(Debug, Clone, Copy, PartialEq, Eq, Structural)]
pub enum ConnectionType {
    /// High Throughput (802.11n).
    Ht,
    /// Very High Throughput (802.11ac).
    Vht,
    /// High Efficiency (802.11ax).
    He,
    /// Unknown connection type.
    Unknown,
}

/// Guard intervals of a wireless connection.
#[derive(Debug, Clone, Copy, PartialEq, Eq, Structural)]
pub enum GuardIntervals {
    /// 0.4 microseconds.
    Usec0_4,
    /// 0.8 microseconds.
    Usec0_8,
    /// 1.6 microseconds.
    Usec1_6,
    /// 3.2 microseconds.
    Usec3_2,
    /// Unknown guard interval.
    Unknown,
}

/// HE RU allocation values.
#[derive(Debug, Clone, Copy, PartialEq, Eq, Structural)]
pub enum HeRuAllocation {
    /// 26-tone RU allocation.
    Alloc26,
    /// 52-tone RU allocation.
    Alloc52,
    /// 106-tone RU allocation.
    Alloc106,
    /// 242-tone RU allocation.
    Alloc242,
    /// 484-tone RU allocation.
    Alloc484,
    /// 996-tone RU allocation.
    Alloc996,
    /// 2x996-tone RU allocation.
    Alloc2x996,
    /// Unknown RU allocation.
    Unknown,
}

/// The HE guard interval a wire code names; an unregistered code is
/// `Unknown`, never a failure.
pub open spec fn spec_he_gi_of(v: u8) -> GuardIntervals {
    if v == 0 {
        GuardIntervals::Usec0_8
    } else if v == 1 {
        GuardIntervals::Usec1_6
    } else if v == 2 {
        GuardIntervals::Usec3_2
    } else {
        GuardIntervals::Unknown
    }
}

/// The HE RU allocation a wire code names; an unregistered code is
/// `Unknown`, never a failure.
pub open spec fn spec_he_ru_alloc_of(v: u16) -> HeRuAllocation {
    if v == 0 {
        HeRuAllocation::Alloc26
    } else if v == 1 {
        HeRuAllocation::Alloc52
    } else if v == 2 {
        HeRuAllocation::Alloc106
    } else if v == 3 {
        HeRuAllocation::Alloc242
    } else if v == 4 {
        HeRuAllocation::Alloc484
    } else if v == 5 {
        HeRuAllocation::Alloc996
    } else if v == 6 {
        HeRuAllocation::Alloc2x996
    } else {
        HeRuAllocation::Unknown
    }
}

/// The spatial stream count the 802.11n MCS index implies: indices are
/// grouped in blocks of eight per stream, four streams at most.
pub open spec fn spec_ht_stream_count(mcs: u8) -> u8 {
    if mcs < 8 {
        1
    } else if mcs < 16 {
        2
    } else if mcs < 24 {
        3
    } else {
        4
    }
}

/// Station bitrate information.
#[derive(Debug, Clone, Copy, PartialEq, Eq, Structural)]
pub struct RateInfo {
    /// Bitrate in 100 kbit/s units.
    pub bitrate: u32,
    /// MCS index.
    pub mcs: u8,
    /// Connection or frame type.
    pub connection_type: ConnectionType,
    /// Guard interval.
    pub guard_interval: GuardIntervals,
    /// Channel width.
    pub channel_width: ChannelWidth,
    /// Number of spatial streams.
    pub stream_count: u8,
    /// HE DCM value (0/1).
    pub dcm_value: Option<u8>,
    /// HE RU allocation; absent means non-OFDMA was used.
    pub ru_allocation: Option<HeRuAllocation>,
}

/// The rate record before any attribute is applied: bitrate zero, type
/// unknown, the 0.8 microsecond guard interval and a 20 MHz channel.
pub open spec fn rate_empty() -> RateInfo {
    RateInfo {
        bitrate: 0,
        mcs: 0,
        connection_type: ConnectionType::Unknown,
        guard_interval: GuardIntervals::Usec0_8,
        channel_width: ChannelWidth::Width20,
        stream_count: 0,
        dcm_value: None,
        ru_allocation: None,
    }
}

/// One rate attribute applied to the record.  The 16-bit bitrate is
/// read only while the bitrate is still zero, so a 32-bit value seen
/// earlier always stands; the 32-bit bitrate always overwrites.
pub open spec fn rate_step(m: RateInfo, a: AttrModel) -> Option<RateInfo> {
    if a.code == RATE_BITRATE {
        if m.bitrate == 0 {
            match spec_as_u16(a.payload) {
                Some(v) => Some(RateInfo { bitrate: v as u32, ..m }),
                None => None,
            }
        } else {
            Some(m)
        }
    } else if a.code == RATE_MCS {
        match spec_as_u8(a.payload) {
            Some(v) => Some(
                RateInfo {
                    mcs: v,
                    connection_type: ConnectionType::Ht,
                    stream_count: spec_ht_stream_count(v),
                    ..m
                },
            ),
            None => None,
        }
    } else if a.code == RATE_MHZ_WIDTH40 {
        Some(RateInfo { channel_width: ChannelWidth::Width40, ..m })
    } else if a.code == RATE_SHORT_GI {
        Some(RateInfo { guard_interval: GuardIntervals::Usec0_4, ..m })
    } else if a.code == RATE_BITRATE32 {
        match spec_as_u32(a.payload) {
            Some(v) => Some(RateInfo { bitrate: v, ..m }),
            None => None,
        }
    } else if a.code == RATE_VHT_MCS {
        match spec_as_u8(a.payload) {
            Some(v) => Some(RateInfo { mcs: v, connection_type: ConnectionType::Vht, ..m }),
            None => None,
        }
    } else if a.code == RATE_VHT_NSS {
        match spec_as_u8(a.payload) {
            Some(v) => Some(RateInfo { stream_count: v, ..m }),
            None => None,
        }
    } else if a.code == RATE_MHZ_WIDTH80 {
        Some(RateInfo { channel_width: ChannelWidth::Width80, ..m })
    } else if a.code == RATE_MHZ_WIDTH80P80 {
        Some(RateInfo { channel_width: ChannelWidth::Width80P80, ..m })
    } else if a.code == RATE_MHZ_WIDTH160 {
        Some(RateInfo { channel_width: ChannelWidth::Width160, ..m })
    } else if a.code == RATE_MHZ_WIDTH10 {
        Some(RateInfo { channel_width: ChannelWidth::Width10, ..m })
    } else if a.code == RATE_MHZ_WIDTH5 {
        Some(RateInfo { channel_width: ChannelWidth::Width5, ..m })
    } else if a.code == RATE_HE_MCS {
        match spec_as_u8(a.payload) {
            Some(v) => Some(RateInfo { mcs: v, connection_type: ConnectionType::He, ..m }),
            None => None,
        }
    } else if a.code == RATE_HE_NSS {
        match spec_as_u8(a.payload) {
            Some(v) => Some(RateInfo { stream_count: v, ..m }),
            None => None,
        }
    } else if a.code == RATE_HE_GI {
        match spec_as_u8(a.payload) {
            Some(v) => Some(RateInfo { guard_interval: spec_he_gi_of(v), ..m }),
            None => None,
        }
    } else if a.code == RATE_HE_DCM {
        match spec_as_u8(a.payload) {
            Some(v) => Some(RateInfo { dcm_value: Some(v), ..m }),
            None => None,
        }
    } else if a.code == RATE_HE_RU_ALLOC {
        match spec_as_u16(a.payload) {
            Some(v) => Some(RateInfo { ru_allocation: Some(spec_he_ru_alloc_of(v)), ..m }),
            None => None,
        }
    } else {
        Some(m)
    }
}

/// The rate attributes applied in order.
pub open spec fn rate_fold(m: RateInfo, attrs: Seq<AttrModel>) -> Option<RateInfo>
    decreases attrs.len(),
{
    if attrs.len() == 0 {
        Some(m)
    } else {
        match rate_step(m, attrs[0]) {
            Some(m2) => rate_fold(m2, attrs.skip(1)),
            None => None,
        }
    }
}

/// What a rate attribute sequence decodes to.
pub open spec fn spec_decode_rate(attrs: Seq<AttrModel>) -> Option<RateInfo> {
    rate_fold(rate_empty(), attrs)
}

/// Decodes bitrate information from its attribute sequence.
pub fn decode_rate(attrs: &Vec<TlvAttr>) -> (r: Result<RateInfo, NlError>)
    ensures
        match r {
            Ok(m) => spec_decode_rate(attrs_view(attrs@)) == Some(m),
            Err(_) => spec_decode_rate(attrs_view(attrs@)) is None,
        },
{
    let ghost ms = attrs_view(attrs@);
    let mut m = RateInfo {
        bitrate: 0,
        mcs: 0,
        connection_type: ConnectionType::Unknown,
        guard_interval: GuardIntervals::Usec0_8,
        channel_width: ChannelWidth::Width20,
        stream_count: 0,
        dcm_value: None,
        ru_allocation: None,
    };
    let mut i: usize = 0;
    proof {
        assert(ms.skip(0) =~= ms);
    }
    while i < attrs.len()
        invariant
            i <= attrs.len(),
            ms == attrs_view(attrs@),
            spec_decode_rate(ms) == rate_fold(m, ms.skip(i as int)),
        decreases attrs.len() - i,
    {
        let ghost prev = m;
        proof {
            assert(ms.skip(i as int)[0] == ms[i as int]);
            assert(ms[i as int] == attrs@[i as int]@);
            assert(ms.skip(i as int).skip(1) =~= ms.skip(i as int + 1));
        }
        let a = &attrs[i];
        let c = a.code;
        if c == RATE_BITRATE {
            if m.bitrate == 0 {
                match a.as_u16() {
                    Some(v) => {
                        m.bitrate = v as u32;
                    },
                    None => {
                        return Err(station_decode_error(c));
                    },
                }
            }
        } else if c == RATE_MCS {
            match a.as_u8() {
                Some(v) => {
                    m.mcs = v;
                    m.connection_type = ConnectionType::Ht;
                    m.stream_count = if v < 8 {
                        1
                    } else if v < 16 {
                        2
                    } else if v < 24 {
                        3
                    } else {
                        4
                    };
                },
                None => {
                    return Err(station_decode_error(c));
                },
            }
        } else if c == RATE_MHZ_WIDTH40 {
            m.channel_width = ChannelWidth::Width40;
        } else if c == RATE_SHORT_GI {
            m.guard_interval = GuardIntervals::Usec0_4;
        } else if c == RATE_BITRATE32 {
            match a.as_u32() {
                Some(v) => {
                    m.bitrate = v;
                },
                None => {
                    return Err(station_decode_error(c));
                },
            }
        } else if c == RATE_VHT_MCS {
            match a.as_u8() {
                Some(v) => {
                    m.mcs = v;
                    m.connection_type = ConnectionType::Vht;
                },
                None => {
                    return Err(station_decode_error(c));
                },
            }
        } else if c == RATE_VHT_NSS {
            match a.as_u8() {
                Some(v) => {
                    m.stream_count = v;
                },
                None => {
                    return Err(station_decode_error(c));
                },
            }
        } else if c == RATE_MHZ_WIDTH80 {
            m.channel_width = ChannelWidth::Width80;
        } else if c == RATE_MHZ_WIDTH80P80 {
            m.channel_width = ChannelWidth::Width80P80;
        } else if c == RATE_MHZ_WIDTH160 {
            m.channel_width = ChannelWidth::Width160;
        } else if c == RATE_MHZ_WIDTH10 {
            m.channel_width = ChannelWidth::Width10;
        } else if c == RATE_MHZ_WIDTH5 {
            m.channel_width = ChannelWidth::Width5;
        } else if c == RATE_HE_MCS {
            match a.as_u8() {
                Some(v) => {
                    m.mcs = v;
                    m.connection_type = ConnectionType::He;
                },
                None => {
                    return Err(station_decode_error(c));
                },
            }
        } else if c == RATE_HE_NSS {
            match a.as_u8() {
                Some(v) => {
                    m.stream_count = v;
                },
                None => {
                    return Err(station_decode_error(c));
                },
            }
        } else if c == RATE_HE_GI {
            match a.as_u8() {
                Some(v) => {
                    m.guard_interval = if v == 0 {
                        GuardIntervals::Usec0_8
                    } else if v == 1 {
                        GuardIntervals::Usec1_6
                    } else if v == 2 {
                        GuardIntervals::Usec3_2
                    } else {
                        GuardIntervals::Unknown
                    };
                },
                None => {
                    return Err(station_decode_error(c));
                },
            }
        } else if c == RATE_HE_DCM {
            match a.as_u8() {
                Some(v) => {
                    m.dcm_value = Some(v);
                },
                None => {
                    return Err(station_decode_error(c));
                },
            }
        } else if c == RATE_HE_RU_ALLOC {
            match a.as_u16() {
                Some(v) => {
                    m.ru_allocation = Some(
                        if v == 0 {
                            HeRuAllocation::Alloc26
                        } else if v == 1 {
                            HeRuAllocation::Alloc52
                        } else if v == 2 {
                            HeRuAllocation::Alloc106
                        } else if v == 3 {
                            HeRuAllocation::Alloc242
                        } else if v == 4 {
                            HeRuAllocation::Alloc484
                        } else if v == 5 {
                            HeRuAllocation::Alloc996
                        } else if v == 6 {
                            HeRuAllocation::Alloc2x996
                        } else {
                            HeRuAllocation::Unknown
                        },
                    );
                },
                None => {
                    return Err(station_decode_error(c));
                },
            }
        }
        proof {
            assert(rate_step(prev, ms[i as int]) == Some(m));
        }
        i = i + 1;
    }
    proof {
        assert(ms.skip(ms.len() as int) =~= Seq::<AttrModel>::empty());
    }
    Ok(m)
}

/// Per-traffic-identifier statistics: one slot of the seventeen-slot
/// array, TIDs 0 to 15 plus the non-QoS bucket.
#[derive(Debug, Clone, Copy, PartialEq, Eq, Default, Structural)]
pub struct TrafficIdStats {
    /// Wire TID number: 1 to 16, and 17 for non-QoS traffic.
    pub tid_number: u16,
    /// Number of MSDUs received.
    pub rx_msdu: Option<u64>,
    /// Number of MSDUs transmitted or attempted to transmit.
    pub tx_msdu: Option<u64>,
    /// Number of retries for transmitted MSDUs, not counting the first
    /// attempt.
    pub tx_msdu_retries: Option<u64>,
    /// Number of failed transmitted MSDUs.
    pub tx_msdu_failed: Option<u64>,
    /// Transmit queue statistics.
    pub txq_stats: Option<TransmitQueueStats>,
}

/// A fresh slot for a wire TID number, with no counters.
pub open spec fn spec_tid_new(tid_number: u16) -> TrafficIdStats {
    TrafficIdStats {
        tid_number,
        rx_msdu: None,
        tx_msdu: None,
        tx_msdu_retries: None,
        tx_msdu_failed: None,
        txq_stats: None,
    }
}

impl TrafficIdStats {
    /// A fresh slot for a wire TID number, with no counters.
    pub fn new(tid_number: u16) -> (r: TrafficIdStats)
        ensures
            r == spec_tid_new(tid_number),
    {
        TrafficIdStats {
            tid_number,
            rx_msdu: None,
            tx_msdu: None,
            tx_msdu_retries: None,
            tx_msdu_failed: None,
            txq_stats: None,
        }
    }
}

/// The seventeen all-default slots of a fresh statistics array.
pub open spec fn tid_defaults() -> Seq<TrafficIdStats> {
    Seq::new(17, |i: int| spec_tid_new(0))
}

/// One inner statistics attribute turned into a slot record for wire TID
/// `code`: a fresh record carrying the one counter the attribute holds.
pub open spec fn tid_entry_step(code: u16, a: AttrModel) -> Option<TrafficIdStats> {
    if a.code == TID_RX_MSDU {
        match spec_as_u64(a.payload) {
            Some(v) => Some(TrafficIdStats { rx_msdu: Some(v), ..spec_tid_new(code) }),
            None => None,
        }
    } else if a.code == TID_TX_MSDU {
        match spec_as_u64(a.payload) {
            Some(v) => Some(TrafficIdStats { tx_msdu: Some(v), ..spec_tid_new(code) }),
            None => None,
        }
    } else if a.code == TID_TX_MSDU_RETRIES {
        match spec_as_u64(a.payload) {
            Some(v) => Some(TrafficIdStats { tx_msdu_retries: Some(v), ..spec_tid_new(code) }),
            None => None,
        }
    } else if a.code == TID_TX_MSDU_FAILED {
        match spec_as_u64(a.payload) {
            Some(v) => Some(TrafficIdStats { tx_msdu_failed: Some(v), ..spec_tid_new(code) }),
            None => None,
        }
    } else {
        Some(spec_tid_new(code))
    }
}

/// The inner attributes of one wire TID applied in order: each writes the
/// slot `code - 1`.  A wire TID outside 1 to 17 cannot be placed and is a
/// decode failure.
pub open spec fn tid_middle_fold(
    slots: Seq<TrafficIdStats>,
    code: u16,
    inner: Seq<AttrModel>,
) -> Option<Seq<TrafficIdStats>>
    decreases inner.len(),
{
    if inner.len() == 0 {
        Some(slots)
    } else {
        match tid_entry_step(code, inner[0]) {
            Some(rec) => if 1 <= code <= 17 {
                tid_middle_fold(slots.update(code - 1, rec), code, inner.skip(1))
            } else {
                None
            },
            None => None,
        }
    }
}

/// The middle level of the statistics attribute: one entry per wire TID,
/// each a nested attribute sequence of counters.
pub open spec fn tid_outer_fold(slots: Seq<TrafficIdStats>, middle: Seq<AttrModel>) -> Option<
    Seq<TrafficIdStats>,
>
    decreases middle.len(),
{
    if middle.len() == 0 {
        Some(slots)
    } else {
        match spec_walk(middle[0].payload) {
            Some(inner) => match tid_middle_fold(slots, middle[0].code, inner) {
                Some(slots2) => tid_outer_fold(slots2, middle.skip(1)),
                None => None,
            },
            None => None,
        }
    }
}

/// What the payload of a per-TID statistics attribute decodes to: the
/// seventeen-slot array.
pub open spec fn spec_decode_tid_stats(payload: Seq<u8>) -> Option<Seq<TrafficIdStats>> {
    match spec_walk(payload) {
        Some(middle) => tid_outer_fold(tid_defaults(), middle),
        None => None,
    }
}

/// Writing a slot keeps every other slot, and the written slot carries
/// the wire TID it was written for: the decoded array index of wire TID
/// `code` is exactly `code - 1`.
pub proof fn lemma_tid_slot_mapping(slots: Seq<TrafficIdStats>, code: u16, inner: Seq<AttrModel>)
    requires
        slots.len() == 17,
        1 <= code <= 17,
        tid_middle_fold(slots, code, inner) is Some,
    ensures
        tid_middle_fold(slots, code, inner)->Some_0.len() == 17,
        forall|j: int|
            0 <= j < 17 && j != code - 1 ==> tid_middle_fold(slots, code, inner)->Some_0[j]
                == slots[j],
        inner.len() > 0 ==> tid_middle_fold(slots, code, inner)->Some_0[code - 1].tid_number
            == code,
    decreases inner.len(),
{
    if inner.len() > 0 {
        let rec = tid_entry_step(code, inner[0])->Some_0;
        let updated = slots.update(code - 1, rec);
        lemma_tid_slot_mapping(updated, code, inner.skip(1));
        assert(rec.tid_number == code);
        assert forall|j: int| 0 <= j < 17 && j != code - 1 implies tid_middle_fold(
            slots,
            code,
            inner,
        )->Some_0[j] == slots[j] by {
            assert(updated[j] == slots[j]);
        }
        if inner.len() == 1 {
            assert(inner.skip(1).len() == 0);
            assert(tid_middle_fold(updated, code, inner.skip(1)) == Some(updated));
            assert(updated[code - 1] == rec);
        } else {
            assert(inner.skip(1).len() > 0);
        }
    }
}

/// Applies the inner counter attributes of one wire TID to the slot
/// array: each inner attribute writes slot `code - 1` with a fresh record
/// carrying that one counter.
fn apply_tid_entries(slots: &mut Vec<TrafficIdStats>, code: u16, inner: &Vec<TlvAttr>) -> (r:
    Result<(), NlError>)
    requires
        old(slots)@.len() == 17,
    ensures
        match r {
            Ok(_) => tid_middle_fold(old(slots)@, code, attrs_view(inner@)) == Some(
                final(slots)@,
            ) && final(slots)@.len() == 17,
            Err(_) => tid_middle_fold(old(slots)@, code, attrs_view(inner@)) is None,
        },
{
    let ghost inner_ms = attrs_view(inner@);
    proof {
        assert(inner_ms.skip(0) =~= inner_ms);
    }
    let mut j: usize = 0;
    while j < inner.len()
        invariant
            j <= inner.len(),
            inner_ms == attrs_view(inner@),
            slots@.len() == 17,
            tid_middle_fold(old(slots)@, code, inner_ms) == tid_middle_fold(
                slots@,
                code,
                inner_ms.skip(j as int),
            ),
        decreases inner.len() - j,
    {
        let ghost sprev = slots@;
        proof {
            assert(inner_ms.skip(j as int)[0] == inner_ms[j as int]);
            assert(inner_ms[j as int] == inner@[j as int]@);
            assert(inner_ms.skip(j as int).skip(1) =~= inner_ms.skip(j as int + 1));
        }
        let b = &inner[j];
        let mut rec = TrafficIdStats::new(code);
        let bc = b.code;
        if bc == TID_RX_MSDU {
            match b.as_u64() {
                Some(v) => {
                    rec.rx_msdu = Some(v);
                },
                None => {
                    return Err(station_decode_error(bc));
                },
            }
        } else if bc == TID_TX_MSDU {
            match b.as_u64() {
                Some(v) => {
                    rec.tx_msdu = Some(v);
                },
                None => {
                    return Err(station_decode_error(bc));
                },
            }
        } else if bc == TID_TX_MSDU_RETRIES {
            match b.as_u64() {
                Some(v) => {
                    rec.tx_msdu_retries = Some(v);
                },
                None => {
                    return Err(station_decode_error(bc));
                },
            }
        } else if bc == TID_TX_MSDU_FAILED {
            match b.as_u64() {
                Some(v) => {
                    rec.tx_msdu_failed = Some(v);
                },
                None => {
                    return Err(station_decode_error(bc));
                },
            }
        }
        proof {
            assert(tid_entry_step(code, inner_ms[j as int]) == Some(rec));
        }
        if code < 1 || code > 17 {
            return Err(tid_code_error(code));
        }
        slots.set((code - 1) as usize, rec);
        proof {
            assert(slots@ =~= sprev.update(code as int - 1, rec));
        }
        j = j + 1;
    }
    proof {
        assert(inner_ms.skip(inner_ms.len() as int) =~= Seq::<AttrModel>::empty());
    }
    Ok(())
}

/// Decodes the per-TID statistics array from the payload of the
/// statistics attribute.
pub fn decode_tid_stats(payload: &TlvAttr) -> (r: Result<Vec<TrafficIdStats>, NlError>)
    ensures
        match r {
            Ok(v) => spec_decode_tid_stats(payload@.payload) == Some(v@) && v@.len() == 17,
            Err(_) => spec_decode_tid_stats(payload@.payload) is None,
        },
{
    let middle = match payload.as_nested() {
        Some(v) => v,
        None => {
            return Err(station_decode_error(payload.code));
        },
    };
    let ghost ms = attrs_view(middle@);
    let mut slots: Vec<TrafficIdStats> = Vec::new();
    let mut k: usize = 0;
    while k < 17
        invariant
            k <= 17,
            slots@.len() == k,
            forall|j: int| 0 <= j < k ==> slots@[j] == spec_tid_new(0),
        decreases 17 - k,
    {
        slots.push(TrafficIdStats::new(0));
        k = k + 1;
    }
    proof {
        assert(slots@ =~= tid_defaults());
        assert(ms.skip(0) =~= ms);
    }
    let mut i: usize = 0;
    while i < middle.len()
        invariant
            i <= middle.len(),
            ms == attrs_view(middle@),
            slots@.len() == 17,
            spec_decode_tid_stats(payload@.payload) == tid_outer_fold(slots@, ms.skip(i as int)),
        decreases middle.len() - i,
    {
        let ghost prev = slots@;
        proof {
            assert(ms.skip(i as int)[0] == ms[i as int]);
            assert(ms[i as int] == middle@[i as int]@);
            assert(ms.skip(i as int).skip(1) =~= ms.skip(i as int + 1));
        }
        let a = &middle[i];
        let code = a.code;
        let inner = match a.as_nested() {
            Some(v) => v,
            None => {
                proof {
                    assert(tid_outer_fold(prev, ms.skip(i as int)) is None);
                }
                return Err(station_decode_error(code));
            },
        };
        match apply_tid_entries(&mut slots, code, &inner) {
            Ok(_) => {},
            Err(e) => {
                proof {
                    assert(tid_outer_fold(prev, ms.skip(i as int)) is None);
                }
                return Err(e);
            },
        }
        i = i + 1;
    }
    proof {
        assert(ms.skip(ms.len() as int) =~= Seq::<AttrModel>::empty());
    }
    Ok(slots)
}


/// Law: when a message carries both the 16-bit and the 32-bit bitrate
/// attribute, in either order, the decoded bitrate is the 32-bit value,
/// provided that value is not zero (a zero 32-bit value cannot be told
/// apart from the initial state, and a later 16-bit value then fills in).
pub proof fn lemma_bitrate_precedence(v16: u16, v32: u32)
    requires
        v32 != 0,
    ensures
        ({
            let a16 = AttrModel { code: RATE_BITRATE, payload: le_bytes(v16 as int, 2) };
            let a32 = AttrModel { code: RATE_BITRATE32, payload: le_bytes(v32 as int, 4) };
            &&& spec_decode_rate(seq![a16, a32]) is Some
            &&& spec_decode_rate(seq![a16, a32])->Some_0.bitrate == v32
            &&& spec_decode_rate(seq![a32, a16]) is Some
            &&& spec_decode_rate(seq![a32, a16])->Some_0.bitrate == v32
        }),
{
    reveal_with_fuel(rate_fold, 4);
    let a16 = AttrModel { code: RATE_BITRATE, payload: le_bytes(v16 as int, 2) };
    let a32 = AttrModel { code: RATE_BITRATE32, payload: le_bytes(v32 as int, 4) };
    lemma_u16_extraction_round_trip(v16);
    lemma_u32_extraction_round_trip(v32);
    assert(seq![a16, a32].skip(1) =~= seq![a32]);
    assert(seq![a32, a16].skip(1) =~= seq![a16]);
    assert(seq![a32].skip(1) =~= Seq::<AttrModel>::empty());
    assert(seq![a16].skip(1) =~= Seq::<AttrModel>::empty());
    let after16 = rate_step(rate_empty(), a16)->Some_0;
    assert(rate_fold(rate_empty(), seq![a16, a32]) == rate_fold(after16, seq![a32]));
    let first32 = rate_step(rate_empty(), a32)->Some_0;
    assert(first32.bitrate == v32);
    assert(rate_step(first32, a16) == Some(first32));
    assert(rate_fold(rate_empty(), seq![a32, a16]) == rate_fold(first32, seq![a16]));
}

/// Station information returned from netlink.
#[derive(Debug, Clone, Default)]
pub struct WirelessStation {
    /// Network interface index.
    pub interface_index: u32,
    /// Station MAC address (BSSID).
    pub mac: MacAddress,
    /// Dump-consistency counter: it increases whenever the object list
    /// being dumped changes.
    pub generation: u32,
    /// Signal strength of the last received PPDU in dBm.
    pub signal: Option<i8>,
    /// Signal strength average in dBm.
    pub average_signal: Option<i8>,
    /// Signal strength average for beacons only, in dBm.
    pub beacon_average_signal: Option<i8>,
    /// Per-chain signal strength of the last PPDU in dBm.
    pub chain_signal: Vec<u8>,
    /// Time since the station was last connected.
    pub connected_time: Option<Duration>,
    /// Time since last activity.
    pub inactive_time: Option<Duration>,
    /// Timestamp of the station's association, nanoseconds since boot.
    pub associated_at_boot_time: Option<Duration>,
    /// Total received bytes (MPDU length) from this station.
    pub rx_bytes: Option<u32>,
    /// Total transmitted bytes (MPDU length) to this station.
    pub tx_bytes: Option<u32>,
    /// Total received bytes (MPDU length) from this station, 64-bit.
    pub rx_bytes64: Option<u64>,
    /// Total transmitted bytes (MPDU length) to this station, 64-bit.
    pub tx_bytes64: Option<u64>,
    /// Aggregate PPDU duration for all frames received from the station.
    pub rx_duration: Option<Duration>,
    /// Aggregate PPDU duration for all frames sent to the station.
    pub tx_duration: Option<Duration>,
    /// Total packets (MSDUs and MMPDUs) received from this station.
    pub rx_packets: Option<u32>,
    /// Total packets (MSDUs and MMPDUs) transmitted to this station.
    pub tx_packets: Option<u32>,
    /// Total retries (MPDUs) to this station.
    pub tx_retries: Option<u32>,
    /// Total failed packets (MPDUs) to this station.
    pub tx_failed: Option<u32>,
    /// Count of times beacon loss was detected.
    pub beacon_loss: Option<u32>,
    /// Total received packets dropped for unspecified reasons.
    pub rx_drop_misc: Option<u64>,
    /// Number of beacons received from this station.
    pub beacon_rx: Option<u64>,
    /// Per-traffic-identifier statistics: seventeen slots, TIDs 0 to 15
    /// plus the non-QoS bucket, slot index = wire TID value - 1.
    pub tid_stats: Option<Vec<TrafficIdStats>>,
    /// Whether BSS CTS protection is enabled.
    pub bss_cts_protection: Option<bool>,
    /// Whether BSS short preamble is enabled.
    pub bss_short_preamble: Option<bool>,
    /// Whether short slot time is enabled.
    pub bss_short_slot_time: Option<bool>,
    /// BSS DTIM period for beaconing.
    pub bss_dtim_period: Option<u8>,
    /// BSS beacon interval.
    pub bss_beacon_interval: Option<u16>,
    /// Receive bitrate information.
    pub rx_bitrate: Option<RateInfo>,
    /// Transmit bitrate information.
    pub tx_bitrate: Option<RateInfo>,
}

/// Mathematical model of a wireless station.
pub ghost struct StationModel {
    pub interface_index: u32,
    pub mac: Seq<u8>,
    pub generation: u32,
    pub signal: Option<i8>,
    pub average_signal: Option<i8>,
    pub beacon_average_signal: Option<i8>,
    pub chain_signal: Seq<u8>,
    pub connected_time: Option<Duration>,
    pub inactive_time: Option<Duration>,
    pub associated_at_boot_time: Option<Duration>,
    pub rx_bytes: Option<u32>,
    pub tx_bytes: Option<u32>,
    pub rx_bytes64: Option<u64>,
    pub tx_bytes64: Option<u64>,
    pub rx_duration: Option<Duration>,
    pub tx_duration: Option<Duration>,
    pub rx_packets: Option<u32>,
    pub tx_packets: Option<u32>,
    pub tx_retries: Option<u32>,
    pub tx_failed: Option<u32>,
    pub beacon_loss: Option<u32>,
    pub rx_drop_misc: Option<u64>,
    pub beacon_rx: Option<u64>,
    pub tid_stats: Option<Seq<TrafficIdStats>>,
    pub bss_cts_protection: Option<bool>,
    pub bss_short_preamble: Option<bool>,
    pub bss_short_slot_time: Option<bool>,
    pub bss_dtim_period: Option<u8>,
    pub bss_beacon_interval: Option<u16>,
    pub rx_bitrate: Option<RateInfo>,
    pub tx_bitrate: Option<RateInfo>,
}

impl View for WirelessStation {
    type V = StationModel;

    open spec fn view(&self) -> StationModel {
        StationModel {
            interface_index: self.interface_index,
            mac: self.mac@,
            generation: self.generation,
            signal: self.signal,
            average_signal: self.average_signal,
            beacon_average_signal: self.beacon_average_signal,
            chain_signal: self.chain_signal@,
            connected_time: self.connected_time,
            inactive_time: self.inactive_time,
            associated_at_boot_time: self.associated_at_boot_time,
            rx_bytes: self.rx_bytes,
            tx_bytes: self.tx_bytes,
            rx_bytes64: self.rx_bytes64,
            tx_bytes64: self.tx_bytes64,
            rx_duration: self.rx_duration,
            tx_duration: self.tx_duration,
            rx_packets: self.rx_packets,
            tx_packets: self.tx_packets,
            tx_retries: self.tx_retries,
            tx_failed: self.tx_failed,
            beacon_loss: self.beacon_loss,
            rx_drop_misc: self.rx_drop_misc,
            beacon_rx: self.beacon_rx,
            tid_stats: match self.tid_stats {
                Some(v) => Some(v@),
                None => None,
            },
            bss_cts_protection: self.bss_cts_protection,
            bss_short_preamble: self.bss_short_preamble,
            bss_short_slot_time: self.bss_short_slot_time,
            bss_dtim_period: self.bss_dtim_period,
            bss_beacon_interval: self.bss_beacon_interval,
            rx_bitrate: self.rx_bitrate,
            tx_bitrate: self.tx_bitrate,
        }
    }
}

/// The model of a station before any attribute is applied.
pub open spec fn sta_empty() -> StationModel {
    StationModel {
        interface_index: 0,
        mac: seq![0u8, 0u8, 0u8, 0u8, 0u8, 0u8],
        generation: 0,
        signal: None,
        average_signal: None,
        beacon_average_signal: None,
        chain_signal: Seq::empty(),
        connected_time: None,
        inactive_time: None,
        associated_at_boot_time: None,
        rx_bytes: None,
        tx_bytes: None,
        rx_bytes64: None,
        tx_bytes64: None,
        rx_duration: None,
        tx_duration: None,
        rx_packets: None,
        tx_packets: None,
        tx_retries: None,
        tx_failed: None,
        beacon_loss: None,
        rx_drop_misc: None,
        beacon_rx: None,
        tid_stats: None,
        bss_cts_protection: None,
        bss_short_preamble: None,
        bss_short_slot_time: None,
        bss_dtim_period: None,
        bss_beacon_interval: None,
        rx_bitrate: None,
        tx_bitrate: None,
    }
}

/// One BSS-parameter attribute applied to the model: the three flags flip
/// to true by presence alone, period and interval carry values.
pub open spec fn bss_step(m: StationModel, a: AttrModel) -> Option<StationModel> {
    if a.code == BSS_CTS_PROT {
        Some(StationModel { bss_cts_protection: Some(true), ..m })
    } else if a.code == BSS_SHORT_PREAMBLE {
        Some(StationModel { bss_short_preamble: Some(true), ..m })
    } else if a.code == BSS_SHORT_SLOT_TIME {
        Some(StationModel { bss_short_slot_time: Some(true), ..m })
    } else if a.code == BSS_DTIM_PERIOD {
        match spec_as_u8(a.payload) {
            Some(v) => Some(StationModel { bss_dtim_period: Some(v), ..m }),
            None => None,
        }
    } else if a.code == BSS_BEACON_INTERVAL {
        match spec_as_u16(a.payload) {
            Some(v) => Some(StationModel { bss_beacon_interval: Some(v), ..m }),
            None => None,
        }
    } else {
        Some(m)
    }
}

/// The BSS-parameter attributes applied in order.
pub open spec fn bss_fold(m: StationModel, attrs: Seq<AttrModel>) -> Option<StationModel>
    decreases attrs.len(),
{
    if attrs.len() == 0 {
        Some(m)
    } else {
        match bss_step(m, attrs[0]) {
            Some(m2) => bss_fold(m2, attrs.skip(1)),
            None => None,
        }
    }
}

/// The model once a BSS-parameter attribute is present: the three flags
/// default to false before the flag sub-attributes flip them.
pub open spec fn bss_start(m: StationModel) -> StationModel {
    StationModel {
        bss_cts_protection: Some(false),
        bss_short_preamble: Some(false),
        bss_short_slot_time: Some(false),
        ..m
    }
}

/// One station-information attribute applied to the model.
pub open spec fn sta_info_step(m: StationModel, a: AttrModel) -> Option<StationModel> {
    if a.code == STA_SIGNAL {
        match spec_as_i8(a.payload) {
            Some(v) => Some(StationModel { signal: Some(v), ..m }),
            None => None,
        }
    } else if a.code == STA_SIGNAL_AVG {
        match spec_as_i8(a.payload) {
            Some(v) => Some(StationModel { average_signal: Some(v), ..m }),
            None => None,
        }
    } else if a.code == STA_BEACON_SIGNAL_AVG {
        match spec_as_i8(a.payload) {
            Some(v) => Some(StationModel { beacon_average_signal: Some(v), ..m }),
            None => None,
        }
    } else if a.code == STA_CHAIN_SIGNAL {
        Some(StationModel { chain_signal: a.payload, ..m })
    } else if a.code == STA_CONNECTED_TIME {
        match spec_as_u32(a.payload) {
            Some(v) => Some(
                StationModel {
                    connected_time: Some(Duration { secs: v as u64, nanos: 0 }),
                    ..m
                },
            ),
            None => None,
        }
    } else if a.code == STA_INACTIVE_TIME {
        match spec_as_u32(a.payload) {
            Some(v) => Some(
                StationModel {
                    inactive_time: Some(spec_duration_from_millis(v as u64)),
                    ..m
                },
            ),
            None => None,
        }
    } else if a.code == STA_ASSOC_AT_BOOT_TIME {
        match spec_as_u64(a.payload) {
            Some(v) => Some(
                StationModel {
                    associated_at_boot_time: Some(spec_duration_from_nanos(v)),
                    ..m
                },
            ),
            None => None,
        }
    } else if a.code == STA_RX_BYTES {
        match spec_as_u32(a.payload) {
            Some(v) => Some(StationModel { rx_bytes: Some(v), ..m }),
            None => None,
        }
    } else if a.code == STA_TX_BYTES {
        match spec_as_u32(a.payload) {
            Some(v) => Some(StationModel { tx_bytes: Some(v), ..m }),
            None => None,
        }
    } else if a.code == STA_RX_BYTES64 {
        match spec_as_u64(a.payload) {
            Some(v) => Some(StationModel { rx_bytes64: Some(v), ..m }),
            None => None,
        }
    } else if a.code == STA_TX_BYTES64 {
        match spec_as_u64(a.payload) {
            Some(v) => Some(StationModel { tx_bytes64: Some(v), ..m }),
            None => None,
        }
    } else if a.code == STA_RX_DURATION {
        match spec_as_u64(a.payload) {
            Some(v) => Some(
                StationModel { rx_duration: Some(spec_duration_from_millis(v)), ..m },
            ),
            None => None,
        }
    } else if a.code == STA_TX_DURATION {
        match spec_as_u64(a.payload) {
            Some(v) => Some(
                StationModel { tx_duration: Some(spec_duration_from_millis(v)), ..m },
            ),
            None => None,
        }
    } else if a.code == STA_RX_PACKETS {
        match spec_as_u32(a.payload) {
            Some(v) => Some(StationModel { rx_packets: Some(v), ..m }),
            None => None,
        }
    } else if a.code == STA_TX_PACKETS {
        match spec_as_u32(a.payload) {
            Some(v) => Some(StationModel { tx_packets: Some(v), ..m }),
            None => None,
        }
    } else if a.code == STA_TX_RETRIES {
        match spec_as_u32(a.payload) {
            Some(v) => Some(StationModel { tx_retries: Some(v), ..m }),
            None => None,
        }
    } else if a.code == STA_TX_FAILED {
        match spec_as_u32(a.payload) {
            Some(v) => Some(StationModel { tx_failed: Some(v), ..m }),
            None => None,
        }
    } else if a.code == STA_BEACON_LOSS {
        match spec_as_u32(a.payload) {
            Some(v) => Some(StationModel { beacon_loss: Some(v), ..m }),
            None => None,
        }
    } else if a.code == STA_RX_DROP_MISC {
        match spec_as_u64(a.payload) {
            Some(v) => Some(StationModel { rx_drop_misc: Some(v), ..m }),
            None => None,
        }
    } else if a.code == STA_BEACON_RX {
        match spec_as_u64(a.payload) {
            Some(v) => Some(StationModel { beacon_rx: Some(v), ..m }),
            None => None,
        }
    } else if a.code == STA_RX_BITRATE {
        match spec_walk(a.payload) {
            Some(sub) => match spec_decode_rate(sub) {
                Some(rate) => Some(StationModel { rx_bitrate: Some(rate), ..m }),
                None => None,
            },
            None => None,
        }
    } else if a.code == STA_TX_BITRATE {
        match spec_walk(a.payload) {
            Some(sub) => match spec_decode_rate(sub) {
                Some(rate) => Some(StationModel { tx_bitrate: Some(rate), ..m }),
                None => None,
            },
            None => None,
        }
    } else if a.code == STA_TID_STATS {
        match spec_decode_tid_stats(a.payload) {
            Some(slots) => Some(StationModel { tid_stats: Some(slots), ..m }),
            None => None,
        }
    } else if a.code == STA_BSS_PARAM {
        match spec_walk(a.payload) {
            Some(sub) => bss_fold(bss_start(m), sub),
            None => None,
        }
    } else {
        Some(m)
    }
}

/// The station-information attributes applied in order.
pub open spec fn sta_info_fold(m: StationModel, attrs: Seq<AttrModel>) -> Option<StationModel>
    decreases attrs.len(),
{
    if attrs.len() == 0 {
        Some(m)
    } else {
        match sta_info_step(m, attrs[0]) {
            Some(m2) => sta_info_fold(m2, attrs.skip(1)),
            None => None,
        }
    }
}

/// One top-level attribute of a station dump message applied to the
/// model.
pub open spec fn sta_step(m: StationModel, a: AttrModel) -> Option<StationModel> {
    if a.code == ATTR_IFINDEX {
        match spec_as_u32(a.payload) {
            Some(v) => Some(StationModel { interface_index: v, ..m }),
            None => None,
        }
    } else if a.code == ATTR_MAC {
        match spec_as_mac(a.payload) {
            Some(b) => Some(StationModel { mac: b, ..m }),
            None => None,
        }
    } else if a.code == ATTR_GENERATION {
        match spec_as_u32(a.payload) {
            Some(v) => Some(StationModel { generation: v, ..m }),
            None => None,
        }
    } else if a.code == ATTR_STA_INFO {
        match spec_walk(a.payload) {
            Some(sub) => sta_info_fold(m, sub),
            None => None,
        }
    } else {
        Some(m)
    }
}

/// The top-level attributes applied in order to the station model.
pub open spec fn sta_fold(m: StationModel, attrs: Seq<AttrModel>) -> Option<StationModel>
    decreases attrs.len(),
{
    if attrs.len() == 0 {
        Some(m)
    } else {
        match sta_step(m, attrs[0]) {
            Some(m2) => sta_fold(m2, attrs.skip(1)),
            None => None,
        }
    }
}

/// What a top-level attribute sequence decodes to as a wireless station.
pub open spec fn spec_decode_station(attrs: Seq<AttrModel>) -> Option<StationModel> {
    sta_fold(sta_empty(), attrs)
}

/// Applies the station-information attributes nested under the
/// station-info attribute.
fn apply_sta_info(w: &mut WirelessStation, attrs: &Vec<TlvAttr>) -> (r: Result<(), NlError>)
    ensures
        match r {
            Ok(_) => sta_info_fold(old(w)@, attrs_view(attrs@)) == Some(final(w)@),
            Err(_) => sta_info_fold(old(w)@, attrs_view(attrs@)) is None,
        },
{
    let ghost ms = attrs_view(attrs@);
    proof {
        assert(ms.skip(0) =~= ms);
    }
    let mut i: usize = 0;
    while i < attrs.len()
        invariant
            i <= attrs.len(),
            ms == attrs_view(attrs@),
            sta_info_fold(old(w)@, ms) == sta_info_fold(w@, ms.skip(i as int)),
        decreases attrs.len() - i,
    {
        let ghost prev = w@;
        proof {
            assert(ms.skip(i as int)[0] == ms[i as int]);
            assert(ms[i as int] == attrs@[i as int]@);
            assert(ms.skip(i as int).skip(1) =~= ms.skip(i as int + 1));
        }
        let a = &attrs[i];
        let c = a.code;
        if c == STA_SIGNAL {
            match a.as_i8() {
                Some(v) => {
                    w.signal = Some(v);
                },
                None => {
                    return Err(station_decode_error(c));
                },
            }
        } else if c == STA_SIGNAL_AVG {
            match a.as_i8() {
                Some(v) => {
                    w.average_signal = Some(v);
                },
                None => {
                    return Err(station_decode_error(c));
                },
            }
        } else if c == STA_BEACON_SIGNAL_AVG {
            match a.as_i8() {
                Some(v) => {
                    w.beacon_average_signal = Some(v);
                },
                None => {
                    return Err(station_decode_error(c));
                },
            }
        } else if c == STA_CHAIN_SIGNAL {
            w.chain_signal = a.payload.clone();
        } else if c == STA_CONNECTED_TIME {
            match a.as_u32() {
                Some(v) => {
                    w.connected_time = Some(Duration::from_secs(v as u64));
                },
                None => {
                    return Err(station_decode_error(c));
                },
            }
        } else if c == STA_INACTIVE_TIME {
            match a.as_u32() {
                Some(v) => {
                    w.inactive_time = Some(Duration::from_millis(v as u64));
                },
                None => {
                    return Err(station_decode_error(c));
                },
            }
        } else if c == STA_ASSOC_AT_BOOT_TIME {
            match a.as_u64() {
                Some(v) => {
                    w.associated_at_boot_time = Some(Duration::from_nanos(v));
                },
                None => {
                    return Err(station_decode_error(c));
                },
            }
        } else if c == STA_RX_BYTES {
            match a.as_u32() {
                Some(v) => {
                    w.rx_bytes = Some(v);
                },
                None => {
                    return Err(station_decode_error(c));
                },
            }
        } else if c == STA_TX_BYTES {
            match a.as_u32() {
                Some(v) => {
                    w.tx_bytes = Some(v);
                },
                None => {
                    return Err(station_decode_error(c));
                },
            }
        } else if c == STA_RX_BYTES64 {
            match a.as_u64() {
                Some(v) => {
                    w.rx_bytes64 = Some(v);
                },
                None => {
                    return Err(station_decode_error(c));
                },
            }
        } else if c == STA_TX_BYTES64 {
            match a.as_u64() {
                Some(v) => {
                    w.tx_bytes64 = Some(v);
                },
                None => {
                    return Err(station_decode_error(c));
                },
            }
        } else if c == STA_RX_DURATION {
            match a.as_u64() {
                Some(v) => {
                    w.rx_duration = Some(Duration::from_millis(v));
                },
                None => {
                    return Err(station_decode_error(c));
                },
            }
        } else if c == STA_TX_DURATION {
            match a.as_u64() {
                Some(v) => {
                    w.tx_duration = Some(Duration::from_millis(v));
                },
                None => {
                    return Err(station_decode_error(c));
                },
            }
        } else if c == STA_RX_PACKETS {
            match a.as_u32() {
                Some(v) => {
                    w.rx_packets = Some(v);
                },
                None => {
                    return Err(station_decode_error(c));
                },
            }
        } else if c == STA_TX_PACKETS {
            match a.as_u32() {
                Some(v) => {
                    w.tx_packets = Some(v);
                },
                None => {
                    return Err(station_decode_error(c));
                },
            }
        } else if c == STA_TX_RETRIES {
            match a.as_u32() {
                Some(v) => {
                    w.tx_retries = Some(v);
                },
                None => {
                    return Err(station_decode_error(c));
                },
            }
        } else if c == STA_TX_FAILED {
            match a.as_u32() {
                Some(v) => {
                    w.tx_failed = Some(v);
                },
                None => {
                    return Err(station_decode_error(c));
                },
            }
        } else if c == STA_BEACON_LOSS {
            match a.as_u32() {
                Some(v) => {
                    w.beacon_loss = Some(v);
                },
                None => {
                    return Err(station_decode_error(c));
                },
            }
        } else if c == STA_RX_DROP_MISC {
            match a.as_u64() {
                Some(v) => {
                    w.rx_drop_misc = Some(v);
                },
                None => {
                    return Err(station_decode_error(c));
                },
            }
        } else if c == STA_BEACON_RX {
            match a.as_u64() {
                Some(v) => {
                    w.beacon_rx = Some(v);
                },
                None => {
                    return Err(station_decode_error(c));
                },
            }
        } else if c == STA_RX_BITRATE {
            match a.as_nested() {
                Some(sub) => match decode_rate(&sub) {
                    Ok(rate) => {
                        w.rx_bitrate = Some(rate);
                    },
                    Err(e) => {
                        return Err(e);
                    },
                },
                None => {
                    return Err(station_decode_error(c));
                },
            }
        } else if c == STA_TX_BITRATE {
            match a.as_nested() {
                Some(sub) => match decode_rate(&sub) {
                    Ok(rate) => {
                        w.tx_bitrate = Some(rate);
                    },
                    Err(e) => {
                        return Err(e);
                    },
                },
                None => {
                    return Err(station_decode_error(c));
                },
            }
        } else if c == STA_TID_STATS {
            match decode_tid_stats(a) {
                Ok(slots) => {
                    w.tid_stats = Some(slots);
                },
                Err(e) => {
                    return Err(e);
                },
            }
        } else if c == STA_BSS_PARAM {
            match a.as_nested() {
                Some(sub) => {
                    w.bss_cts_protection = Some(false);
                    w.bss_short_preamble = Some(false);
                    w.bss_short_slot_time = Some(false);
                    match apply_bss_params(w, &sub) {
                        Ok(_) => {},
                        Err(e) => {
                            return Err(e);
                        },
                    }
                },
                None => {
                    return Err(station_decode_error(c));
                },
            }
        }
        proof {
            assert(sta_info_step(prev, ms[i as int]) == Some(w@));
        }
        i = i + 1;
    }
    proof {
        assert(ms.skip(ms.len() as int) =~= Seq::<AttrModel>::empty());
    }
    Ok(())
}

/// Applies the BSS-parameter attributes nested under the BSS-parameter
/// attribute of the station information.
fn apply_bss_params(w: &mut WirelessStation, attrs: &Vec<TlvAttr>) -> (r: Result<(), NlError>)
    ensures
        match r {
            Ok(_) => bss_fold(old(w)@, attrs_view(attrs@)) == Some(final(w)@),
            Err(_) => bss_fold(old(w)@, attrs_view(attrs@)) is None,
        },
{
    let ghost ms = attrs_view(attrs@);
    proof {
        assert(ms.skip(0) =~= ms);
    }
    let mut i: usize = 0;
    while i < attrs.len()
        invariant
            i <= attrs.len(),
            ms == attrs_view(attrs@),
            bss_fold(old(w)@, ms) == bss_fold(w@, ms.skip(i as int)),
        decreases attrs.len() - i,
    {
        let ghost prev = w@;
        proof {
            assert(ms.skip(i as int)[0] == ms[i as int]);
            assert(ms[i as int] == attrs@[i as int]@);
            assert(ms.skip(i as int).skip(1) =~= ms.skip(i as int + 1));
        }
        let a = &attrs[i];
        let c = a.code;
        if c == BSS_CTS_PROT {
            w.bss_cts_protection = Some(true);
        } else if c == BSS_SHORT_PREAMBLE {
            w.bss_short_preamble = Some(true);
        } else if c == BSS_SHORT_SLOT_TIME {
            w.bss_short_slot_time = Some(true);
        } else if c == BSS_DTIM_PERIOD {
            match a.as_u8() {
                Some(v) => {
                    w.bss_dtim_period = Some(v);
                },
                None => {
                    return Err(station_decode_error(c));
                },
            }
        } else if c == BSS_BEACON_INTERVAL {
            match a.as_u16() {
                Some(v) => {
                    w.bss_beacon_interval = Some(v);
                },
                None => {
                    return Err(station_decode_error(c));
                },
            }
        }
        proof {
            assert(bss_step(prev, ms[i as int]) == Some(w@));
        }
        i = i + 1;
    }
    proof {
        assert(ms.skip(ms.len() as int) =~= Seq::<AttrModel>::empty());
    }
    Ok(())
}

/// Decodes one station from the top-level attribute sequence of a dump
/// message.  A registered attribute whose payload has the wrong shape is
/// an error; unregistered attributes are skipped.
pub fn decode_station(attrs: &Vec<TlvAttr>) -> (r: Result<WirelessStation, NlError>)
    ensures
        match r {
            Ok(w) => spec_decode_station(attrs_view(attrs@)) == Some(w@),
            Err(_) => spec_decode_station(attrs_view(attrs@)) is None,
        },
{
    let ghost ms = attrs_view(attrs@);
    let mut w = WirelessStation {
        interface_index: 0,
        mac: MacAddress::from_bytes([0u8, 0u8, 0u8, 0u8, 0u8, 0u8]),
        generation: 0,
        signal: None,
        average_signal: None,
        beacon_average_signal: None,
        chain_signal: Vec::new(),
        connected_time: None,
        inactive_time: None,
        associated_at_boot_time: None,
        rx_bytes: None,
        tx_bytes: None,
        rx_bytes64: None,
        tx_bytes64: None,
        rx_duration: None,
        tx_duration: None,
        rx_packets: None,
        tx_packets: None,
        tx_retries: None,
        tx_failed: None,
        beacon_loss: None,
        rx_drop_misc: None,
        beacon_rx: None,
        tid_stats: None,
        bss_cts_protection: None,
        bss_short_preamble: None,
        bss_short_slot_time: None,
        bss_dtim_period: None,
        bss_beacon_interval: None,
        rx_bitrate: None,
        tx_bitrate: None,
    };
    proof {
        assert(ms.skip(0) =~= ms);
        assert(w.mac@ =~= sta_empty().mac);
        assert(w@ == sta_empty());
    }
    let mut i: usize = 0;
    while i < attrs.len()
        invariant
            i <= attrs.len(),
            ms == attrs_view(attrs@),
            spec_decode_station(ms) == sta_fold(w@, ms.skip(i as int)),
        decreases attrs.len() - i,
    {
        let ghost prev = w@;
        proof {
            assert(ms.skip(i as int)[0] == ms[i as int]);
            assert(ms[i as int] == attrs@[i as int]@);
            assert(ms.skip(i as int).skip(1) =~= ms.skip(i as int + 1));
        }
        let a = &attrs[i];
        let c = a.code;
        if c == ATTR_IFINDEX {
            match a.as_u32() {
                Some(v) => {
                    w.interface_index = v;
                },
                None => {
                    return Err(station_decode_error(c));
                },
            }
        } else if c == ATTR_MAC {
            match mac_from_payload(&a.payload) {
                Some(m) => {
                    w.mac = m;
                },
                None => {
                    return Err(station_decode_error(c));
                },
            }
        } else if c == ATTR_GENERATION {
            match a.as_u32() {
                Some(v) => {
                    w.generation = v;
                },
                None => {
                    return Err(station_decode_error(c));
                },
            }
        } else if c == ATTR_STA_INFO {
            match a.as_nested() {
                Some(sub) => match apply_sta_info(&mut w, &sub) {
                    Ok(_) => {},
                    Err(e) => {
                        proof {
                            assert(sta_step(prev, ms[i as int]) is None);
                        }
                        return Err(e);
                    },
                },
                None => {
                    return Err(station_decode_error(c));
                },
            }
        }
        proof {
            assert(sta_step(prev, ms[i as int]) == Some(w@));
        }
        i = i + 1;
    }
    proof {
        assert(ms.skip(ms.len() as int) =~= Seq::<AttrModel>::empty());
    }
    Ok(w)
}

/// The error returned when a station attribute's payload has the wrong
/// shape, naming the failing attribute's code.
fn station_decode_error(code: u16) -> NlError {
    let mut msg = String::from_str("station attribute payload has the wrong shape: code ");
    let digits = u16_decimal(code);
    msg.append(digits.as_str());
    NlError::new(msg)
}

/// The error returned when a wire TID cannot be placed in the seventeen
/// slots of the statistics array.
fn tid_code_error(code: u16) -> NlError {
    let mut msg = String::from_str("wire TID code outside the statistics array: code ");
    let digits = u16_decimal(code);
    msg.append(digits.as_str());
    NlError::new(msg)
}


impl ConnectionType {
    /// The display name of the connection type.
    pub fn name(&self) -> (r: &'static str)
        ensures
            *self == ConnectionType::Ht ==> r@ == "HT"@,
            *self == ConnectionType::Vht ==> r@ == "VHT"@,
            *self == ConnectionType::He ==> r@ == "HE"@,
            *self == ConnectionType::Unknown ==> r@ == "Unknown"@,
    {
        match self {
            ConnectionType::Ht => "HT",
            ConnectionType::Vht => "VHT",
            ConnectionType::He => "HE",
            ConnectionType::Unknown => "Unknown",
        }
    }
}

} // verus!
