//! Attribute registries: the closed sets of wire type codes, one per
//! nesting namespace.  The same numeric code means different things in
//! different namespaces, so every decoder is handed the constants of the
//! namespace that governs its container, never a global set.

use vstd::prelude::*;

verus! {

// Top-level nl80211 attributes.
pub const ATTR_WIPHY: u16 = 1;
pub const ATTR_WIPHY_NAME: u16 = 2;
pub const ATTR_IFINDEX: u16 = 3;
pub const ATTR_IFNAME: u16 = 4;
pub const ATTR_IFTYPE: u16 = 5;
pub const ATTR_MAC: u16 = 6;
pub const ATTR_STA_INFO: u16 = 21;
pub const ATTR_WIPHY_BANDS: u16 = 22;
pub const ATTR_MNTR_FLAGS: u16 = 23;
pub const ATTR_REG_ALPHA2: u16 = 33;
pub const ATTR_REG_RULES: u16 = 34;
pub const ATTR_WIPHY_FREQ: u16 = 38;
pub const ATTR_WIPHY_CHANNEL_TYPE: u16 = 39;
pub const ATTR_GENERATION: u16 = 46;
pub const ATTR_SSID: u16 = 52;
pub const ATTR_USE_4ADDR_FRAMES: u16 = 83;
pub const ATTR_WIPHY_TX_POWER_LEVEL: u16 = 98;
pub const ATTR_DFS_REGION: u16 = 146;
pub const ATTR_WDEV: u16 = 153;
pub const ATTR_CHANNEL_WIDTH: u16 = 159;
pub const ATTR_CENTER_FREQ1: u16 = 160;
pub const ATTR_CENTER_FREQ2: u16 = 161;
pub const ATTR_SPLIT_WIPHY_DUMP: u16 = 174;
pub const ATTR_WIPHY_SELF_MANAGED_REG: u16 = 216;
pub const ATTR_TXQ_STATS: u16 = 265;
pub const ATTR_WIPHY_FREQ_OFFSET: u16 = 290;

// Station-information attributes, nested under `ATTR_STA_INFO`.
pub const STA_INACTIVE_TIME: u16 = 1;
pub const STA_RX_BYTES: u16 = 2;
pub const STA_TX_BYTES: u16 = 3;
pub const STA_SIGNAL: u16 = 7;
pub const STA_TX_BITRATE: u16 = 8;
pub const STA_RX_PACKETS: u16 = 9;
pub const STA_TX_PACKETS: u16 = 10;
pub const STA_TX_RETRIES: u16 = 11;
pub const STA_TX_FAILED: u16 = 12;
pub const STA_SIGNAL_AVG: u16 = 13;
pub const STA_RX_BITRATE: u16 = 14;
pub const STA_BSS_PARAM: u16 = 15;
pub const STA_CONNECTED_TIME: u16 = 16;
pub const STA_FLAGS: u16 = 17;
pub const STA_BEACON_LOSS: u16 = 18;
pub const STA_RX_BYTES64: u16 = 23;
pub const STA_TX_BYTES64: u16 = 24;
pub const STA_CHAIN_SIGNAL: u16 = 25;
pub const STA_RX_DROP_MISC: u16 = 28;
pub const STA_BEACON_RX: u16 = 29;
pub const STA_BEACON_SIGNAL_AVG: u16 = 30;
pub const STA_TID_STATS: u16 = 31;
pub const STA_RX_DURATION: u16 = 32;
pub const STA_TX_DURATION: u16 = 39;
pub const STA_ASSOC_AT_BOOT_TIME: u16 = 42;

// Rate-information attributes, nested under the bitrate attributes of the
// station-information namespace.
pub const RATE_BITRATE: u16 = 1;
pub const RATE_MCS: u16 = 2;
pub const RATE_MHZ_WIDTH40: u16 = 3;
pub const RATE_SHORT_GI: u16 = 4;
pub const RATE_BITRATE32: u16 = 5;
pub const RATE_VHT_MCS: u16 = 6;
pub const RATE_VHT_NSS: u16 = 7;
pub const RATE_MHZ_WIDTH80: u16 = 8;
pub const RATE_MHZ_WIDTH80P80: u16 = 9;
pub const RATE_MHZ_WIDTH160: u16 = 10;
pub const RATE_MHZ_WIDTH10: u16 = 11;
pub const RATE_MHZ_WIDTH5: u16 = 12;
pub const RATE_HE_MCS: u16 = 13;
pub const RATE_HE_NSS: u16 = 14;
pub const RATE_HE_GI: u16 = 15;
pub const RATE_HE_DCM: u16 = 16;
pub const RATE_HE_RU_ALLOC: u16 = 17;

// BSS-parameter attributes, nested under `STA_BSS_PARAM`.
pub const BSS_CTS_PROT: u16 = 1;
pub const BSS_SHORT_PREAMBLE: u16 = 2;
pub const BSS_SHORT_SLOT_TIME: u16 = 3;
pub const BSS_DTIM_PERIOD: u16 = 4;
pub const BSS_BEACON_INTERVAL: u16 = 5;

// Per-traffic-identifier statistics attributes, nested one level below
// `STA_TID_STATS` (the level between carries the wire TID code).
pub const TID_RX_MSDU: u16 = 1;
pub const TID_TX_MSDU: u16 = 2;
pub const TID_TX_MSDU_RETRIES: u16 = 3;
pub const TID_TX_MSDU_FAILED: u16 = 4;
pub const TID_PAD: u16 = 5;
pub const TID_TXQ_STATS: u16 = 6;

// Transmit-queue statistics attributes, nested under `ATTR_TXQ_STATS`.
pub const TXQ_BACKLOG_BYTES: u16 = 1;
pub const TXQ_BACKLOG_PACKETS: u16 = 2;
pub const TXQ_FLOWS: u16 = 3;
pub const TXQ_DROPS: u16 = 4;
pub const TXQ_ECN_MARKS: u16 = 5;
pub const TXQ_OVERLIMIT: u16 = 6;
pub const TXQ_OVERMEMORY: u16 = 7;
pub const TXQ_COLLISIONS: u16 = 8;
pub const TXQ_TX_BYTES: u16 = 9;
pub const TXQ_TX_PACKETS: u16 = 10;
pub const TXQ_MAX_FLOWS: u16 = 11;

// Frequency bands, nested under `ATTR_WIPHY_BANDS`.
pub const BAND_2GHZ: u16 = 0;
pub const BAND_5GHZ: u16 = 1;
pub const BAND_60GHZ: u16 = 2;
pub const BAND_6GHZ: u16 = 3;

// Band attributes, nested under one band.
pub const BAND_ATTR_FREQUENCIES: u16 = 1;

// Frequency attributes, nested under `BAND_ATTR_FREQUENCIES` entries.
pub const FREQ_ATTR_FREQUENCY: u16 = 1;
pub const FREQ_ATTR_DISABLED: u16 = 2;
pub const FREQ_ATTR_NO_IR: u16 = 3;
pub const FREQ_ATTR_NO_IBSS: u16 = 4;
pub const FREQ_ATTR_RADAR: u16 = 5;
pub const FREQ_ATTR_MAX_TX_POWER: u16 = 6;

// Regulatory-rule attributes, nested one level below `ATTR_REG_RULES`.
pub const REG_RULE_FLAGS: u16 = 1;
pub const REG_RULE_FREQ_RANGE_START: u16 = 2;
pub const REG_RULE_FREQ_RANGE_END: u16 = 3;
pub const REG_RULE_FREQ_RANGE_MAX_BW: u16 = 4;
pub const REG_RULE_MAX_ANT_GAIN: u16 = 5;
pub const REG_RULE_MAX_EIRP: u16 = 6;
pub const REG_RULE_DFS_CAC_TIME: u16 = 7;

// Regulatory-rule flags: one 32-bit bitmask attribute, tested bit by bit.
pub const RULE_NO_OFDM: u32 = 0x1;
pub const RULE_NO_CCK: u32 = 0x2;
pub const RULE_NO_INDOOR: u32 = 0x4;
pub const RULE_NO_OUTDOOR: u32 = 0x8;
pub const RULE_DFS: u32 = 0x10;
pub const RULE_PTP_ONLY: u32 = 0x20;
pub const RULE_PTMP_ONLY: u32 = 0x40;
pub const RULE_NO_IR: u32 = 0x80;
pub const RULE_AUTO_BW: u32 = 0x800;
pub const RULE_IR_CONCURRENT: u32 = 0x1000;
pub const RULE_NO_HT40MINUS: u32 = 0x2000;
pub const RULE_NO_HT40PLUS: u32 = 0x4000;
pub const RULE_NO_80MHZ: u32 = 0x8000;
pub const RULE_NO_160MHZ: u32 = 0x10000;
pub const RULE_NO_HE: u32 = 0x20000;
pub const RULE_NO_320MHZ: u32 = 0x40000;
pub const RULE_NO_EHT: u32 = 0x80000;

/// Monitor mode configuration flags.
#[derive(Debug, Clone, Copy, PartialEq, Eq, Structural)]
pub enum MonitorFlags {
    /// Attribute number 0 is reserved.
    Invalid,
    /// Pass frames with bad FCS.
    FcsFail,
    /// Pass frames with bad PLCP.
    PlcpFail,
    /// Pass control frames.
    Control,
    /// Disable BSSID filtering.
    OtherBss,
    /// Report frames after processing.  Overrides all other flags.
    CookFrames,
    /// Use the configured MAC address and ACK incoming unicast packets.
    Active,
}

/// The wire code of a monitor flag.
pub open spec fn spec_monitor_flag_code(f: MonitorFlags) -> u16 {
    match f {
        MonitorFlags::Invalid => 0,
        MonitorFlags::FcsFail => 1,
        MonitorFlags::PlcpFail => 2,
        MonitorFlags::Control => 3,
        MonitorFlags::OtherBss => 4,
        MonitorFlags::CookFrames => 5,
        MonitorFlags::Active => 6,
    }
}

impl MonitorFlags {
    /// The wire code of this flag.
    pub fn code(&self) -> (r: u16)
        ensures
            r == spec_monitor_flag_code(*self),
    {
        match self {
            MonitorFlags::Invalid => 0,
            MonitorFlags::FcsFail => 1,
            MonitorFlags::PlcpFail => 2,
            MonitorFlags::Control => 3,
            MonitorFlags::OtherBss => 4,
            MonitorFlags::CookFrames => 5,
            MonitorFlags::Active => 6,
        }
    }
}

} // verus!
