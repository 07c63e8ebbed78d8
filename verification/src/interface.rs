//! Wireless interface entities and their decoder from a top-level
//! attribute sequence.

use vstd::prelude::*;
use vstd::string::StringExecFns;

use crate::attributes::{
    ATTR_CENTER_FREQ1, ATTR_CENTER_FREQ2, ATTR_CHANNEL_WIDTH, ATTR_GENERATION, ATTR_IFINDEX,
    ATTR_IFNAME, ATTR_IFTYPE, ATTR_MAC, ATTR_SSID, ATTR_TXQ_STATS, ATTR_USE_4ADDR_FRAMES,
    ATTR_WDEV, ATTR_WIPHY, ATTR_WIPHY_FREQ, ATTR_WIPHY_FREQ_OFFSET, ATTR_WIPHY_TX_POWER_LEVEL,
    TXQ_BACKLOG_BYTES, TXQ_BACKLOG_PACKETS, TXQ_COLLISIONS, TXQ_DROPS, TXQ_ECN_MARKS,
    TXQ_FLOWS, TXQ_MAX_FLOWS, TXQ_OVERLIMIT, TXQ_OVERMEMORY, TXQ_TX_BYTES, TXQ_TX_PACKETS,
};
use crate::bytes::{
    attrs_view, le_bytes, lemma_u32_extraction_round_trip, spec_as_bool, spec_as_u32,
    spec_as_u64, spec_walk, trim_nuls, u16_decimal, utf8_lossy, AttrModel, TlvAttr,
};
use crate::error::NlError;

verus! {

/// A MAC address: six raw bytes.
#[derive(Debug, Copy, Clone, Default)]
pub struct MacAddress {
    address_bytes: [u8; 6],
}

impl View for MacAddress {
    type V = Seq<u8>;

    closed spec fn view(&self) -> Seq<u8> {
        self.address_bytes@
    }
}

impl MacAddress {
    /// The six address bytes.
    pub fn as_bytes(&self) -> (r: [u8; 6])
        ensures
            r@ == self@,
    {
        self.address_bytes
    }

    /// A MAC address from its six bytes.
    pub fn from_bytes(address_bytes: [u8; 6]) -> (r: MacAddress)
        ensures
            r@ == address_bytes@,
    {
        MacAddress { address_bytes }
    }
}

/// Reads a MAC address from an exactly-six-byte payload.
pub open spec fn spec_as_mac(p: Seq<u8>) -> Option<Seq<u8>> {
    if p.len() == 6 {
        Some(p)
    } else {
        None
    }
}

/// Extracts a MAC address from an exactly-six-byte payload; any other
/// length is a decode failure.
pub fn mac_from_payload(p: &Vec<u8>) -> (r: Option<MacAddress>)
    ensures
        match r {
            Some(m) => spec_as_mac(p@) == Some(m@),
            None => spec_as_mac(p@) is None,
        },
{
    if p.len() == 6 {
        let address_bytes = [p[0], p[1], p[2], p[3], p[4], p[5]];
        proof {
            assert(address_bytes@ =~= p@);
        }
        Some(MacAddress { address_bytes })
    } else {
        None
    }
}

/// Virtual interface type.
#[derive(Debug, Copy, Clone, PartialEq, Eq, Structural)]
pub enum InterfaceType {
    /// Unspecified type, driver decides.
    Unspecified,
    /// Independent BSS member.
    Adhoc,
    /// Managed BSS member.
    Station,
    /// Access point.
    AccessPoint,
    /// VLAN interface for access points.
    ApVlan,
    /// Wireless distribution interface.
    Wds,
    /// Monitor interface receiving all frames.
    Monitor,
    /// Mesh point.
    MeshPoint,
    /// P2P client.
    P2pClient,
    /// P2P group owner.
    P2pGroupOwner,
    /// P2P device.
    P2pDevice,
    /// Outside Context of a BSS.
    Ocb,
    /// NAN device interface type (not a netdev).
    NotNetdev,
    /// Kernel returned an unknown interface type.
    Unknown,
}

/// The interface type a wire code names; an unregistered code is
/// `Unknown`, never a failure.
pub open spec fn spec_interface_type_of(v: u32) -> InterfaceType {
    if v == 0 {
        InterfaceType::Unspecified
    } else if v == 1 {
        InterfaceType::Adhoc
    } else if v == 2 {
        InterfaceType::Station
    } else if v == 3 {
        InterfaceType::AccessPoint
    } else if v == 4 {
        InterfaceType::ApVlan
    } else if v == 5 {
        InterfaceType::Wds
    } else if v == 6 {
        InterfaceType::Monitor
    } else if v == 7 {
        InterfaceType::MeshPoint
    } else if v == 8 {
        InterfaceType::P2pClient
    } else if v == 9 {
        InterfaceType::P2pGroupOwner
    } else if v == 10 {
        InterfaceType::P2pDevice
    } else if v == 11 {
        InterfaceType::Ocb
    } else if v == 12 {
        InterfaceType::NotNetdev
    } else {
        InterfaceType::Unknown
    }
}

/// The wire code an interface type is sent as; `Unknown` has no code of
/// its own and maps to the unspecified type.
pub open spec fn spec_interface_type_code(t: InterfaceType) -> u32 {
    match t {
        InterfaceType::Unspecified => 0,
        InterfaceType::Adhoc => 1,
        InterfaceType::Station => 2,
        InterfaceType::AccessPoint => 3,
        InterfaceType::ApVlan => 4,
        InterfaceType::Wds => 5,
        InterfaceType::Monitor => 6,
        InterfaceType::MeshPoint => 7,
        InterfaceType::P2pClient => 8,
        InterfaceType::P2pGroupOwner => 9,
        InterfaceType::P2pDevice => 10,
        InterfaceType::Ocb => 11,
        InterfaceType::NotNetdev => 12,
        InterfaceType::Unknown => 0,
    }
}

impl InterfaceType {
    /// The interface type a wire code names.
    pub fn from_code(v: u32) -> (r: InterfaceType)
        ensures
            r == spec_interface_type_of(v),
    {
        match v {
            0 => InterfaceType::Unspecified,
            1 => InterfaceType::Adhoc,
            2 => InterfaceType::Station,
            3 => InterfaceType::AccessPoint,
            4 => InterfaceType::ApVlan,
            5 => InterfaceType::Wds,
            6 => InterfaceType::Monitor,
            7 => InterfaceType::MeshPoint,
            8 => InterfaceType::P2pClient,
            9 => InterfaceType::P2pGroupOwner,
            10 => InterfaceType::P2pDevice,
            11 => InterfaceType::Ocb,
            12 => InterfaceType::NotNetdev,
            _ => InterfaceType::Unknown,
        }
    }

    /// The wire code that names this interface type, for building a
    /// set-interface request.  `Unknown` has no code of its own and maps
    /// to the unspecified type.
    pub fn code(&self) -> (r: u32)
        ensures
            r == spec_interface_type_code(*self),
    {
        match self {
            InterfaceType::Unspecified => 0,
            InterfaceType::Adhoc => 1,
            InterfaceType::Station => 2,
            InterfaceType::AccessPoint => 3,
            InterfaceType::ApVlan => 4,
            InterfaceType::Wds => 5,
            InterfaceType::Monitor => 6,
            InterfaceType::MeshPoint => 7,
            InterfaceType::P2pClient => 8,
            InterfaceType::P2pGroupOwner => 9,
            InterfaceType::P2pDevice => 10,
            InterfaceType::Ocb => 11,
            InterfaceType::NotNetdev => 12,
            InterfaceType::Unknown => 0,
        }
    }
}

/// Wireless channel width.
#[derive(Debug, Copy, Clone, PartialEq, Eq, Structural)]
pub enum ChannelWidth {
    Width20NoHT,
    Width20,
    Width40,
    Width80,
    Width80P80,
    Width160,
    Width5,
    Width10,
    Width1,
    Width2,
    Width4,
    Width8,
    Width16,
    Unknown,
}

/// The channel width a wire code names; an unregistered code is
/// `Unknown`, never a failure.
pub open spec fn spec_channel_width_of(v: u32) -> ChannelWidth {
    if v == 0 {
        ChannelWidth::Width20NoHT
    } else if v == 1 {
        ChannelWidth::Width20
    } else if v == 2 {
        ChannelWidth::Width40
    } else if v == 3 {
        ChannelWidth::Width80
    } else if v == 4 {
        ChannelWidth::Width80P80
    } else if v == 5 {
        ChannelWidth::Width160
    } else if v == 6 {
        ChannelWidth::Width5
    } else if v == 7 {
        ChannelWidth::Width10
    } else if v == 8 {
        ChannelWidth::Width1
    } else if v == 9 {
        ChannelWidth::Width2
    } else if v == 10 {
        ChannelWidth::Width4
    } else if v == 11 {
        ChannelWidth::Width8
    } else if v == 12 {
        ChannelWidth::Width16
    } else {
        ChannelWidth::Unknown
    }
}

/// The wire code a channel width is sent as in a set-channel request.
pub open spec fn spec_channel_width_code(w: ChannelWidth) -> u32 {
    match w {
        ChannelWidth::Width20NoHT => 0,
        ChannelWidth::Width20 => 1,
        ChannelWidth::Width40 => 2,
        ChannelWidth::Width80 => 3,
        ChannelWidth::Width80P80 => 4,
        ChannelWidth::Width160 => 5,
        ChannelWidth::Width5 => 6,
        ChannelWidth::Width10 => 7,
        ChannelWidth::Width1 => 8,
        ChannelWidth::Width2 => 9,
        ChannelWidth::Width4 => 10,
        ChannelWidth::Width8 => 11,
        ChannelWidth::Width16 => 12,
        ChannelWidth::Unknown => 0,
    }
}

impl ChannelWidth {
    /// The channel width a wire code names.
    pub fn from_code(v: u32) -> (r: ChannelWidth)
        ensures
            r == spec_channel_width_of(v),
    {
        match v {
            0 => ChannelWidth::Width20NoHT,
            1 => ChannelWidth::Width20,
            2 => ChannelWidth::Width40,
            3 => ChannelWidth::Width80,
            4 => ChannelWidth::Width80P80,
            5 => ChannelWidth::Width160,
            6 => ChannelWidth::Width5,
            7 => ChannelWidth::Width10,
            8 => ChannelWidth::Width1,
            9 => ChannelWidth::Width2,
            10 => ChannelWidth::Width4,
            11 => ChannelWidth::Width8,
            12 => ChannelWidth::Width16,
            _ => ChannelWidth::Unknown,
        }
    }

    /// The wire code this width is sent as in a set-channel request.
    pub fn code(&self) -> (r: u32)
        ensures
            r == spec_channel_width_code(*self),
    {
        match self {
            ChannelWidth::Width20NoHT => 0,
            ChannelWidth::Width20 => 1,
            ChannelWidth::Width40 => 2,
            ChannelWidth::Width80 => 3,
            ChannelWidth::Width80P80 => 4,
            ChannelWidth::Width160 => 5,
            ChannelWidth::Width5 => 6,
            ChannelWidth::Width10 => 7,
            ChannelWidth::Width1 => 8,
            ChannelWidth::Width2 => 9,
            ChannelWidth::Width4 => 10,
            ChannelWidth::Width8 => 11,
            ChannelWidth::Width16 => 12,
            ChannelWidth::Unknown => 0,
        }
    }

    /// The nominal width in MHz; `Unknown` reports zero.
    pub fn mhz(&self) -> (r: u32)
        ensures
            r == spec_channel_width_mhz(*self),
    {
        match self {
            ChannelWidth::Width20NoHT => 20,
            ChannelWidth::Width20 => 20,
            ChannelWidth::Width40 => 40,
            ChannelWidth::Width80 => 80,
            ChannelWidth::Width80P80 => 80,
            ChannelWidth::Width160 => 160,
            ChannelWidth::Width5 => 5,
            ChannelWidth::Width10 => 10,
            ChannelWidth::Width1 => 1,
            ChannelWidth::Width2 => 2,
            ChannelWidth::Width4 => 4,
            ChannelWidth::Width8 => 8,
            ChannelWidth::Width16 => 16,
            ChannelWidth::Unknown => 0,
        }
    }
}

/// The nominal width of a channel in MHz.
pub open spec fn spec_channel_width_mhz(w: ChannelWidth) -> u32 {
    match w {
        ChannelWidth::Width20NoHT => 20,
        ChannelWidth::Width20 => 20,
        ChannelWidth::Width40 => 40,
        ChannelWidth::Width80 => 80,
        ChannelWidth::Width80P80 => 80,
        ChannelWidth::Width160 => 160,
        ChannelWidth::Width5 => 5,
        ChannelWidth::Width10 => 10,
        ChannelWidth::Width1 => 1,
        ChannelWidth::Width2 => 2,
        ChannelWidth::Width4 => 4,
        ChannelWidth::Width8 => 8,
        ChannelWidth::Width16 => 16,
        ChannelWidth::Unknown => 0,
    }
}

/// Transmit queue statistics.
#[derive(Debug, Clone, Copy, Default, PartialEq, Eq, Structural)]
pub struct TransmitQueueStats {
    /// Number of bytes currently backlogged.
    pub backlog_bytes: Option<u32>,
    /// Number of packets currently backlogged.
    pub backlog_packets: Option<u32>,
    /// Total number of new flows seen.
    pub flows: Option<u32>,
    /// Total number of packet drops.
    pub drops: Option<u32>,
    /// Total number of packet ECN marks.
    pub ecn_marks: Option<u32>,
    /// Number of drops due to queue space overflow.
    pub overlimit: Option<u32>,
    /// Number of drops due to memory limit overflow.
    pub overmemory: Option<u32>,
    /// Number of hash collisions.
    pub collisions: Option<u32>,
    /// Total number of bytes dequeued from the queue.
    pub tx_bytes: Option<u32>,
    /// Total number of packets dequeued from the queue.
    pub tx_packets: Option<u32>,
    /// Number of flow buckets.
    pub max_flows: Option<u32>,
}

/// The empty transmit-queue statistics record.
pub open spec fn txq_empty() -> TransmitQueueStats {
    TransmitQueueStats {
        backlog_bytes: None,
        backlog_packets: None,
        flows: None,
        drops: None,
        ecn_marks: None,
        overlimit: None,
        overmemory: None,
        collisions: None,
        tx_bytes: None,
        tx_packets: None,
        max_flows: None,
    }
}

/// One transmit-queue attribute applied to the record; `None` is a length
/// mismatch, an unregistered code leaves the record unchanged.
pub open spec fn txq_step(t: TransmitQueueStats, a: AttrModel) -> Option<TransmitQueueStats> {
    if a.code == TXQ_BACKLOG_BYTES {
        match spec_as_u32(a.payload) {
            Some(v) => Some(TransmitQueueStats { backlog_bytes: Some(v), ..t }),
            None => None,
        }
    } else if a.code == TXQ_BACKLOG_PACKETS {
        match spec_as_u32(a.payload) {
            Some(v) => Some(TransmitQueueStats { backlog_packets: Some(v), ..t }),
            None => None,
        }
    } else if a.code == TXQ_FLOWS {
        match spec_as_u32(a.payload) {
            Some(v) => Some(TransmitQueueStats { flows: Some(v), ..t }),
            None => None,
        }
    } else if a.code == TXQ_DROPS {
        match spec_as_u32(a.payload) {
            Some(v) => Some(TransmitQueueStats { drops: Some(v), ..t }),
            None => None,
        }
    } else if a.code == TXQ_ECN_MARKS {
        match spec_as_u32(a.payload) {
            Some(v) => Some(TransmitQueueStats { ecn_marks: Some(v), ..t }),
            None => None,
        }
    } else if a.code == TXQ_OVERLIMIT {
        match spec_as_u32(a.payload) {
            Some(v) => Some(TransmitQueueStats { overlimit: Some(v), ..t }),
            None => None,
        }
    } else if a.code == TXQ_OVERMEMORY {
        match spec_as_u32(a.payload) {
            Some(v) => Some(TransmitQueueStats { overmemory: Some(v), ..t }),
            None => None,
        }
    } else if a.code == TXQ_COLLISIONS {
        match spec_as_u32(a.payload) {
            Some(v) => Some(TransmitQueueStats { collisions: Some(v), ..t }),
            None => None,
        }
    } else if a.code == TXQ_TX_BYTES {
        match spec_as_u32(a.payload) {
            Some(v) => Some(TransmitQueueStats { tx_bytes: Some(v), ..t }),
            None => None,
        }
    } else if a.code == TXQ_TX_PACKETS {
        match spec_as_u32(a.payload) {
            Some(v) => Some(TransmitQueueStats { tx_packets: Some(v), ..t }),
            None => None,
        }
    } else if a.code == TXQ_MAX_FLOWS {
        match spec_as_u32(a.payload) {
            Some(v) => Some(TransmitQueueStats { max_flows: Some(v), ..t }),
            None => None,
        }
    } else {
        Some(t)
    }
}

/// The transmit-queue attributes applied in order.
pub open spec fn txq_fold(t: TransmitQueueStats, attrs: Seq<AttrModel>) -> Option<
    TransmitQueueStats,
>
    decreases attrs.len(),
{
    if attrs.len() == 0 {
        Some(t)
    } else {
        match txq_step(t, attrs[0]) {
            Some(t2) => txq_fold(t2, attrs.skip(1)),
            None => None,
        }
    }
}

/// What a transmit-queue attribute sequence decodes to.
pub open spec fn spec_decode_txq(attrs: Seq<AttrModel>) -> Option<TransmitQueueStats> {
    txq_fold(txq_empty(), attrs)
}

/// Decodes transmit-queue statistics from its attribute sequence.  A
/// length mismatch on a registered attribute is an error; unregistered
/// attributes are skipped.
pub fn decode_txq(attrs: &Vec<TlvAttr>) -> (r: Result<TransmitQueueStats, NlError>)
    ensures
        match r {
            Ok(t) => spec_decode_txq(attrs_view(attrs@)) == Some(t),
            Err(_) => spec_decode_txq(attrs_view(attrs@)) is None,
        },
{
    let ghost ms = attrs_view(attrs@);
    let mut t = TransmitQueueStats {
        backlog_bytes: None,
        backlog_packets: None,
        flows: None,
        drops: None,
        ecn_marks: None,
        overlimit: None,
        overmemory: None,
        collisions: None,
        tx_bytes: None,
        tx_packets: None,
        max_flows: None,
    };
    let mut i: usize = 0;
    proof {
        assert(ms.skip(0) =~= ms);
    }
    while i < attrs.len()
        invariant
            i <= attrs.len(),
            ms == attrs_view(attrs@),
            spec_decode_txq(ms) == txq_fold(t, ms.skip(i as int)),
        decreases attrs.len() - i,
    {
        let ghost prev = t;
        proof {
            assert(ms.skip(i as int)[0] == ms[i as int]);
            assert(ms[i as int] == attrs@[i as int]@);
            assert(ms.skip(i as int).skip(1) =~= ms.skip(i as int + 1));
        }
        let a = &attrs[i];
        let c = a.code;
        if c == TXQ_BACKLOG_BYTES || c == TXQ_BACKLOG_PACKETS || c == TXQ_FLOWS || c == TXQ_DROPS
            || c == TXQ_ECN_MARKS || c == TXQ_OVERLIMIT || c == TXQ_OVERMEMORY || c
            == TXQ_COLLISIONS || c == TXQ_TX_BYTES || c == TXQ_TX_PACKETS || c == TXQ_MAX_FLOWS {
            let v = match a.as_u32() {
                Some(v) => v,
                None => {
                    return Err(NlError::new(String::from_str("transmit queue attribute length mismatch")));
                },
            };
            if c == TXQ_BACKLOG_BYTES {
                t.backlog_bytes = Some(v);
            } else if c == TXQ_BACKLOG_PACKETS {
                t.backlog_packets = Some(v);
            } else if c == TXQ_FLOWS {
                t.flows = Some(v);
            } else if c == TXQ_DROPS {
                t.drops = Some(v);
            } else if c == TXQ_ECN_MARKS {
                t.ecn_marks = Some(v);
            } else if c == TXQ_OVERLIMIT {
                t.overlimit = Some(v);
            } else if c == TXQ_OVERMEMORY {
                t.overmemory = Some(v);
            } else if c == TXQ_COLLISIONS {
                t.collisions = Some(v);
            } else if c == TXQ_TX_BYTES {
                t.tx_bytes = Some(v);
            } else if c == TXQ_TX_PACKETS {
                t.tx_packets = Some(v);
            } else {
                t.max_flows = Some(v);
            }
        }
        proof {
            assert(txq_step(prev, ms[i as int]) == Some(t));
        }
        i = i + 1;
    }
    proof {
        assert(ms.skip(ms.len() as int) =~= Seq::<AttrModel>::empty());
    }
    Ok(t)
}

/// Interface information returned from netlink.
#[derive(Debug, Clone, Default)]
pub struct WirelessInterface {
    /// Index of the physical device this interface is bound to.
    pub wiphy_index: u32,
    /// Network interface index.
    pub interface_index: u32,
    /// Network interface name.
    pub name: String,
    /// Interface MAC address (BSSID).
    pub mac: MacAddress,
    /// Dump-consistency counter: it increases whenever the object list
    /// being dumped changes, so two dumps with different generations are
    /// not one consistent snapshot.
    pub generation: u32,
    /// Network SSID.
    pub ssid: Option<String>,
    /// Channel frequency in MHz.
    pub frequency: Option<u32>,
    /// Offset of the frequency in kHz.
    pub frequency_offset: Option<u32>,
    /// Center frequency of the first part of the channel, used for
    /// anything but 20 MHz bandwidth.
    pub center_frequency1: Option<u32>,
    /// Center frequency of the second part of the channel, used only for
    /// 80+80 MHz bandwidth.
    pub center_frequency2: Option<u32>,
    /// Wireless channel width.
    pub channel_width: Option<ChannelWidth>,
    /// Transmit power level in the kernel's raw unit (mBm).
    pub tx_power: Option<u32>,
    /// Wireless device identifier, used for pseudo-devices that have no
    /// netdev.
    pub wdev: Option<u64>,
    /// Use 4-address frames on a virtual interface.
    pub use_4address_frames: Option<bool>,
    /// Type of virtual interface.
    pub interface_type: Option<InterfaceType>,
    /// Transmit queue statistics.
    pub txq_statistics: Option<TransmitQueueStats>,
}

/// Mathematical model of a wireless interface.
pub ghost struct InterfaceModel {
    pub wiphy_index: u32,
    pub interface_index: u32,
    pub name: Seq<char>,
    pub mac: Seq<u8>,
    pub generation: u32,
    pub ssid: Option<Seq<char>>,
    pub frequency: Option<u32>,
    pub frequency_offset: Option<u32>,
    pub center_frequency1: Option<u32>,
    pub center_frequency2: Option<u32>,
    pub channel_width: Option<ChannelWidth>,
    pub tx_power: Option<u32>,
    pub wdev: Option<u64>,
    pub use_4address_frames: Option<bool>,
    pub interface_type: Option<InterfaceType>,
    pub txq_statistics: Option<TransmitQueueStats>,
}

impl View for WirelessInterface {
    type V = InterfaceModel;

    open spec fn view(&self) -> InterfaceModel {
        InterfaceModel {
            wiphy_index: self.wiphy_index,
            interface_index: self.interface_index,
            name: self.name@,
            mac: self.mac@,
            generation: self.generation,
            ssid: match self.ssid {
                Some(s) => Some(s@),
                None => None,
            },
            frequency: self.frequency,
            frequency_offset: self.frequency_offset,
            center_frequency1: self.center_frequency1,
            center_frequency2: self.center_frequency2,
            channel_width: self.channel_width,
            tx_power: self.tx_power,
            wdev: self.wdev,
            use_4address_frames: self.use_4address_frames,
            interface_type: self.interface_type,
            txq_statistics: self.txq_statistics,
        }
    }
}

/// The model of an interface before any attribute is applied: indices and
/// counters zero, the name empty, the address all-zero, everything
/// optional absent.
pub open spec fn ifc_empty() -> InterfaceModel {
    InterfaceModel {
        wiphy_index: 0,
        interface_index: 0,
        name: Seq::empty(),
        mac: seq![0u8, 0u8, 0u8, 0u8, 0u8, 0u8],
        generation: 0,
        ssid: None,
        frequency: None,
        frequency_offset: None,
        center_frequency1: None,
        center_frequency2: None,
        channel_width: None,
        tx_power: None,
        wdev: None,
        use_4address_frames: None,
        interface_type: None,
        txq_statistics: None,
    }
}

/// One top-level attribute applied to the interface model.  `None` is a
/// decode failure: a registered attribute whose payload has the wrong
/// shape.  An unregistered code leaves the model unchanged.
pub open spec fn ifc_step(m: InterfaceModel, a: AttrModel) -> Option<InterfaceModel> {
    if a.code == ATTR_WIPHY {
        match spec_as_u32(a.payload) {
            Some(v) => Some(InterfaceModel { wiphy_index: v, ..m }),
            None => None,
        }
    } else if a.code == ATTR_IFINDEX {
        match spec_as_u32(a.payload) {
            Some(v) => Some(InterfaceModel { interface_index: v, ..m }),
            None => None,
        }
    } else if a.code == ATTR_IFNAME {
        Some(InterfaceModel { name: utf8_lossy(trim_nuls(a.payload)), ..m })
    } else if a.code == ATTR_MAC {
        match spec_as_mac(a.payload) {
            Some(b) => Some(InterfaceModel { mac: b, ..m }),
            None => None,
        }
    } else if a.code == ATTR_GENERATION {
        match spec_as_u32(a.payload) {
            Some(v) => Some(InterfaceModel { generation: v, ..m }),
            None => None,
        }
    } else if a.code == ATTR_SSID {
        Some(InterfaceModel { ssid: Some(utf8_lossy(a.payload)), ..m })
    } else if a.code == ATTR_WIPHY_FREQ {
        match spec_as_u32(a.payload) {
            Some(v) => Some(InterfaceModel { frequency: Some(v), ..m }),
            None => None,
        }
    } else if a.code == ATTR_WIPHY_FREQ_OFFSET {
        match spec_as_u32(a.payload) {
            Some(v) => Some(InterfaceModel { frequency_offset: Some(v), ..m }),
            None => None,
        }
    } else if a.code == ATTR_CENTER_FREQ1 {
        match spec_as_u32(a.payload) {
            Some(v) => Some(InterfaceModel { center_frequency1: Some(v), ..m }),
            None => None,
        }
    } else if a.code == ATTR_CENTER_FREQ2 {
        match spec_as_u32(a.payload) {
            Some(v) => Some(InterfaceModel { center_frequency2: Some(v), ..m }),
            None => None,
        }
    } else if a.code == ATTR_CHANNEL_WIDTH {
        match spec_as_u32(a.payload) {
            Some(v) => Some(InterfaceModel { channel_width: Some(spec_channel_width_of(v)), ..m }),
            None => None,
        }
    } else if a.code == ATTR_WIPHY_TX_POWER_LEVEL {
        match spec_as_u32(a.payload) {
            Some(v) => Some(InterfaceModel { tx_power: Some(v), ..m }),
            None => None,
        }
    } else if a.code == ATTR_WDEV {
        match spec_as_u64(a.payload) {
            Some(v) => Some(InterfaceModel { wdev: Some(v), ..m }),
            None => None,
        }
    } else if a.code == ATTR_USE_4ADDR_FRAMES {
        match spec_as_bool(a.payload) {
            Some(v) => Some(InterfaceModel { use_4address_frames: Some(v), ..m }),
            None => None,
        }
    } else if a.code == ATTR_IFTYPE {
        match spec_as_u32(a.payload) {
            Some(v) => Some(
                InterfaceModel { interface_type: Some(spec_interface_type_of(v)), ..m },
            ),
            None => None,
        }
    } else if a.code == ATTR_TXQ_STATS {
        match spec_walk(a.payload) {
            Some(sub) => match spec_decode_txq(sub) {
                Some(t) => Some(InterfaceModel { txq_statistics: Some(t), ..m }),
                None => None,
            },
            None => None,
        }
    } else {
        Some(m)
    }
}

/// The top-level attributes applied in order to the interface model.
pub open spec fn ifc_fold(m: InterfaceModel, attrs: Seq<AttrModel>) -> Option<InterfaceModel>
    decreases attrs.len(),
{
    if attrs.len() == 0 {
        Some(m)
    } else {
        match ifc_step(m, attrs[0]) {
            Some(m2) => ifc_fold(m2, attrs.skip(1)),
            None => None,
        }
    }
}

/// What a top-level attribute sequence decodes to as a wireless
/// interface.
pub open spec fn spec_decode_interface(attrs: Seq<AttrModel>) -> Option<InterfaceModel> {
    ifc_fold(ifc_empty(), attrs)
}

/// Law: an interface-type attribute carrying an unregistered wire value
/// decodes to the explicit unknown variant and never fails the message,
/// so the remaining attributes still decode normally.
pub proof fn lemma_unknown_interface_type_tolerated(m: InterfaceModel, v: u32)
    requires
        v > 12,
    ensures
        ifc_step(m, AttrModel { code: ATTR_IFTYPE, payload: le_bytes(v as int, 4) }) == Some(
            InterfaceModel { interface_type: Some(InterfaceType::Unknown), ..m },
        ),
{
    lemma_u32_extraction_round_trip(v);
}

/// Decodes one interface from the top-level attribute sequence of a dump
/// message.  A registered attribute whose payload has the wrong shape is
/// an error; unregistered attributes are skipped.
pub fn decode_interface(attrs: &Vec<TlvAttr>) -> (r: Result<WirelessInterface, NlError>)
    ensures
        match r {
            Ok(w) => spec_decode_interface(attrs_view(attrs@)) == Some(w@),
            Err(_) => spec_decode_interface(attrs_view(attrs@)) is None,
        },
{
    let ghost ms = attrs_view(attrs@);
    let mut w = WirelessInterface {
        wiphy_index: 0,
        interface_index: 0,
        name: String::new(),
        mac: MacAddress { address_bytes: [0u8, 0u8, 0u8, 0u8, 0u8, 0u8] },
        generation: 0,
        ssid: None,
        frequency: None,
        frequency_offset: None,
        center_frequency1: None,
        center_frequency2: None,
        channel_width: None,
        tx_power: None,
        wdev: None,
        use_4address_frames: None,
        interface_type: None,
        txq_statistics: None,
    };
    proof {
        assert(ms.skip(0) =~= ms);
        assert(w.mac@ =~= ifc_empty().mac);
        assert(w@ == ifc_empty());
    }
    let mut i: usize = 0;
    while i < attrs.len()
        invariant
            i <= attrs.len(),
            ms == attrs_view(attrs@),
            spec_decode_interface(ms) == ifc_fold(w@, ms.skip(i as int)),
        decreases attrs.len() - i,
    {
        let ghost prev = w@;
        proof {
            assert(ms.skip(i as int)[0] == ms[i as int]);
            assert(ms[i as int] == attrs@[i as int]@);
            assert(ms.skip(i as int).skip(1) =~= ms.skip(i as int + 1));
        }
        let a = &attrs[i];
        let c = a.code;
        if c == ATTR_WIPHY {
            match a.as_u32() {
                Some(v) => {
                    w.wiphy_index = v;
                },
                None => {
                    return Err(interface_decode_error(c));
                },
            }
        } else if c == ATTR_IFINDEX {
            match a.as_u32() {
                Some(v) => {
                    w.interface_index = v;
                },
                None => {
                    return Err(interface_decode_error(c));
                },
            }
        } else if c == ATTR_IFNAME {
            w.name = a.as_string();
        } else if c == ATTR_MAC {
            match mac_from_payload(&a.payload) {
                Some(m) => {
                    w.mac = m;
                },
                None => {
                    return Err(interface_decode_error(c));
                },
            }
        } else if c == ATTR_GENERATION {
            match a.as_u32() {
                Some(v) => {
                    w.generation = v;
                },
                None => {
                    return Err(interface_decode_error(c));
                },
            }
        } else if c == ATTR_SSID {
            w.ssid = Some(a.as_string_untrimmed());
        } else if c == ATTR_WIPHY_FREQ {
            match a.as_u32() {
                Some(v) => {
                    w.frequency = Some(v);
                },
                None => {
                    return Err(interface_decode_error(c));
                },
            }
        } else if c == ATTR_WIPHY_FREQ_OFFSET {
            match a.as_u32() {
                Some(v) => {
                    w.frequency_offset = Some(v);
                },
                None => {
                    return Err(interface_decode_error(c));
                },
            }
        } else if c == ATTR_CENTER_FREQ1 {
            match a.as_u32() {
                Some(v) => {
                    w.center_frequency1 = Some(v);
                },
                None => {
                    return Err(interface_decode_error(c));
                },
            }
        } else if c == ATTR_CENTER_FREQ2 {
            match a.as_u32() {
                Some(v) => {
                    w.center_frequency2 = Some(v);
                },
                None => {
                    return Err(interface_decode_error(c));
                },
            }
        } else if c == ATTR_CHANNEL_WIDTH {
            match a.as_u32() {
                Some(v) => {
                    w.channel_width = Some(ChannelWidth::from_code(v));
                },
                None => {
                    return Err(interface_decode_error(c));
                },
            }
        } else if c == ATTR_WIPHY_TX_POWER_LEVEL {
            match a.as_u32() {
                Some(v) => {
                    w.tx_power = Some(v);
                },
                None => {
                    return Err(interface_decode_error(c));
                },
            }
        } else if c == ATTR_WDEV {
            match a.as_u64() {
                Some(v) => {
                    w.wdev = Some(v);
                },
                None => {
                    return Err(interface_decode_error(c));
                },
            }
        } else if c == ATTR_USE_4ADDR_FRAMES {
            match a.as_bool() {
                Some(v) => {
                    w.use_4address_frames = Some(v);
                },
                None => {
                    return Err(interface_decode_error(c));
                },
            }
        } else if c == ATTR_IFTYPE {
            match a.as_u32() {
                Some(v) => {
                    w.interface_type = Some(InterfaceType::from_code(v));
                },
                None => {
                    return Err(interface_decode_error(c));
                },
            }
        } else if c == ATTR_TXQ_STATS {
            match a.as_nested() {
                Some(sub) => match decode_txq(&sub) {
                    Ok(t) => {
                        w.txq_statistics = Some(t);
                    },
                    Err(e) => {
                        return Err(e);
                    },
                },
                None => {
                    return Err(interface_decode_error(c));
                },
            }
        }
        proof {
            assert(ifc_step(prev, ms[i as int]) == Some(w@));
        }
        i = i + 1;
    }
    proof {
        assert(ms.skip(ms.len() as int) =~= Seq::<AttrModel>::empty());
    }
    Ok(w)
}

/// The error returned when an interface attribute's payload has the wrong
/// shape, naming the failing attribute's code.
fn interface_decode_error(code: u16) -> NlError {
    let mut msg = String::from_str("interface attribute payload has the wrong shape: code ");
    let digits = u16_decimal(code);
    msg.append(digits.as_str());
    NlError::new(msg)
}


/// The uppercase hexadecimal digit of a value under sixteen.
pub open spec fn hex_digit(n: int) -> char {
    if n == 0 {
        '0'
    } else if n == 1 {
        '1'
    } else if n == 2 {
        '2'
    } else if n == 3 {
        '3'
    } else if n == 4 {
        '4'
    } else if n == 5 {
        '5'
    } else if n == 6 {
        '6'
    } else if n == 7 {
        '7'
    } else if n == 8 {
        '8'
    } else if n == 9 {
        '9'
    } else if n == 10 {
        'A'
    } else if n == 11 {
        'B'
    } else if n == 12 {
        'C'
    } else if n == 13 {
        'D'
    } else if n == 14 {
        'E'
    } else {
        'F'
    }
}

/// The two uppercase hexadecimal digits of a byte.
pub open spec fn byte_hex(b: u8) -> Seq<char> {
    seq![hex_digit(b as int / 16), hex_digit(b as int % 16)]
}

/// The colon-separated continuation of an address text.
pub open spec fn mac_text_tail(s: Seq<u8>) -> Seq<char>
    decreases s.len(),
{
    if s.len() == 0 {
        Seq::empty()
    } else {
        seq![':'] + byte_hex(s[0]) + mac_text_tail(s.skip(1))
    }
}

/// The text of a MAC address: each byte as two uppercase hexadecimal
/// digits, bytes separated by colons.
pub open spec fn mac_text(s: Seq<u8>) -> Seq<char> {
    if s.len() == 0 {
        Seq::empty()
    } else {
        byte_hex(s[0]) + mac_text_tail(s.skip(1))
    }
}

/// The digit character of a value under sixteen, uppercase.
fn hex_str(n: u8) -> (r: &'static str)
    requires
        n < 16,
    ensures
        r@ == seq![hex_digit(n as int)],
{
    if n == 0 {
        proof {
            reveal_strlit("0");
            assert("0"@ =~= seq![hex_digit(0)]);
        }
        "0"
    } else if n == 1 {
        proof {
            reveal_strlit("1");
            assert("1"@ =~= seq![hex_digit(1)]);
        }
        "1"
    } else if n == 2 {
        proof {
            reveal_strlit("2");
            assert("2"@ =~= seq![hex_digit(2)]);
        }
        "2"
    } else if n == 3 {
        proof {
            reveal_strlit("3");
            assert("3"@ =~= seq![hex_digit(3)]);
        }
        "3"
    } else if n == 4 {
        proof {
            reveal_strlit("4");
            assert("4"@ =~= seq![hex_digit(4)]);
        }
        "4"
    } else if n == 5 {
        proof {
            reveal_strlit("5");
            assert("5"@ =~= seq![hex_digit(5)]);
        }
        "5"
    } else if n == 6 {
        proof {
            reveal_strlit("6");
            assert("6"@ =~= seq![hex_digit(6)]);
        }
        "6"
    } else if n == 7 {
        proof {
            reveal_strlit("7");
            assert("7"@ =~= seq![hex_digit(7)]);
        }
        "7"
    } else if n == 8 {
        proof {
            reveal_strlit("8");
            assert("8"@ =~= seq![hex_digit(8)]);
        }
        "8"
    } else if n == 9 {
        proof {
            reveal_strlit("9");
            assert("9"@ =~= seq![hex_digit(9)]);
        }
        "9"
    } else if n == 10 {
        proof {
            reveal_strlit("A");
            assert("A"@ =~= seq![hex_digit(10)]);
        }
        "A"
    } else if n == 11 {
        proof {
            reveal_strlit("B");
            assert("B"@ =~= seq![hex_digit(11)]);
        }
        "B"
    } else if n == 12 {
        proof {
            reveal_strlit("C");
            assert("C"@ =~= seq![hex_digit(12)]);
        }
        "C"
    } else if n == 13 {
        proof {
            reveal_strlit("D");
            assert("D"@ =~= seq![hex_digit(13)]);
        }
        "D"
    } else if n == 14 {
        proof {
            reveal_strlit("E");
            assert("E"@ =~= seq![hex_digit(14)]);
        }
        "E"
    } else {
        proof {
            reveal_strlit("F");
            assert("F"@ =~= seq![hex_digit(15)]);
        }
        "F"
    }
}

/// Appending a byte to an address extends its text by that byte's two
/// digits, with a colon before them unless the address was empty.
pub proof fn lemma_mac_text_snoc(s: Seq<u8>, b: u8)
    ensures
        mac_text(s.push(b)) == mac_text(s) + (if s.len() == 0 {
            byte_hex(b)
        } else {
            seq![':'] + byte_hex(b)
        }),
    decreases s.len(),
{
    if s.len() == 0 {
        assert(s.push(b)[0] == b);
        assert(s.push(b).skip(1) =~= Seq::<u8>::empty());
        assert(mac_text_tail(Seq::<u8>::empty()) =~= Seq::<char>::empty());
        assert(mac_text(s.push(b)) =~= byte_hex(b));
        assert(mac_text(s) + byte_hex(b) =~= byte_hex(b));
    } else {
        lemma_mac_tail_snoc(s.skip(1), b);
        assert(s.push(b)[0] == s[0]);
        assert(s.push(b).skip(1) =~= s.skip(1).push(b));
        assert(mac_text(s.push(b)) =~= byte_hex(s[0]) + mac_text_tail(s.skip(1).push(b)));
        assert(byte_hex(s[0]) + (mac_text_tail(s.skip(1)) + (seq![':'] + byte_hex(b)))
            =~= mac_text(s) + (seq![':'] + byte_hex(b)));
    }
}

proof fn lemma_mac_tail_snoc(s: Seq<u8>, b: u8)
    ensures
        mac_text_tail(s.push(b)) == mac_text_tail(s) + (seq![':'] + byte_hex(b)),
    decreases s.len(),
{
    if s.len() == 0 {
        assert(s.push(b)[0] == b);
        assert(s.push(b).skip(1) =~= Seq::<u8>::empty());
        assert(mac_text_tail(Seq::<u8>::empty()) =~= Seq::<char>::empty());
        assert(mac_text_tail(s.push(b)) =~= seq![':'] + byte_hex(b));
        assert(mac_text_tail(s) + (seq![':'] + byte_hex(b)) =~= seq![':'] + byte_hex(b));
    } else {
        lemma_mac_tail_snoc(s.skip(1), b);
        assert(s.push(b)[0] == s[0]);
        assert(s.push(b).skip(1) =~= s.skip(1).push(b));
        assert(mac_text_tail(s.push(b)) =~= seq![':'] + byte_hex(s[0]) + mac_text_tail(
            s.skip(1).push(b),
        ));
        assert(seq![':'] + byte_hex(s[0]) + (mac_text_tail(s.skip(1)) + (seq![':'] + byte_hex(b)))
            =~= mac_text_tail(s) + (seq![':'] + byte_hex(b)));
    }
}

/// Appends one byte's two digits, with a colon first unless the text is
/// still empty.
fn append_byte_hex(out: &mut String, b: u8, lead: bool)
    ensures
        final(out)@ == old(out)@ + (if lead {
            seq![':']
        } else {
            Seq::<char>::empty()
        }) + byte_hex(b),
{
    if lead {
        out.append(":");
        proof {
            reveal_strlit(":");
            assert(":"@ =~= seq![':']);
        }
    }
    out.append(hex_str(b / 16));
    out.append(hex_str(b % 16));
    proof {
        assert(final(out)@ =~= old(out)@ + (if lead {
            seq![':']
        } else {
            Seq::<char>::empty()
        }) + byte_hex(b));
    }
}

impl MacAddress {
    /// The address as text: two uppercase hexadecimal digits per byte,
    /// bytes separated by colons.
    pub fn to_hex_string(&self) -> (r: String)
        ensures
            r@ == mac_text(self@),
    {
        let ghost s = self@;
        let b = self.address_bytes;
        let mut out = String::from_str("");
        proof {
            reveal_strlit("");
            assert(out@ =~= Seq::<char>::empty());
            assert(s.take(0) =~= Seq::<u8>::empty());
            assert(out@ =~= mac_text(s.take(0)));
        }
        let mut i: usize = 0;
        while i < 6
            invariant
                i <= 6,
                s == self@,
                s.len() == 6,
                b@ == s,
                out@ == mac_text(s.take(i as int)),
            decreases 6 - i,
        {
            append_byte_hex(&mut out, b[i], i > 0);
            proof {
                lemma_mac_text_snoc(s.take(i as int), s[i as int]);
                assert(s.take(i as int).push(s[i as int]) =~= s.take(i as int + 1));
                assert(out@ =~= mac_text(s.take(i as int + 1)));
            }
            i = i + 1;
        }
        proof {
            assert(s.take(6) =~= s);
        }
        out
    }
}

impl InterfaceType {
    /// The display name of the interface type.
    pub fn name(&self) -> (r: &'static str)
        ensures
            *self == InterfaceType::Unspecified ==> r@ == "Unspecified"@,
            *self == InterfaceType::Adhoc ==> r@ == "Adhoc"@,
            *self == InterfaceType::Station ==> r@ == "Station"@,
            *self == InterfaceType::AccessPoint ==> r@ == "Access point"@,
            *self == InterfaceType::ApVlan ==> r@ == "Access point VLAN interface"@,
            *self == InterfaceType::Wds ==> r@ == "Wireless distribution interface"@,
            *self == InterfaceType::Monitor ==> r@ == "Monitor interface"@,
            *self == InterfaceType::MeshPoint ==> r@ == "Mesh point"@,
            *self == InterfaceType::P2pClient ==> r@ == "P2P client"@,
            *self == InterfaceType::P2pGroupOwner ==> r@ == "P2P group owner"@,
            *self == InterfaceType::P2pDevice ==> r@ == "P2P device"@,
            *self == InterfaceType::Ocb ==> r@ == "Outside Context of a BSS"@,
            *self == InterfaceType::NotNetdev ==> r@ == "Not a netdev"@,
            *self == InterfaceType::Unknown ==> r@ == "Unknown interface type"@,
    {
        match self {
            InterfaceType::Unspecified => "Unspecified",
            InterfaceType::Adhoc => "Adhoc",
            InterfaceType::Station => "Station",
            InterfaceType::AccessPoint => "Access point",
            InterfaceType::ApVlan => "Access point VLAN interface",
            InterfaceType::Wds => "Wireless distribution interface",
            InterfaceType::Monitor => "Monitor interface",
            InterfaceType::MeshPoint => "Mesh point",
            InterfaceType::P2pClient => "P2P client",
            InterfaceType::P2pGroupOwner => "P2P group owner",
            InterfaceType::P2pDevice => "P2P device",
            InterfaceType::Ocb => "Outside Context of a BSS",
            InterfaceType::NotNetdev => "Not a netdev",
            InterfaceType::Unknown => "Unknown interface type",
        }
    }
}

impl ChannelWidth {
    /// The display name of the channel width.
    pub fn name(&self) -> (r: &'static str)
        ensures
            *self == ChannelWidth::Width20NoHT ==> r@ == "20 MHz non-HT"@,
            *self == ChannelWidth::Width20 ==> r@ == "20 MHz HT"@,
            *self == ChannelWidth::Width40 ==> r@ == "40 MHz"@,
            *self == ChannelWidth::Width80 ==> r@ == "80 MHz"@,
            *self == ChannelWidth::Width80P80 ==> r@ == "80+80 MHz"@,
            *self == ChannelWidth::Width160 ==> r@ == "160 MHz"@,
            *self == ChannelWidth::Width5 ==> r@ == "5 MHz OFDM"@,
            *self == ChannelWidth::Width10 ==> r@ == "10 MHz OFDM"@,
            *self == ChannelWidth::Width1 ==> r@ == "1 MHz OFDM"@,
            *self == ChannelWidth::Width2 ==> r@ == "2 MHz OFDM"@,
            *self == ChannelWidth::Width4 ==> r@ == "4 MHz OFDM"@,
            *self == ChannelWidth::Width8 ==> r@ == "8 MHz OFDM"@,
            *self == ChannelWidth::Width16 ==> r@ == "16 MHz OFDM"@,
            *self == ChannelWidth::Unknown ==> r@ == "Unknown channel width"@,
    {
        match self {
            ChannelWidth::Width20NoHT => "20 MHz non-HT",
            ChannelWidth::Width20 => "20 MHz HT",
            ChannelWidth::Width40 => "40 MHz",
            ChannelWidth::Width80 => "80 MHz",
            ChannelWidth::Width80P80 => "80+80 MHz",
            ChannelWidth::Width160 => "160 MHz",
            ChannelWidth::Width5 => "5 MHz OFDM",
            ChannelWidth::Width10 => "10 MHz OFDM",
            ChannelWidth::Width1 => "1 MHz OFDM",
            ChannelWidth::Width2 => "2 MHz OFDM",
            ChannelWidth::Width4 => "4 MHz OFDM",
            ChannelWidth::Width8 => "8 MHz OFDM",
            ChannelWidth::Width16 => "16 MHz OFDM",
            ChannelWidth::Unknown => "Unknown channel width",
        }
    }
}

} // verus!
