//! The request builder: pure constructors that, given an operation's
//! parameters, produce the command code, the request kind and the
//! attribute list, ready for a transport to frame and send.

use vstd::prelude::*;

use crate::attributes::{
    spec_monitor_flag_code, ATTR_CENTER_FREQ1, ATTR_CENTER_FREQ2, ATTR_CHANNEL_WIDTH,
    ATTR_IFINDEX, ATTR_IFTYPE, ATTR_MNTR_FLAGS, ATTR_SPLIT_WIPHY_DUMP, ATTR_WIPHY,
    ATTR_WIPHY_FREQ, MonitorFlags,
};
use crate::bytes::{attrs_view, le_bytes, u16_le_bytes, u32_le_bytes, AttrModel, TlvAttr};
use crate::commands::{
    CMD_ABORT_SCAN, CMD_GET_INTERFACE, CMD_GET_REG, CMD_GET_STATION, CMD_GET_WIPHY,
    CMD_SET_CHANNEL, CMD_SET_INTERFACE, CMD_TRIGGER_SCAN,
};
use crate::interface::{spec_channel_width_code, spec_interface_type_code, ChannelWidth, InterfaceType};

verus! {

/// How a request is answered: a dump request is answered by a stream of
/// payload messages ended by a done marker, an acknowledged request by an
/// ack message.  Both kinds carry the request flag.
#[derive(Debug, Clone, Copy, PartialEq, Eq, Structural)]
pub enum RequestKind {
    /// List-style request: request and dump flags.
    Dump,
    /// Mutating request: request and ack flags.
    Ack,
}

/// One command request, ready for framing: the nl80211 command code, the
/// request kind and the attribute list in wire order.
pub struct Nl80211Request {
    /// nl80211 command code.
    pub command: u8,
    /// How the request is flagged and answered.
    pub kind: RequestKind,
    /// The attributes, in the order they are framed.
    pub attributes: Vec<TlvAttr>,
}

/// Mathematical model of a request.
pub ghost struct RequestModel {
    pub command: u8,
    pub kind: RequestKind,
    pub attributes: Seq<AttrModel>,
}

impl View for Nl80211Request {
    type V = RequestModel;

    open spec fn view(&self) -> RequestModel {
        RequestModel {
            command: self.command,
            kind: self.kind,
            attributes: attrs_view(self.attributes@),
        }
    }
}

/// An attribute whose payload is a 32-bit little-endian value.
pub open spec fn spec_u32_attr(code: u16, v: u32) -> AttrModel {
    AttrModel { code, payload: le_bytes(v as int, 4) }
}

/// An attribute with an empty payload: a presence flag.
pub open spec fn spec_flag_attr(code: u16) -> AttrModel {
    AttrModel { code, payload: Seq::empty() }
}

/// The payload of the monitor-flags attribute: each flag's wire code as a
/// 16-bit little-endian value, concatenated in order.
pub open spec fn spec_monitor_flags_payload(flags: Seq<MonitorFlags>) -> Seq<u8>
    decreases flags.len(),
{
    if flags.len() == 0 {
        Seq::empty()
    } else {
        le_bytes(spec_monitor_flag_code(flags[0]) as int, 2) + spec_monitor_flags_payload(
            flags.skip(1),
        )
    }
}

/// Builds an attribute whose payload is a 32-bit little-endian value.
fn u32_attr(code: u16, v: u32) -> (r: TlvAttr)
    ensures
        r@ == spec_u32_attr(code, v),
{
    TlvAttr { code, payload: u32_le_bytes(v) }
}

/// Configuration for setting a channel.
///
/// The protocol requires the first center frequency for the 40, 80,
/// 80+80, 160 and 320 MHz widths, and the second center frequency only
/// for 80+80 MHz.  The builder does not enforce this: an omitted required
/// center frequency surfaces as a kernel error response.
#[derive(Debug, Clone, Copy)]
pub struct ChannelConfig {
    if_index: u32,
    freq: u32,
    center_freq1: Option<u32>,
    center_freq2: Option<u32>,
    width: ChannelWidth,
}

/// Mathematical model of a channel configuration.
pub ghost struct ChannelConfigModel {
    pub if_index: u32,
    pub freq: u32,
    pub center_freq1: Option<u32>,
    pub center_freq2: Option<u32>,
    pub width: ChannelWidth,
}

impl View for ChannelConfig {
    type V = ChannelConfigModel;

    closed spec fn view(&self) -> ChannelConfigModel {
        ChannelConfigModel {
            if_index: self.if_index,
            freq: self.freq,
            center_freq1: self.center_freq1,
            center_freq2: self.center_freq2,
            width: self.width,
        }
    }
}

impl ChannelConfig {
    /// A configuration for an interface, a channel frequency in MHz and a
    /// width, without center frequencies.
    pub fn new(if_index: u32, freq: u32, width: ChannelWidth) -> (r: ChannelConfig)
        ensures
            r@ == (ChannelConfigModel {
                if_index,
                freq,
                center_freq1: None,
                center_freq2: None,
                width,
            }),
    {
        ChannelConfig { if_index, freq, center_freq1: None, center_freq2: None, width }
    }

    /// The same configuration with the first center frequency set.
    pub fn with_center_freq1(self, center_freq1: u32) -> (r: ChannelConfig)
        ensures
            r@ == (ChannelConfigModel { center_freq1: Some(center_freq1), ..self@ }),
    {
        ChannelConfig { center_freq1: Some(center_freq1), ..self }
    }

    /// The same configuration with the second center frequency set.
    pub fn with_center_freq2(self, center_freq2: u32) -> (r: ChannelConfig)
        ensures
            r@ == (ChannelConfigModel { center_freq2: Some(center_freq2), ..self@ }),
    {
        ChannelConfig { center_freq2: Some(center_freq2), ..self }
    }
}

/// The attribute list of a set-channel request: the interface index, the
/// frequency, the width code, then the center frequencies that are set.
pub open spec fn spec_set_channel_attrs(c: ChannelConfigModel) -> Seq<AttrModel> {
    let base = seq![
        spec_u32_attr(ATTR_IFINDEX, c.if_index),
        spec_u32_attr(ATTR_WIPHY_FREQ, c.freq),
        spec_u32_attr(ATTR_CHANNEL_WIDTH, spec_channel_width_code(c.width)),
    ];
    let with1 = match c.center_freq1 {
        Some(v) => base.push(spec_u32_attr(ATTR_CENTER_FREQ1, v)),
        None => base,
    };
    match c.center_freq2 {
        Some(v) => with1.push(spec_u32_attr(ATTR_CENTER_FREQ2, v)),
        None => with1,
    }
}

impl Nl80211Request {
    /// List every wireless interface.
    pub fn list_interfaces() -> (r: Nl80211Request)
        ensures
            r@.command == CMD_GET_INTERFACE,
            r@.kind == RequestKind::Dump,
            r@.attributes =~= Seq::<AttrModel>::empty(),
    {
        Nl80211Request { command: CMD_GET_INTERFACE, kind: RequestKind::Dump, attributes: Vec::new() }
    }

    /// Dump interfaces filtered to one interface index; the caller picks
    /// the matching record out of the reply stream.
    pub fn get_interface(if_index: u32) -> (r: Nl80211Request)
        ensures
            r@.command == CMD_GET_INTERFACE,
            r@.kind == RequestKind::Dump,
            r@.attributes =~= seq![spec_u32_attr(ATTR_IFINDEX, if_index)],
    {
        let mut attributes: Vec<TlvAttr> = Vec::new();
        attributes.push(u32_attr(ATTR_IFINDEX, if_index));
        Nl80211Request { command: CMD_GET_INTERFACE, kind: RequestKind::Dump, attributes }
    }

    /// Set the type of a virtual interface.
    pub fn set_interface(if_index: u32, if_type: InterfaceType) -> (r: Nl80211Request)
        ensures
            r@.command == CMD_SET_INTERFACE,
            r@.kind == RequestKind::Ack,
            r@.attributes =~= seq![
                spec_u32_attr(ATTR_IFINDEX, if_index),
                spec_u32_attr(ATTR_IFTYPE, spec_interface_type_code(if_type)),
            ],
    {
        let mut attributes: Vec<TlvAttr> = Vec::new();
        attributes.push(u32_attr(ATTR_IFINDEX, if_index));
        attributes.push(u32_attr(ATTR_IFTYPE, if_type.code()));
        Nl80211Request { command: CMD_SET_INTERFACE, kind: RequestKind::Ack, attributes }
    }

    /// Put an interface in monitor mode with the given monitor flags.
    pub fn set_monitor_flags(if_index: u32, flags: &Vec<MonitorFlags>) -> (r: Nl80211Request)
        ensures
            r@.command == CMD_SET_INTERFACE,
            r@.kind == RequestKind::Ack,
            r@.attributes =~= seq![
                spec_u32_attr(ATTR_IFINDEX, if_index),
                spec_u32_attr(ATTR_IFTYPE, 6u32),
                AttrModel { code: ATTR_MNTR_FLAGS, payload: spec_monitor_flags_payload(flags@) },
            ],
    {
        let mut attributes: Vec<TlvAttr> = Vec::new();
        attributes.push(u32_attr(ATTR_IFINDEX, if_index));
        attributes.push(u32_attr(ATTR_IFTYPE, InterfaceType::Monitor.code()));
        let mut payload: Vec<u8> = Vec::new();
        let mut i: usize = 0;
        proof {
            assert(flags@.skip(0) =~= flags@);
            assert(spec_monitor_flags_payload(flags@.skip(flags@.len() as int)) =~= Seq::<
                u8,
            >::empty());
        }
        while i < flags.len()
            invariant
                i <= flags@.len(),
                payload@ + spec_monitor_flags_payload(flags@.skip(i as int))
                    =~= spec_monitor_flags_payload(flags@),
            decreases flags@.len() - i,
        {
            proof {
                assert(flags@.skip(i as int)[0] == flags@[i as int]);
                assert(flags@.skip(i as int).skip(1) =~= flags@.skip(i as int + 1));
            }
            let mut code_bytes = u16_le_bytes(flags[i].code());
            let ghost before = payload@;
            payload.append(&mut code_bytes);
            proof {
                assert(payload@ =~= before + le_bytes(
                    spec_monitor_flag_code(flags@[i as int]) as int,
                    2,
                ));
            }
            i = i + 1;
        }
        proof {
            assert(flags@.skip(flags@.len() as int) =~= Seq::<MonitorFlags>::empty());
            assert(payload@ =~= spec_monitor_flags_payload(flags@));
        }
        attributes.push(TlvAttr { code: ATTR_MNTR_FLAGS, payload });
        Nl80211Request { command: CMD_SET_INTERFACE, kind: RequestKind::Ack, attributes }
    }

    /// Set the channel an interface operates on.
    pub fn set_channel(config: &ChannelConfig) -> (r: Nl80211Request)
        ensures
            r@.command == CMD_SET_CHANNEL,
            r@.kind == RequestKind::Ack,
            r@.attributes =~= spec_set_channel_attrs(config@),
    {
        let mut attributes: Vec<TlvAttr> = Vec::new();
        attributes.push(u32_attr(ATTR_IFINDEX, config.if_index));
        attributes.push(u32_attr(ATTR_WIPHY_FREQ, config.freq));
        attributes.push(u32_attr(ATTR_CHANNEL_WIDTH, config.width.code()));
        match config.center_freq1 {
            Some(v) => {
                attributes.push(u32_attr(ATTR_CENTER_FREQ1, v));
            },
            None => {},
        }
        match config.center_freq2 {
            Some(v) => {
                attributes.push(u32_attr(ATTR_CENTER_FREQ2, v));
            },
            None => {},
        }
        Nl80211Request { command: CMD_SET_CHANNEL, kind: RequestKind::Ack, attributes }
    }

    /// List the stations associated with an interface.
    pub fn list_stations(if_index: u32) -> (r: Nl80211Request)
        ensures
            r@.command == CMD_GET_STATION,
            r@.kind == RequestKind::Dump,
            r@.attributes =~= seq![spec_u32_attr(ATTR_IFINDEX, if_index)],
    {
        let mut attributes: Vec<TlvAttr> = Vec::new();
        attributes.push(u32_attr(ATTR_IFINDEX, if_index));
        Nl80211Request { command: CMD_GET_STATION, kind: RequestKind::Dump, attributes }
    }

    /// List every physical device.  The split-dump attribute must be sent
    /// explicitly, or multi-band devices come back truncated.
    pub fn list_physical_devices() -> (r: Nl80211Request)
        ensures
            r@.command == CMD_GET_WIPHY,
            r@.kind == RequestKind::Dump,
            r@.attributes =~= seq![spec_flag_attr(ATTR_SPLIT_WIPHY_DUMP)],
    {
        let mut attributes: Vec<TlvAttr> = Vec::new();
        attributes.push(TlvAttr { code: ATTR_SPLIT_WIPHY_DUMP, payload: Vec::new() });
        Nl80211Request { command: CMD_GET_WIPHY, kind: RequestKind::Dump, attributes }
    }

    /// Dump one physical device, in split-dump mode.
    pub fn get_physical_device(wiphy_index: u32) -> (r: Nl80211Request)
        ensures
            r@.command == CMD_GET_WIPHY,
            r@.kind == RequestKind::Dump,
            r@.attributes =~= seq![
                spec_u32_attr(ATTR_WIPHY, wiphy_index),
                spec_flag_attr(ATTR_SPLIT_WIPHY_DUMP),
            ],
    {
        let mut attributes: Vec<TlvAttr> = Vec::new();
        attributes.push(u32_attr(ATTR_WIPHY, wiphy_index));
        attributes.push(TlvAttr { code: ATTR_SPLIT_WIPHY_DUMP, payload: Vec::new() });
        Nl80211Request { command: CMD_GET_WIPHY, kind: RequestKind::Dump, attributes }
    }

    /// Ask the wireless core for the currently set regulatory domain.
    pub fn get_regulatory_domain() -> (r: Nl80211Request)
        ensures
            r@.command == CMD_GET_REG,
            r@.kind == RequestKind::Dump,
            r@.attributes =~= Seq::<AttrModel>::empty(),
    {
        Nl80211Request { command: CMD_GET_REG, kind: RequestKind::Dump, attributes: Vec::new() }
    }

    /// Trigger a new scan on an interface.
    pub fn trigger_scan(if_index: u32) -> (r: Nl80211Request)
        ensures
            r@.command == CMD_TRIGGER_SCAN,
            r@.kind == RequestKind::Ack,
            r@.attributes =~= seq![spec_u32_attr(ATTR_IFINDEX, if_index)],
    {
        let mut attributes: Vec<TlvAttr> = Vec::new();
        attributes.push(u32_attr(ATTR_IFINDEX, if_index));
        Nl80211Request { command: CMD_TRIGGER_SCAN, kind: RequestKind::Ack, attributes }
    }

    /// Stop an ongoing scan on an interface.  The kernel answers with the
    /// no-such-entity errno when no scan is running.
    pub fn abort_scan(if_index: u32) -> (r: Nl80211Request)
        ensures
            r@.command == CMD_ABORT_SCAN,
            r@.kind == RequestKind::Ack,
            r@.attributes =~= seq![spec_u32_attr(ATTR_IFINDEX, if_index)],
    {
        let mut attributes: Vec<TlvAttr> = Vec::new();
        attributes.push(u32_attr(ATTR_IFINDEX, if_index));
        Nl80211Request { command: CMD_ABORT_SCAN, kind: RequestKind::Ack, attributes }
    }
}

} // verus!
