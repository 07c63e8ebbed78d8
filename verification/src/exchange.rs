//! The message-exchange layer: classifying each raw reply message as
//! payload, error, ack, empty or done, and folding a reply stream into
//! decoded entities, a translated kernel error, or a decode failure.

use vstd::prelude::*;
use vstd::string::StringExecFns;

use crate::bytes::{
    attrs_view, le_value, lemma_le_value_bound, lemma_pow256_values, parse_attrs, read_u16_at,
    read_u32_at, spec_walk, AttrModel, TlvAttr,
};
use crate::error::{errno_text, NlError};
use crate::interface::{decode_interface, spec_decode_interface, InterfaceModel, WirelessInterface};
use crate::reg_domain::{decode_domain, spec_decode_domain, DomainModel, RegulatoryDomain};
use crate::station::{decode_station, spec_decode_station, StationModel, WirelessStation};
use crate::wiphy::{decode_device, spec_decode_device, spec_merge, DeviceModel, PhysicalDevice};

verus! {

/// Netlink control message type: no-op.
pub const NLMSG_NOOP: u16 = 1;

/// Netlink control message type: error, or ack when the carried errno is
/// zero.
pub const NLMSG_ERROR: u16 = 2;

/// Netlink control message type: end of a multi-part dump.
pub const NLMSG_DONE: u16 = 3;

/// One classified reply message.
pub enum ReplyMessage {
    /// A data message: the top-level attribute sequence for an entity
    /// decoder.
    Payload(Vec<TlvAttr>),
    /// A kernel error, carrying the negative errno from the wire.
    Error(i32),
    /// The operation succeeded and carries no data.
    Ack,
    /// A no-op message.
    Empty,
    /// The explicit end-of-dump marker.
    Done,
}

/// Mathematical model of a classified reply message.
pub ghost enum ReplyModel {
    Payload(Seq<AttrModel>),
    Error(i32),
    Ack,
    Empty,
    Done,
}

impl View for ReplyMessage {
    type V = ReplyModel;

    open spec fn view(&self) -> ReplyModel {
        match self {
            ReplyMessage::Payload(attrs) => ReplyModel::Payload(attrs_view(attrs@)),
            ReplyMessage::Error(e) => ReplyModel::Error(*e),
            ReplyMessage::Ack => ReplyModel::Ack,
            ReplyMessage::Empty => ReplyModel::Empty,
            ReplyMessage::Done => ReplyModel::Done,
        }
    }
}

/// The models of a sequence of reply messages.
pub open spec fn replies_view(s: Seq<ReplyMessage>) -> Seq<ReplyModel> {
    s.map_values(|m: ReplyMessage| m@)
}

/// The signed 32-bit value a little-endian unsigned reading stands for,
/// in two's complement.
pub open spec fn spec_i32_of(v: int) -> i32 {
    if v < 0x80000000 {
        v as i32
    } else {
        (v - 0x100000000) as i32
    }
}

/// What one raw netlink message classifies as.  The header is sixteen
/// bytes: total length, type, flags, sequence and port; an error message
/// carries a signed errno first in its payload, zero meaning ack; a data
/// message carries the four-byte generic-netlink header and then the
/// attribute stream.  `None` is a malformed message.
pub open spec fn spec_parse_reply(s: Seq<u8>) -> Option<ReplyModel> {
    if s.len() < 16 {
        None
    } else {
        let msg_len = le_value(s.take(4));
        let msg_type = le_value(s.subrange(4, 6)) as u16;
        if msg_len < 16 || msg_len > s.len() {
            None
        } else if msg_type == NLMSG_NOOP {
            Some(ReplyModel::Empty)
        } else if msg_type == NLMSG_ERROR {
            if msg_len < 20 {
                None
            } else {
                let errno = spec_i32_of(le_value(s.subrange(16, 20)));
                if errno == 0 {
                    Some(ReplyModel::Ack)
                } else {
                    Some(ReplyModel::Error(errno))
                }
            }
        } else if msg_type == NLMSG_DONE {
            Some(ReplyModel::Done)
        } else if msg_len == 16 {
            Some(ReplyModel::Empty)
        } else if msg_len < 20 {
            None
        } else {
            match spec_walk(s.subrange(20, msg_len)) {
                Some(attrs) => Some(ReplyModel::Payload(attrs)),
                None => None,
            }
        }
    }
}

/// Classifies one raw netlink reply message; `None` is a malformed
/// message.
pub fn parse_reply(buf: &[u8]) -> (r: Option<ReplyMessage>)
    ensures
        match r {
            Some(m) => spec_parse_reply(buf@) == Some(m@),
            None => spec_parse_reply(buf@) is None,
        },
{
    let n = buf.len();
    if n < 16 {
        return None;
    }
    let msg_len_raw = read_u32_at(buf, 0);
    let msg_type = read_u16_at(buf, 4);
    proof {
        assert(buf@.subrange(0, 4) =~= buf@.take(4));
        lemma_le_value_bound(buf@.take(4));
        lemma_le_value_bound(buf@.subrange(4, 6));
        lemma_pow256_values();
    }
    if msg_len_raw < 16 || msg_len_raw as usize > n {
        return None;
    }
    let msg_len = msg_len_raw as usize;
    if msg_type == NLMSG_NOOP {
        Some(ReplyMessage::Empty)
    } else if msg_type == NLMSG_ERROR {
        if msg_len < 20 {
            return None;
        }
        let v = read_u32_at(buf, 16);
        proof {
            lemma_le_value_bound(buf@.subrange(16, 20));
        }
        let errno: i32 = if v >= 0x80000000 {
            ((v as i64) - 0x100000000) as i32
        } else {
            v as i32
        };
        if errno == 0 {
            Some(ReplyMessage::Ack)
        } else {
            Some(ReplyMessage::Error(errno))
        }
    } else if msg_type == NLMSG_DONE {
        Some(ReplyMessage::Done)
    } else if msg_len == 16 {
        Some(ReplyMessage::Empty)
    } else if msg_len < 20 {
        None
    } else {
        let body = crate::bytes::copy_range(buf, 20, msg_len);
        match parse_attrs(body.as_slice()) {
            Some(attrs) => Some(ReplyMessage::Payload(attrs)),
            None => None,
        }
    }
}

/// What a dump reply stream folds to: the decoded entities of the payload
/// messages up to the done marker, the kernel errno of an error message
/// (any payloads before it are discarded), or a decode failure.
pub ghost enum DumpOutcome<T> {
    Entities(Seq<T>),
    KernelError(i32),
    DecodeFailed,
}

/// Folds a dump reply stream with an entity decoder: payload messages
/// decode and accumulate in order, ack and empty messages are skipped,
/// the done marker ends the stream, and an error message ends it with the
/// kernel errno, discarding the accumulated entities.
pub open spec fn spec_collect_dump<T>(
    s: Seq<ReplyModel>,
    dec: spec_fn(Seq<AttrModel>) -> Option<T>,
) -> DumpOutcome<T>
    decreases s.len(),
{
    if s.len() == 0 {
        DumpOutcome::Entities(Seq::empty())
    } else {
        match s[0] {
            ReplyModel::Done => DumpOutcome::Entities(Seq::empty()),
            ReplyModel::Error(e) => DumpOutcome::KernelError(e),
            ReplyModel::Ack => spec_collect_dump(s.skip(1), dec),
            ReplyModel::Empty => spec_collect_dump(s.skip(1), dec),
            ReplyModel::Payload(attrs) => match dec(attrs) {
                Some(m) => match spec_collect_dump(s.skip(1), dec) {
                    DumpOutcome::Entities(rest) => DumpOutcome::Entities(seq![m] + rest),
                    other => other,
                },
                None => DumpOutcome::DecodeFailed,
            },
        }
    }
}

/// The positive errno a kernel error message translates through: the wire
/// carries the negative value.
pub open spec fn spec_errno_neg(e: i32) -> i32 {
    if e == i32::MIN {
        i32::MAX
    } else {
        (-e) as i32
    }
}

/// Translates the negative errno of a kernel error message into the
/// library's error value.
fn kernel_error(e: i32) -> (r: NlError)
    ensures
        r.msg@ == errno_text(spec_errno_neg(e)),
{
    let pos: i32 = if e == i32::MIN {
        i32::MAX
    } else {
        -e
    };
    NlError::from_errno(pos)
}

/// What the first error message of an acknowledged exchange carries, if
/// any: payload, ack, empty and done messages all count as success.
pub open spec fn spec_ack_outcome(s: Seq<ReplyModel>) -> Option<i32>
    decreases s.len(),
{
    if s.len() == 0 {
        None
    } else {
        match s[0] {
            ReplyModel::Error(e) => Some(e),
            _ => spec_ack_outcome(s.skip(1)),
        }
    }
}

/// Consumes the reply stream of an acknowledged request: the first error
/// message translates to a failure, anything else is success.
pub fn process_ack(msgs: &Vec<ReplyMessage>) -> (r: Result<(), NlError>)
    ensures
        match r {
            Ok(_) => spec_ack_outcome(replies_view(msgs@)) is None,
            Err(e) => match spec_ack_outcome(replies_view(msgs@)) {
                Some(code) => e.msg@ == errno_text(spec_errno_neg(code)),
                None => false,
            },
        },
{
    let ghost ms = replies_view(msgs@);
    proof {
        assert(ms.skip(0) =~= ms);
    }
    let mut i: usize = 0;
    while i < msgs.len()
        invariant
            i <= msgs.len(),
            ms == replies_view(msgs@),
            spec_ack_outcome(ms) == spec_ack_outcome(ms.skip(i as int)),
        decreases msgs.len() - i,
    {
        proof {
            assert(ms.skip(i as int)[0] == ms[i as int]);
            assert(ms[i as int] == msgs@[i as int]@);
            assert(ms.skip(i as int).skip(1) =~= ms.skip(i as int + 1));
        }
        match &msgs[i] {
            ReplyMessage::Error(e) => {
                return Err(kernel_error(*e));
            },
            _ => {},
        }
        i = i + 1;
    }
    proof {
        assert(ms.skip(ms.len() as int) =~= Seq::<ReplyModel>::empty());
    }
    Ok(())
}

/// The models of a sequence of decoded interfaces.
pub open spec fn interfaces_view(s: Seq<WirelessInterface>) -> Seq<InterfaceModel> {
    s.map_values(|w: WirelessInterface| w@)
}

/// Collects the interfaces of a dump reply stream: one entity per payload
/// message, ended by the done marker; an error message translates to a
/// failure and discards the partial list.
pub fn interfaces_from_replies(msgs: &Vec<ReplyMessage>) -> (r: Result<
    Vec<WirelessInterface>,
    NlError,
>)
    ensures
        match r {
            Ok(v) => spec_collect_dump(
                replies_view(msgs@),
                |attrs: Seq<AttrModel>| spec_decode_interface(attrs),
            ) == DumpOutcome::Entities(interfaces_view(v@)),
            Err(e) => match spec_collect_dump(
                replies_view(msgs@),
                |attrs: Seq<AttrModel>| spec_decode_interface(attrs),
            ) {
                DumpOutcome::Entities(_) => false,
                DumpOutcome::KernelError(code) => e.msg@ == errno_text(spec_errno_neg(code)),
                DumpOutcome::DecodeFailed => true,
            },
        },
{
    let ghost ms = replies_view(msgs@);
    let ghost dec = |attrs: Seq<AttrModel>| spec_decode_interface(attrs);
    let mut out: Vec<WirelessInterface> = Vec::new();
    proof {
        assert(ms.skip(0) =~= ms);
        assert(interfaces_view(out@) + Seq::<InterfaceModel>::empty() =~= interfaces_view(out@));
    }
    let mut i: usize = 0;
    while i < msgs.len()
        invariant
            i <= msgs.len(),
            ms == replies_view(msgs@),
            dec == (|attrs: Seq<AttrModel>| spec_decode_interface(attrs)),
            spec_collect_dump(ms, dec) == (match spec_collect_dump(ms.skip(i as int), dec) {
                DumpOutcome::Entities(rest) => DumpOutcome::Entities(
                    interfaces_view(out@) + rest,
                ),
                other => other,
            }),
        decreases msgs.len() - i,
    {
        proof {
            assert(ms.skip(i as int)[0] == ms[i as int]);
            assert(ms[i as int] == msgs@[i as int]@);
            assert(ms.skip(i as int).skip(1) =~= ms.skip(i as int + 1));
        }
        let ghost prev = out@;
        match &msgs[i] {
            ReplyMessage::Done => {
                proof {
                    assert(spec_collect_dump(ms.skip(i as int), dec) == DumpOutcome::Entities(
                        Seq::<InterfaceModel>::empty(),
                    ));
                    assert(interfaces_view(out@) + Seq::<InterfaceModel>::empty()
                        =~= interfaces_view(out@));
                }
                return Ok(out);
            },
            ReplyMessage::Error(e) => {
                return Err(kernel_error(*e));
            },
            ReplyMessage::Ack => {},
            ReplyMessage::Empty => {},
            ReplyMessage::Payload(attrs) => {
                match decode_interface(attrs) {
                    Ok(w) => {
                        proof {
                            assert(interfaces_view(prev.push(w)) =~= interfaces_view(prev).push(
                                w@,
                            ));
                            if spec_collect_dump(ms.skip(i as int + 1), dec)
                                is Entities {
                                let rest = spec_collect_dump(
                                    ms.skip(i as int + 1),
                                    dec,
                                )->Entities_0;
                                assert(interfaces_view(prev) + (seq![w@] + rest)
                                    =~= interfaces_view(prev.push(w)) + rest);
                            }
                        }
                        out.push(w);
                    },
                    Err(e) => {
                        return Err(e);
                    },
                }
            },
        }
        i = i + 1;
    }
    proof {
        assert(ms.skip(ms.len() as int) =~= Seq::<ReplyModel>::empty());
        assert(interfaces_view(out@) + Seq::<InterfaceModel>::empty() =~= interfaces_view(out@));
    }
    Ok(out)
}

/// The models of a sequence of decoded stations.
pub open spec fn stations_view(s: Seq<WirelessStation>) -> Seq<StationModel> {
    s.map_values(|w: WirelessStation| w@)
}

/// Collects the stations of a dump reply stream, as
/// `interfaces_from_replies` does for interfaces.
pub fn stations_from_replies(msgs: &Vec<ReplyMessage>) -> (r: Result<Vec<WirelessStation>, NlError>)
    ensures
        match r {
            Ok(v) => spec_collect_dump(
                replies_view(msgs@),
                |attrs: Seq<AttrModel>| spec_decode_station(attrs),
            ) == DumpOutcome::Entities(stations_view(v@)),
            Err(e) => match spec_collect_dump(
                replies_view(msgs@),
                |attrs: Seq<AttrModel>| spec_decode_station(attrs),
            ) {
                DumpOutcome::Entities(_) => false,
                DumpOutcome::KernelError(code) => e.msg@ == errno_text(spec_errno_neg(code)),
                DumpOutcome::DecodeFailed => true,
            },
        },
{
    let ghost ms = replies_view(msgs@);
    let ghost dec = |attrs: Seq<AttrModel>| spec_decode_station(attrs);
    let mut out: Vec<WirelessStation> = Vec::new();
    proof {
        assert(ms.skip(0) =~= ms);
        assert(stations_view(out@) + Seq::<StationModel>::empty() =~= stations_view(out@));
    }
    let mut i: usize = 0;
    while i < msgs.len()
        invariant
            i <= msgs.len(),
            ms == replies_view(msgs@),
            dec == (|attrs: Seq<AttrModel>| spec_decode_station(attrs)),
            spec_collect_dump(ms, dec) == (match spec_collect_dump(ms.skip(i as int), dec) {
                DumpOutcome::Entities(rest) => DumpOutcome::Entities(stations_view(out@) + rest),
                other => other,
            }),
        decreases msgs.len() - i,
    {
        proof {
            assert(ms.skip(i as int)[0] == ms[i as int]);
            assert(ms[i as int] == msgs@[i as int]@);
            assert(ms.skip(i as int).skip(1) =~= ms.skip(i as int + 1));
        }
        let ghost prev = out@;
        match &msgs[i] {
            ReplyMessage::Done => {
                proof {
                    assert(spec_collect_dump(ms.skip(i as int), dec) == DumpOutcome::Entities(
                        Seq::<StationModel>::empty(),
                    ));
                    assert(stations_view(out@) + Seq::<StationModel>::empty() =~= stations_view(
                        out@,
                    ));
                }
                return Ok(out);
            },
            ReplyMessage::Error(e) => {
                return Err(kernel_error(*e));
            },
            ReplyMessage::Ack => {},
            ReplyMessage::Empty => {},
            ReplyMessage::Payload(attrs) => {
                match decode_station(attrs) {
                    Ok(w) => {
                        proof {
                            assert(stations_view(prev.push(w)) =~= stations_view(prev).push(w@));
                            if spec_collect_dump(ms.skip(i as int + 1), dec)
                                is Entities {
                                let rest = spec_collect_dump(
                                    ms.skip(i as int + 1),
                                    dec,
                                )->Entities_0;
                                assert(stations_view(prev) + (seq![w@] + rest) =~= stations_view(
                                    prev.push(w),
                                ) + rest);
                            }
                        }
                        out.push(w);
                    },
                    Err(e) => {
                        return Err(e);
                    },
                }
            },
        }
        i = i + 1;
    }
    proof {
        assert(ms.skip(ms.len() as int) =~= Seq::<ReplyModel>::empty());
        assert(stations_view(out@) + Seq::<StationModel>::empty() =~= stations_view(out@));
    }
    Ok(out)
}

/// The models of a sequence of decoded regulatory domains.
pub open spec fn domains_view(s: Seq<RegulatoryDomain>) -> Seq<DomainModel> {
    s.map_values(|d: RegulatoryDomain| d@)
}

/// Collects the regulatory domains of a dump reply stream, as
/// `interfaces_from_replies` does for interfaces.
pub fn domains_from_replies(msgs: &Vec<ReplyMessage>) -> (r: Result<Vec<RegulatoryDomain>, NlError>)
    ensures
        match r {
            Ok(v) => spec_collect_dump(
                replies_view(msgs@),
                |attrs: Seq<AttrModel>| spec_decode_domain(attrs),
            ) == DumpOutcome::Entities(domains_view(v@)),
            Err(e) => match spec_collect_dump(
                replies_view(msgs@),
                |attrs: Seq<AttrModel>| spec_decode_domain(attrs),
            ) {
                DumpOutcome::Entities(_) => false,
                DumpOutcome::KernelError(code) => e.msg@ == errno_text(spec_errno_neg(code)),
                DumpOutcome::DecodeFailed => true,
            },
        },
{
    let ghost ms = replies_view(msgs@);
    let ghost dec = |attrs: Seq<AttrModel>| spec_decode_domain(attrs);
    let mut out: Vec<RegulatoryDomain> = Vec::new();
    proof {
        assert(ms.skip(0) =~= ms);
        assert(domains_view(out@) + Seq::<DomainModel>::empty() =~= domains_view(out@));
    }
    let mut i: usize = 0;
    while i < msgs.len()
        invariant
            i <= msgs.len(),
            ms == replies_view(msgs@),
            dec == (|attrs: Seq<AttrModel>| spec_decode_domain(attrs)),
            spec_collect_dump(ms, dec) == (match spec_collect_dump(ms.skip(i as int), dec) {
                DumpOutcome::Entities(rest) => DumpOutcome::Entities(domains_view(out@) + rest),
                other => other,
            }),
        decreases msgs.len() - i,
    {
        proof {
            assert(ms.skip(i as int)[0] == ms[i as int]);
            assert(ms[i as int] == msgs@[i as int]@);
            assert(ms.skip(i as int).skip(1) =~= ms.skip(i as int + 1));
        }
        let ghost prev = out@;
        match &msgs[i] {
            ReplyMessage::Done => {
                proof {
                    assert(spec_collect_dump(ms.skip(i as int), dec) == DumpOutcome::Entities(
                        Seq::<DomainModel>::empty(),
                    ));
                    assert(domains_view(out@) + Seq::<DomainModel>::empty() =~= domains_view(
                        out@,
                    ));
                }
                return Ok(out);
            },
            ReplyMessage::Error(e) => {
                return Err(kernel_error(*e));
            },
            ReplyMessage::Ack => {},
            ReplyMessage::Empty => {},
            ReplyMessage::Payload(attrs) => {
                match decode_domain(attrs) {
                    Ok(d) => {
                        proof {
                            assert(domains_view(prev.push(d)) =~= domains_view(prev).push(d@));
                            if spec_collect_dump(ms.skip(i as int + 1), dec)
                                is Entities {
                                let rest = spec_collect_dump(
                                    ms.skip(i as int + 1),
                                    dec,
                                )->Entities_0;
                                assert(domains_view(prev) + (seq![d@] + rest) =~= domains_view(
                                    prev.push(d),
                                ) + rest);
                            }
                        }
                        out.push(d);
                    },
                    Err(e) => {
                        return Err(e);
                    },
                }
            },
        }
        i = i + 1;
    }
    proof {
        assert(ms.skip(ms.len() as int) =~= Seq::<ReplyModel>::empty());
        assert(domains_view(out@) + Seq::<DomainModel>::empty() =~= domains_view(out@));
    }
    Ok(out)
}


/// The models of a sequence of decoded devices.
pub open spec fn devices_view(s: Seq<PhysicalDevice>) -> Seq<DeviceModel> {
    s.map_values(|d: PhysicalDevice| d@)
}

/// Merges a freshly decoded device record into the accumulated list: the
/// first record with the same wiphy index absorbs it, otherwise it is
/// appended.
pub open spec fn spec_merge_into(list: Seq<DeviceModel>, d: DeviceModel) -> Seq<DeviceModel>
    decreases list.len(),
{
    if list.len() == 0 {
        seq![d]
    } else if list[0].wiphy_index == d.wiphy_index {
        seq![spec_merge(list[0], d)] + list.skip(1)
    } else {
        seq![list[0]] + spec_merge_into(list.skip(1), d)
    }
}

/// Folds a wiphy dump reply stream: each payload message decodes to a
/// device record and merges into the list by wiphy index, the done marker
/// ends the stream, and an error message ends it with the kernel errno.
pub open spec fn spec_collect_devices(s: Seq<ReplyModel>, acc: Seq<DeviceModel>) -> DumpOutcome<
    DeviceModel,
>
    decreases s.len(),
{
    if s.len() == 0 {
        DumpOutcome::Entities(acc)
    } else {
        match s[0] {
            ReplyModel::Done => DumpOutcome::Entities(acc),
            ReplyModel::Error(e) => DumpOutcome::KernelError(e),
            ReplyModel::Ack => spec_collect_devices(s.skip(1), acc),
            ReplyModel::Empty => spec_collect_devices(s.skip(1), acc),
            ReplyModel::Payload(attrs) => match spec_decode_device(attrs) {
                Some(d) => spec_collect_devices(s.skip(1), spec_merge_into(acc, d)),
                None => DumpOutcome::DecodeFailed,
            },
        }
    }
}

/// Copies a string.
fn copy_string(s: &String) -> (r: String)
    ensures
        r@ == s@,
{
    String::from_str(s.as_str())
}

/// Copies an optional band.
fn copy_band(b: &Option<crate::wiphy::WifiBand>) -> (r: Option<crate::wiphy::WifiBand>)
    ensures
        (match r {
            Some(band) => Some(band@),
            None => None,
        }) == (match b {
            Some(band) => Some(band@),
            None => None::<Seq<crate::wiphy::Frequency>>,
        }),
{
    match b {
        Some(band) => {
            let mut fs: Vec<crate::wiphy::Frequency> = Vec::new();
            let mut i: usize = 0;
            while i < band.frequencies.len()
                invariant
                    i <= band.frequencies@.len(),
                    fs@ =~= band.frequencies@.take(i as int),
                decreases band.frequencies@.len() - i,
            {
                fs.push(band.frequencies[i]);
                i = i + 1;
            }
            proof {
                assert(fs@ =~= band.frequencies@);
            }
            Some(crate::wiphy::WifiBand { frequencies: fs })
        },
        None => None,
    }
}

/// Copies a device record.
fn copy_device(d: &PhysicalDevice) -> (r: PhysicalDevice)
    ensures
        r@ == d@,
{
    PhysicalDevice {
        wiphy_index: d.wiphy_index,
        name: copy_string(&d.name),
        generation: d.generation,
        band_2ghz: copy_band(&d.band_2ghz),
        band_5ghz: copy_band(&d.band_5ghz),
        band_6ghz: copy_band(&d.band_6ghz),
        self_managed_reg: d.self_managed_reg,
        mac: d.mac,
    }
}

/// Merges a decoded device into the list: the first record with the same
/// wiphy index absorbs it, otherwise it is appended.
fn merge_device_into(list: &mut Vec<PhysicalDevice>, d: PhysicalDevice)
    ensures
        devices_view(final(list)@) == spec_merge_into(devices_view(old(list)@), d@),
{
    let ghost orig = devices_view(list@);
    let mut i: usize = 0;
    proof {
        assert(orig.skip(0) =~= orig);
        assert(orig.take(0) + spec_merge_into(orig.skip(0), d@) =~= spec_merge_into(orig, d@));
    }
    while i < list.len()
        invariant
            i <= list@.len(),
            list@.len() == old(list)@.len(),
            devices_view(list@) == orig,
            orig == devices_view(old(list)@),
            forall|j: int| 0 <= j < i ==> orig[j].wiphy_index != d@.wiphy_index,
            spec_merge_into(orig, d@) == orig.take(i as int) + spec_merge_into(
                orig.skip(i as int),
                d@,
            ),
        decreases list@.len() - i,
    {
        proof {
            assert(orig.skip(i as int)[0] == orig[i as int]);
            assert(orig[i as int] == list@[i as int]@);
        }
        if list[i].wiphy_index == d.wiphy_index {
            let mut merged = copy_device(&list[i]);
            merged.merge(&d);
            list.set(i, merged);
            proof {
                assert(spec_merge_into(orig.skip(i as int), d@) =~= seq![
                    spec_merge(orig[i as int], d@),
                ] + orig.skip(i as int + 1));
                assert(devices_view(list@) =~= orig.take(i as int) + (seq![
                    spec_merge(orig[i as int], d@),
                ] + orig.skip(i as int + 1)));
            }
            return ;
        }
        proof {
            assert(orig.skip(i as int).skip(1) =~= orig.skip(i as int + 1));
            assert(orig.take(i as int + 1) =~= orig.take(i as int) + seq![orig[i as int]]);
            assert(orig.take(i as int) + (seq![orig[i as int]] + spec_merge_into(
                orig.skip(i as int + 1),
                d@,
            )) =~= orig.take(i as int + 1) + spec_merge_into(orig.skip(i as int + 1), d@));
        }
        i = i + 1;
    }
    proof {
        assert(orig.skip(orig.len() as int) =~= Seq::<DeviceModel>::empty());
        assert(spec_merge_into(orig.skip(orig.len() as int), d@) =~= seq![d@]);
    }
    list.push(d);
    proof {
        assert(devices_view(list@) =~= orig.take(orig.len() as int) + seq![d@]);
        assert(orig.take(orig.len() as int) =~= orig);
    }
}

/// Collects the physical devices of a wiphy dump reply stream, merging
/// the messages of a split dump by wiphy index; an error message
/// translates to a failure and discards the partial list.
pub fn devices_from_replies(msgs: &Vec<ReplyMessage>) -> (r: Result<Vec<PhysicalDevice>, NlError>)
    ensures
        match r {
            Ok(v) => spec_collect_devices(replies_view(msgs@), Seq::empty())
                == DumpOutcome::Entities(devices_view(v@)),
            Err(e) => match spec_collect_devices(replies_view(msgs@), Seq::empty()) {
                DumpOutcome::Entities(_) => false,
                DumpOutcome::KernelError(code) => e.msg@ == errno_text(spec_errno_neg(code)),
                DumpOutcome::DecodeFailed => true,
            },
        },
{
    let ghost ms = replies_view(msgs@);
    let mut out: Vec<PhysicalDevice> = Vec::new();
    proof {
        assert(ms.skip(0) =~= ms);
        assert(devices_view(out@) =~= Seq::<DeviceModel>::empty());
    }
    let mut i: usize = 0;
    while i < msgs.len()
        invariant
            i <= msgs.len(),
            ms == replies_view(msgs@),
            spec_collect_devices(ms, Seq::empty()) == spec_collect_devices(
                ms.skip(i as int),
                devices_view(out@),
            ),
        decreases msgs.len() - i,
    {
        proof {
            assert(ms.skip(i as int)[0] == ms[i as int]);
            assert(ms[i as int] == msgs@[i as int]@);
            assert(ms.skip(i as int).skip(1) =~= ms.skip(i as int + 1));
        }
        match &msgs[i] {
            ReplyMessage::Done => {
                return Ok(out);
            },
            ReplyMessage::Error(e) => {
                return Err(kernel_error(*e));
            },
            ReplyMessage::Ack => {},
            ReplyMessage::Empty => {},
            ReplyMessage::Payload(attrs) => {
                match decode_device(attrs) {
                    Ok(d) => {
                        merge_device_into(&mut out, d);
                    },
                    Err(e) => {
                        return Err(e);
                    },
                }
            },
        }
        i = i + 1;
    }
    proof {
        assert(ms.skip(ms.len() as int) =~= Seq::<ReplyModel>::empty());
    }
    Ok(out)
}

/// Folds a single-wiphy dump reply stream: only records of the requested
/// wiphy index count, later messages merging into the accumulated record.
pub open spec fn spec_collect_one_device(
    s: Seq<ReplyModel>,
    wiphy_index: u32,
    acc: Option<DeviceModel>,
) -> DumpOutcome<Option<DeviceModel>>
    decreases s.len(),
{
    if s.len() == 0 {
        DumpOutcome::Entities(seq![acc])
    } else {
        match s[0] {
            ReplyModel::Done => DumpOutcome::Entities(seq![acc]),
            ReplyModel::Error(e) => DumpOutcome::KernelError(e),
            ReplyModel::Ack => spec_collect_one_device(s.skip(1), wiphy_index, acc),
            ReplyModel::Empty => spec_collect_one_device(s.skip(1), wiphy_index, acc),
            ReplyModel::Payload(attrs) => match spec_decode_device(attrs) {
                Some(d) => if d.wiphy_index == wiphy_index {
                    match acc {
                        Some(prev) => spec_collect_one_device(
                            s.skip(1),
                            wiphy_index,
                            Some(spec_merge(prev, d)),
                        ),
                        None => spec_collect_one_device(s.skip(1), wiphy_index, Some(d)),
                    }
                } else {
                    spec_collect_one_device(s.skip(1), wiphy_index, acc)
                },
                None => DumpOutcome::DecodeFailed,
            },
        }
    }
}

/// The model of an optional device.
pub open spec fn device_opt_view(d: Option<PhysicalDevice>) -> Option<DeviceModel> {
    match d {
        Some(dev) => Some(dev@),
        None => None,
    }
}

/// Collects one physical device of a single-wiphy dump reply stream,
/// merging the split-dump messages that carry its index and skipping any
/// other record.
pub fn device_from_replies(wiphy_index: u32, msgs: &Vec<ReplyMessage>) -> (r: Result<
    Option<PhysicalDevice>,
    NlError,
>)
    ensures
        match r {
            Ok(v) => spec_collect_one_device(replies_view(msgs@), wiphy_index, None)
                == DumpOutcome::Entities(seq![device_opt_view(v)]),
            Err(e) => match spec_collect_one_device(replies_view(msgs@), wiphy_index, None) {
                DumpOutcome::Entities(_) => false,
                DumpOutcome::KernelError(code) => e.msg@ == errno_text(spec_errno_neg(code)),
                DumpOutcome::DecodeFailed => true,
            },
        },
{
    let ghost ms = replies_view(msgs@);
    let mut found: Option<PhysicalDevice> = None;
    proof {
        assert(ms.skip(0) =~= ms);
    }
    let mut i: usize = 0;
    while i < msgs.len()
        invariant
            i <= msgs.len(),
            ms == replies_view(msgs@),
            spec_collect_one_device(ms, wiphy_index, None) == spec_collect_one_device(
                ms.skip(i as int),
                wiphy_index,
                device_opt_view(found),
            ),
        decreases msgs.len() - i,
    {
        proof {
            assert(ms.skip(i as int)[0] == ms[i as int]);
            assert(ms[i as int] == msgs@[i as int]@);
            assert(ms.skip(i as int).skip(1) =~= ms.skip(i as int + 1));
        }
        match &msgs[i] {
            ReplyMessage::Done => {
                return Ok(found);
            },
            ReplyMessage::Error(e) => {
                return Err(kernel_error(*e));
            },
            ReplyMessage::Ack => {},
            ReplyMessage::Empty => {},
            ReplyMessage::Payload(attrs) => {
                match decode_device(attrs) {
                    Ok(d) => {
                        if d.wiphy_index == wiphy_index {
                            match found {
                                Some(prev) => {
                                    let mut merged = prev;
                                    merged.merge(&d);
                                    found = Some(merged);
                                },
                                None => {
                                    found = Some(d);
                                },
                            }
                        }
                    },
                    Err(e) => {
                        return Err(e);
                    },
                }
            },
        }
        i = i + 1;
    }
    proof {
        assert(ms.skip(ms.len() as int) =~= Seq::<ReplyModel>::empty());
    }
    Ok(found)
}


/// The first interface of a list carrying the given interface index.
pub open spec fn spec_find_interface(s: Seq<InterfaceModel>, if_index: u32) -> Option<
    InterfaceModel,
>
    decreases s.len(),
{
    if s.len() == 0 {
        None
    } else if s[0].interface_index == if_index {
        Some(s[0])
    } else {
        spec_find_interface(s.skip(1), if_index)
    }
}

/// Picks the first interface with the given index out of a dump result:
/// a single-interface dump still answers with a stream, and the caller
/// filters by index.
pub fn interface_with_index<'a>(list: &'a Vec<WirelessInterface>, if_index: u32) -> (r: Option<
    &'a WirelessInterface,
>)
    ensures
        match r {
            Some(w) => spec_find_interface(interfaces_view(list@), if_index) == Some(w@),
            None => spec_find_interface(interfaces_view(list@), if_index) is None,
        },
{
    let ghost ms = interfaces_view(list@);
    proof {
        assert(ms.skip(0) =~= ms);
    }
    let mut i: usize = 0;
    while i < list.len()
        invariant
            i <= list@.len(),
            ms == interfaces_view(list@),
            spec_find_interface(ms, if_index) == spec_find_interface(ms.skip(i as int), if_index),
        decreases list@.len() - i,
    {
        proof {
            assert(ms.skip(i as int)[0] == ms[i as int]);
            assert(ms[i as int] == list@[i as int]@);
            assert(ms.skip(i as int).skip(1) =~= ms.skip(i as int + 1));
        }
        if list[i].interface_index == if_index {
            proof {
                assert(spec_find_interface(ms.skip(i as int), if_index) == Some(ms[i as int]));
            }
            return Some(&list[i]);
        }
        i = i + 1;
    }
    proof {
        assert(ms.skip(ms.len() as int) =~= Seq::<InterfaceModel>::empty());
    }
    None
}

} // verus!
