//! Physical wireless device entities: the device record, its frequency
//! bands, and the merge step for wiphy dumps split across messages.

use vstd::prelude::*;
use vstd::string::StringExecFns;

use crate::attributes::{
    ATTR_GENERATION, ATTR_MAC, ATTR_WIPHY, ATTR_WIPHY_BANDS, ATTR_WIPHY_NAME,
    ATTR_WIPHY_SELF_MANAGED_REG, BAND_2GHZ, BAND_5GHZ, BAND_6GHZ, BAND_ATTR_FREQUENCIES,
    FREQ_ATTR_DISABLED, FREQ_ATTR_FREQUENCY, FREQ_ATTR_MAX_TX_POWER, FREQ_ATTR_NO_IBSS,
    FREQ_ATTR_NO_IR, FREQ_ATTR_RADAR,
};
use crate::bytes::{
    attrs_view, spec_as_u32, spec_walk, trim_nuls, u16_decimal, utf8_lossy, AttrModel, TlvAttr,
};
use crate::error::NlError;
use crate::interface::{mac_from_payload, spec_as_mac, MacAddress};

verus! {

/// Frequency information of one channel in a band.
#[derive(Debug, Clone, Copy, PartialEq, Eq, Default, Structural)]
pub struct Frequency {
    /// Frequency in MHz.
    pub frequency: u32,
    /// Channel is disabled in the current regulatory domain.
    pub disabled: bool,
    /// No mechanisms that initiate radiation are permitted on this
    /// channel.
    pub no_ir: bool,
    /// Radar detection is mandatory on this channel in the current
    /// regulatory domain.
    pub radar_detection: bool,
    /// Maximum transmission power in mBm (100 * dBm).
    pub max_tx_power: u32,
}

/// The frequency record before any attribute is applied.
pub open spec fn freq_empty() -> Frequency {
    Frequency { frequency: 0, disabled: false, no_ir: false, radar_detection: false, max_tx_power: 0 }
}

/// One frequency attribute applied to the record: the restriction
/// attributes are presence flags.
pub open spec fn freq_step(f: Frequency, a: AttrModel) -> Option<Frequency> {
    if a.code == FREQ_ATTR_FREQUENCY {
        match spec_as_u32(a.payload) {
            Some(v) => Some(Frequency { frequency: v, ..f }),
            None => None,
        }
    } else if a.code == FREQ_ATTR_DISABLED {
        Some(Frequency { disabled: true, ..f })
    } else if a.code == FREQ_ATTR_NO_IR || a.code == FREQ_ATTR_NO_IBSS {
        Some(Frequency { no_ir: true, ..f })
    } else if a.code == FREQ_ATTR_RADAR {
        Some(Frequency { radar_detection: true, ..f })
    } else if a.code == FREQ_ATTR_MAX_TX_POWER {
        match spec_as_u32(a.payload) {
            Some(v) => Some(Frequency { max_tx_power: v, ..f }),
            None => None,
        }
    } else {
        Some(f)
    }
}

/// The frequency attributes applied in order.
pub open spec fn freq_fold(f: Frequency, attrs: Seq<AttrModel>) -> Option<Frequency>
    decreases attrs.len(),
{
    if attrs.len() == 0 {
        Some(f)
    } else {
        match freq_step(f, attrs[0]) {
            Some(f2) => freq_fold(f2, attrs.skip(1)),
            None => None,
        }
    }
}

/// What a frequency attribute sequence decodes to.
pub open spec fn spec_decode_frequency(attrs: Seq<AttrModel>) -> Option<Frequency> {
    freq_fold(freq_empty(), attrs)
}

/// Decodes one frequency entry from its attribute sequence.
pub fn decode_frequency(attrs: &Vec<TlvAttr>) -> (r: Result<Frequency, NlError>)
    ensures
        match r {
            Ok(f) => spec_decode_frequency(attrs_view(attrs@)) == Some(f),
            Err(_) => spec_decode_frequency(attrs_view(attrs@)) is None,
        },
{
    let ghost ms = attrs_view(attrs@);
    let mut f = Frequency {
        frequency: 0,
        disabled: false,
        no_ir: false,
        radar_detection: false,
        max_tx_power: 0,
    };
    let mut i: usize = 0;
    proof {
        assert(ms.skip(0) =~= ms);
    }
    while i < attrs.len()
        invariant
            i <= attrs.len(),
            ms == attrs_view(attrs@),
            spec_decode_frequency(ms) == freq_fold(f, ms.skip(i as int)),
        decreases attrs.len() - i,
    {
        let ghost prev = f;
        proof {
            assert(ms.skip(i as int)[0] == ms[i as int]);
            assert(ms[i as int] == attrs@[i as int]@);
            assert(ms.skip(i as int).skip(1) =~= ms.skip(i as int + 1));
        }
        let a = &attrs[i];
        let c = a.code;
        if c == FREQ_ATTR_FREQUENCY {
            match a.as_u32() {
                Some(v) => {
                    f.frequency = v;
                },
                None => {
                    return Err(device_decode_error(c));
                },
            }
        } else if c == FREQ_ATTR_DISABLED {
            f.disabled = true;
        } else if c == FREQ_ATTR_NO_IR || c == FREQ_ATTR_NO_IBSS {
            f.no_ir = true;
        } else if c == FREQ_ATTR_RADAR {
            f.radar_detection = true;
        } else if c == FREQ_ATTR_MAX_TX_POWER {
            match a.as_u32() {
                Some(v) => {
                    f.max_tx_power = v;
                },
                None => {
                    return Err(device_decode_error(c));
                },
            }
        }
        proof {
            assert(freq_step(prev, ms[i as int]) == Some(f));
        }
        i = i + 1;
    }
    proof {
        assert(ms.skip(ms.len() as int) =~= Seq::<AttrModel>::empty());
    }
    Ok(f)
}

/// A frequency band of a physical device.
#[derive(Debug, Clone, Default)]
pub struct WifiBand {
    /// Supported frequencies.
    pub frequencies: Vec<Frequency>,
}

impl View for WifiBand {
    type V = Seq<Frequency>;

    open spec fn view(&self) -> Seq<Frequency> {
        self.frequencies@
    }
}

/// The nested frequency entries of one frequencies attribute appended in
/// order; the code of each middle entry is an array index and carries no
/// meaning.
pub open spec fn freq_list_fold(fs: Seq<Frequency>, middle: Seq<AttrModel>) -> Option<
    Seq<Frequency>,
>
    decreases middle.len(),
{
    if middle.len() == 0 {
        Some(fs)
    } else {
        match spec_walk(middle[0].payload) {
            Some(inner) => match spec_decode_frequency(inner) {
                Some(f) => freq_list_fold(fs.push(f), middle.skip(1)),
                None => None,
            },
            None => None,
        }
    }
}

/// One band attribute applied to the frequency list: only the
/// frequencies attribute is read, the capability attributes are skipped.
pub open spec fn band_step(fs: Seq<Frequency>, a: AttrModel) -> Option<Seq<Frequency>> {
    if a.code == BAND_ATTR_FREQUENCIES {
        match spec_walk(a.payload) {
            Some(middle) => freq_list_fold(fs, middle),
            None => None,
        }
    } else {
        Some(fs)
    }
}

/// The band attributes applied in order.
pub open spec fn band_fold(fs: Seq<Frequency>, attrs: Seq<AttrModel>) -> Option<Seq<Frequency>>
    decreases attrs.len(),
{
    if attrs.len() == 0 {
        Some(fs)
    } else {
        match band_step(fs, attrs[0]) {
            Some(fs2) => band_fold(fs2, attrs.skip(1)),
            None => None,
        }
    }
}

/// What a band attribute sequence decodes to.
pub open spec fn spec_decode_band(attrs: Seq<AttrModel>) -> Option<Seq<Frequency>> {
    band_fold(Seq::empty(), attrs)
}

/// Decodes one band from its attribute sequence.
pub fn decode_band(attrs: &Vec<TlvAttr>) -> (r: Result<WifiBand, NlError>)
    ensures
        match r {
            Ok(b) => spec_decode_band(attrs_view(attrs@)) == Some(b@),
            Err(_) => spec_decode_band(attrs_view(attrs@)) is None,
        },
{
    let ghost ms = attrs_view(attrs@);
    let mut b = WifiBand { frequencies: Vec::new() };
    let mut i: usize = 0;
    proof {
        assert(ms.skip(0) =~= ms);
        assert(b@ =~= Seq::<Frequency>::empty());
    }
    while i < attrs.len()
        invariant
            i <= attrs.len(),
            ms == attrs_view(attrs@),
            spec_decode_band(ms) == band_fold(b@, ms.skip(i as int)),
        decreases attrs.len() - i,
    {
        let ghost prev = b@;
        proof {
            assert(ms.skip(i as int)[0] == ms[i as int]);
            assert(ms[i as int] == attrs@[i as int]@);
            assert(ms.skip(i as int).skip(1) =~= ms.skip(i as int + 1));
        }
        let a = &attrs[i];
        if a.code == BAND_ATTR_FREQUENCIES {
            let middle = match a.as_nested() {
                Some(v) => v,
                None => {
                    proof {
                        assert(band_step(prev, ms[i as int]) is None);
                    }
                    return Err(device_decode_error(a.code));
                },
            };
            match append_frequencies(&mut b.frequencies, &middle) {
                Ok(_) => {},
                Err(e) => {
                    proof {
                        assert(band_step(prev, ms[i as int]) is None);
                    }
                    return Err(e);
                },
            }
        }
        proof {
            assert(band_step(prev, ms[i as int]) == Some(b@));
        }
        i = i + 1;
    }
    proof {
        assert(ms.skip(ms.len() as int) =~= Seq::<AttrModel>::empty());
    }
    Ok(b)
}

/// Appends the frequency entries nested under one frequencies attribute.
fn append_frequencies(fs: &mut Vec<Frequency>, middle: &Vec<TlvAttr>) -> (r: Result<(), NlError>)
    ensures
        match r {
            Ok(_) => freq_list_fold(old(fs)@, attrs_view(middle@)) == Some(final(fs)@),
            Err(_) => freq_list_fold(old(fs)@, attrs_view(middle@)) is None,
        },
{
    let ghost ms = attrs_view(middle@);
    proof {
        assert(ms.skip(0) =~= ms);
    }
    let mut i: usize = 0;
    while i < middle.len()
        invariant
            i <= middle.len(),
            ms == attrs_view(middle@),
            freq_list_fold(old(fs)@, ms) == freq_list_fold(fs@, ms.skip(i as int)),
        decreases middle.len() - i,
    {
        let ghost prev = fs@;
        proof {
            assert(ms.skip(i as int)[0] == ms[i as int]);
            assert(ms[i as int] == middle@[i as int]@);
            assert(ms.skip(i as int).skip(1) =~= ms.skip(i as int + 1));
        }
        let a = &middle[i];
        let inner = match a.as_nested() {
            Some(v) => v,
            None => {
                return Err(device_decode_error(a.code));
            },
        };
        match decode_frequency(&inner) {
            Ok(f) => {
                fs.push(f);
            },
            Err(e) => {
                return Err(e);
            },
        }
        i = i + 1;
    }
    proof {
        assert(ms.skip(ms.len() as int) =~= Seq::<AttrModel>::empty());
    }
    Ok(())
}

/// Physical wireless device information returned from netlink.
#[derive(Debug, Clone, Default)]
pub struct PhysicalDevice {
    /// Device index.
    pub wiphy_index: u32,
    /// Device name.
    pub name: String,
    /// Dump-consistency counter: it increases whenever the object list
    /// being dumped changes.
    pub generation: u32,
    /// 2.4 GHz band.
    pub band_2ghz: Option<WifiBand>,
    /// 5 GHz band.
    pub band_5ghz: Option<WifiBand>,
    /// 6 GHz band.
    pub band_6ghz: Option<WifiBand>,
    /// Whether the device is self-managing its regulatory information.
    pub self_managed_reg: bool,
    /// Device MAC address.
    pub mac: Option<MacAddress>,
}

/// Mathematical model of a physical device.
pub ghost struct DeviceModel {
    pub wiphy_index: u32,
    pub name: Seq<char>,
    pub generation: u32,
    pub band_2ghz: Option<Seq<Frequency>>,
    pub band_5ghz: Option<Seq<Frequency>>,
    pub band_6ghz: Option<Seq<Frequency>>,
    pub self_managed_reg: bool,
    pub mac: Option<Seq<u8>>,
}

impl View for PhysicalDevice {
    type V = DeviceModel;

    open spec fn view(&self) -> DeviceModel {
        DeviceModel {
            wiphy_index: self.wiphy_index,
            name: self.name@,
            generation: self.generation,
            band_2ghz: match self.band_2ghz {
                Some(b) => Some(b@),
                None => None,
            },
            band_5ghz: match self.band_5ghz {
                Some(b) => Some(b@),
                None => None,
            },
            band_6ghz: match self.band_6ghz {
                Some(b) => Some(b@),
                None => None,
            },
            self_managed_reg: self.self_managed_reg,
            mac: match self.mac {
                Some(m) => Some(m@),
                None => None,
            },
        }
    }
}

/// The model of a device before any attribute is applied.
pub open spec fn dev_empty() -> DeviceModel {
    DeviceModel {
        wiphy_index: 0,
        name: Seq::empty(),
        generation: 0,
        band_2ghz: None,
        band_5ghz: None,
        band_6ghz: None,
        self_managed_reg: false,
        mac: None,
    }
}

/// One band entry applied to the device model: each registered band
/// replaces that band wholesale, other bands are skipped.
pub open spec fn dev_bands_step(m: DeviceModel, a: AttrModel) -> Option<DeviceModel> {
    if a.code == BAND_2GHZ {
        match spec_walk(a.payload) {
            Some(sub) => match spec_decode_band(sub) {
                Some(fs) => Some(DeviceModel { band_2ghz: Some(fs), ..m }),
                None => None,
            },
            None => None,
        }
    } else if a.code == BAND_5GHZ {
        match spec_walk(a.payload) {
            Some(sub) => match spec_decode_band(sub) {
                Some(fs) => Some(DeviceModel { band_5ghz: Some(fs), ..m }),
                None => None,
            },
            None => None,
        }
    } else if a.code == BAND_6GHZ {
        match spec_walk(a.payload) {
            Some(sub) => match spec_decode_band(sub) {
                Some(fs) => Some(DeviceModel { band_6ghz: Some(fs), ..m }),
                None => None,
            },
            None => None,
        }
    } else {
        Some(m)
    }
}

/// The band entries of the bands attribute applied in order.
pub open spec fn dev_bands_fold(m: DeviceModel, attrs: Seq<AttrModel>) -> Option<DeviceModel>
    decreases attrs.len(),
{
    if attrs.len() == 0 {
        Some(m)
    } else {
        match dev_bands_step(m, attrs[0]) {
            Some(m2) => dev_bands_fold(m2, attrs.skip(1)),
            None => None,
        }
    }
}

/// One top-level attribute of a wiphy dump message applied to the device
/// model.  The self-managed-regulatory attribute is a presence flag.
pub open spec fn dev_step(m: DeviceModel, a: AttrModel) -> Option<DeviceModel> {
    if a.code == ATTR_WIPHY {
        match spec_as_u32(a.payload) {
            Some(v) => Some(DeviceModel { wiphy_index: v, ..m }),
            None => None,
        }
    } else if a.code == ATTR_WIPHY_NAME {
        Some(DeviceModel { name: utf8_lossy(trim_nuls(a.payload)), ..m })
    } else if a.code == ATTR_GENERATION {
        match spec_as_u32(a.payload) {
            Some(v) => Some(DeviceModel { generation: v, ..m }),
            None => None,
        }
    } else if a.code == ATTR_WIPHY_BANDS {
        match spec_walk(a.payload) {
            Some(sub) => dev_bands_fold(m, sub),
            None => None,
        }
    } else if a.code == ATTR_MAC {
        match spec_as_mac(a.payload) {
            Some(b) => Some(DeviceModel { mac: Some(b), ..m }),
            None => None,
        }
    } else if a.code == ATTR_WIPHY_SELF_MANAGED_REG {
        Some(DeviceModel { self_managed_reg: true, ..m })
    } else {
        Some(m)
    }
}

/// The top-level attributes applied in order to the device model.
pub open spec fn dev_fold(m: DeviceModel, attrs: Seq<AttrModel>) -> Option<DeviceModel>
    decreases attrs.len(),
{
    if attrs.len() == 0 {
        Some(m)
    } else {
        match dev_step(m, attrs[0]) {
            Some(m2) => dev_fold(m2, attrs.skip(1)),
            None => None,
        }
    }
}

/// What a top-level attribute sequence decodes to as a physical device.
pub open spec fn spec_decode_device(attrs: Seq<AttrModel>) -> Option<DeviceModel> {
    dev_fold(dev_empty(), attrs)
}

/// Applies the band entries nested under the bands attribute.
fn apply_bands(d: &mut PhysicalDevice, attrs: &Vec<TlvAttr>) -> (r: Result<(), NlError>)
    ensures
        match r {
            Ok(_) => dev_bands_fold(old(d)@, attrs_view(attrs@)) == Some(final(d)@),
            Err(_) => dev_bands_fold(old(d)@, attrs_view(attrs@)) is None,
        },
{
    let ghost ms = attrs_view(attrs@);
    proof {
        assert(ms.skip(0) =~= ms);
    }
    let mut i: usize = 0;
    while i < attrs.len()
        invariant
            i <= attrs.len(),
            ms == attrs_view(attrs@),
            dev_bands_fold(old(d)@, ms) == dev_bands_fold(d@, ms.skip(i as int)),
        decreases attrs.len() - i,
    {
        let ghost prev = d@;
        proof {
            assert(ms.skip(i as int)[0] == ms[i as int]);
            assert(ms[i as int] == attrs@[i as int]@);
            assert(ms.skip(i as int).skip(1) =~= ms.skip(i as int + 1));
        }
        let a = &attrs[i];
        let c = a.code;
        if c == BAND_2GHZ || c == BAND_5GHZ || c == BAND_6GHZ {
            let sub = match a.as_nested() {
                Some(v) => v,
                None => {
                    return Err(device_decode_error(c));
                },
            };
            let band = match decode_band(&sub) {
                Ok(b) => b,
                Err(e) => {
                    return Err(e);
                },
            };
            if c == BAND_2GHZ {
                d.band_2ghz = Some(band);
            } else if c == BAND_5GHZ {
                d.band_5ghz = Some(band);
            } else {
                d.band_6ghz = Some(band);
            }
        }
        proof {
            assert(dev_bands_step(prev, ms[i as int]) == Some(d@));
        }
        i = i + 1;
    }
    proof {
        assert(ms.skip(ms.len() as int) =~= Seq::<AttrModel>::empty());
    }
    Ok(())
}

/// Decodes one physical device from the top-level attribute sequence of a
/// dump message.  A registered attribute whose payload has the wrong
/// shape is an error; unregistered attributes are skipped.
pub fn decode_device(attrs: &Vec<TlvAttr>) -> (r: Result<PhysicalDevice, NlError>)
    ensures
        match r {
            Ok(d) => spec_decode_device(attrs_view(attrs@)) == Some(d@),
            Err(_) => spec_decode_device(attrs_view(attrs@)) is None,
        },
{
    let ghost ms = attrs_view(attrs@);
    let mut d = PhysicalDevice {
        wiphy_index: 0,
        name: String::new(),
        generation: 0,
        band_2ghz: None,
        band_5ghz: None,
        band_6ghz: None,
        self_managed_reg: false,
        mac: None,
    };
    proof {
        assert(ms.skip(0) =~= ms);
        assert(d@ == dev_empty());
    }
    let mut i: usize = 0;
    while i < attrs.len()
        invariant
            i <= attrs.len(),
            ms == attrs_view(attrs@),
            spec_decode_device(ms) == dev_fold(d@, ms.skip(i as int)),
        decreases attrs.len() - i,
    {
        let ghost prev = d@;
        proof {
            assert(ms.skip(i as int)[0] == ms[i as int]);
            assert(ms[i as int] == attrs@[i as int]@);
            assert(ms.skip(i as int).skip(1) =~= ms.skip(i as int + 1));
        }
        let a = &attrs[i];
        let c = a.code;
        if c == ATTR_WIPHY {
            match a.as_u32() {
                Some(v) => {
                    d.wiphy_index = v;
                },
                None => {
                    return Err(device_decode_error(c));
                },
            }
        } else if c == ATTR_WIPHY_NAME {
            d.name = a.as_string();
        } else if c == ATTR_GENERATION {
            match a.as_u32() {
                Some(v) => {
                    d.generation = v;
                },
                None => {
                    return Err(device_decode_error(c));
                },
            }
        } else if c == ATTR_WIPHY_BANDS {
            match a.as_nested() {
                Some(sub) => match apply_bands(&mut d, &sub) {
                    Ok(_) => {},
                    Err(e) => {
                        proof {
                            assert(dev_step(prev, ms[i as int]) is None);
                        }
                        return Err(e);
                    },
                },
                None => {
                    return Err(device_decode_error(c));
                },
            }
        } else if c == ATTR_MAC {
            match mac_from_payload(&a.payload) {
                Some(m) => {
                    d.mac = Some(m);
                },
                None => {
                    return Err(device_decode_error(c));
                },
            }
        } else if c == ATTR_WIPHY_SELF_MANAGED_REG {
            d.self_managed_reg = true;
        }
        proof {
            assert(dev_step(prev, ms[i as int]) == Some(d@));
        }
        i = i + 1;
    }
    proof {
        assert(ms.skip(ms.len() as int) =~= Seq::<AttrModel>::empty());
    }
    Ok(d)
}

/// How two bands of one device merge: lists concatenate in
/// second-after-first order, an absent side yields the other.
pub open spec fn spec_merge_band(a: Option<Seq<Frequency>>, b: Option<Seq<Frequency>>) -> Option<
    Seq<Frequency>,
> {
    match (a, b) {
        (Some(x), Some(y)) => Some(x + y),
        (None, Some(y)) => Some(y),
        (x, None) => x,
    }
}

/// How a later dump message for the same wiphy merges into an earlier
/// one: boolean flags or together, the address is replaced when the later
/// message carries one, band frequency lists concatenate, and the index,
/// name and generation of the earlier record stand.
pub open spec fn spec_merge(m: DeviceModel, o: DeviceModel) -> DeviceModel {
    DeviceModel {
        wiphy_index: m.wiphy_index,
        name: m.name,
        generation: m.generation,
        band_2ghz: spec_merge_band(m.band_2ghz, o.band_2ghz),
        band_5ghz: spec_merge_band(m.band_5ghz, o.band_5ghz),
        band_6ghz: spec_merge_band(m.band_6ghz, o.band_6ghz),
        self_managed_reg: m.self_managed_reg || o.self_managed_reg,
        mac: if o.mac is Some {
            o.mac
        } else {
            m.mac
        },
    }
}

/// Copies a frequency list.
fn copy_frequencies(v: &Vec<Frequency>) -> (r: Vec<Frequency>)
    ensures
        r@ == v@,
{
    let mut out: Vec<Frequency> = Vec::new();
    let mut i: usize = 0;
    while i < v.len()
        invariant
            i <= v.len(),
            out@ =~= v@.take(i as int),
        decreases v.len() - i,
    {
        out.push(v[i]);
        i = i + 1;
    }
    proof {
        assert(out@ =~= v@);
    }
    out
}

/// Merges two optional bands as a wiphy dump merge does.
fn merge_band(a: &Option<WifiBand>, b: &Option<WifiBand>) -> (r: Option<WifiBand>)
    ensures
        (match r {
            Some(band) => Some(band@),
            None => None,
        }) == spec_merge_band(
            match a {
                Some(band) => Some(band@),
                None => None,
            },
            match b {
                Some(band) => Some(band@),
                None => None,
            },
        ),
{
    match (a, b) {
        (Some(x), Some(y)) => {
            let mut fs = copy_frequencies(&x.frequencies);
            let mut i: usize = 0;
            while i < y.frequencies.len()
                invariant
                    i <= y.frequencies@.len(),
                    fs@ =~= x.frequencies@ + y.frequencies@.take(i as int),
                decreases y.frequencies@.len() - i,
            {
                fs.push(y.frequencies[i]);
                i = i + 1;
            }
            proof {
                assert(fs@ =~= x.frequencies@ + y.frequencies@);
            }
            Some(WifiBand { frequencies: fs })
        },
        (None, Some(y)) => Some(WifiBand { frequencies: copy_frequencies(&y.frequencies) }),
        (Some(x), None) => Some(WifiBand { frequencies: copy_frequencies(&x.frequencies) }),
        (None, None) => None,
    }
}

impl PhysicalDevice {
    /// Merges a later dump message for the same wiphy into this record:
    /// boolean flags or together, the address is replaced when the later
    /// message carries one, and band frequency lists concatenate in
    /// later-after-earlier order.  Callers must only merge records that
    /// share a wiphy index.
    pub fn merge(&mut self, other: &PhysicalDevice)
        ensures
            final(self)@ == spec_merge(old(self)@, other@),
    {
        if other.self_managed_reg {
            self.self_managed_reg = true;
        }
        if other.mac.is_some() {
            self.mac = other.mac;
        }
        self.band_2ghz = merge_band(&self.band_2ghz, &other.band_2ghz);
        self.band_5ghz = merge_band(&self.band_5ghz, &other.band_5ghz);
        self.band_6ghz = merge_band(&self.band_6ghz, &other.band_6ghz);
    }
}

/// The error returned when a wiphy attribute's payload has the wrong
/// shape, naming the failing attribute's code.
fn device_decode_error(code: u16) -> NlError {
    let mut msg = String::from_str("physical device attribute payload has the wrong shape: code ");
    let digits = u16_decimal(code);
    msg.append(digits.as_str());
    NlError::new(msg)
}

} // verus!
