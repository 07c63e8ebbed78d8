//! Regulatory domain entities: the country domain record and its
//! frequency-range rules, decoded from a regulatory dump message.

use vstd::prelude::*;
use vstd::string::StringExecFns;

use crate::attributes::{
    ATTR_DFS_REGION, ATTR_REG_ALPHA2, ATTR_REG_RULES, ATTR_WIPHY, ATTR_WIPHY_SELF_MANAGED_REG,
    REG_RULE_DFS_CAC_TIME, REG_RULE_FLAGS, REG_RULE_FREQ_RANGE_END, REG_RULE_FREQ_RANGE_MAX_BW,
    REG_RULE_FREQ_RANGE_START, REG_RULE_MAX_ANT_GAIN, REG_RULE_MAX_EIRP, RULE_AUTO_BW, RULE_DFS,
    RULE_IR_CONCURRENT, RULE_NO_160MHZ, RULE_NO_320MHZ, RULE_NO_80MHZ, RULE_NO_CCK, RULE_NO_EHT,
    RULE_NO_HE, RULE_NO_HT40MINUS, RULE_NO_HT40PLUS, RULE_NO_INDOOR, RULE_NO_IR, RULE_NO_OFDM,
    RULE_NO_OUTDOOR, RULE_PTMP_ONLY, RULE_PTP_ONLY,
};
use crate::bytes::{
    attrs_view, spec_as_u32, spec_as_u8, spec_walk, trim_nuls, u16_decimal, utf8_lossy,
    AttrModel, TlvAttr,
};
use crate::error::NlError;

verus! {

/// Every regulatory-rule flag bit the registry defines, including the
/// reserved bit between the radiation and bandwidth groups.
pub const RULE_DEFINED_BITS: u32 = 0xFF9FF;

/// Region for regulatory rules which a country abides to when initiating
/// radiation on DFS channels.
#[derive(Debug, Clone, Copy, PartialEq, Eq, Structural)]
pub enum DfsRegion {
    /// Country has no DFS master region specified.
    Unset,
    /// Country follows DFS master rules from FCC.
    Fcc,
    /// Country follows DFS master rules from ETSI.
    Etsi,
    /// Country follows DFS master rules from JP/MKK/Telec.
    JP,
}

/// The DFS region a wire code names; an unregistered code is `Unset`,
/// never a failure.
pub open spec fn spec_dfs_region_of(v: u8) -> DfsRegion {
    if v == 1 {
        DfsRegion::Fcc
    } else if v == 2 {
        DfsRegion::Etsi
    } else if v == 3 {
        DfsRegion::JP
    } else {
        DfsRegion::Unset
    }
}

impl DfsRegion {
    /// The DFS region a wire code names.
    pub fn from_code(v: u8) -> (r: DfsRegion)
        ensures
            r == spec_dfs_region_of(v),
    {
        match v {
            1 => DfsRegion::Fcc,
            2 => DfsRegion::Etsi,
            3 => DfsRegion::JP,
            _ => DfsRegion::Unset,
        }
    }
}

/// One regulatory rule: a frequency range and its restrictions.
#[derive(Debug, Clone, Copy, PartialEq, Eq, Default, Structural)]
pub struct RegulatoryRule {
    /// Starting frequency for the regulatory rule in kHz.  This is an
    /// actual regulatory band edge, not a center frequency.
    pub freq_range_start: u32,
    /// Ending frequency for the regulatory rule in kHz.
    pub freq_range_end: u32,
    /// Maximum allowed bandwidth for this frequency range, in kHz.
    pub max_bandwidth: u32,
    /// Maximum allowed antenna gain, in mBi (100 * dBi).
    pub max_antenna_gain: u32,
    /// Maximum allowed EIRP, in mBm (100 * dBm).
    pub max_eirp: u32,
    /// DFS CAC time in milliseconds; zero means the default CAC time.
    pub dfs_cac_time: u32,
    /// OFDM modulation not allowed.
    pub no_ofdm: bool,
    /// CCK modulation not allowed.
    pub no_cck: bool,
    /// Indoor operation not allowed.
    pub no_indoor: bool,
    /// Outdoor operation not allowed.
    pub no_outdoor: bool,
    /// DFS support is required.
    pub dfs: bool,
    /// Only for point-to-point links.
    pub ptp_only: bool,
    /// Only for point-to-multipoint links.
    pub pmtp_only: bool,
    /// No mechanisms that initiate radiation are allowed.
    pub no_ir: bool,
    /// IR operation is allowed when connected concurrently to a BSS on
    /// the same channel in the 2 GHz band or the same UNII band.
    pub ir_concurrent: bool,
    /// Maximum available bandwidth is calculated over contiguous rules.
    pub auto_bandwidth: bool,
    /// HT40- operation not allowed.
    pub no_ht40_minus: bool,
    /// HT40+ operation not allowed.
    pub no_ht40_plus: bool,
    /// 80 MHz operation not allowed.
    pub no_80mhz: bool,
    /// 160 MHz operation not allowed.
    pub no_160mhz: bool,
    /// 320 MHz operation not allowed.
    pub no_320mhz: bool,
    /// HE operation not allowed.
    pub no_he: bool,
    /// EHT operation not allowed.
    pub no_eht: bool,
}

/// The rule record before any attribute is applied.
pub open spec fn rule_empty() -> RegulatoryRule {
    RegulatoryRule {
        freq_range_start: 0,
        freq_range_end: 0,
        max_bandwidth: 0,
        max_antenna_gain: 0,
        max_eirp: 0,
        dfs_cac_time: 0,
        no_ofdm: false,
        no_cck: false,
        no_indoor: false,
        no_outdoor: false,
        dfs: false,
        ptp_only: false,
        pmtp_only: false,
        no_ir: false,
        ir_concurrent: false,
        auto_bandwidth: false,
        no_ht40_minus: false,
        no_ht40_plus: false,
        no_80mhz: false,
        no_160mhz: false,
        no_320mhz: false,
        no_he: false,
        no_eht: false,
    }
}

/// The rule with its capability booleans set from the flag bitmask.
pub open spec fn rule_with_flags(m: RegulatoryRule, v: u32) -> RegulatoryRule {
    RegulatoryRule {
        no_ofdm: v & RULE_NO_OFDM != 0,
        no_cck: v & RULE_NO_CCK != 0,
        no_indoor: v & RULE_NO_INDOOR != 0,
        no_outdoor: v & RULE_NO_OUTDOOR != 0,
        dfs: v & RULE_DFS != 0,
        ptp_only: v & RULE_PTP_ONLY != 0,
        pmtp_only: v & RULE_PTMP_ONLY != 0,
        no_ir: v & RULE_NO_IR != 0,
        ir_concurrent: v & RULE_IR_CONCURRENT != 0,
        auto_bandwidth: v & RULE_AUTO_BW != 0,
        no_ht40_minus: v & RULE_NO_HT40MINUS != 0,
        no_ht40_plus: v & RULE_NO_HT40PLUS != 0,
        no_80mhz: v & RULE_NO_80MHZ != 0,
        no_160mhz: v & RULE_NO_160MHZ != 0,
        no_320mhz: v & RULE_NO_320MHZ != 0,
        no_he: v & RULE_NO_HE != 0,
        no_eht: v & RULE_NO_EHT != 0,
        ..m
    }
}

/// One rule attribute applied to the record.  A flag bitmask with a bit
/// outside the registry is ignored whole; a registered attribute of the
/// wrong payload shape is a failure; an unregistered code is skipped.
pub open spec fn rule_step(m: RegulatoryRule, a: AttrModel) -> Option<RegulatoryRule> {
    if a.code == REG_RULE_FLAGS {
        match spec_as_u32(a.payload) {
            Some(v) => if v & !RULE_DEFINED_BITS == 0 {
                Some(rule_with_flags(m, v))
            } else {
                Some(m)
            },
            None => None,
        }
    } else if a.code == REG_RULE_FREQ_RANGE_START {
        match spec_as_u32(a.payload) {
            Some(v) => Some(RegulatoryRule { freq_range_start: v, ..m }),
            None => None,
        }
    } else if a.code == REG_RULE_FREQ_RANGE_END {
        match spec_as_u32(a.payload) {
            Some(v) => Some(RegulatoryRule { freq_range_end: v, ..m }),
            None => None,
        }
    } else if a.code == REG_RULE_FREQ_RANGE_MAX_BW {
        match spec_as_u32(a.payload) {
            Some(v) => Some(RegulatoryRule { max_bandwidth: v, ..m }),
            None => None,
        }
    } else if a.code == REG_RULE_MAX_ANT_GAIN {
        match spec_as_u32(a.payload) {
            Some(v) => Some(RegulatoryRule { max_antenna_gain: v, ..m }),
            None => None,
        }
    } else if a.code == REG_RULE_MAX_EIRP {
        match spec_as_u32(a.payload) {
            Some(v) => Some(RegulatoryRule { max_eirp: v, ..m }),
            None => None,
        }
    } else if a.code == REG_RULE_DFS_CAC_TIME {
        match spec_as_u32(a.payload) {
            Some(v) => Some(RegulatoryRule { dfs_cac_time: v, ..m }),
            None => None,
        }
    } else {
        Some(m)
    }
}

/// The rule attributes applied in order.
pub open spec fn rule_fold(m: RegulatoryRule, attrs: Seq<AttrModel>) -> Option<RegulatoryRule>
    decreases attrs.len(),
{
    if attrs.len() == 0 {
        Some(m)
    } else {
        match rule_step(m, attrs[0]) {
            Some(m2) => rule_fold(m2, attrs.skip(1)),
            None => None,
        }
    }
}

/// What a rule attribute sequence decodes to.
pub open spec fn spec_decode_rule(attrs: Seq<AttrModel>) -> Option<RegulatoryRule> {
    rule_fold(rule_empty(), attrs)
}

/// Sets the capability booleans of a rule from the flag bitmask.
fn apply_rule_flags(m: &mut RegulatoryRule, v: u32)
    ensures
        *final(m) == rule_with_flags(*old(m), v),
{
    m.no_ofdm = v & RULE_NO_OFDM != 0;
    m.no_cck = v & RULE_NO_CCK != 0;
    m.no_indoor = v & RULE_NO_INDOOR != 0;
    m.no_outdoor = v & RULE_NO_OUTDOOR != 0;
    m.dfs = v & RULE_DFS != 0;
    m.ptp_only = v & RULE_PTP_ONLY != 0;
    m.pmtp_only = v & RULE_PTMP_ONLY != 0;
    m.no_ir = v & RULE_NO_IR != 0;
    m.ir_concurrent = v & RULE_IR_CONCURRENT != 0;
    m.auto_bandwidth = v & RULE_AUTO_BW != 0;
    m.no_ht40_minus = v & RULE_NO_HT40MINUS != 0;
    m.no_ht40_plus = v & RULE_NO_HT40PLUS != 0;
    m.no_80mhz = v & RULE_NO_80MHZ != 0;
    m.no_160mhz = v & RULE_NO_160MHZ != 0;
    m.no_320mhz = v & RULE_NO_320MHZ != 0;
    m.no_he = v & RULE_NO_HE != 0;
    m.no_eht = v & RULE_NO_EHT != 0;
}

/// Applies one rule attribute to the record, as `rule_step` says.
#[verifier::rlimit(50)]
fn rule_apply(m: &mut RegulatoryRule, a: &TlvAttr) -> (r: Result<(), NlError>)
    ensures
        match r {
            Ok(_) => rule_step(*old(m), a@) == Some(*final(m)),
            Err(_) => rule_step(*old(m), a@) is None,
        },
{
    let c = a.code;
    if c == REG_RULE_FLAGS {
        match a.as_u32() {
            Some(v) => {
                if v & !RULE_DEFINED_BITS == 0 {
                    apply_rule_flags(m, v);
                }
            },
            None => {
                return Err(domain_decode_error(c));
            },
        }
    } else if c == REG_RULE_FREQ_RANGE_START {
        match a.as_u32() {
            Some(v) => {
                m.freq_range_start = v;
            },
            None => {
                return Err(domain_decode_error(c));
            },
        }
    } else if c == REG_RULE_FREQ_RANGE_END {
        match a.as_u32() {
            Some(v) => {
                m.freq_range_end = v;
            },
            None => {
                return Err(domain_decode_error(c));
            },
        }
    } else if c == REG_RULE_FREQ_RANGE_MAX_BW {
        match a.as_u32() {
            Some(v) => {
                m.max_bandwidth = v;
            },
            None => {
                return Err(domain_decode_error(c));
            },
        }
    } else if c == REG_RULE_MAX_ANT_GAIN {
        match a.as_u32() {
            Some(v) => {
                m.max_antenna_gain = v;
            },
            None => {
                return Err(domain_decode_error(c));
            },
        }
    } else if c == REG_RULE_MAX_EIRP {
        match a.as_u32() {
            Some(v) => {
                m.max_eirp = v;
            },
            None => {
                return Err(domain_decode_error(c));
            },
        }
    } else if c == REG_RULE_DFS_CAC_TIME {
        match a.as_u32() {
            Some(v) => {
                m.dfs_cac_time = v;
            },
            None => {
                return Err(domain_decode_error(c));
            },
        }
    }
    Ok(())
}

/// Decodes one regulatory rule from its attribute sequence.
pub fn decode_rule(attrs: &Vec<TlvAttr>) -> (r: Result<RegulatoryRule, NlError>)
    ensures
        match r {
            Ok(m) => spec_decode_rule(attrs_view(attrs@)) == Some(m),
            Err(_) => spec_decode_rule(attrs_view(attrs@)) is None,
        },
{
    let ghost ms = attrs_view(attrs@);
    let mut m = RegulatoryRule {
        freq_range_start: 0,
        freq_range_end: 0,
        max_bandwidth: 0,
        max_antenna_gain: 0,
        max_eirp: 0,
        dfs_cac_time: 0,
        no_ofdm: false,
        no_cck: false,
        no_indoor: false,
        no_outdoor: false,
        dfs: false,
        ptp_only: false,
        pmtp_only: false,
        no_ir: false,
        ir_concurrent: false,
        auto_bandwidth: false,
        no_ht40_minus: false,
        no_ht40_plus: false,
        no_80mhz: false,
        no_160mhz: false,
        no_320mhz: false,
        no_he: false,
        no_eht: false,
    };
    let mut i: usize = 0;
    proof {
        assert(ms.skip(0) =~= ms);
    }
    while i < attrs.len()
        invariant
            i <= attrs.len(),
            ms == attrs_view(attrs@),
            spec_decode_rule(ms) == rule_fold(m, ms.skip(i as int)),
        decreases attrs.len() - i,
    {
        proof {
            assert(ms.skip(i as int)[0] == ms[i as int]);
            assert(ms[i as int] == attrs@[i as int]@);
            assert(ms.skip(i as int).skip(1) =~= ms.skip(i as int + 1));
        }
        match rule_apply(&mut m, &attrs[i]) {
            Ok(_) => {},
            Err(e) => {
                return Err(e);
            },
        }
        i = i + 1;
    }
    proof {
        assert(ms.skip(ms.len() as int) =~= Seq::<AttrModel>::empty());
    }
    Ok(m)
}

/// Regulatory domain information returned from netlink.  When a device
/// index is present the domain is that device's private domain, otherwise
/// it is the global one.
#[derive(Debug, Clone, Default)]
pub struct RegulatoryDomain {
    /// ISO 3166-1 alpha-2 country code.
    pub country_code: String,
    /// Region for regulatory rules which this country abides to when
    /// initiating radiation on DFS channels.
    pub dfs_region: DfsRegion,
    /// Device index; absent means the global domain.
    pub wiphy_index: Option<u32>,
    /// Whether the device is self-managing its regulatory information.
    pub self_managed: bool,
    /// The frequency-range rules of the domain.
    pub regulatory_rules: Vec<RegulatoryRule>,
}

impl Default for DfsRegion {
    fn default() -> (r: DfsRegion)
        ensures
            r == DfsRegion::Unset,
    {
        DfsRegion::Unset
    }
}

/// Mathematical model of a regulatory domain.
pub ghost struct DomainModel {
    pub country_code: Seq<char>,
    pub dfs_region: DfsRegion,
    pub wiphy_index: Option<u32>,
    pub self_managed: bool,
    pub regulatory_rules: Seq<RegulatoryRule>,
}

impl View for RegulatoryDomain {
    type V = DomainModel;

    open spec fn view(&self) -> DomainModel {
        DomainModel {
            country_code: self.country_code@,
            dfs_region: self.dfs_region,
            wiphy_index: self.wiphy_index,
            self_managed: self.self_managed,
            regulatory_rules: self.regulatory_rules@,
        }
    }
}

/// The model of a domain before any attribute is applied.
pub open spec fn dom_empty() -> DomainModel {
    DomainModel {
        country_code: Seq::empty(),
        dfs_region: DfsRegion::Unset,
        wiphy_index: None,
        self_managed: false,
        regulatory_rules: Seq::empty(),
    }
}

/// The nested rule entries of the rules attribute appended in order; the
/// code of each middle entry is an array index and carries no meaning.
pub open spec fn rule_list_fold(rs: Seq<RegulatoryRule>, middle: Seq<AttrModel>) -> Option<
    Seq<RegulatoryRule>,
>
    decreases middle.len(),
{
    if middle.len() == 0 {
        Some(rs)
    } else {
        match spec_walk(middle[0].payload) {
            Some(inner) => match spec_decode_rule(inner) {
                Some(rule) => rule_list_fold(rs.push(rule), middle.skip(1)),
                None => None,
            },
            None => None,
        }
    }
}

/// One top-level attribute of a regulatory dump message applied to the
/// domain model.  The self-managed attribute is a presence flag.
pub open spec fn dom_step(m: DomainModel, a: AttrModel) -> Option<DomainModel> {
    if a.code == ATTR_REG_ALPHA2 {
        Some(DomainModel { country_code: utf8_lossy(trim_nuls(a.payload)), ..m })
    } else if a.code == ATTR_DFS_REGION {
        match spec_as_u8(a.payload) {
            Some(v) => Some(DomainModel { dfs_region: spec_dfs_region_of(v), ..m }),
            None => None,
        }
    } else if a.code == ATTR_WIPHY {
        match spec_as_u32(a.payload) {
            Some(v) => Some(DomainModel { wiphy_index: Some(v), ..m }),
            None => None,
        }
    } else if a.code == ATTR_REG_RULES {
        match spec_walk(a.payload) {
            Some(middle) => match rule_list_fold(m.regulatory_rules, middle) {
                Some(rs) => Some(DomainModel { regulatory_rules: rs, ..m }),
                None => None,
            },
            None => None,
        }
    } else if a.code == ATTR_WIPHY_SELF_MANAGED_REG {
        Some(DomainModel { self_managed: true, ..m })
    } else {
        Some(m)
    }
}

/// The top-level attributes applied in order to the domain model.
pub open spec fn dom_fold(m: DomainModel, attrs: Seq<AttrModel>) -> Option<DomainModel>
    decreases attrs.len(),
{
    if attrs.len() == 0 {
        Some(m)
    } else {
        match dom_step(m, attrs[0]) {
            Some(m2) => dom_fold(m2, attrs.skip(1)),
            None => None,
        }
    }
}

/// What a top-level attribute sequence decodes to as a regulatory domain.
pub open spec fn spec_decode_domain(attrs: Seq<AttrModel>) -> Option<DomainModel> {
    dom_fold(dom_empty(), attrs)
}

/// Appends the rule entries nested under the rules attribute.
fn append_rules(rs: &mut Vec<RegulatoryRule>, middle: &Vec<TlvAttr>) -> (r: Result<(), NlError>)
    ensures
        match r {
            Ok(_) => rule_list_fold(old(rs)@, attrs_view(middle@)) == Some(final(rs)@),
            Err(_) => rule_list_fold(old(rs)@, attrs_view(middle@)) is None,
        },
{
    let ghost ms = attrs_view(middle@);
    proof {
        assert(ms.skip(0) =~= ms);
    }
    let mut i: usize = 0;
    while i < middle.len()
        invariant
            i <= middle.len(),
            ms == attrs_view(middle@),
            rule_list_fold(old(rs)@, ms) == rule_list_fold(rs@, ms.skip(i as int)),
        decreases middle.len() - i,
    {
        proof {
            assert(ms.skip(i as int)[0] == ms[i as int]);
            assert(ms[i as int] == middle@[i as int]@);
            assert(ms.skip(i as int).skip(1) =~= ms.skip(i as int + 1));
        }
        let a = &middle[i];
        let inner = match a.as_nested() {
            Some(v) => v,
            None => {
                return Err(domain_decode_error(a.code));
            },
        };
        match decode_rule(&inner) {
            Ok(rule) => {
                rs.push(rule);
            },
            Err(e) => {
                return Err(e);
            },
        }
        i = i + 1;
    }
    proof {
        assert(ms.skip(ms.len() as int) =~= Seq::<AttrModel>::empty());
    }
    Ok(())
}

/// Decodes one regulatory domain from the top-level attribute sequence of
/// a dump message.  A registered attribute whose payload has the wrong
/// shape is an error; unregistered attributes are skipped.
pub fn decode_domain(attrs: &Vec<TlvAttr>) -> (r: Result<RegulatoryDomain, NlError>)
    ensures
        match r {
            Ok(d) => spec_decode_domain(attrs_view(attrs@)) == Some(d@),
            Err(_) => spec_decode_domain(attrs_view(attrs@)) is None,
        },
{
    let ghost ms = attrs_view(attrs@);
    let mut d = RegulatoryDomain {
        country_code: String::new(),
        dfs_region: DfsRegion::Unset,
        wiphy_index: None,
        self_managed: false,
        regulatory_rules: Vec::new(),
    };
    proof {
        assert(ms.skip(0) =~= ms);
        assert(d@.country_code =~= dom_empty().country_code);
        assert(d@.regulatory_rules =~= dom_empty().regulatory_rules);
        assert(d@ == dom_empty());
    }
    let mut i: usize = 0;
    while i < attrs.len()
        invariant
            i <= attrs.len(),
            ms == attrs_view(attrs@),
            spec_decode_domain(ms) == dom_fold(d@, ms.skip(i as int)),
        decreases attrs.len() - i,
    {
        let ghost prev = d@;
        proof {
            assert(ms.skip(i as int)[0] == ms[i as int]);
            assert(ms[i as int] == attrs@[i as int]@);
            assert(ms.skip(i as int).skip(1) =~= ms.skip(i as int + 1));
        }
        let a = &attrs[i];
        let c = a.code;
        if c == ATTR_REG_ALPHA2 {
            d.country_code = a.as_string();
        } else if c == ATTR_DFS_REGION {
            match a.as_u8() {
                Some(v) => {
                    d.dfs_region = DfsRegion::from_code(v);
                },
                None => {
                    return Err(domain_decode_error(c));
                },
            }
        } else if c == ATTR_WIPHY {
            match a.as_u32() {
                Some(v) => {
                    d.wiphy_index = Some(v);
                },
                None => {
                    return Err(domain_decode_error(c));
                },
            }
        } else if c == ATTR_REG_RULES {
            match a.as_nested() {
                Some(middle) => match append_rules(&mut d.regulatory_rules, &middle) {
                    Ok(_) => {},
                    Err(e) => {
                        proof {
                            assert(dom_step(prev, ms[i as int]) is None);
                        }
                        return Err(e);
                    },
                },
                None => {
                    return Err(domain_decode_error(c));
                },
            }
        } else if c == ATTR_WIPHY_SELF_MANAGED_REG {
            d.self_managed = true;
        }
        proof {
            assert(dom_step(prev, ms[i as int]) == Some(d@));
        }
        i = i + 1;
    }
    proof {
        assert(ms.skip(ms.len() as int) =~= Seq::<AttrModel>::empty());
    }
    Ok(d)
}

/// The error returned when a regulatory attribute's payload has the wrong
/// shape, naming the failing attribute's code.
fn domain_decode_error(code: u16) -> NlError {
    let mut msg = String::from_str("regulatory attribute payload has the wrong shape: code ");
    let digits = u16_decimal(code);
    msg.append(digits.as_str());
    NlError::new(msg)
}

} // verus!
