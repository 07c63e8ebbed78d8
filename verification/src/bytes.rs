//! Fixed-width little-endian integer extraction, the wire-format
//! Type-Length-Value attribute walker, and typed payload extraction.

use vstd::prelude::*;
use vstd::string::StringExecFns;

verus! {

/// One wire-format attribute: a type code and its raw payload bytes.
/// The meaning of `code` depends on the namespace (registry) of the
/// container the attribute was read from.
pub struct TlvAttr {
    /// Attribute type code.
    pub code: u16,
    /// Raw payload bytes, not including the four header bytes.
    pub payload: Vec<u8>,
}

/// Mathematical model of a wire attribute.
pub ghost struct AttrModel {
    pub code: u16,
    pub payload: Seq<u8>,
}

impl View for TlvAttr {
    type V = AttrModel;

    open spec fn view(&self) -> AttrModel {
        AttrModel { code: self.code, payload: self.payload@ }
    }
}

/// The models of a sequence of attributes.
pub open spec fn attrs_view(s: Seq<TlvAttr>) -> Seq<AttrModel> {
    s.map_values(|a: TlvAttr| a@)
}

/// 256 to the power `n`: the number of values a byte string of length `n`
/// can take.
pub open spec fn pow256(n: nat) -> int
    decreases n,
{
    if n == 0 {
        1
    } else {
        256 * pow256((n - 1) as nat)
    }
}

/// Value of a byte sequence read as a little-endian unsigned integer.
pub open spec fn le_value(s: Seq<u8>) -> int
    decreases s.len(),
{
    if s.len() == 0 {
        0
    } else {
        s[0] + 256 * le_value(s.skip(1))
    }
}

/// The little-endian encoding of `v` in exactly `width` bytes
/// (modulo `256^width`).
pub open spec fn le_bytes(v: int, width: nat) -> Seq<u8>
    decreases width,
{
    if width == 0 {
        Seq::empty()
    } else {
        seq![(v % 256) as u8] + le_bytes(v / 256, (width - 1) as nat)
    }
}

/// The values of `pow256` at the widths the codec uses.
pub proof fn lemma_pow256_values()
    ensures
        pow256(0) == 1,
        pow256(1) == 0x100,
        pow256(2) == 0x10000,
        pow256(4) == 0x100000000,
        pow256(7) == 0x100000000000000,
        pow256(8) == 0x10000000000000000,
{
    assert(pow256(0) == 1);
    assert(pow256(1) == 0x100);
    assert(pow256(2) == 0x10000);
    assert(pow256(3) == 0x1000000);
    assert(pow256(4) == 0x100000000);
    assert(pow256(5) == 0x10000000000);
    assert(pow256(6) == 0x1000000000000);
    assert(pow256(7) == 0x100000000000000);
    assert(pow256(8) == 0x10000000000000000);
}

pub proof fn lemma_le_value_bound(s: Seq<u8>)
    ensures
        0 <= le_value(s) < pow256(s.len() as nat),
    decreases s.len(),
{
    if s.len() > 0 {
        lemma_le_value_bound(s.skip(1));
    }
}

pub proof fn lemma_pow256_increases(m: nat, n: nat)
    requires
        m <= n,
    ensures
        0 < pow256(m) <= pow256(n),
    decreases n,
{
    if m < n {
        lemma_pow256_increases(m, (n - 1) as nat);
        assert(pow256(n) == 256 * pow256((n - 1) as nat));
    } else if n == 0 {
        assert(pow256(0) == 1);
    } else {
        lemma_pow256_increases((m - 1) as nat, (n - 1) as nat);
    }
}

pub proof fn lemma_le_bytes_len(v: int, width: nat)
    ensures
        le_bytes(v, width).len() == width,
    decreases width,
{
    if width > 0 {
        lemma_le_bytes_len(v / 256, (width - 1) as nat);
    }
}

/// Decoding the little-endian encoding of a value in range recovers it.
pub proof fn lemma_le_round_trip(v: int, width: nat)
    requires
        0 <= v < pow256(width),
    ensures
        le_value(le_bytes(v, width)) == v,
    decreases width,
{
    if width > 0 {
        lemma_le_bytes_len(v / 256, (width - 1) as nat);
        assert(le_bytes(v, width).skip(1) =~= le_bytes(v / 256, (width - 1) as nat));
        assert(v / 256 < pow256((width - 1) as nat)) by {
            assert(v < 256 * pow256((width - 1) as nat));
        };
        lemma_le_round_trip(v / 256, (width - 1) as nat);
    }
}

/// Reads a little-endian unsigned integer from a whole byte slice of at
/// most eight bytes.
fn le_decode(p: &[u8]) -> (r: u64)
    requires
        p@.len() <= 8,
    ensures
        r == le_value(p@),
{
    let n = p.len();
    let mut r: u64 = 0;
    let mut i: usize = n;
    proof {
        assert(p@.skip(n as int) =~= Seq::<u8>::empty());
    }
    while i > 0
        invariant
            i <= n,
            n == p@.len() <= 8,
            r == le_value(p@.skip(i as int)),
        decreases i,
    {
        i = i - 1;
        proof {
            lemma_le_value_bound(p@.skip(i as int));
            lemma_le_value_bound(p@.skip(i as int + 1));
            lemma_pow256_increases((p@.len() - i - 1) as nat, 7);
            lemma_pow256_values();
            assert(p@.skip(i as int)[0] == p@[i as int]);
            assert(p@.skip(i as int).skip(1) =~= p@.skip(i as int + 1));
        }
        r = (p[i] as u64) + 256 * r;
    }
    proof {
        assert(p@.skip(0) =~= p@);
    }
    r
}

/// Appends the little-endian encoding of `v` in `width` bytes to `out`.
fn le_encode(v: u64, width: usize, out: &mut Vec<u8>)
    requires
        width <= 8,
        v < pow256(width as nat),
    ensures
        final(out)@ == old(out)@ + le_bytes(v as int, width as nat),
{
    let ghost start = out@;
    let mut cur: u64 = v;
    let mut i: usize = 0;
    while i < width
        invariant
            i <= width <= 8,
            out@ == start + le_bytes(v as int, i as nat),
            cur == spec_div_pow256(v as int, i as nat),
            cur < pow256((width - i) as nat),
        decreases width - i,
    {
        let b: u8 = (cur % 256) as u8;
        out.push(b);
        proof {
            lemma_le_bytes_snoc(v as int, i as nat);
            lemma_le_bytes_len(v as int, i as nat);
            assert((start + le_bytes(v as int, i as nat)).push(b) =~= start + le_bytes(
                v as int,
                (i + 1) as nat,
            ));
        }
        cur = cur / 256;
        i = i + 1;
    }
    proof {
        lemma_le_bytes_len(v as int, width as nat);
    }
}

/// `v` shifted right by `i` bytes.
pub open spec fn spec_div_pow256(v: int, i: nat) -> int
    decreases i,
{
    if i == 0 {
        v
    } else {
        spec_div_pow256(v, (i - 1) as nat) / 256
    }
}

proof fn lemma_le_bytes_snoc(v: int, i: nat)
    requires
        v >= 0,
    ensures
        le_bytes(v, i + 1) =~= le_bytes(v, i).push((spec_div_pow256(v, i) % 256) as u8),
    decreases i,
{
    if i == 0 {
        assert(le_bytes(v / 256, 0) =~= Seq::<u8>::empty());
    } else {
        lemma_le_bytes_snoc(v / 256, (i - 1) as nat);
        lemma_div_pow256_step(v, (i - 1) as nat);
        assert(le_bytes(v, i + 1) =~= seq![(v % 256) as u8] + le_bytes(v / 256, i));
    }
}

proof fn lemma_div_pow256_step(v: int, i: nat)
    requires
        v >= 0,
    ensures
        spec_div_pow256(v / 256, i) == spec_div_pow256(v, i + 1),
    decreases i,
{
    if i == 0 {
        assert(spec_div_pow256(v / 256, 0) == v / 256);
        assert(spec_div_pow256(v, 1) == spec_div_pow256(v, 0) / 256);
    } else {
        lemma_div_pow256_step(v, (i - 1) as nat);
        assert(spec_div_pow256(v / 256, i) == spec_div_pow256(v / 256, (i - 1) as nat) / 256);
        assert(spec_div_pow256(v, i + 1) == spec_div_pow256(v, i) / 256);
    }
}

/// Decodes an exactly-one-byte payload.
pub open spec fn spec_as_u8(p: Seq<u8>) -> Option<u8> {
    if p.len() == 1 {
        Some(p[0])
    } else {
        None
    }
}

/// Decodes an exactly-two-byte little-endian payload; any other length is
/// a decode failure.
pub open spec fn spec_as_u16(p: Seq<u8>) -> Option<u16> {
    if p.len() == 2 {
        Some(le_value(p) as u16)
    } else {
        None
    }
}

/// Decodes an exactly-four-byte little-endian payload.
pub open spec fn spec_as_u32(p: Seq<u8>) -> Option<u32> {
    if p.len() == 4 {
        Some(le_value(p) as u32)
    } else {
        None
    }
}

/// Decodes an exactly-eight-byte little-endian payload.
pub open spec fn spec_as_u64(p: Seq<u8>) -> Option<u64> {
    if p.len() == 8 {
        Some(le_value(p) as u64)
    } else {
        None
    }
}

/// Boolean payload: one byte, zero is false, anything else is true.
pub open spec fn spec_as_bool(p: Seq<u8>) -> Option<bool> {
    if p.len() == 1 {
        Some(p[0] != 0)
    } else {
        None
    }
}

/// Signed-byte payload, two's complement.
pub open spec fn spec_as_i8(p: Seq<u8>) -> Option<i8> {
    if p.len() == 1 {
        Some(if p[0] < 128 { p[0] as i8 } else { (p[0] - 256) as i8 })
    } else {
        None
    }
}

impl TlvAttr {
    /// Extracts a `u8` from an exactly-one-byte payload.
    pub fn as_u8(&self) -> (r: Option<u8>)
        ensures
            r == spec_as_u8(self@.payload),
    {
        if self.payload.len() == 1 {
            Some(self.payload[0])
        } else {
            None
        }
    }

    /// Extracts a `u16` from an exactly-two-byte little-endian payload.
    pub fn as_u16(&self) -> (r: Option<u16>)
        ensures
            r == spec_as_u16(self@.payload),
    {
        if self.payload.len() == 2 {
            proof {
                lemma_le_value_bound(self.payload@);
                lemma_pow256_values();
            }
            Some(le_decode(self.payload.as_slice()) as u16)
        } else {
            None
        }
    }

    /// Extracts a `u32` from an exactly-four-byte little-endian payload.
    pub fn as_u32(&self) -> (r: Option<u32>)
        ensures
            r == spec_as_u32(self@.payload),
    {
        if self.payload.len() == 4 {
            proof {
                lemma_le_value_bound(self.payload@);
                lemma_pow256_values();
            }
            Some(le_decode(self.payload.as_slice()) as u32)
        } else {
            None
        }
    }

    /// Extracts a `u64` from an exactly-eight-byte little-endian payload.
    pub fn as_u64(&self) -> (r: Option<u64>)
        ensures
            r == spec_as_u64(self@.payload),
    {
        if self.payload.len() == 8 {
            proof {
                lemma_le_value_bound(self.payload@);
            }
            Some(le_decode(self.payload.as_slice()))
        } else {
            None
        }
    }

    /// Extracts a boolean from a one-byte payload: `0` is false, any other
    /// value is true.
    pub fn as_bool(&self) -> (r: Option<bool>)
        ensures
            r == spec_as_bool(self@.payload),
    {
        if self.payload.len() == 1 {
            Some(self.payload[0] != 0)
        } else {
            None
        }
    }

    /// Extracts a signed byte (two's complement) from a one-byte payload.
    pub fn as_i8(&self) -> (r: Option<i8>)
        ensures
            r == spec_as_i8(self@.payload),
    {
        if self.payload.len() == 1 {
            let b = self.payload[0];
            if b < 128 {
                Some(b as i8)
            } else {
                Some((b as i16 - 256) as i8)
            }
        } else {
            None
        }
    }
}

/// Rounds `n` up to the next multiple of four: wire attributes are padded
/// to four-byte alignment.
pub open spec fn round4(n: int) -> int {
    ((n + 3) / 4) * 4
}

/// Walks a byte buffer as a sequence of wire attributes, each a header of
/// a two-byte total length (header included) and a two-byte type code,
/// followed by the payload and padding to four-byte alignment.  `None` is
/// a malformed buffer: a truncated header, a length under four, or a
/// length past the end of the buffer.
pub open spec fn spec_walk(s: Seq<u8>) -> Option<Seq<AttrModel>>
    decreases s.len(),
{
    if s.len() == 0 {
        Some(Seq::empty())
    } else if s.len() < 4 {
        None
    } else {
        let l = le_value(s.take(2));
        let code = le_value(s.subrange(2, 4)) as u16;
        if l < 4 || l > s.len() {
            None
        } else {
            let adv = if round4(l) <= s.len() {
                round4(l)
            } else {
                s.len() as int
            };
            match spec_walk(s.skip(adv)) {
                Some(rest) => Some(seq![AttrModel { code, payload: s.subrange(4, l) }] + rest),
                None => None,
            }
        }
    }
}

/// Reads the two-byte little-endian value at offset `i`.
pub fn read_u16_at(buf: &[u8], i: usize) -> (r: u16)
    requires
        i + 2 <= buf@.len(),
    ensures
        r == le_value(buf@.subrange(i as int, i as int + 2)),
{
    let ghost s = buf@.subrange(i as int, i as int + 2);
    proof {
        assert(s[0] == buf@[i as int]);
        assert(s.skip(1)[0] == buf@[i as int + 1]);
        assert(s.skip(1).skip(1) =~= Seq::<u8>::empty());
        assert(le_value(s.skip(1)) == s.skip(1)[0] + 256 * le_value(s.skip(1).skip(1)));
    }
    buf[i] as u16 + 256 * (buf[i + 1] as u16)
}

/// Copies `buf[start..end]` into a fresh vector.
pub fn copy_range(buf: &[u8], start: usize, end: usize) -> (r: Vec<u8>)
    requires
        start <= end <= buf@.len(),
    ensures
        r@ == buf@.subrange(start as int, end as int),
{
    let mut out: Vec<u8> = Vec::new();
    let mut i: usize = start;
    while i < end
        invariant
            start <= i <= end <= buf@.len(),
            out@ =~= buf@.subrange(start as int, i as int),
        decreases end - i,
    {
        out.push(buf[i]);
        i = i + 1;
    }
    proof {
        assert(out@ =~= buf@.subrange(start as int, end as int));
    }
    out
}

/// Reads the four-byte little-endian value at offset `i`.
pub fn read_u32_at(buf: &[u8], i: usize) -> (r: u32)
    requires
        i + 4 <= buf@.len(),
    ensures
        r == le_value(buf@.subrange(i as int, i as int + 4)),
{
    let ghost s = buf@.subrange(i as int, i as int + 4);
    proof {
        lemma_le_value_bound(s);
        lemma_pow256_values();
        assert(s.skip(4) =~= Seq::<u8>::empty());
        assert(s[0] == buf@[i as int]);
        assert(s.skip(1)[0] == buf@[i as int + 1]);
        assert(s.skip(1).skip(1) =~= s.skip(2));
        assert(s.skip(2)[0] == buf@[i as int + 2]);
        assert(s.skip(2).skip(1) =~= s.skip(3));
        assert(s.skip(3)[0] == buf@[i as int + 3]);
        assert(s.skip(3).skip(1) =~= s.skip(4));
        assert(le_value(s.skip(3)) == s.skip(3)[0] + 256 * le_value(s.skip(4)));
        assert(le_value(s.skip(2)) == s.skip(2)[0] + 256 * le_value(s.skip(3)));
        assert(le_value(s.skip(1)) == s.skip(1)[0] + 256 * le_value(s.skip(2)));
    }
    buf[i] as u32 + 256 * (buf[i + 1] as u32) + 65536 * (buf[i + 2] as u32) + 16777216 * (buf[i
        + 3] as u32)
}

/// Walks a whole byte buffer into its wire attributes; `None` is a
/// malformed buffer.
pub fn parse_attrs(buf: &[u8]) -> (r: Option<Vec<TlvAttr>>)
    ensures
        match r {
            Some(v) => spec_walk(buf@) == Some(attrs_view(v@)),
            None => spec_walk(buf@) is None,
        },
{
    let n = buf.len();
    let mut out: Vec<TlvAttr> = Vec::new();
    let mut pos: usize = 0;
    proof {
        assert(buf@.skip(0) =~= buf@);
        if spec_walk(buf@) is Some {
            assert(attrs_view(out@) + spec_walk(buf@)->Some_0 =~= spec_walk(buf@)->Some_0);
        }
    }
    while pos < n
        invariant
            pos <= n == buf@.len(),
            spec_walk(buf@) == (match spec_walk(buf@.skip(pos as int)) {
                Some(rest) => Some(attrs_view(out@) + rest),
                None => None::<Seq<AttrModel>>,
            }),
        decreases n - pos,
    {
        let ghost s = buf@.skip(pos as int);
        if n - pos < 4 {
            return None;
        }
        let l = read_u16_at(buf, pos) as usize;
        let code = read_u16_at(buf, pos + 2);
        proof {
            assert(s.take(2) =~= buf@.subrange(pos as int, pos as int + 2));
            assert(s.subrange(2, 4) =~= buf@.subrange(pos as int + 2, pos as int + 4));
            lemma_le_value_bound(s.take(2));
            lemma_le_value_bound(s.subrange(2, 4));
            lemma_pow256_values();
        }
        if l < 4 || l > n - pos {
            return None;
        }
        let payload = copy_range(buf, pos + 4, pos + l);
        proof {
            assert(buf@.subrange(pos as int + 4, pos as int + l as int) =~= s.subrange(
                4,
                l as int,
            ));
        }
        let r4 = ((l + 3) / 4) * 4;
        let adv = if r4 <= n - pos {
            r4
        } else {
            n - pos
        };
        let attr = TlvAttr { code, payload };
        proof {
            assert(buf@.skip(pos as int + adv as int) =~= s.skip(adv as int));
            let rest_opt = spec_walk(s.skip(adv as int));
            if rest_opt is Some {
                assert(attrs_view(out@.push(attr)) =~= attrs_view(out@).push(attr@));
                assert(seq![attr@] + rest_opt->Some_0 =~= seq![attr@] + rest_opt->Some_0);
                assert(attrs_view(out@) + (seq![attr@] + rest_opt->Some_0) =~= attrs_view(
                    out@.push(attr),
                ) + rest_opt->Some_0);
            }
        }
        out.push(attr);
        pos = pos + adv;
    }
    proof {
        assert(buf@.skip(n as int) =~= Seq::<u8>::empty());
        assert(attrs_view(out@) + Seq::<AttrModel>::empty() =~= attrs_view(out@));
    }
    Some(out)
}

/// Drops every trailing zero byte: the kernel pads fixed-size strings
/// with NULs.
pub open spec fn trim_nuls(s: Seq<u8>) -> Seq<u8>
    decreases s.len(),
{
    if s.len() > 0 && s.last() == 0 {
        trim_nuls(s.drop_last())
    } else {
        s
    }
}

/// What `String::from_utf8_lossy` returns for a byte string: valid UTF-8
/// passes through, invalid sequences are replaced.
pub uninterp spec fn utf8_lossy(bytes: Seq<u8>) -> Seq<char>;

/// Relies on String::from_utf8_lossy: the result depends on the bytes
/// alone, and bytes that are all ASCII pass through unchanged.
#[verifier::external_body]
fn utf8_lossy_string(bytes: &[u8]) -> (r: String)
    ensures
        r@ == utf8_lossy(bytes@),
        (forall|i: int| 0 <= i < bytes@.len() ==> bytes@[i] < 128) ==> r@ == bytes@.map_values(
            |b: u8| b as char,
        ),
{
    String::from_utf8_lossy(bytes).into_owned()
}

impl TlvAttr {
    /// Extracts a string from the payload: trailing NUL padding is
    /// trimmed, then the bytes are decoded as UTF-8 with invalid
    /// sequences replaced.
    pub fn as_string(&self) -> (r: String)
        ensures
            r@ == utf8_lossy(trim_nuls(self@.payload)),
            (forall|i: int|
                0 <= i < trim_nuls(self@.payload).len() ==> trim_nuls(self@.payload)[i]
                    < 128) ==> r@ == trim_nuls(self@.payload).map_values(|b: u8| b as char),
    {
        let ghost p = self.payload@;
        let mut end: usize = self.payload.len();
        proof {
            assert(p.take(p.len() as int) =~= p);
        }
        while end > 0 && self.payload[end - 1] == 0
            invariant
                end <= p.len(),
                p == self.payload@,
                trim_nuls(p) == trim_nuls(p.take(end as int)),
            decreases end,
        {
            proof {
                assert(p.take(end as int).last() == p[end as int - 1]);
                assert(p.take(end as int).drop_last() =~= p.take(end as int - 1));
            }
            end = end - 1;
        }
        proof {
            if end > 0 {
                assert(p.take(end as int).last() == p[end as int - 1]);
            }
            assert(trim_nuls(p.take(end as int)) == p.take(end as int));
            assert(p.take(end as int) =~= p.subrange(0, end as int));
        }
        let trimmed = copy_range(self.payload.as_slice(), 0, end);
        utf8_lossy_string(trimmed.as_slice())
    }

    /// Extracts a string from the raw payload without trimming: an SSID is
    /// a raw octet string.
    pub fn as_string_untrimmed(&self) -> (r: String)
        ensures
            r@ == utf8_lossy(self@.payload),
            (forall|i: int| 0 <= i < self@.payload.len() ==> self@.payload[i] < 128) ==> r@
                == self@.payload.map_values(|b: u8| b as char),
    {
        utf8_lossy_string(self.payload.as_slice())
    }

    /// Walks the payload as a nested attribute sequence.
    pub fn as_nested(&self) -> (r: Option<Vec<TlvAttr>>)
        ensures
            match r {
                Some(v) => spec_walk(self@.payload) == Some(attrs_view(v@)),
                None => spec_walk(self@.payload) is None,
            },
    {
        parse_attrs(self.payload.as_slice())
    }
}

/// Encodes `v` as two little-endian bytes.
pub fn u16_le_bytes(v: u16) -> (r: Vec<u8>)
    ensures
        r@ == le_bytes(v as int, 2),
{
    proof {
        lemma_pow256_values();
    }
    let mut out: Vec<u8> = Vec::new();
    le_encode(v as u64, 2, &mut out);
    proof {
        assert(out@ =~= le_bytes(v as int, 2));
    }
    out
}

/// Encodes `v` as four little-endian bytes.
pub fn u32_le_bytes(v: u32) -> (r: Vec<u8>)
    ensures
        r@ == le_bytes(v as int, 4),
{
    proof {
        lemma_pow256_values();
    }
    let mut out: Vec<u8> = Vec::new();
    le_encode(v as u64, 4, &mut out);
    proof {
        assert(out@ =~= le_bytes(v as int, 4));
    }
    out
}

/// Encodes `v` as eight little-endian bytes.
pub fn u64_le_bytes(v: u64) -> (r: Vec<u8>)
    ensures
        r@ == le_bytes(v as int, 8),
{
    proof {
        lemma_pow256_increases(8, 8);
        lemma_pow256_values();
    }
    let mut out: Vec<u8> = Vec::new();
    le_encode(v, 8, &mut out);
    proof {
        assert(out@ =~= le_bytes(v as int, 8));
    }
    out
}


/// Law: a one-byte value decodes to itself, and a payload of any other
/// length is rejected, never truncated.
pub proof fn lemma_u8_extraction_round_trip(v: u8)
    ensures
        spec_as_u8(seq![v]) == Some(v),
        forall|p: Seq<u8>| p.len() != 1 ==> #[trigger] spec_as_u8(p) is None,
{
}

/// Law: a value encoded as two little-endian bytes decodes to itself, and
/// a payload of any other length is rejected, never truncated.
pub proof fn lemma_u16_extraction_round_trip(v: u16)
    ensures
        le_bytes(v as int, 2).len() == 2,
        spec_as_u16(le_bytes(v as int, 2)) == Some(v),
        forall|p: Seq<u8>| p.len() != 2 ==> #[trigger] spec_as_u16(p) is None,
{
    lemma_pow256_values();
    lemma_le_bytes_len(v as int, 2);
    lemma_le_round_trip(v as int, 2);
}

/// Law: a value encoded as four little-endian bytes decodes to itself,
/// and a payload of any other length is rejected, never truncated.
pub proof fn lemma_u32_extraction_round_trip(v: u32)
    ensures
        le_bytes(v as int, 4).len() == 4,
        spec_as_u32(le_bytes(v as int, 4)) == Some(v),
        forall|p: Seq<u8>| p.len() != 4 ==> #[trigger] spec_as_u32(p) is None,
{
    lemma_pow256_values();
    lemma_le_bytes_len(v as int, 4);
    lemma_le_round_trip(v as int, 4);
}

/// Law: a value encoded as eight little-endian bytes decodes to itself,
/// and a payload of any other length is rejected, never truncated.
pub proof fn lemma_u64_extraction_round_trip(v: u64)
    ensures
        le_bytes(v as int, 8).len() == 8,
        spec_as_u64(le_bytes(v as int, 8)) == Some(v),
        forall|p: Seq<u8>| p.len() != 8 ==> #[trigger] spec_as_u64(p) is None,
{
    lemma_pow256_values();
    lemma_le_bytes_len(v as int, 8);
    lemma_le_round_trip(v as int, 8);
}


/// The decimal digit character of a value under ten.
pub open spec fn dec_digit(n: int) -> char {
    if n == 0 {
        '0'
    } else if n == 1 {
        '1'
    } else if n == 2 {
        '2'
    } else if n == 3 {
        '3'
    } else if n == 4 {
        '4'
    } else if n == 5 {
        '5'
    } else if n == 6 {
        '6'
    } else if n == 7 {
        '7'
    } else if n == 8 {
        '8'
    } else {
        '9'
    }
}

/// The decimal text of a number, most significant digit first.
pub open spec fn dec_text(n: nat) -> Seq<char>
    decreases n,
{
    if n < 10 {
        seq![dec_digit(n as int)]
    } else {
        dec_text((n / 10) as nat).push(dec_digit((n % 10) as int))
    }
}

/// The digit character of a value under ten.
fn dec_digit_str(n: u16) -> (r: &'static str)
    requires
        n < 10,
    ensures
        r@ == seq![dec_digit(n as int)],
{
    if n == 0 {
        proof {
            reveal_strlit("0");
            assert("0"@ =~= seq![dec_digit(0)]);
        }
        "0"
    } else if n == 1 {
        proof {
            reveal_strlit("1");
            assert("1"@ =~= seq![dec_digit(1)]);
        }
        "1"
    } else if n == 2 {
        proof {
            reveal_strlit("2");
            assert("2"@ =~= seq![dec_digit(2)]);
        }
        "2"
    } else if n == 3 {
        proof {
            reveal_strlit("3");
            assert("3"@ =~= seq![dec_digit(3)]);
        }
        "3"
    } else if n == 4 {
        proof {
            reveal_strlit("4");
            assert("4"@ =~= seq![dec_digit(4)]);
        }
        "4"
    } else if n == 5 {
        proof {
            reveal_strlit("5");
            assert("5"@ =~= seq![dec_digit(5)]);
        }
        "5"
    } else if n == 6 {
        proof {
            reveal_strlit("6");
            assert("6"@ =~= seq![dec_digit(6)]);
        }
        "6"
    } else if n == 7 {
        proof {
            reveal_strlit("7");
            assert("7"@ =~= seq![dec_digit(7)]);
        }
        "7"
    } else if n == 8 {
        proof {
            reveal_strlit("8");
            assert("8"@ =~= seq![dec_digit(8)]);
        }
        "8"
    } else {
        proof {
            reveal_strlit("9");
            assert("9"@ =~= seq![dec_digit(9)]);
        }
        "9"
    }
}

/// Writes an attribute code as decimal text, for decode error messages.
pub fn u16_decimal(n: u16) -> (r: String)
    ensures
        r@ == dec_text(n as nat),
    decreases n,
{
    if n < 10 {
        String::from_str(dec_digit_str(n))
    } else {
        let mut out = u16_decimal(n / 10);
        out.append(dec_digit_str(n % 10));
        out
    }
}

} // verus!
