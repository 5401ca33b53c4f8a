//! Protocol-buffers wire primitives: base-128 varints, field keys and the
//! framing of a single field.

use vstd::prelude::*;

verus! {

/// A varint never takes more than this many bytes.
pub const MAX_VARINT_LEN: usize = 10;

/// Wire type of a varint field.
pub const WIRE_VARINT: u8 = 0;

/// Wire type of a fixed 64-bit field.
pub const WIRE_FIXED64: u8 = 1;

/// Wire type of a length-delimited field.
pub const WIRE_BYTES: u8 = 2;

/// Wire type of a fixed 32-bit field.
pub const WIRE_FIXED32: u8 = 5;

/// The base-128 encoding of `v`: seven bits per byte, least significant group
/// first, the high bit set on every byte but the last.
pub open spec fn varint_bytes(v: u64) -> Seq<u8>
    decreases v,
{
    if v < 128 {
        seq![v as u8]
    } else {
        seq![((v % 128) + 128) as u8] + varint_bytes(v / 128)
    }
}

/// Reads a varint from the front of `s`, looking at no more than `limit`
/// bytes. Gives the value and the number of bytes it took, or `None` when the
/// input ends early, runs past the limit or does not fit in 64 bits.
pub open spec fn parse_varint(s: Seq<u8>, limit: nat) -> Option<(u64, int)>
    decreases limit,
{
    if limit == 0 || s.len() == 0 {
        None
    } else if s[0] < 128 {
        Some((s[0] as u64, 1int))
    } else {
        match parse_varint(s.drop_first(), (limit - 1) as nat) {
            Some((hi, n)) => if (s[0] - 128) + 128 * hi <= u64::MAX {
                Some((((s[0] - 128) + 128 * hi) as u64, n + 1))
            } else {
                None
            },
            None => None,
        }
    }
}

/// A parsed varint took at least one byte and no more than were there or
/// allowed.
pub proof fn lemma_parse_varint_bounds(s: Seq<u8>, limit: nat)
    ensures
        match parse_varint(s, limit) {
            Some((_, n)) => 1 <= n <= s.len() && n <= limit,
            None => true,
        },
    decreases limit,
{
    if limit != 0 && s.len() != 0 && s[0] >= 128 {
        lemma_parse_varint_bounds(s.drop_first(), (limit - 1) as nat);
    }
}

/// Powers of 128, the weight of each varint byte.
pub open spec fn pow128(k: nat) -> nat
    decreases k,
{
    if k == 0 {
        1
    } else {
        128 * pow128((k - 1) as nat)
    }
}

/// A value below `128^k` encodes in at most `k` bytes.
pub proof fn lemma_varint_len_below(v: u64, k: nat)
    requires
        k >= 1,
        v < pow128(k),
    ensures
        1 <= varint_bytes(v).len() <= k,
    decreases k,
{
    if v >= 128 {
        assert(k >= 2) by {
            reveal_with_fuel(pow128, 2);
        }
        lemma_varint_len_below(v / 128, (k - 1) as nat);
    }
}

/// Every 64-bit value encodes in one to ten bytes.
pub proof fn lemma_varint_len(v: u64)
    ensures
        1 <= varint_bytes(v).len() <= MAX_VARINT_LEN,
{
    assert(pow128(10) == 0x40_0000_0000_0000_0000) by {
        reveal_with_fuel(pow128, 11);
    }
    lemma_varint_len_below(v, 10);
}

/// Reading back an encoded varint gives the value and skips exactly its
/// bytes, whatever follows, as long as the limit admits its length.
pub proof fn lemma_parse_varint_of_bytes(v: u64, rest: Seq<u8>, limit: nat)
    requires
        varint_bytes(v).len() <= limit,
    ensures
        parse_varint(varint_bytes(v) + rest, limit) == Some(
            (v, varint_bytes(v).len() as int),
        ),
    decreases v,
{
    let s = varint_bytes(v) + rest;
    if v < 128 {
    } else {
        let tail = varint_bytes(v / 128);
        assert(s.drop_first() =~= tail + rest);
        lemma_parse_varint_of_bytes(v / 128, rest, (limit - 1) as nat);
    }
}

/// Appends the varint encoding of `v` to `out`.
pub fn encode_varint(v: u64, out: &mut Vec<u8>)
    ensures
        final(out)@ == old(out)@ + varint_bytes(v),
{
    let mut cur: u64 = v;
    while cur >= 128
        invariant
            out@ + varint_bytes(cur) == old(out)@ + varint_bytes(v),
        decreases cur,
    {
        let ghost before = out@;
        let b: u8 = ((cur % 128) + 128) as u8;
        out.push(b);
        assert(out@ + varint_bytes(cur / 128) =~= before + varint_bytes(cur));
        cur = cur / 128;
    }
    let ghost before = out@;
    out.push(cur as u8);
    assert(out@ =~= before + varint_bytes(cur));
}

/// Reads the varint that starts at `pos`, looking at no more than `limit`
/// bytes.
fn decode_varint_within(buf: &[u8], pos: usize, limit: usize) -> (r: Option<(u64, usize)>)
    requires
        pos <= buf@.len(),
    ensures
        match parse_varint(buf@.skip(pos as int), limit as nat) {
            Some((v, n)) => {
                &&& r matches Some((value, next))
                &&& value == v
                &&& next == pos + n
                &&& next <= buf@.len()
            },
            None => r is None,
        },
    decreases limit,
{
    if limit == 0 || pos >= buf.len() {
        return None;
    }
    let b: u8 = buf[pos];
    if b < 128 {
        return Some((b as u64, pos + 1));
    }
    assert(buf@.skip(pos as int).drop_first() =~= buf@.skip(pos + 1));
    proof {
        lemma_parse_varint_bounds(buf@.skip(pos + 1), (limit - 1) as nat);
    }
    match decode_varint_within(buf, pos + 1, limit - 1) {
        Some((hi, next)) => {
            if hi <= 0x01ff_ffff_ffff_ffff {
                let lo: u64 = (b - 128) as u64;
                Some((lo + 128 * hi, next))
            } else {
                None
            }
        },
        None => None,
    }
}

/// Reads the varint that starts at `pos`. Gives its value and the position
/// just behind it.
pub fn decode_varint(buf: &[u8], pos: usize) -> (r: Option<(u64, usize)>)
    requires
        pos <= buf@.len(),
    ensures
        match parse_varint(buf@.skip(pos as int), MAX_VARINT_LEN as nat) {
            Some((v, n)) => {
                &&& r matches Some((value, next))
                &&& value == v
                &&& next == pos + n
                &&& pos < next <= buf@.len()
            },
            None => r is None,
        },
{
    proof {
        lemma_parse_varint_bounds(buf@.skip(pos as int), MAX_VARINT_LEN as nat);
    }
    decode_varint_within(buf, pos, MAX_VARINT_LEN)
}

/// The largest field number a key can carry.
pub const MAX_TAG: u32 = 0x1fff_ffff;

/// The key that announces field `tag` with wire type `wire`.
pub open spec fn field_key(tag: u32, wire: u8) -> u64 {
    (tag * 8 + wire) as u64
}

/// Field `tag` holding the varint `v`, always written out.
pub open spec fn tagged_varint(tag: u32, v: u64) -> Seq<u8> {
    varint_bytes(field_key(tag, WIRE_VARINT)) + varint_bytes(v)
}

/// Field `tag` holding the length-delimited `data`, always written out.
pub open spec fn tagged_bytes(tag: u32, data: Seq<u8>) -> Seq<u8> {
    varint_bytes(field_key(tag, WIRE_BYTES)) + varint_bytes(data.len() as u64) + data
}

/// Field `tag` holding the varint `v`; a zero is left out.
pub open spec fn varint_field(tag: u32, v: u64) -> Seq<u8> {
    if v == 0 {
        Seq::empty()
    } else {
        tagged_varint(tag, v)
    }
}

/// Field `tag` holding the length-delimited `data`; an empty payload is left
/// out.
pub open spec fn bytes_field(tag: u32, data: Seq<u8>) -> Seq<u8> {
    if data.len() == 0 {
        Seq::empty()
    } else {
        tagged_bytes(tag, data)
    }
}

/// One field as it stands at the front of a byte string: its number and wire
/// type, the varint it holds (for a length-delimited field, the length), the
/// payload of a length-delimited field, and how many bytes the whole field
/// takes. Fixed-width fields carry neither value nor payload.
pub struct ParsedField {
    pub tag: u32,
    pub wire: u8,
    pub value: u64,
    pub payload: Seq<u8>,
    pub consumed: int,
}

/// Reads the field at the front of `s`. `None` when the key is malformed,
/// names field zero or does not fit in 32 bits, when the wire type is a group
/// or unknown, or when the input ends inside the field.
pub open spec fn parse_field(s: Seq<u8>) -> Option<ParsedField> {
    match parse_varint(s, MAX_VARINT_LEN as nat) {
        None => None,
        Some((key, kn)) => {
            let body = s.skip(kn);
            let tag = (key / 8) as u32;
            let wire = (key % 8) as u8;
            if key > u32::MAX || key / 8 == 0 {
                None
            } else if wire == WIRE_VARINT {
                match parse_varint(body, MAX_VARINT_LEN as nat) {
                    Some((v, vn)) => Some(
                        ParsedField { tag, wire, value: v, payload: Seq::empty(), consumed: kn + vn },
                    ),
                    None => None,
                }
            } else if wire == WIRE_FIXED64 {
                if body.len() >= 8 {
                    Some(ParsedField { tag, wire, value: 0, payload: Seq::empty(), consumed: kn + 8 })
                } else {
                    None
                }
            } else if wire == WIRE_BYTES {
                match parse_varint(body, MAX_VARINT_LEN as nat) {
                    Some((n, vn)) => if n <= body.len() - vn {
                        Some(
                            ParsedField {
                                tag,
                                wire,
                                value: n,
                                payload: body.subrange(vn, vn + n),
                                consumed: kn + vn + n,
                            },
                        )
                    } else {
                        None
                    },
                    None => None,
                }
            } else if wire == WIRE_FIXED32 {
                if body.len() >= 4 {
                    Some(ParsedField { tag, wire, value: 0, payload: Seq::empty(), consumed: kn + 4 })
                } else {
                    None
                }
            } else {
                None
            }
        },
    }
}

/// A parsed field takes at least two bytes and no more than were there.
pub proof fn lemma_parse_field_bounds(s: Seq<u8>)
    ensures
        match parse_field(s) {
            Some(f) => 1 < f.consumed <= s.len() && 1 <= f.tag <= MAX_TAG,
            None => true,
        },
{
    lemma_parse_varint_bounds(s, MAX_VARINT_LEN as nat);
    match parse_varint(s, MAX_VARINT_LEN as nat) {
        Some((_, kn)) => {
            lemma_parse_varint_bounds(s.skip(kn), MAX_VARINT_LEN as nat);
        },
        None => {},
    }
}

/// A varint field that was written out reads back as itself, and reading
/// stops exactly behind it.
pub proof fn lemma_parse_tagged_varint(tag: u32, v: u64, rest: Seq<u8>)
    requires
        1 <= tag <= MAX_TAG,
    ensures
        parse_field(tagged_varint(tag, v) + rest) == Some(
            ParsedField {
                tag,
                wire: WIRE_VARINT,
                value: v,
                payload: Seq::empty(),
                consumed: tagged_varint(tag, v).len() as int,
            },
        ),
        (tagged_varint(tag, v) + rest).skip(tagged_varint(tag, v).len() as int) == rest,
{
    let key = field_key(tag, WIRE_VARINT);
    let kb = varint_bytes(key);
    let vb = varint_bytes(v);
    let s = tagged_varint(tag, v) + rest;
    lemma_varint_len(key);
    lemma_varint_len(v);
    assert(s =~= kb + (vb + rest));
    lemma_parse_varint_of_bytes(key, vb + rest, MAX_VARINT_LEN as nat);
    assert(s.skip(kb.len() as int) =~= vb + rest);
    lemma_parse_varint_of_bytes(v, rest, MAX_VARINT_LEN as nat);
}

/// A length-delimited field that was written out reads back as itself, and
/// reading stops exactly behind it.
pub proof fn lemma_parse_tagged_bytes(tag: u32, data: Seq<u8>, rest: Seq<u8>)
    requires
        1 <= tag <= MAX_TAG,
        data.len() <= u64::MAX,
    ensures
        parse_field(tagged_bytes(tag, data) + rest) == Some(
            ParsedField {
                tag,
                wire: WIRE_BYTES,
                value: data.len() as u64,
                payload: data,
                consumed: tagged_bytes(tag, data).len() as int,
            },
        ),
        (tagged_bytes(tag, data) + rest).skip(tagged_bytes(tag, data).len() as int) == rest,
{
    let key = field_key(tag, WIRE_BYTES);
    let kb = varint_bytes(key);
    let n = data.len() as u64;
    let nb = varint_bytes(n);
    let s = tagged_bytes(tag, data) + rest;
    lemma_varint_len(key);
    lemma_varint_len(n);
    assert(s =~= kb + (nb + data + rest));
    lemma_parse_varint_of_bytes(key, nb + data + rest, MAX_VARINT_LEN as nat);
    let body = s.skip(kb.len() as int);
    assert(body =~= nb + (data + rest));
    lemma_parse_varint_of_bytes(n, data + rest, MAX_VARINT_LEN as nat);
    assert(body.subrange(nb.len() as int, nb.len() + n) =~= data);
    assert(s.skip(tagged_bytes(tag, data).len() as int) =~= rest);
}

/// Where a field stands in a buffer: its number and wire type, the varint it
/// holds (for a length-delimited field, the length), the range of the payload
/// of a length-delimited field, and the position just behind the field.
pub struct RawField {
    pub tag: u32,
    pub wire: u8,
    pub value: u64,
    pub start: usize,
    pub end: usize,
    pub next: usize,
}

/// Reads the field that starts at `pos`.
pub fn read_field(buf: &[u8], pos: usize) -> (r: Option<RawField>)
    requires
        pos <= buf@.len(),
    ensures
        match parse_field(buf@.skip(pos as int)) {
            Some(f) => {
                &&& r matches Some(x)
                &&& x.tag == f.tag
                &&& x.wire == f.wire
                &&& x.value == f.value
                &&& pos < x.start <= x.end
                &&& x.end <= x.next <= buf@.len()
                &&& buf@.subrange(x.start as int, x.end as int) == f.payload
                &&& x.next == pos + f.consumed
            },
            None => r is None,
        },
{
    let ghost s = buf@.skip(pos as int);
    let (key, body) = match decode_varint(buf, pos) {
        Some(x) => x,
        None => {
            return None;
        },
    };
    if key > 0xffff_ffff || key / 8 == 0 {
        return None;
    }
    let tag: u32 = (key / 8) as u32;
    let wire: u8 = (key % 8) as u8;
    assert(s.skip(body - pos) =~= buf@.skip(body as int));
    proof {
        lemma_parse_varint_bounds(buf@.skip(body as int), MAX_VARINT_LEN as nat);
    }
    if wire == WIRE_VARINT {
        match decode_varint(buf, body) {
            Some((v, next)) => {
                Some(RawField { tag, wire, value: v, start: next, end: next, next })
            },
            None => None,
        }
    } else if wire == WIRE_FIXED64 {
        if buf.len() - body >= 8 {
            let next: usize = body + 8;
            Some(RawField { tag, wire, value: 0, start: next, end: next, next })
        } else {
            None
        }
    } else if wire == WIRE_BYTES {
        match decode_varint(buf, body) {
            Some((n, start)) => {
                if n <= (buf.len() - start) as u64 {
                    let end: usize = start + n as usize;
                    assert(buf@.subrange(start as int, end as int) =~= buf@.skip(
                        body as int,
                    ).subrange(start - body, start - body + n));
                    Some(RawField { tag, wire, value: n, start, end, next: end })
                } else {
                    None
                }
            },
            None => None,
        }
    } else if wire == WIRE_FIXED32 {
        if buf.len() - body >= 4 {
            let next: usize = body + 4;
            Some(RawField { tag, wire, value: 0, start: next, end: next, next })
        } else {
            None
        }
    } else {
        None
    }
}

/// Appends field `tag` with the varint `v`, whatever `v` is.
pub fn put_tagged_varint(tag: u32, v: u64, out: &mut Vec<u8>)
    requires
        tag <= MAX_TAG,
    ensures
        final(out)@ == old(out)@ + tagged_varint(tag, v),
{
    let key: u64 = tag as u64 * 8;
    encode_varint(key, out);
    encode_varint(v, out);
}

/// Appends field `tag` with the payload `data`, whatever its length.
pub fn put_tagged_bytes(tag: u32, data: &[u8], out: &mut Vec<u8>)
    requires
        tag <= MAX_TAG,
    ensures
        final(out)@ == old(out)@ + tagged_bytes(tag, data@),
{
    let key: u64 = tag as u64 * 8 + 2;
    encode_varint(key, out);
    encode_varint(data.len() as u64, out);
    append_bytes(out, data);
    assert(out@ =~= old(out)@ + tagged_bytes(tag, data@));
}

/// Appends field `tag` with the varint `v` unless `v` is zero.
pub fn put_varint_field(tag: u32, v: u64, out: &mut Vec<u8>)
    requires
        tag <= MAX_TAG,
    ensures
        final(out)@ == old(out)@ + varint_field(tag, v),
{
    if v != 0 {
        put_tagged_varint(tag, v, out);
    } else {
    }
}

/// Appends field `tag` with the payload `data` unless `data` is empty.
pub fn put_bytes_field(tag: u32, data: &[u8], out: &mut Vec<u8>)
    requires
        tag <= MAX_TAG,
    ensures
        final(out)@ == old(out)@ + bytes_field(tag, data@),
{
    if data.len() != 0 {
        put_tagged_bytes(tag, data, out);
    } else {
        assert(out@ =~= old(out)@ + bytes_field(tag, data@));
    }
}

/// Appends `data` to `out`.
pub fn append_bytes(out: &mut Vec<u8>, data: &[u8])
    ensures
        final(out)@ == old(out)@ + data@,
{
    let mut i: usize = 0;
    while i < data.len()
        invariant
            i <= data@.len(),
            out@ == old(out)@ + data@.take(i as int),
        decreases data@.len() - i,
    {
        out.push(data[i]);
        i = i + 1;
    }
}

/// A fresh copy of `buf[start..end]`.
pub fn copy_range(buf: &[u8], start: usize, end: usize) -> (out: Vec<u8>)
    requires
        start <= end <= buf@.len(),
    ensures
        out@ == buf@.subrange(start as int, end as int),
{
    let mut out: Vec<u8> = Vec::new();
    let mut i: usize = start;
    while i < end
        invariant
            start <= i <= end <= buf@.len(),
            out@ == buf@.subrange(start as int, i as int),
        decreases end - i,
    {
        out.push(buf[i]);
        i = i + 1;
    }
    out
}

/// Whether `buf[start..end]` holds exactly the bytes of `other`.
pub fn range_equals(buf: &[u8], start: usize, end: usize, other: &[u8]) -> (same: bool)
    requires
        start <= end <= buf@.len(),
    ensures
        same == (buf@.subrange(start as int, end as int) == other@),
{
    let ghost range = buf@.subrange(start as int, end as int);
    if end - start != other.len() {
        return false;
    }
    let mut i: usize = 0;
    while i < other.len()
        invariant
            start <= end <= buf@.len(),
            end - start == other@.len(),
            i <= other@.len(),
            range == buf@.subrange(start as int, end as int),
            forall|k: int| 0 <= k < i ==> range[k] == other@[k],
        decreases other@.len() - i,
    {
        if buf[start + i] != other[i] {
            return false;
        }
        i = i + 1;
    }
    assert(range =~= other@);
    true
}

} // verus!
