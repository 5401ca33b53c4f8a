//! The message envelope: the unit that travels over a connection, over the bus
//! and into storage, together with its wire encoding and its integrity check.

use vstd::prelude::*;
use vstd::string::*;
use vstd::utf8::*;
use crate::checksum::{checksum, crc32c_of};
use crate::wire::{
    bytes_field, copy_range, lemma_parse_field_bounds, lemma_parse_tagged_bytes,
    lemma_parse_tagged_varint, parse_field, put_bytes_field, put_varint_field, range_equals,
    read_field, varint_field, ParsedField, WIRE_BYTES, WIRE_VARINT,
};

verus! {

/// Field number of the tenant identifier.
pub const TAG_SHOP_ID: u32 = 1;

/// Field number of the guest identifier.
pub const TAG_GUEST_ID: u32 = 2;

/// Field number of the message identifier.
pub const TAG_MESSAGE_ID: u32 = 3;

/// Field number of the sender kind.
pub const TAG_SENDER_TYPE: u32 = 4;

/// Field number of the payload.
pub const TAG_CONTENT: u32 = 5;

/// Field number of the sender's timestamp.
pub const TAG_TIMESTAMP_US: u32 = 6;

/// Field number of the payload checksum.
pub const TAG_CONTENT_CRC: u32 = 7;

/// Who wrote a message.
#[derive(Clone, Copy, Debug, PartialEq, Eq, Structural)]
pub enum SenderType {
    Admin,
    Guest,
}

/// What can go wrong with an envelope or with the collaborators around it.
#[derive(Clone, Debug, PartialEq, Eq)]
pub enum ContractError {
    /// The stored checksum (`expected`) is not the one of the bytes (`actual`).
    CrcMismatch { expected: u32, actual: u32 },
    /// The bytes are not the encoding of an envelope.
    DecodeError,
    /// The durable store failed.
    DbError(String),
    /// The credential check failed.
    AuthError(String),
}

/// A message envelope.
#[derive(Clone, Debug, PartialEq, Eq)]
pub struct Message {
    pub shop_id: String,
    pub guest_id: u64,
    pub message_id: u64,
    pub sender_type: SenderType,
    pub content: Vec<u8>,
    pub timestamp_us: u64,
    pub content_crc: u32,
}

/// The mathematical value of an envelope.
pub struct MessageView {
    pub shop_id: Seq<char>,
    pub guest_id: u64,
    pub message_id: u64,
    pub sender_type: SenderType,
    pub content: Seq<u8>,
    pub timestamp_us: u64,
    pub content_crc: u32,
}

impl View for Message {
    type V = MessageView;

    open spec fn view(&self) -> MessageView {
        MessageView {
            shop_id: self.shop_id@,
            guest_id: self.guest_id,
            message_id: self.message_id,
            sender_type: self.sender_type,
            content: self.content@,
            timestamp_us: self.timestamp_us,
            content_crc: self.content_crc,
        }
    }
}

/// The mathematical values of a list of envelopes.
pub open spec fn message_views(ms: Seq<Message>) -> Seq<MessageView> {
    ms.map_values(|m: Message| m@)
}

/// The name a sender kind has on the wire: the ASCII bytes of `admin` or
/// `guest`.
pub open spec fn sender_bytes(s: SenderType) -> Seq<u8> {
    match s {
        SenderType::Admin => seq![0x61u8, 0x64u8, 0x6du8, 0x69u8, 0x6eu8],
        SenderType::Guest => seq![0x67u8, 0x75u8, 0x65u8, 0x73u8, 0x74u8],
    }
}

/// The sender kind that a wire name stands for, if any.
pub open spec fn sender_from_bytes(s: Seq<u8>) -> Option<SenderType> {
    if s == sender_bytes(SenderType::Admin) {
        Some(SenderType::Admin)
    } else if s == sender_bytes(SenderType::Guest) {
        Some(SenderType::Guest)
    } else {
        None
    }
}

/// Whether the stored checksum is the checksum of the payload.
pub open spec fn checksum_matches(m: MessageView) -> bool {
    m.content_crc == crc32c_of(m.content)
}

/// Whether an envelope can be put on the wire: both variable-length fields
/// have a length that a 64-bit length prefix can carry.
pub open spec fn encodable(m: MessageView) -> bool {
    &&& encode_utf8(m.shop_id).len() <= u64::MAX
    &&& m.content.len() <= u64::MAX
}

/// The wire form of an envelope: its fields in the order of their numbers,
/// each left out when it holds its zero or empty value.
pub open spec fn encode_message(m: MessageView) -> Seq<u8> {
    bytes_field(TAG_SHOP_ID, encode_utf8(m.shop_id)) + varint_field(TAG_GUEST_ID, m.guest_id)
        + varint_field(TAG_MESSAGE_ID, m.message_id) + bytes_field(
        TAG_SENDER_TYPE,
        sender_bytes(m.sender_type),
    ) + bytes_field(TAG_CONTENT, m.content) + varint_field(TAG_TIMESTAMP_US, m.timestamp_us)
        + varint_field(TAG_CONTENT_CRC, m.content_crc as u64)
}

/// What has been read of an envelope so far. The sender kind has no default:
/// it stays `None` until the field is seen.
pub struct PartialMessage {
    pub shop_id: Seq<char>,
    pub guest_id: u64,
    pub message_id: u64,
    pub sender_type: Option<SenderType>,
    pub content: Seq<u8>,
    pub timestamp_us: u64,
    pub content_crc: u32,
}

/// The state before any field was read.
pub open spec fn blank_message() -> PartialMessage {
    PartialMessage {
        shop_id: Seq::empty(),
        guest_id: 0,
        message_id: 0,
        sender_type: None,
        content: Seq::empty(),
        timestamp_us: 0,
        content_crc: 0,
    }
}

/// Whether `tag` is one of the envelope's varint fields.
pub open spec fn is_varint_tag(tag: u32) -> bool {
    tag == TAG_GUEST_ID || tag == TAG_MESSAGE_ID || tag == TAG_TIMESTAMP_US || tag
        == TAG_CONTENT_CRC
}

/// Whether `tag` is one of the envelope's length-delimited fields.
pub open spec fn is_bytes_tag(tag: u32) -> bool {
    tag == TAG_SHOP_ID || tag == TAG_SENDER_TYPE || tag == TAG_CONTENT
}

/// Stores a varint into the field it belongs to. The checksum keeps the low
/// 32 bits.
pub open spec fn with_varint(acc: PartialMessage, tag: u32, v: u64) -> PartialMessage {
    if tag == TAG_GUEST_ID {
        PartialMessage { guest_id: v, ..acc }
    } else if tag == TAG_MESSAGE_ID {
        PartialMessage { message_id: v, ..acc }
    } else if tag == TAG_TIMESTAMP_US {
        PartialMessage { timestamp_us: v, ..acc }
    } else {
        PartialMessage { content_crc: (v % 0x1_0000_0000) as u32, ..acc }
    }
}

/// Stores a payload into the field it belongs to. The tenant identifier must
/// be UTF-8 and the sender kind one of the two known names.
pub open spec fn with_bytes(acc: PartialMessage, tag: u32, data: Seq<u8>) -> Option<
    PartialMessage,
> {
    if tag == TAG_SHOP_ID {
        if valid_utf8(data) {
            Some(PartialMessage { shop_id: decode_utf8(data), ..acc })
        } else {
            None
        }
    } else if tag == TAG_SENDER_TYPE {
        match sender_from_bytes(data) {
            Some(s) => Some(PartialMessage { sender_type: Some(s), ..acc }),
            None => None,
        }
    } else {
        Some(PartialMessage { content: data, ..acc })
    }
}

/// Takes one field into account. A field of the envelope must come with its
/// own wire type; a later occurrence replaces an earlier one; fields with
/// other numbers are passed over.
pub open spec fn apply_field(acc: PartialMessage, f: ParsedField) -> Option<PartialMessage> {
    if is_varint_tag(f.tag) {
        if f.wire == WIRE_VARINT {
            Some(with_varint(acc, f.tag, f.value))
        } else {
            None
        }
    } else if is_bytes_tag(f.tag) {
        if f.wire == WIRE_BYTES {
            with_bytes(acc, f.tag, f.payload)
        } else {
            None
        }
    } else {
        Some(acc)
    }
}

/// Reads fields until the input is used up.
#[verifier::opaque]
pub open spec fn parse_message(s: Seq<u8>, acc: PartialMessage) -> Option<PartialMessage>
    decreases s.len(),
{
    if s.len() == 0 {
        Some(acc)
    } else {
        match parse_field(s) {
            None => None,
            Some(f) => match apply_field(acc, f) {
                None => None,
                Some(next) => if 0 < f.consumed <= s.len() {
                    parse_message(s.skip(f.consumed), next)
                } else {
                    None
                },
            },
        }
    }
}

/// The envelope that was read, provided the sender kind was there.
pub open spec fn finish_message(acc: PartialMessage) -> Option<MessageView> {
    match acc.sender_type {
        Some(s) => Some(
            MessageView {
                shop_id: acc.shop_id,
                guest_id: acc.guest_id,
                message_id: acc.message_id,
                sender_type: s,
                content: acc.content,
                timestamp_us: acc.timestamp_us,
                content_crc: acc.content_crc,
            },
        ),
        None => None,
    }
}

/// The envelope that a byte string encodes, or `None` when it encodes none.
pub open spec fn decode_message(s: Seq<u8>) -> Option<MessageView> {
    match parse_message(s, blank_message()) {
        Some(acc) => finish_message(acc),
        None => None,
    }
}

/// The character of a hexadecimal digit, in lower case.
pub open spec fn hex_char(d: u32) -> char {
    if d == 0 {
        '0'
    } else if d == 1 {
        '1'
    } else if d == 2 {
        '2'
    } else if d == 3 {
        '3'
    } else if d == 4 {
        '4'
    } else if d == 5 {
        '5'
    } else if d == 6 {
        '6'
    } else if d == 7 {
        '7'
    } else if d == 8 {
        '8'
    } else if d == 9 {
        '9'
    } else if d == 10 {
        'a'
    } else if d == 11 {
        'b'
    } else if d == 12 {
        'c'
    } else if d == 13 {
        'd'
    } else if d == 14 {
        'e'
    } else {
        'f'
    }
}

/// A 32-bit value as eight hexadecimal digits.
pub open spec fn hex8(v: u32) -> Seq<char> {
    seq![
        hex_char(v / 0x1000_0000 % 16),
        hex_char(v / 0x100_0000 % 16),
        hex_char(v / 0x10_0000 % 16),
        hex_char(v / 0x1_0000 % 16),
        hex_char(v / 0x1000 % 16),
        hex_char(v / 0x100 % 16),
        hex_char(v / 0x10 % 16),
        hex_char(v % 16),
    ]
}

/// What an error says of itself.
pub open spec fn error_text(e: ContractError) -> Seq<char> {
    match e {
        ContractError::CrcMismatch { expected, actual } => "CRC mismatch: expected "@ + hex8(
            expected,
        ) + ", got "@ + hex8(actual),
        ContractError::DecodeError => "Protobuf decode error"@,
        ContractError::DbError(why) => "Database error: "@ + why@,
        ContractError::AuthError(why) => "Auth error: "@ + why@,
    }
}

/// The numeral of one hexadecimal digit.
fn hex_text(d: u32) -> (text: &'static str)
    requires
        d < 16,
    ensures
        text@ == seq![hex_char(d)],
{
    proof {
        reveal_strlit("0");
        reveal_strlit("1");
        reveal_strlit("2");
        reveal_strlit("3");
        reveal_strlit("4");
        reveal_strlit("5");
        reveal_strlit("6");
        reveal_strlit("7");
        reveal_strlit("8");
        reveal_strlit("9");
        reveal_strlit("a");
        reveal_strlit("b");
        reveal_strlit("c");
        reveal_strlit("d");
        reveal_strlit("e");
        reveal_strlit("f");
    }
    let text = if d == 0 {
        "0"
    } else if d == 1 {
        "1"
    } else if d == 2 {
        "2"
    } else if d == 3 {
        "3"
    } else if d == 4 {
        "4"
    } else if d == 5 {
        "5"
    } else if d == 6 {
        "6"
    } else if d == 7 {
        "7"
    } else if d == 8 {
        "8"
    } else if d == 9 {
        "9"
    } else if d == 10 {
        "a"
    } else if d == 11 {
        "b"
    } else if d == 12 {
        "c"
    } else if d == 13 {
        "d"
    } else if d == 14 {
        "e"
    } else {
        "f"
    };
    assert(text@ =~= seq![hex_char(d)]);
    text
}

/// Appends `v` as eight hexadecimal digits to `out`.
pub fn push_hex8(v: u32, out: &mut String)
    ensures
        final(out)@ == old(out)@ + hex8(v),
{
    out.append(hex_text(v / 0x1000_0000 % 16));
    out.append(hex_text(v / 0x100_0000 % 16));
    out.append(hex_text(v / 0x10_0000 % 16));
    out.append(hex_text(v / 0x1_0000 % 16));
    out.append(hex_text(v / 0x1000 % 16));
    out.append(hex_text(v / 0x100 % 16));
    out.append(hex_text(v / 0x10 % 16));
    out.append(hex_text(v % 16));
    assert(out@ =~= old(out)@ + hex8(v));
}

impl ContractError {
    /// What the error says of itself.
    pub fn message(&self) -> (text: String)
        ensures
            text@ == error_text(*self),
    {
        match self {
            ContractError::CrcMismatch { expected, actual } => {
                let mut text = String::from_str("CRC mismatch: expected ");
                push_hex8(*expected, &mut text);
                text.append(", got ");
                push_hex8(*actual, &mut text);
                text
            },
            ContractError::DecodeError => String::from_str("Protobuf decode error"),
            ContractError::DbError(why) => {
                let mut text = String::from_str("Database error: ");
                text.append(why.as_str());
                text
            },
            ContractError::AuthError(why) => {
                let mut text = String::from_str("Auth error: ");
                text.append(why.as_str());
                text
            },
        }
    }
}

/// Holds a checksum that was computed against the one that is stored, and
/// reports both when they differ.
pub fn compare_crc(stored: u32, computed: u32) -> (r: Result<(), ContractError>)
    ensures
        stored == computed ==> r == Ok::<(), ContractError>(()),
        stored != computed ==> r == Err::<(), ContractError>(
            ContractError::CrcMismatch { expected: stored, actual: computed },
        ),
{
    if computed != stored {
        return Err(ContractError::CrcMismatch { expected: stored, actual: computed });
    }
    Ok(())
}

/// Calls `String::from_utf8`, which succeeds exactly on well-formed UTF-8 and
/// then yields the string those bytes encode.
#[verifier::external_body]
pub(crate) fn string_from_utf8(bytes: Vec<u8>) -> (r: Option<String>)
    ensures
        r is Some <==> valid_utf8(bytes@),
        r matches Some(s) ==> s@ == decode_utf8(bytes@),
{
    match String::from_utf8(bytes) {
        Ok(s) => Some(s),
        Err(_) => None,
    }
}

/// The wire name of a sender kind.
pub fn sender_name(s: SenderType) -> (name: Vec<u8>)
    ensures
        name@ == sender_bytes(s),
{
    let name: Vec<u8> = match s {
        SenderType::Admin => vec![0x61u8, 0x64u8, 0x6du8, 0x69u8, 0x6eu8],
        SenderType::Guest => vec![0x67u8, 0x75u8, 0x65u8, 0x73u8, 0x74u8],
    };
    assert(name@ =~= sender_bytes(s));
    name
}

/// The sender kind that `buf[start..end]` names.
pub fn read_sender(buf: &[u8], start: usize, end: usize) -> (r: Option<SenderType>)
    requires
        start <= end <= buf@.len(),
    ensures
        r == sender_from_bytes(buf@.subrange(start as int, end as int)),
{
    if range_equals(buf, start, end, sender_name(SenderType::Admin).as_slice()) {
        Some(SenderType::Admin)
    } else if range_equals(buf, start, end, sender_name(SenderType::Guest).as_slice()) {
        Some(SenderType::Guest)
    } else {
        None
    }
}

impl Message {
    /// Builds an envelope and seals its payload with the checksum.
    pub fn new(
        shop_id: String,
        guest_id: u64,
        message_id: u64,
        sender_type: SenderType,
        content: Vec<u8>,
        timestamp_us: u64,
    ) -> (m: Message)
        ensures
            m@ == (MessageView {
                shop_id: shop_id@,
                guest_id,
                message_id,
                sender_type,
                content: content@,
                timestamp_us,
                content_crc: crc32c_of(content@),
            }),
            checksum_matches(m@),
    {
        let content_crc = checksum(content.as_slice());
        Message { shop_id, guest_id, message_id, sender_type, content, timestamp_us, content_crc }
    }

    /// Whether the stored checksum is the checksum of the payload.
    pub fn verify(&self) -> (ok: bool)
        ensures
            ok == checksum_matches(self@),
    {
        checksum(self.content.as_slice()) == self.content_crc
    }

    /// Checks the payload against the stored checksum and reports both values
    /// when they differ.
    pub fn verify_content(&self) -> (r: Result<(), ContractError>)
        ensures
            checksum_matches(self@) ==> r == Ok::<(), ContractError>(()),
            !checksum_matches(self@) ==> r == Err::<(), ContractError>(
                ContractError::CrcMismatch {
                    expected: self.content_crc,
                    actual: crc32c_of(self.content@),
                },
            ),
    {
        compare_crc(self.content_crc, checksum(self.content.as_slice()))
    }

    /// Appends the wire form of the envelope to `out`.
    pub fn encode(&self, out: &mut Vec<u8>)
        ensures
            final(out)@ == old(out)@ + encode_message(self@),
    {
        let sender = sender_name(self.sender_type);
        put_bytes_field(TAG_SHOP_ID, self.shop_id.as_str().as_bytes(), out);
        put_varint_field(TAG_GUEST_ID, self.guest_id, out);
        put_varint_field(TAG_MESSAGE_ID, self.message_id, out);
        put_bytes_field(TAG_SENDER_TYPE, sender.as_slice(), out);
        put_bytes_field(TAG_CONTENT, self.content.as_slice(), out);
        put_varint_field(TAG_TIMESTAMP_US, self.timestamp_us, out);
        put_varint_field(TAG_CONTENT_CRC, self.content_crc as u64, out);
    }

    /// The wire form of the envelope.
    pub fn encode_to_vec(&self) -> (out: Vec<u8>)
        ensures
            out@ == encode_message(self@),
    {
        let mut out: Vec<u8> = Vec::new();
        self.encode(&mut out);
        out
    }

    /// Reads an envelope from its wire form. Succeeds exactly on the byte
    /// strings that encode an envelope, with that envelope.
    pub fn decode(buf: &[u8]) -> (r: Result<Message, ContractError>)
        ensures
            match decode_message(buf@) {
                Some(v) => r matches Ok(m) && m@ == v,
                None => r == Err::<Message, ContractError>(ContractError::DecodeError),
            },
    {
        let mut shop_id: String = String::new();
        let mut guest_id: u64 = 0;
        let mut message_id: u64 = 0;
        let mut sender_type: Option<SenderType> = None;
        let mut content: Vec<u8> = Vec::new();
        let mut timestamp_us: u64 = 0;
        let mut content_crc: u32 = 0;
        let mut pos: usize = 0;
        assert(buf@.skip(0) =~= buf@);
        while pos < buf.len()
            invariant
                pos <= buf@.len(),
                parse_message(buf@, blank_message()) == parse_message(
                    buf@.skip(pos as int),
                    PartialMessage {
                        shop_id: shop_id@,
                        guest_id,
                        message_id,
                        sender_type,
                        content: content@,
                        timestamp_us,
                        content_crc,
                    },
                ),
            decreases buf@.len() - pos,
        {
            let ghost rest = buf@.skip(pos as int);
            proof {
                reveal(parse_message);
                lemma_parse_field_bounds(rest);
            }
            let f = match read_field(buf, pos) {
                Some(f) => f,
                None => {
                    return Err(ContractError::DecodeError);
                },
            };
            assert(rest.skip(f.next - pos) =~= buf@.skip(f.next as int));
            if f.tag == TAG_GUEST_ID || f.tag == TAG_MESSAGE_ID || f.tag == TAG_TIMESTAMP_US
                || f.tag == TAG_CONTENT_CRC {
                if f.wire != WIRE_VARINT {
                    return Err(ContractError::DecodeError);
                }
                if f.tag == TAG_GUEST_ID {
                    guest_id = f.value;
                } else if f.tag == TAG_MESSAGE_ID {
                    message_id = f.value;
                } else if f.tag == TAG_TIMESTAMP_US {
                    timestamp_us = f.value;
                } else {
                    content_crc = (f.value % 0x1_0000_0000) as u32;
                }
            } else if f.tag == TAG_SHOP_ID || f.tag == TAG_SENDER_TYPE || f.tag == TAG_CONTENT {
                if f.wire != WIRE_BYTES {
                    return Err(ContractError::DecodeError);
                }
                if f.tag == TAG_SHOP_ID {
                    match string_from_utf8(copy_range(buf, f.start, f.end)) {
                        Some(s) => {
                            shop_id = s;
                        },
                        None => {
                            return Err(ContractError::DecodeError);
                        },
                    }
                } else if f.tag == TAG_SENDER_TYPE {
                    match read_sender(buf, f.start, f.end) {
                        Some(s) => {
                            sender_type = Some(s);
                        },
                        None => {
                            return Err(ContractError::DecodeError);
                        },
                    }
                } else {
                    content = copy_range(buf, f.start, f.end);
                }
            }
            pos = f.next;
        }
        proof {
            reveal(parse_message);
        }
        match sender_type {
            Some(s) => Ok(
                Message {
                    shop_id,
                    guest_id,
                    message_id,
                    sender_type: s,
                    content,
                    timestamp_us,
                    content_crc,
                },
            ),
            None => Err(ContractError::DecodeError),
        }
    }
}

/// Reading a byte string that starts with one of the envelope's varint fields
/// stores the value and goes on behind the field.
proof fn lemma_parse_varint_field(tag: u32, v: u64, rest: Seq<u8>, acc: PartialMessage)
    requires
        is_varint_tag(tag),
        v == 0 ==> with_varint(acc, tag, v) == acc,
    ensures
        parse_message(varint_field(tag, v) + rest, acc) == parse_message(
            rest,
            with_varint(acc, tag, v),
        ),
{
    reveal(parse_message);
    let s = varint_field(tag, v) + rest;
    if v == 0 {
    } else {
        lemma_parse_tagged_varint(tag, v, rest);
        lemma_parse_field_bounds(s);
    }
}

/// Reading a byte string that starts with one of the envelope's
/// length-delimited fields stores the payload and goes on behind the field.
proof fn lemma_parse_bytes_field(tag: u32, data: Seq<u8>, rest: Seq<u8>, acc: PartialMessage)
    requires
        is_bytes_tag(tag),
        data.len() <= u64::MAX,
        with_bytes(acc, tag, data) is Some,
        data.len() == 0 ==> with_bytes(acc, tag, data) == Some(acc),
    ensures
        parse_message(bytes_field(tag, data) + rest, acc) == parse_message(
            rest,
            with_bytes(acc, tag, data).unwrap(),
        ),
{
    reveal(parse_message);
    let s = bytes_field(tag, data) + rest;
    if data.len() == 0 {
    } else {
        lemma_parse_tagged_bytes(tag, data, rest);
        lemma_parse_field_bounds(s);
    }
}

/// Reading the tenant field of an encoded envelope.
proof fn lemma_parse_shop_id(shop_id: Seq<char>, rest: Seq<u8>, acc: PartialMessage)
    requires
        encode_utf8(shop_id).len() <= u64::MAX,
        acc.shop_id == Seq::<char>::empty(),
    ensures
        parse_message(bytes_field(TAG_SHOP_ID, encode_utf8(shop_id)) + rest, acc)
            == parse_message(rest, PartialMessage { shop_id, ..acc }),
{
    let shop = encode_utf8(shop_id);
    encode_utf8_valid_utf8(shop_id);
    encode_utf8_decode_utf8(shop_id);
    if shop.len() == 0 {
        assert(decode_utf8(shop) =~= Seq::<char>::empty());
    }
    lemma_parse_bytes_field(TAG_SHOP_ID, shop, rest, acc);
}

/// Reading the sender field of an encoded envelope.
proof fn lemma_parse_sender(sender: SenderType, rest: Seq<u8>, acc: PartialMessage)
    ensures
        parse_message(bytes_field(TAG_SENDER_TYPE, sender_bytes(sender)) + rest, acc)
            == parse_message(rest, PartialMessage { sender_type: Some(sender), ..acc }),
{
    let name = sender_bytes(sender);
    assert(sender_bytes(SenderType::Admin)[0] != sender_bytes(SenderType::Guest)[0]);
    assert(sender_from_bytes(name) == Some(sender));
    lemma_parse_bytes_field(TAG_SENDER_TYPE, name, rest, acc);
}

/// Reading the payload field of an encoded envelope.
proof fn lemma_parse_content(content: Seq<u8>, rest: Seq<u8>, acc: PartialMessage)
    requires
        content.len() <= u64::MAX,
        acc.content == Seq::<u8>::empty(),
    ensures
        parse_message(bytes_field(TAG_CONTENT, content) + rest, acc) == parse_message(
            rest,
            PartialMessage { content, ..acc },
        ),
{
    if content.len() == 0 {
        assert(content =~= Seq::<u8>::empty());
    }
    lemma_parse_bytes_field(TAG_CONTENT, content, rest, acc);
}

/// The encoding is the chain of its fields, grouped from the right.
proof fn lemma_encode_chain(m: MessageView)
    ensures
        encode_message(m) == bytes_field(TAG_SHOP_ID, encode_utf8(m.shop_id)) + (varint_field(
            TAG_GUEST_ID,
            m.guest_id,
        ) + (varint_field(TAG_MESSAGE_ID, m.message_id) + (bytes_field(
            TAG_SENDER_TYPE,
            sender_bytes(m.sender_type),
        ) + (bytes_field(TAG_CONTENT, m.content) + (varint_field(
            TAG_TIMESTAMP_US,
            m.timestamp_us,
        ) + (varint_field(TAG_CONTENT_CRC, m.content_crc as u64) + Seq::<u8>::empty())))))),
{
    let f1 = bytes_field(TAG_SHOP_ID, encode_utf8(m.shop_id));
    let f2 = varint_field(TAG_GUEST_ID, m.guest_id);
    let f3 = varint_field(TAG_MESSAGE_ID, m.message_id);
    let f4 = bytes_field(TAG_SENDER_TYPE, sender_bytes(m.sender_type));
    let f5 = bytes_field(TAG_CONTENT, m.content);
    let f6 = varint_field(TAG_TIMESTAMP_US, m.timestamp_us);
    let f7 = varint_field(TAG_CONTENT_CRC, m.content_crc as u64);
    lemma_concat_chain(f1, f2, f3, f4, f5, f6, f7);
}

/// Seven byte strings joined from the left are the same joined from the
/// right.
proof fn lemma_concat_chain(
    f1: Seq<u8>,
    f2: Seq<u8>,
    f3: Seq<u8>,
    f4: Seq<u8>,
    f5: Seq<u8>,
    f6: Seq<u8>,
    f7: Seq<u8>,
)
    ensures
        f1 + f2 + f3 + f4 + f5 + f6 + f7 == f1 + (f2 + (f3 + (f4 + (f5 + (f6 + (f7
            + Seq::<u8>::empty())))))),
{
    assert(f1 + f2 + f3 + f4 + f5 + f6 + f7 =~= f1 + (f2 + (f3 + (f4 + (f5 + (f6 + (f7
        + Seq::<u8>::empty())))))));
}

/// A sealed envelope whose payload is replaced by one with another checksum
/// no longer verifies.
pub proof fn lemma_changed_checksum_is_noticed(m: MessageView, content: Seq<u8>)
    requires
        checksum_matches(m),
        crc32c_of(content) != crc32c_of(m.content),
    ensures
        !checksum_matches(MessageView { content, ..m }),
{
}

/// Round trip: decoding the encoding of an envelope gives the envelope back.
pub proof fn lemma_decode_encode(m: MessageView)
    requires
        encodable(m),
    ensures
        decode_message(encode_message(m)) == Some(m),
{
    let crc = m.content_crc as u64;
    let t8 = Seq::<u8>::empty();
    let t7 = varint_field(TAG_CONTENT_CRC, crc) + t8;
    let t6 = varint_field(TAG_TIMESTAMP_US, m.timestamp_us) + t7;
    let t5 = bytes_field(TAG_CONTENT, m.content) + t6;
    let t4 = bytes_field(TAG_SENDER_TYPE, sender_bytes(m.sender_type)) + t5;
    let t3 = varint_field(TAG_MESSAGE_ID, m.message_id) + t4;
    let t2 = varint_field(TAG_GUEST_ID, m.guest_id) + t3;
    let t1 = bytes_field(TAG_SHOP_ID, encode_utf8(m.shop_id)) + t2;
    let a0 = blank_message();
    let a1 = PartialMessage { shop_id: m.shop_id, ..a0 };
    let a2 = PartialMessage { guest_id: m.guest_id, ..a1 };
    let a3 = PartialMessage { message_id: m.message_id, ..a2 };
    let a4 = PartialMessage { sender_type: Some(m.sender_type), ..a3 };
    let a5 = PartialMessage { content: m.content, ..a4 };
    let a6 = PartialMessage { timestamp_us: m.timestamp_us, ..a5 };
    let a7 = PartialMessage { content_crc: m.content_crc, ..a6 };
    assert(encode_message(m) == t1) by {
        lemma_encode_chain(m);
    }
    assert(parse_message(t1, a0) == parse_message(t2, a1)) by {
        lemma_parse_shop_id(m.shop_id, t2, a0);
    }
    assert(parse_message(t2, a1) == parse_message(t3, a2)) by {
        lemma_parse_varint_field(TAG_GUEST_ID, m.guest_id, t3, a1);
    }
    assert(parse_message(t3, a2) == parse_message(t4, a3)) by {
        lemma_parse_varint_field(TAG_MESSAGE_ID, m.message_id, t4, a2);
    }
    assert(parse_message(t4, a3) == parse_message(t5, a4)) by {
        lemma_parse_sender(m.sender_type, t5, a3);
    }
    assert(parse_message(t5, a4) == parse_message(t6, a5)) by {
        lemma_parse_content(m.content, t6, a4);
    }
    assert(parse_message(t6, a5) == parse_message(t7, a6)) by {
        lemma_parse_varint_field(TAG_TIMESTAMP_US, m.timestamp_us, t7, a5);
    }
    assert(parse_message(t7, a6) == parse_message(t8, a7)) by {
        lemma_parse_varint_field(TAG_CONTENT_CRC, crc, t8, a6);
    }
    assert(parse_message(t8, a7) == Some(a7)) by {
        reveal(parse_message);
    }
}

} // verus!
