//! What the durable store is asked and what its answers mean: request
//! addresses, the row shape of envelopes and guests, and the conversions
//! between rows and values. Sending the requests is left to the caller.

use vstd::prelude::*;
use vstd::string::*;
use crate::envelope::{message_views, ContractError, Message, MessageView, SenderType};
use crate::session::{decimal, push_decimal};

verus! {

/// The text that standard base64 with padding gives for a byte string, as
/// `base64::engine::general_purpose::STANDARD` encodes it.
pub uninterp spec fn base64_text(data: Seq<u8>) -> Seq<char>;

/// The byte string that a text stands for in standard base64 with padding,
/// as `base64::engine::general_purpose::STANDARD` decodes it; `None` for a
/// text that it refuses.
pub uninterp spec fn base64_bytes(text: Seq<char>) -> Option<Seq<u8>>;

/// Calls `Engine::encode` on the `STANDARD` engine, which turns bytes into
/// their base64 text. It panics only when the length of the text would not
/// fit in `usize`, which the bound on the input rules out.
#[verifier::external_body]
pub(crate) fn base64_encode(data: &[u8]) -> (text: String)
    requires
        data@.len() <= usize::MAX / 2,
    ensures
        text@ == base64_text(data@),
{
    base64::Engine::encode(&base64::engine::general_purpose::STANDARD, data)
}

/// Calls `Engine::decode` on the `STANDARD` engine, which gives the bytes of
/// a base64 text or an error for a text that is not base64.
#[verifier::external_body]
pub(crate) fn base64_decode(text: &str) -> (r: Option<Vec<u8>>)
    ensures
        match r {
            Some(bytes) => base64_bytes(text@) == Some(bytes@),
            None => base64_bytes(text@) is None,
        },
{
    match base64::Engine::decode(&base64::engine::general_purpose::STANDARD, text) {
        Ok(bytes) => Some(bytes),
        Err(_) => None,
    }
}

/// An envelope as a row of the store holds it: numbers as signed integers,
/// the sender kind by name, the payload as base64 text.
#[derive(Clone, Debug, PartialEq, Eq)]
pub struct MessageRow {
    pub shop_id: String,
    pub guest_id: i64,
    pub message_id: i64,
    pub sender_type: String,
    pub content: String,
    pub timestamp_us: i64,
    pub content_crc: i64,
}

/// A guest as the relay knows it.
#[derive(Clone, Debug, PartialEq, Eq)]
pub struct Guest {
    pub shop_id: String,
    pub guest_id: u64,
    pub guest_name: String,
    pub created_at: u64,
    pub last_seen: u64,
}

/// A guest as a row of the store holds it.
#[derive(Clone, Debug, PartialEq, Eq)]
pub struct GuestRow {
    pub shop_id: String,
    pub guest_id: i64,
    pub guest_name: String,
    pub created_at: i64,
    pub last_seen: i64,
}

/// The signed number with the same 64 bits.
pub open spec fn signed_of(v: u64) -> i64 {
    if v <= i64::MAX {
        v as i64
    } else {
        (v - 0x1_0000_0000_0000_0000) as i64
    }
}

/// The unsigned number with the same 64 bits.
pub open spec fn unsigned_of(v: i64) -> u64 {
    if v >= 0 {
        v as u64
    } else {
        (v + 0x1_0000_0000_0000_0000) as u64
    }
}

/// A checksum as the store holds it: the signed number with the same 32
/// bits.
pub open spec fn stored_crc_of(crc: u32) -> i64 {
    if crc <= i32::MAX {
        crc as i64
    } else {
        (crc - 0x1_0000_0000) as i64
    }
}

/// The checksum in a stored number: its low 32 bits.
pub open spec fn crc_of_stored(v: i64) -> u32 {
    (unsigned_of(v) % 0x1_0000_0000) as u32
}

/// The name under which the store holds a sender kind.
pub open spec fn sender_text(s: SenderType) -> Seq<char> {
    match s {
        SenderType::Admin => "admin"@,
        SenderType::Guest => "guest"@,
    }
}

/// The sender kind that a stored name stands for, if any.
pub open spec fn sender_of_text(text: Seq<char>) -> Option<SenderType> {
    if text == "admin"@ {
        Some(SenderType::Admin)
    } else if text == "guest"@ {
        Some(SenderType::Guest)
    } else {
        None
    }
}

/// The decimal numeral of a signed number.
pub open spec fn signed_decimal(v: int) -> Seq<char> {
    if v < 0 {
        "-"@ + decimal((-v) as nat)
    } else {
        decimal(v as nat)
    }
}

/// Whether a row holds this envelope, given the base64 text of its payload.
pub open spec fn row_holds(row: MessageRow, m: MessageView, content: Seq<char>) -> bool {
    &&& row.shop_id@ == m.shop_id
    &&& row.guest_id == signed_of(m.guest_id)
    &&& row.message_id == signed_of(m.message_id)
    &&& row.sender_type@ == sender_text(m.sender_type)
    &&& row.content@ == content
    &&& row.timestamp_us == signed_of(m.timestamp_us)
    &&& row.content_crc == stored_crc_of(m.content_crc)
}

/// The envelope that a row holds, given the bytes of its payload. `None`
/// when the sender kind has no known name.
pub open spec fn message_of_row(row: MessageRow, content: Seq<u8>) -> Option<MessageView> {
    match sender_of_text(row.sender_type@) {
        Some(s) => Some(
            MessageView {
                shop_id: row.shop_id@,
                guest_id: unsigned_of(row.guest_id),
                message_id: unsigned_of(row.message_id),
                sender_type: s,
                content,
                timestamp_us: unsigned_of(row.timestamp_us),
                content_crc: crc_of_stored(row.content_crc),
            },
        ),
        None => None,
    }
}

/// Stored numbers come back as they went in.
pub proof fn lemma_stored_numbers_round_trip(v: u64, crc: u32)
    ensures
        unsigned_of(signed_of(v)) == v,
        crc_of_stored(stored_crc_of(crc)) == crc,
{
}

/// Stored sender names come back as they went in.
pub proof fn lemma_stored_sender_round_trip(s: SenderType)
    ensures
        sender_of_text(sender_text(s)) == Some(s),
{
    reveal_strlit("admin");
    reveal_strlit("guest");
    assert("admin"@[0] != "guest"@[0]);
}

/// The signed number with the same bits as `v`.
pub fn to_signed(v: u64) -> (r: i64)
    ensures
        r == signed_of(v),
{
    if v <= 0x7fff_ffff_ffff_ffff {
        v as i64
    } else {
        let low: u64 = v - 0x8000_0000_0000_0000;
        (low as i64) - 0x7fff_ffff_ffff_ffff - 1
    }
}

/// The unsigned number with the same bits as `v`.
pub fn to_unsigned(v: i64) -> (r: u64)
    ensures
        r == unsigned_of(v),
{
    if v >= 0 {
        v as u64
    } else {
        let low: i64 = (v + 0x7fff_ffff_ffff_ffff) + 1;
        (low as u64) + 0x8000_0000_0000_0000
    }
}

/// The stored form of a checksum.
pub fn to_stored_crc(crc: u32) -> (r: i64)
    ensures
        r == stored_crc_of(crc),
{
    if crc <= 0x7fff_ffff {
        crc as i64
    } else {
        (crc as i64) - 0x1_0000_0000
    }
}

/// The checksum in a stored number.
pub fn from_stored_crc(v: i64) -> (r: u32)
    ensures
        r == crc_of_stored(v),
{
    (to_unsigned(v) % 0x1_0000_0000) as u32
}

/// The stored name of a sender kind.
pub fn sender_label(s: SenderType) -> (text: &'static str)
    ensures
        text@ == sender_text(s),
{
    match s {
        SenderType::Admin => "admin",
        SenderType::Guest => "guest",
    }
}

/// The sender kind of a stored name.
pub fn parse_sender_label(text: &str) -> (r: Option<SenderType>)
    ensures
        r == sender_of_text(text@),
{
    let owned = text.to_owned();
    if owned == String::from_str("admin") {
        Some(SenderType::Admin)
    } else if owned == String::from_str("guest") {
        Some(SenderType::Guest)
    } else {
        None
    }
}

/// Appends the decimal numeral of a signed number to `out`.
pub fn push_signed_decimal(v: i64, out: &mut String)
    ensures
        final(out)@ == old(out)@ + signed_decimal(v as int),
{
    if v < 0 {
        out.append("-");
        let magnitude: u64 = ((-(v + 1)) as u64) + 1;
        push_decimal(magnitude, out);
    } else {
        push_decimal(v as u64, out);
    }
}

/// The row for an envelope whose payload has this base64 text.
pub fn row_with_content(m: &Message, content: String) -> (row: MessageRow)
    ensures
        row_holds(row, m@, content@),
{
    MessageRow {
        shop_id: m.shop_id.clone(),
        guest_id: to_signed(m.guest_id),
        message_id: to_signed(m.message_id),
        sender_type: String::from_str(sender_label(m.sender_type)),
        content,
        timestamp_us: to_signed(m.timestamp_us),
        content_crc: to_stored_crc(m.content_crc),
    }
}

/// The row to insert for an envelope. A payload too long to put into base64
/// text is refused.
pub fn message_to_row(m: &Message) -> (r: Result<MessageRow, ContractError>)
    ensures
        m@.content.len() <= usize::MAX / 2 ==> ({
            &&& r matches Ok(row)
            &&& row_holds(row, m@, base64_text(m@.content))
        }),
        m@.content.len() > usize::MAX / 2 ==> ({
            &&& r matches Err(ContractError::DbError(why))
            &&& why@ == "Content too long"@
        }),
{
    if m.content.len() > usize::MAX / 2 {
        return Err(ContractError::DbError(String::from_str("Content too long")));
    }
    Ok(row_with_content(m, base64_encode(m.content.as_slice())))
}

/// What reading a row gives when its payload text decoded to `content`, or
/// was found not to be base64 (`None`): the envelope, or the reason why there
/// is none.
pub open spec fn read_row_with(row: MessageRow, content: Option<Seq<u8>>) -> Result<
    MessageView,
    Seq<char>,
> {
    match content {
        None => Err("Base64 decode failed"@),
        Some(bytes) => match message_of_row(row, bytes) {
            Some(v) => Ok(v),
            None => Err("Unknown sender type"@),
        },
    }
}

/// What reading a row gives.
pub open spec fn read_row(row: MessageRow) -> Result<MessageView, Seq<char>> {
    read_row_with(row, base64_bytes(row.content@))
}

/// Whether `r` is the outcome `expected`: that envelope, or a store error
/// with that reason.
pub open spec fn is_outcome(
    r: Result<Message, ContractError>,
    expected: Result<MessageView, Seq<char>>,
) -> bool {
    match expected {
        Ok(v) => r matches Ok(m) && m@ == v,
        Err(why) => r matches Err(ContractError::DbError(text)) && text@ == why,
    }
}

/// The envelope of a row whose payload text was decoded to `content`, or
/// found not to be base64 (`None`).
pub fn message_with_content(row: &MessageRow, content: Option<Vec<u8>>) -> (r: Result<
    Message,
    ContractError,
>)
    ensures
        is_outcome(
            r,
            read_row_with(
                *row,
                match content {
                    Some(bytes) => Some(bytes@),
                    None => None,
                },
            ),
        ),
{
    let bytes = match content {
        Some(bytes) => bytes,
        None => {
            return Err(ContractError::DbError(String::from_str("Base64 decode failed")));
        },
    };
    let sender = match parse_sender_label(row.sender_type.as_str()) {
        Some(s) => s,
        None => {
            return Err(ContractError::DbError(String::from_str("Unknown sender type")));
        },
    };
    Ok(
        Message {
            shop_id: row.shop_id.clone(),
            guest_id: to_unsigned(row.guest_id),
            message_id: to_unsigned(row.message_id),
            sender_type: sender,
            content: bytes,
            timestamp_us: to_unsigned(row.timestamp_us),
            content_crc: from_stored_crc(row.content_crc),
        },
    )
}

/// The envelope that a fetched row holds.
pub fn message_from_row(row: &MessageRow) -> (r: Result<Message, ContractError>)
    ensures
        is_outcome(r, read_row(*row)),
{
    let content = base64_decode(row.content.as_str());
    message_with_content(row, content)
}

/// The envelopes of fetched rows, in the order of the rows. The first row
/// that cannot be read fails the whole page, with its reason.
pub fn messages_from_rows(rows: &Vec<MessageRow>) -> (r: Result<Vec<Message>, ContractError>)
    ensures
        (forall|i: int| 0 <= i < rows@.len() ==> (#[trigger] read_row(rows@[i])) is Ok) ==> ({
            &&& r matches Ok(ms)
            &&& ms@.len() == rows@.len()
            &&& forall|i: int|
                0 <= i < rows@.len() ==> #[trigger] read_row(rows@[i]) == Ok::<
                    MessageView,
                    Seq<char>,
                >(ms@[i]@)
        }),
        forall|i: int|
            0 <= i < rows@.len() && (#[trigger] read_row(rows@[i])) is Err && (forall|k: int|
                0 <= k < i ==> (#[trigger] read_row(rows@[k])) is Ok) ==> ({
                &&& r matches Err(ContractError::DbError(text))
                &&& read_row(rows@[i]) == Err::<MessageView, Seq<char>>(text@)
            }),
{
    let mut out: Vec<Message> = Vec::new();
    let mut i: usize = 0;
    while i < rows.len()
        invariant
            i <= rows@.len(),
            out@.len() == i,
            forall|k: int|
                0 <= k < i ==> #[trigger] read_row(rows@[k]) == Ok::<MessageView, Seq<char>>(
                    out@[k]@,
                ),
        decreases rows@.len() - i,
    {
        match message_from_row(&rows[i]) {
            Ok(m) => {
                out.push(m);
            },
            Err(e) => {
                return Err(e);
            },
        }
        i = i + 1;
    }
    Ok(out)
}

/// Whether envelopes are a page of one guest's history as the store owes it:
/// all of that tenant and guest, all behind `after_id`, in strictly ascending
/// order of `message_id`, and no more than `limit`.
pub open spec fn is_history_page(
    ms: Seq<MessageView>,
    shop_id: Seq<char>,
    guest_id: u64,
    after_id: u64,
    limit: u32,
) -> bool {
    &&& ms.len() <= limit
    &&& forall|i: int|
        0 <= i < ms.len() ==> {
            &&& (#[trigger] ms[i]).shop_id == shop_id
            &&& ms[i].guest_id == guest_id
            &&& ms[i].message_id > after_id
        }
    &&& forall|i: int, j: int|
        0 <= i < j < ms.len() ==> (#[trigger] ms[i]).message_id < (#[trigger] ms[j]).message_id
}

/// Checks an answer of the store against what a history page has to be.
pub fn check_history_page(
    ms: &Vec<Message>,
    shop_id: &str,
    guest_id: u64,
    after_id: u64,
    limit: u32,
) -> (ok: bool)
    ensures
        ok == is_history_page(
            message_views(ms@),
            shop_id@,
            guest_id,
            after_id,
            limit,
        ),
{
    let ghost views = message_views(ms@);
    if ms.len() > limit as usize {
        return false;
    }
    let shop = shop_id.to_owned();
    let mut i: usize = 0;
    while i < ms.len()
        invariant
            i <= ms@.len(),
            ms@.len() <= limit,
            shop@ == shop_id@,
            views == message_views(ms@),
            forall|k: int|
                0 <= k < i ==> {
                    &&& (#[trigger] views[k]).shop_id == shop_id@
                    &&& views[k].guest_id == guest_id
                    &&& views[k].message_id > after_id
                },
            forall|a: int, b: int|
                0 <= a < b < i ==> (#[trigger] views[a]).message_id < (
                #[trigger] views[b]).message_id,
        decreases ms@.len() - i,
    {
        let m = &ms[i];
        if m.shop_id != shop || m.guest_id != guest_id || m.message_id <= after_id {
            return false;
        }
        if i > 0 {
            if ms[i - 1].message_id >= m.message_id {
                return false;
            }
            assert forall|a: int| 0 <= a < i implies (#[trigger] views[a]).message_id
                < views[i as int].message_id by {
                if a < i - 1 {
                    assert(views[a].message_id < views[i - 1].message_id);
                }
            }
        }
        i = i + 1;
    }
    true
}

/// The row to upsert for a guest seen at `now_us`.
pub fn guest_row(shop_id: &str, guest_id: u64, name: &str, now_us: i64) -> (row: GuestRow)
    ensures
        row.shop_id@ == shop_id@,
        row.guest_id == signed_of(guest_id),
        row.guest_name@ == name@,
        row.created_at == now_us,
        row.last_seen == now_us,
{
    GuestRow {
        shop_id: String::from_str(shop_id),
        guest_id: to_signed(guest_id),
        guest_name: String::from_str(name),
        created_at: now_us,
        last_seen: now_us,
    }
}

/// The guest that a fetched row holds.
pub fn guest_from_row(row: &GuestRow) -> (g: Guest)
    ensures
        g.shop_id@ == row.shop_id@,
        g.guest_id == unsigned_of(row.guest_id),
        g.guest_name@ == row.guest_name@,
        g.created_at == unsigned_of(row.created_at),
        g.last_seen == unsigned_of(row.last_seen),
{
    Guest {
        shop_id: row.shop_id.clone(),
        guest_id: to_unsigned(row.guest_id),
        guest_name: row.guest_name.clone(),
        created_at: to_unsigned(row.created_at),
        last_seen: to_unsigned(row.last_seen),
    }
}

/// The answer to a credential check: the shop's name when the pin that was
/// given is the pin that is stored, nothing otherwise.
pub fn check_pin(stored_pin: &str, shop_name: &str, pin: &str) -> (r: Option<String>)
    ensures
        stored_pin@ == pin@ ==> ({
            &&& r matches Some(name)
            &&& name@ == shop_name@
        }),
        stored_pin@ != pin@ ==> r is None,
{
    if stored_pin.to_owned() == pin.to_owned() {
        Some(String::from_str(shop_name))
    } else {
        None
    }
}

/// The address of a keyspace of the store.
pub open spec fn base_url_of(db_id: Seq<char>, region: Seq<char>, keyspace: Seq<char>) -> Seq<
    char,
> {
    "https://"@ + db_id + "-"@ + region + ".apps.astra.datastax.com/api/rest/v2/keyspaces/"@
        + keyspace
}

/// The address that lists one guest's envelopes behind `after_id`.
pub open spec fn messages_query_of(
    base: Seq<char>,
    shop_id: Seq<char>,
    guest_id: u64,
    after_id: u64,
    limit: u32,
) -> Seq<char> {
    base + "/messages?where={\"shop_id\":{\"$eq\":\""@ + shop_id + "\"},\"guest_id\":{\"$eq\":"@
        + signed_decimal(signed_of(guest_id) as int) + "},\"message_id\":{\"$gt\":"@
        + signed_decimal(signed_of(after_id) as int) + "}}&page-size="@ + decimal(limit as nat)
}

/// The address of a keyspace of the store.
pub fn base_url(db_id: &str, region: &str, keyspace: &str) -> (url: String)
    ensures
        url@ == base_url_of(db_id@, region@, keyspace@),
{
    let mut url = String::from_str("https://");
    url.append(db_id);
    url.append("-");
    url.append(region);
    url.append(".apps.astra.datastax.com/api/rest/v2/keyspaces/");
    url.append(keyspace);
    url
}

/// The address of one shop's record.
pub fn shop_url(base: &str, shop_id: &str) -> (url: String)
    ensures
        url@ == base@ + "/shops/"@ + shop_id@,
{
    let mut url = String::from_str(base);
    url.append("/shops/");
    url.append(shop_id);
    url
}

/// The address to which guest rows are sent.
pub fn guests_url(base: &str) -> (url: String)
    ensures
        url@ == base@ + "/guests"@,
{
    let mut url = String::from_str(base);
    url.append("/guests");
    url
}

/// The address that lists a shop's guests.
pub fn guests_query_url(base: &str, shop_id: &str) -> (url: String)
    ensures
        url@ == base@ + "/guests?where={\"shop_id\":{\"$eq\":\""@ + shop_id@ + "\"}}"@,
{
    let mut url = String::from_str(base);
    url.append("/guests?where={\"shop_id\":{\"$eq\":\"");
    url.append(shop_id);
    url.append("\"}}");
    url
}

/// The address to which envelope rows are sent.
pub fn messages_url(base: &str) -> (url: String)
    ensures
        url@ == base@ + "/messages"@,
{
    let mut url = String::from_str(base);
    url.append("/messages");
    url
}

/// The address that lists one guest's envelopes behind `after_id`, `limit`
/// to a page.
pub fn messages_query_url(base: &str, shop_id: &str, guest_id: u64, after_id: u64, limit: u32) -> (url:
    String)
    ensures
        url@ == messages_query_of(base@, shop_id@, guest_id, after_id, limit),
{
    let mut url = String::from_str(base);
    url.append("/messages?where={\"shop_id\":{\"$eq\":\"");
    url.append(shop_id);
    url.append("\"},\"guest_id\":{\"$eq\":");
    push_signed_decimal(to_signed(guest_id), &mut url);
    url.append("},\"message_id\":{\"$gt\":");
    push_signed_decimal(to_signed(after_id), &mut url);
    url.append("}}&page-size=");
    push_decimal(limit as u64, &mut url);
    url
}

} // verus!
