use turbochat::envelope::{ContractError, Message, SenderType};
use turbochat::storage::{
    base_url, check_history_page, check_pin, from_stored_crc, guest_from_row, guest_row, guests_query_url, guests_url,
    message_from_row, message_to_row, message_with_content, messages_from_rows,
    messages_query_url, messages_url, parse_sender_label, push_signed_decimal, row_with_content,
    sender_label, shop_url, to_signed, to_stored_crc, to_unsigned, Guest, GuestRow, MessageRow,
};

fn stored(content: &str, sender: &str) -> MessageRow {
    MessageRow {
        shop_id: String::from("A"),
        guest_id: 42,
        message_id: 1000,
        sender_type: String::from(sender),
        content: String::from(content),
        timestamp_us: 7,
        content_crc: -1,
    }
}

#[test]
fn numbers_keep_their_bits() {
    assert_eq!(to_signed(0), 0);
    assert_eq!(to_signed(42), 42);
    assert_eq!(to_signed(i64::MAX as u64), i64::MAX);
    assert_eq!(to_signed(1 << 63), i64::MIN);
    assert_eq!(to_signed(u64::MAX), -1);
    assert_eq!(to_unsigned(0), 0);
    assert_eq!(to_unsigned(i64::MAX), i64::MAX as u64);
    assert_eq!(to_unsigned(i64::MIN), 1 << 63);
    assert_eq!(to_unsigned(-1), u64::MAX);
    for v in [0u64, 1, 1 << 62, (1 << 63) - 1, 1 << 63, u64::MAX - 1, u64::MAX] {
        assert_eq!(to_signed(v), v as i64);
        assert_eq!(to_unsigned(to_signed(v)), v);
    }
}

#[test]
fn checksums_keep_their_bits() {
    assert_eq!(to_stored_crc(0), 0);
    assert_eq!(to_stored_crc(0x7fff_ffff), 0x7fff_ffff);
    assert_eq!(to_stored_crc(0x8000_0000), -0x8000_0000);
    assert_eq!(to_stored_crc(u32::MAX), -1);
    assert_eq!(from_stored_crc(-1), u32::MAX);
    assert_eq!(from_stored_crc(0x1_0000_0005), 5);
    assert_eq!(from_stored_crc(i64::MIN), 0);
    for c in [0u32, 1, 0x7fff_ffff, 0x8000_0000, 0xdead_beef, u32::MAX] {
        assert_eq!(to_stored_crc(c), (c as i32) as i64);
        assert_eq!(from_stored_crc(to_stored_crc(c)), c);
    }
}

#[test]
fn sender_labels() {
    assert_eq!(sender_label(SenderType::Admin), "admin");
    assert_eq!(sender_label(SenderType::Guest), "guest");
    assert_eq!(parse_sender_label("admin"), Some(SenderType::Admin));
    assert_eq!(parse_sender_label("guest"), Some(SenderType::Guest));
    assert_eq!(parse_sender_label("Guest"), None);
    assert_eq!(parse_sender_label(""), None);
}

#[test]
fn signed_numerals() {
    for v in [0i64, 7, -7, 1234, -1234, i64::MAX, i64::MIN, -1] {
        let mut out = String::from("=");
        push_signed_decimal(v, &mut out);
        assert_eq!(out, format!("={}", v));
    }
}

#[test]
fn row_of_an_envelope() {
    let m = Message {
        shop_id: String::from("A"),
        guest_id: u64::MAX,
        message_id: 1000,
        sender_type: SenderType::Guest,
        content: b"hi".to_vec(),
        timestamp_us: 7,
        content_crc: 0xffff_fffe,
    };
    let row = message_to_row(&m).unwrap();
    assert_eq!(
        row,
        MessageRow {
            shop_id: String::from("A"),
            guest_id: -1,
            message_id: 1000,
            sender_type: String::from("guest"),
            content: String::from("aGk="),
            timestamp_us: 7,
            content_crc: -2,
        }
    );
    assert_eq!(message_from_row(&row), Ok(m.clone()));
    assert_eq!(row_with_content(&m, String::from("aGk=")), row);
}

#[test]
fn base64_of_the_content() {
    let cases: Vec<(&[u8], &str)> = vec![
        (b"", ""),
        (b"f", "Zg=="),
        (b"fo", "Zm8="),
        (b"foo", "Zm9v"),
        (b"hello world~", "aGVsbG8gd29ybGR+"),
        (&[0xfb, 0xff], "+/8="),
    ];
    for (bytes, text) in cases {
        let m = Message::new(String::from("A"), 1, 1, SenderType::Admin, bytes.to_vec(), 0);
        let row = message_to_row(&m).unwrap();
        assert_eq!(row.content, text);
        assert_eq!(message_from_row(&row), Ok(m));
    }
}

#[test]
fn rows_that_cannot_be_read() {
    assert!(matches!(message_from_row(&stored("not base64!", "guest")), Err(ContractError::DbError(_))));
    assert!(matches!(message_from_row(&stored("aGk", "guest")), Err(ContractError::DbError(_))));
    assert!(matches!(message_from_row(&stored("aGk=", "robot")), Err(ContractError::DbError(_))));
    assert!(matches!(message_from_row(&stored("aGk=", "")), Err(ContractError::DbError(_))));
    assert!(matches!(
        message_with_content(&stored("aGk=", "guest"), None),
        Err(ContractError::DbError(_))
    ));
    let m = message_with_content(&stored("ignored", "admin"), Some(vec![1, 2])).unwrap();
    assert_eq!(m.content, vec![1, 2]);
    assert_eq!(m.sender_type, SenderType::Admin);
    assert_eq!(m.content_crc, u32::MAX);
}

fn entry(shop: &str, guest: u64, id: u64) -> Message {
    Message::new(String::from(shop), guest, id, SenderType::Guest, b"m".to_vec(), id)
}

#[test]
fn history_pages() {
    let page = vec![entry("A", 42, 1001), entry("A", 42, 1002), entry("A", 42, 1005)];
    assert!(check_history_page(&page, "A", 42, 1000, 3));
    assert!(check_history_page(&page, "A", 42, 1000, 50));
    assert!(check_history_page(&page, "A", 42, 0, 3));
    assert!(check_history_page(&Vec::new(), "A", 42, 1000, 0));
    assert!(!check_history_page(&page, "A", 42, 1000, 2));
    assert!(!check_history_page(&page, "A", 42, 1001, 3));
    assert!(!check_history_page(&page, "B", 42, 1000, 3));
    assert!(!check_history_page(&page, "A", 43, 1000, 3));
    let unordered = vec![entry("A", 42, 1002), entry("A", 42, 1001)];
    assert!(!check_history_page(&unordered, "A", 42, 1000, 5));
    let repeated = vec![entry("A", 42, 1001), entry("A", 42, 1001)];
    assert!(!check_history_page(&repeated, "A", 42, 1000, 5));
    let mixed = vec![entry("A", 42, 1001), entry("A", 7, 1002)];
    assert!(!check_history_page(&mixed, "A", 42, 1000, 5));
    let late = vec![entry("A", 42, 1001), entry("A", 42, 1003), entry("A", 42, 1002)];
    assert!(!check_history_page(&late, "A", 42, 1000, 5));
}

#[test]
fn reasons_for_unreadable_rows() {
    assert_eq!(
        message_from_row(&stored("***", "guest")),
        Err(ContractError::DbError(String::from("Base64 decode failed")))
    );
    assert_eq!(
        message_from_row(&stored("aGk=", "robot")),
        Err(ContractError::DbError(String::from("Unknown sender type")))
    );
    assert_eq!(
        message_from_row(&stored("***", "robot")),
        Err(ContractError::DbError(String::from("Base64 decode failed")))
    );
}

#[test]
fn pages_of_rows() {
    let rows = vec![stored("aGk=", "guest"), stored("Zm9v", "admin")];
    let ms = messages_from_rows(&rows).unwrap();
    assert_eq!(ms.len(), 2);
    assert_eq!(ms[0].content, b"hi".to_vec());
    assert_eq!(ms[1].content, b"foo".to_vec());
    assert_eq!(ms[1].sender_type, SenderType::Admin);
    assert_eq!(messages_from_rows(&Vec::new()), Ok(Vec::new()));
    let rows = vec![stored("aGk=", "guest"), stored("%%%", "admin")];
    assert!(matches!(messages_from_rows(&rows), Err(ContractError::DbError(_))));
}

#[test]
fn guest_rows() {
    let row = guest_row("A", u64::MAX, "Guest #5", 99);
    assert_eq!(
        row,
        GuestRow {
            shop_id: String::from("A"),
            guest_id: -1,
            guest_name: String::from("Guest #5"),
            created_at: 99,
            last_seen: 99,
        }
    );
    assert_eq!(
        guest_from_row(&row),
        Guest {
            shop_id: String::from("A"),
            guest_id: u64::MAX,
            guest_name: String::from("Guest #5"),
            created_at: 99,
            last_seen: 99,
        }
    );
}

#[test]
fn pin_check() {
    assert_eq!(check_pin("1234", "My Shop", "1234"), Some(String::from("My Shop")));
    assert_eq!(check_pin("1234", "My Shop", "12345"), None);
    assert_eq!(check_pin("1234", "My Shop", ""), None);
    assert_eq!(check_pin("", "", ""), Some(String::new()));
}

#[test]
fn addresses() {
    let base = base_url("db1", "eu-west-1", "chat");
    assert_eq!(base, "https://db1-eu-west-1.apps.astra.datastax.com/api/rest/v2/keyspaces/chat");
    assert_eq!(shop_url("B", "demo"), "B/shops/demo");
    assert_eq!(guests_url("B"), "B/guests");
    assert_eq!(messages_url("B"), "B/messages");
    assert_eq!(guests_query_url("B", "demo"), "B/guests?where={\"shop_id\":{\"$eq\":\"demo\"}}");
    assert_eq!(
        messages_query_url("B", "demo", 42, 1000, 50),
        "B/messages?where={\"shop_id\":{\"$eq\":\"demo\"},\"guest_id\":{\"$eq\":42},\"message_id\":{\"$gt\":1000}}&page-size=50"
    );
    assert_eq!(
        messages_query_url("B", "demo", u64::MAX, 1 << 63, 0),
        format!(
            "B/messages?where={{\"shop_id\":{{\"$eq\":\"demo\"}},\"guest_id\":{{\"$eq\":{}}},\"message_id\":{{\"$gt\":{}}}}}&page-size={}",
            u64::MAX as i64,
            (1u64 << 63) as i64,
            0
        )
    );
}
