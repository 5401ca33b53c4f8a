use turbochat::envelope::{ContractError, Message, SenderType};
use turbochat::sync::SyncResponse;

fn page(has_more: bool) -> SyncResponse {
    SyncResponse {
        messages: vec![
            Message::new(String::from("A"), 42, 1000, SenderType::Guest, b"hi".to_vec(), 5),
            Message::new(String::from("A"), 42, 1001, SenderType::Admin, b"hello".to_vec(), 6),
        ],
        server_timestamp_us: 0x0102_0304_0506_0708,
        has_more,
        crc32: 0,
    }
}

fn sealed_bytes(p: &SyncResponse) -> Vec<u8> {
    let mut buf: Vec<u8> = Vec::new();
    for m in &p.messages {
        buf.extend_from_slice(&m.encode_to_vec());
    }
    buf.extend_from_slice(&p.server_timestamp_us.to_le_bytes());
    if p.has_more {
        buf.push(1);
    }
    buf
}

#[test]
fn seal_covers_envelopes_timestamp_and_flag() {
    let last = page(false);
    assert_eq!(last.compute_crc(), crc32c::crc32c(&sealed_bytes(&last)));
    let more = page(true);
    assert_eq!(more.compute_crc(), crc32c::crc32c(&sealed_bytes(&more)));
    assert_ne!(last.compute_crc(), more.compute_crc());
}

#[test]
fn bytes_under_the_seal() {
    assert_eq!(page(false).sealed_input(), sealed_bytes(&page(false)));
    assert_eq!(page(true).sealed_input(), sealed_bytes(&page(true)));
    let empty =
        SyncResponse { messages: Vec::new(), server_timestamp_us: 258, has_more: true, crc32: 0 };
    assert_eq!(empty.sealed_input(), vec![2, 1, 0, 0, 0, 0, 0, 0, 1]);
}

#[test]
fn seal_of_an_empty_page() {
    let p = SyncResponse { messages: Vec::new(), server_timestamp_us: 1, has_more: false, crc32: 9 };
    assert_eq!(p.compute_crc(), crc32c::crc32c(&[1, 0, 0, 0, 0, 0, 0, 0]));
    let q = SyncResponse { messages: Vec::new(), server_timestamp_us: 1, has_more: true, crc32: 9 };
    assert_eq!(q.compute_crc(), crc32c::crc32c(&[1, 0, 0, 0, 0, 0, 0, 0, 1]));
}

#[test]
fn seal_does_not_depend_on_the_stored_seal() {
    let mut p = page(true);
    let before = p.compute_crc();
    p.crc32 = 12345;
    assert_eq!(p.compute_crc(), before);
}

#[test]
fn finalize_then_verify() {
    let mut p = page(true);
    let expected = p.compute_crc();
    assert_eq!(
        p.verify_crc(),
        Err(ContractError::CrcMismatch { expected: 0, actual: expected })
    );
    p.finalize();
    assert_eq!(p.crc32, expected);
    assert_eq!(p.verify_crc(), Ok(()));
    assert_eq!(p.messages, page(true).messages);
    assert_eq!(p.server_timestamp_us, page(true).server_timestamp_us);
    assert!(p.has_more);
}

#[test]
fn tampering_breaks_the_seal() {
    let mut p = page(false);
    p.finalize();
    let sealed = p.crc32;
    let mut t = p.clone();
    t.messages[1].content[0] ^= 0x20;
    assert_eq!(
        t.verify_crc(),
        Err(ContractError::CrcMismatch { expected: sealed, actual: t.compute_crc() })
    );
    let mut t = p.clone();
    t.has_more = true;
    assert!(t.verify_crc().is_err());
    let mut t = p.clone();
    t.server_timestamp_us += 1;
    assert!(t.verify_crc().is_err());
    let mut t = p.clone();
    t.messages.swap(0, 1);
    assert!(t.verify_crc().is_err());
    let mut t = p.clone();
    t.messages.pop();
    assert!(t.verify_crc().is_err());
}

#[test]
fn wire_form_of_a_page() {
    let mut p = page(true);
    p.finalize();
    let mut expected: Vec<u8> = Vec::new();
    for m in &p.messages {
        let item = m.encode_to_vec();
        expected.push(0x0a);
        prost::encoding::encode_varint(item.len() as u64, &mut expected);
        expected.extend_from_slice(&item);
    }
    prost::encoding::uint64::encode(2, &p.server_timestamp_us, &mut expected);
    prost::encoding::bool::encode(3, &true, &mut expected);
    prost::encoding::uint32::encode(4, &p.crc32, &mut expected);
    assert_eq!(p.encode_to_vec(), expected);
}

#[test]
fn wire_form_of_an_empty_page() {
    let p = SyncResponse { messages: Vec::new(), server_timestamp_us: 0, has_more: false, crc32: 0 };
    assert_eq!(p.encode_to_vec(), Vec::<u8>::new());
    let q = SyncResponse { messages: Vec::new(), server_timestamp_us: 300, has_more: false, crc32: 1 };
    assert_eq!(q.encode_to_vec(), vec![0x10, 0xac, 0x02, 0x20, 0x01]);
}

#[test]
fn a_sealed_page_verifies() {
    let p = SyncResponse::sealed(page(false).messages, 77, false);
    assert_eq!(p.server_timestamp_us, 77);
    assert!(!p.has_more);
    assert_eq!(p.messages, page(false).messages);
    assert_eq!(p.verify_crc(), Ok(()));
    assert_eq!(p.crc32, p.compute_crc());
}
