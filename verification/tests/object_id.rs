use pastebin::object_id::RecordId;

#[test]
fn parse_lower_case_id() {
    let r = RecordId::parse("0123456789abcdef01234567").unwrap();
    assert_eq!(
        r.bytes,
        [0x01, 0x23, 0x45, 0x67, 0x89, 0xab, 0xcd, 0xef, 0x01, 0x23, 0x45, 0x67]
    );
}

#[test]
fn parse_upper_case_id() {
    let r = RecordId::parse("FFEEDDCCBBAA998877665544").unwrap();
    assert_eq!(
        r.bytes,
        [0xff, 0xee, 0xdd, 0xcc, 0xbb, 0xaa, 0x99, 0x88, 0x77, 0x66, 0x55, 0x44]
    );
}

#[test]
fn parse_rejects_bad_text() {
    assert!(RecordId::parse("").is_none());
    assert!(RecordId::parse("0123456789abcdef0123456").is_none());
    assert!(RecordId::parse("0123456789abcdef012345678").is_none());
    assert!(RecordId::parse("0123456789abcdef0123456g").is_none());
    assert!(RecordId::parse("0123456789abcdef012345é").is_none());
    assert!(RecordId::parse("not an id").is_none());
}

#[test]
fn to_hex_is_lower_case() {
    let r = RecordId { bytes: [0xab, 0x01, 0, 0, 0, 0, 0, 0, 0, 0, 0xfe, 0x10] };
    assert_eq!(r.to_hex(), "ab010000000000000000fe10");
    assert_eq!(r.to_hex(), expected_hex(&r.bytes));
}

fn expected_hex(b: &[u8]) -> String {
    b.iter().map(|x| format!("{:02x}", x)).collect()
}

#[test]
fn hex_text_parses_back() {
    let r = RecordId { bytes: [7, 0, 255, 16, 32, 48, 64, 80, 96, 112, 128, 144] };
    let text = r.to_hex();
    assert_eq!(text, "0700ff102030405060708090");
    assert_eq!(RecordId::parse(&text), Some(r));
}

#[test]
fn parsed_text_prints_back_in_lower_case() {
    let r = RecordId::parse("65A1B2C3D4E5F60718293A4B").unwrap();
    assert_eq!(r.to_hex(), "65a1b2c3d4e5f60718293a4b");
}

#[test]
fn lookup_key_keeps_parsed_id() {
    let r = RecordId::lookup_key("65a1b2c3d4e5f60718293a4b");
    assert_eq!(r.to_hex(), "65a1b2c3d4e5f60718293a4b");
    let fresh = RecordId::lookup_key("nope");
    assert_eq!(fresh.to_hex().len(), 24);
}
