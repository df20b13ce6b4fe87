use blog_core::oid::ObjectId;

#[test]
fn parse_reads_digit_pairs() {
    let id = ObjectId::parse("53e37d08776f724e42000000").unwrap();
    assert_eq!(id.bytes, [0x53, 0xe3, 0x7d, 0x08, 0x77, 0x6f, 0x72, 0x4e, 0x42, 0, 0, 0]);
}

#[test]
fn to_hex_writes_lower_case() {
    let id = ObjectId { bytes: [0, 1, 2, 3, 4, 5, 6, 7, 8, 9, 0xa, 0xbc] };
    assert_eq!(id.to_hex(), "00010203040506070809 0abc".replace(' ', ""));
    let id = ObjectId { bytes: [0xff; 12] };
    assert_eq!(id.to_hex(), "ffffffffffffffffffffffff");
}

#[test]
fn parse_undoes_to_hex() {
    let id = ObjectId { bytes: [0xde, 0xad, 0xbe, 0xef, 0, 1, 2, 3, 0x10, 0x20, 0x9a, 0xf0] };
    assert_eq!(id.to_hex(), "deadbeef0001020310209af0");
    assert_eq!(ObjectId::parse(&id.to_hex()), Some(id));
}

#[test]
fn parse_takes_upper_case() {
    let id = ObjectId::parse("7FFFFFFF00000000000000aB").unwrap();
    assert_eq!(id.bytes, [0x7f, 0xff, 0xff, 0xff, 0, 0, 0, 0, 0, 0, 0, 0xab]);
    assert_eq!(id.to_hex(), "7fffffff00000000000000ab");
}

#[test]
fn parse_wants_24_digits() {
    assert_eq!(ObjectId::parse(""), None);
    assert_eq!(ObjectId::parse("53e37d08776f724e4200000"), None);
    assert_eq!(ObjectId::parse("53e37d08776f724e420000000"), None);
    assert_eq!(ObjectId::parse("53e37d08776f724e42000000 "), None);
}

#[test]
fn parse_wants_digits_only() {
    assert_eq!(ObjectId::parse("53e37d08776f724e4200000g"), None);
    assert_eq!(ObjectId::parse("53e37d08776f724e4200000-"), None);
    assert_eq!(ObjectId::parse("0x3e37d08776f724e42000000"), None);
    assert_eq!(ObjectId::parse("53e37d08776f724e420000é"), None);
    assert_eq!(ObjectId::parse("ééééééééééééééééééééééé0"), None);
    assert_eq!(ObjectId::parse("éééééééééééé"), None);
}
