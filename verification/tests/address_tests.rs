use selectors::Address;

#[test]
fn address_to_string() {
    let address = Address::Public([0x01, 0x02, 0x03, 0xDD, 0xEE, 0xFF]);
    assert_eq!("FF:EE:DD:03:02:01", address.to_string());
}

#[test]
fn address_from_string_too_few_octets() {
    let str_rep = "01:02:03:04:05";
    let parsed = Address::public_from_str(&str_rep).map_err(|e| e.message());
    assert_eq!(parsed, Err("Too few octets".to_string()));
}

#[test]
fn address_from_string_too_many_octets() {
    let str_rep = "01:02:03:04:05:06:07";
    let parsed = Address::public_from_str(&str_rep).map_err(|e| e.message());
    assert_eq!(parsed, Err("Too many octets".to_string()));
}

#[test]
fn address_from_string_non_hex_chars() {
    let str_rep = "01:02:03:04:05:0G";
    let parsed = Address::public_from_str(&str_rep).map_err(|e| e.message());
    assert_eq!(parsed, Err("invalid digit found in string".to_string()));
}

#[test]
fn public_address_str_round_trip() {
    let address = Address::Public([0x0A, 0x1B, 0x2C, 0x3D, 0x4E, 0x5F]);
    let str_rep = address.to_string();
    assert_eq!(Address::public_from_str(&str_rep), Ok(address));
}

#[test]
fn random_address_str_round_trip() {
    let address = Address::Random([0x00, 0xFF, 0x10, 0x01, 0xAB, 0xCD]);
    let str_rep = address.to_string();
    assert_eq!(Address::random_from_str(&str_rep), Ok(address));
}

#[test]
fn address_bytes_are_little_endian() {
    // 0x010203040506 big-endian text becomes [6, 5, 4, 3, 2, 1].
    let parsed = Address::public_from_str("01:02:03:04:05:06").unwrap();
    assert_eq!(parsed, Address::Public([0x06, 0x05, 0x04, 0x03, 0x02, 0x01]));
}

#[test]
fn address_from_string_empty_octet() {
    let parsed = Address::public_from_str("01:02::04:05:06").map_err(|e| e.message());
    assert_eq!(parsed, Err("cannot parse integer from empty string".to_string()));
}

#[test]
fn address_from_string_octet_overflow() {
    let parsed = Address::public_from_str("100:02:03:04:05:06").map_err(|e| e.message());
    assert_eq!(parsed, Err("number too large to fit in target type".to_string()));
}

#[test]
fn address_type_strings() {
    assert_eq!(Address::Public([0; 6]).address_type_string(), "Public".to_string());
    assert_eq!(Address::Random([0; 6]).address_type_string(), "Random".to_string());
}
