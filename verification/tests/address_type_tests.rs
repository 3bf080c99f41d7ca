use rhoxy_socks::address::AddressType;

#[test]
fn test_address_type_from_u8() {
    assert_eq!(AddressType::from_u8(0x01), Some(AddressType::IPv4));
    assert_eq!(AddressType::from_u8(0x03), Some(AddressType::DomainName));
    assert_eq!(AddressType::from_u8(0x04), Some(AddressType::IPv6));
    assert_eq!(AddressType::from_u8(0x00), None);
    assert_eq!(AddressType::from_u8(0x02), None);
    assert_eq!(AddressType::from_u8(0x05), None);
    assert_eq!(AddressType::from_u8(0xFF), None);
}

#[test]
fn test_address_type_constants() {
    assert_eq!(AddressType::IPV4, 0x01);
    assert_eq!(AddressType::DOMAIN_NAME, 0x03);
    assert_eq!(AddressType::IPV6, 0x04);
}

#[test]
fn test_address_type_equality() {
    assert_eq!(AddressType::IPv4, AddressType::IPv4);
    assert_ne!(AddressType::IPv4, AddressType::IPv6);
    assert_ne!(AddressType::IPv4, AddressType::DomainName);
}

#[test]
fn test_address_type_debug() {
    let ipv4 = AddressType::IPv4;
    let debug_str = format!("{:?}", ipv4);
    assert_eq!(debug_str, "IPv4");
}

#[test]
fn test_address_type_clone() {
    let original = AddressType::IPv6;
    let cloned = original.clone();
    assert_eq!(original, cloned);
}

#[test]
fn test_address_type_copy() {
    let original = AddressType::DomainName;
    let copied = original;
    assert_eq!(original, copied);
}
