use singlenet_attrs::attribute::{Attribute, AttributeFactory, AttributeVec};

#[test]
fn test_attribute_gen_bytes() {
    let un = Attribute::username("05802278989@HYXY.XY");
    let assert_data: &[u8] = &[1, 0, 22, 48, 53, 56, 48, 50, 50, 55, 56, 57, 56, 57, 64, 72, 89,
                               88, 89, 46, 88, 89];
    assert_eq!(&un.as_bytes()[..], assert_data);
}

#[test]
fn username_length_is_payload_plus_three() {
    let un = Attribute::username("05802278989@HYXY.XY");
    assert_eq!(un.length(), 22);
    assert_eq!(un.as_bytes().len(), 22);
}

#[test]
fn empty_payload_serializes_to_three_bytes() {
    let un = Attribute::username("");
    assert_eq!(&un.as_bytes()[..], &[1, 0, 3]);
}

#[test]
fn memory_size_payload_is_big_endian() {
    let mem = Attribute::memory_size(1024);
    let bytes = mem.as_bytes();
    assert_eq!(&bytes[..], &[0x0a, 0, 7, 0, 0, 4, 0]);
    assert_eq!(mem.length(), 7);
}

#[test]
fn keepalive_time_payload_is_big_endian() {
    let kt = Attribute::keepalive_time(0x01020304);
    assert_eq!(&kt.as_bytes()[..], &[0x12, 0, 7, 1, 2, 3, 4]);
}

#[test]
fn client_ip_address_carries_octets() {
    let ip = Attribute::client_ip_address([192, 168, 1, 20]);
    assert_eq!(&ip.as_bytes()[..], &[0x2, 0, 7, 192, 168, 1, 20]);
}

#[test]
fn mac_address_carries_four_raw_bytes() {
    let mac = Attribute::mac_address(&[0xde, 0xad, 0xbe, 0xef]);
    assert_eq!(&mac.as_bytes()[..], &[0x9, 0, 7, 0xde, 0xad, 0xbe, 0xef]);
}

#[test]
fn text_constructors_use_their_identifiers() {
    assert_eq!(Attribute::client_version("1.0").as_bytes()[0], 0x3);
    assert_eq!(Attribute::client_type("pc").as_bytes()[0], 0x4);
    assert_eq!(Attribute::os_version("8.1").as_bytes()[0], 0x5);
    assert_eq!(Attribute::os_language("zh-CN").as_bytes()[0], 0x6);
    assert_eq!(Attribute::cpu_info("i5").as_bytes()[0], 0x8);
    assert_eq!(Attribute::default_explorer("ie").as_bytes()[0], 0xb);
    assert_eq!(Attribute::keepalive_data("00").as_bytes()[0], 0x14);
}

#[test]
fn text_payload_is_utf8() {
    let ct = Attribute::client_type("中");
    assert_eq!(&ct.as_bytes()[..], &[0x4, 0, 6, 0xe4, 0xb8, 0xad]);
}

#[test]
fn new_keeps_every_part() {
    let a = Attribute::new("Custom", 0x7f, 0x0, 0x1, vec![9, 8, 7]);
    assert_eq!(&a.as_bytes()[..], &[0x7f, 0, 6, 9, 8, 7]);
    assert_eq!(a.length(), 6);
}

#[test]
fn block_is_concatenation_in_order() {
    let first = Attribute::username("user");
    let second = Attribute::memory_size(1024);
    let mut expected: Vec<u8> = Vec::new();
    expected.extend(first.as_bytes().iter());
    expected.extend(second.as_bytes().iter());
    let block: Vec<Attribute> = vec![first, second];
    assert_eq!(block.as_bytes(), expected);
}

#[test]
fn empty_block_serializes_to_nothing() {
    let block: Vec<Attribute> = Vec::new();
    assert_eq!(block.as_bytes(), Vec::<u8>::new());
}

#[test]
fn repeated_identifiers_are_kept() {
    let block: Vec<Attribute> = vec![
        Attribute::username("a"),
        Attribute::username("b"),
    ];
    let bytes = block.as_bytes();
    assert_eq!(bytes, vec![1, 0, 4, b'a', 1, 0, 4, b'b']);
}
