use singlenet_attrs::attribute::{Attribute, AttributeFactory};
use singlenet_attrs::token::derive_token;

#[test]
fn test_keepalive_data() {
    let kp_data1 = Attribute::calc_keepalive_data(Some(1472483020), None);
    let kp_data2 = Attribute::calc_keepalive_data(Some(1472483020),
                                                  Some("ffb0b2af94693fd1ba4c93e6b9aebd3f"));
    assert_eq!(kp_data1, "ffb0b2af94693fd1ba4c93e6b9aebd3f");
    assert_eq!(kp_data2, "d0dce2b013c8adfac646a2917fdab802");
}

#[test]
fn derive_token_matches_the_protocol_vectors() {
    assert_eq!(derive_token(1472483020, "llwl".as_bytes()),
               "ffb0b2af94693fd1ba4c93e6b9aebd3f");
    assert_eq!(derive_token(1472483020, "ffb0b2af94693fd1ba4c93e6b9aebd3f".as_bytes()),
               "d0dce2b013c8adfac646a2917fdab802");
}

#[test]
fn token_is_deterministic() {
    let first = Attribute::calc_keepalive_data(Some(1472483020), Some("seed"));
    let second = Attribute::calc_keepalive_data(Some(1472483020), Some("seed"));
    assert_eq!(first, second);
}

#[test]
fn token_changes_with_timestamp() {
    let first = Attribute::calc_keepalive_data(Some(1472483020), None);
    let second = Attribute::calc_keepalive_data(Some(1472483021), None);
    assert_ne!(first, second);
}

#[test]
fn token_changes_with_previous_token() {
    let first = Attribute::calc_keepalive_data(Some(1472483020), None);
    let second = Attribute::calc_keepalive_data(Some(1472483020),
                                                Some("ffb0b2af94693fd1ba4c93e6b9aebd3f"));
    assert_ne!(first, second);
}

#[test]
fn default_timestamp_still_gives_a_hex_token() {
    let token = Attribute::calc_keepalive_data(None, None);
    assert_eq!(token.len(), 32);
    assert!(token.chars().all(|c| c.is_ascii_hexdigit() && !c.is_ascii_uppercase()));
}

#[test]
fn token_feeds_the_keepalive_data_attribute() {
    let token = Attribute::calc_keepalive_data(Some(1472483020), None);
    let attr = Attribute::keepalive_data(&token);
    let bytes = attr.as_bytes();
    assert_eq!(bytes[0], 0x14);
    assert_eq!(bytes.len(), 35);
    assert_eq!(&bytes[3..], "ffb0b2af94693fd1ba4c93e6b9aebd3f".as_bytes());
}
