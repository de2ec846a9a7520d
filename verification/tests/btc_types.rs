use nash_protocol::errors::ProtocolError;
use nash_protocol::types::blockchain::btc::{Address, PublicKey};

const GENERATOR_COMPRESSED: &str =
    "0279be667ef9dcbbac55a06295ce870b07029bfcdb2dce28d959f2815b16f81798";
const GENERATOR_UNCOMPRESSED: &str = "0479be667ef9dcbbac55a06295ce870b07029bfcdb2dce28d959f2815b16f81798483ada7726a3c4655da4fbfc0e1108a8fd17b448a68554199c47d08ffb10d4b8";

#[test]
fn address() {
    let _btc_addr = Address::new("3DxbL9tNd2yCn6yqCghgkGYnUcJihMbjtw").unwrap();
}

#[test]
fn address_keeps_its_text() {
    let address = Address::new("3DxbL9tNd2yCn6yqCghgkGYnUcJihMbjtw").unwrap();
    assert_eq!(address.as_str(), "3DxbL9tNd2yCn6yqCghgkGYnUcJihMbjtw");
    assert_eq!(address.clone(), address);
}

#[test]
fn public_key_is_written_as_the_curve_library_writes_it() {
    let key = PublicKey::new(GENERATOR_COMPRESSED).unwrap();
    assert_eq!(key.to_hex(), GENERATOR_COMPRESSED);
}

#[test]
fn public_key_from_uncompressed_text_is_written_compressed() {
    let key = PublicKey::new(GENERATOR_UNCOMPRESSED).unwrap();
    assert_eq!(key.to_hex(), GENERATOR_COMPRESSED);
    assert_ne!(key.to_hex(), GENERATOR_UNCOMPRESSED);
    assert_eq!(key, PublicKey::new(GENERATOR_COMPRESSED).unwrap());
}

#[test]
fn public_key_refuses_what_is_no_point() {
    assert_eq!(PublicKey::new("not hex"), Err(ProtocolError::KeyConversionFailure));
    assert_eq!(PublicKey::new(""), Err(ProtocolError::KeyConversionFailure));
    assert_eq!(PublicKey::new("02"), Err(ProtocolError::KeyConversionFailure));
}

#[test]
fn public_key_has_no_address() {
    let key = PublicKey::new(GENERATOR_COMPRESSED).unwrap();
    assert_eq!(key.to_address(), Err(ProtocolError::KeyConversionFailure));
}
