use indexer_service::hex::encode_hex;
use indexer_service::util::package_version;
use indexer_service::util::public_key;
use indexer_service::util::WalletError;

#[test]
fn test_encode_hex() {
    assert_eq!(encode_hex(&[]), "");
    assert_eq!(encode_hex(&[0x00]), "00");
    assert_eq!(encode_hex(&[0xde, 0xad, 0xbe, 0xef]), "deadbeef");
    assert_eq!(encode_hex(&[0x01, 0x23, 0x45, 0x67, 0x89, 0xab, 0xcd, 0xef]), "0123456789abcdef");
}

#[test]
fn test_public_key_resolves_wallet_address() {
    // The address controlled by the private key 1.
    let key = "0x0000000000000000000000000000000000000000000000000000000000000001";
    let addr = public_key(key).unwrap();
    assert_eq!(addr, "0x7e5f4552091a69125d5dfcb7b8c2659029395bdf");
    // The prefix is optional, and digits may be upper case.
    let bare = "0000000000000000000000000000000000000000000000000000000000000001";
    assert_eq!(public_key(bare).unwrap(), addr);
}

#[test]
fn test_public_key_agrees_with_direct_derivation() {
    let sk = secp256k1::SecretKey::from_secret_bytes([9u8; 32]).unwrap();
    let ser = sk.public_key().serialize_uncompressed();
    let mut hasher = tiny_keccak::Keccak::v256();
    let mut digest = [0u8; 32];
    tiny_keccak::Hasher::update(&mut hasher, &ser[1..]);
    tiny_keccak::Hasher::finalize(hasher, &mut digest);
    let expected = format!("0x{}", encode_hex(&digest[12..]));
    let key_hex = encode_hex(&[9u8; 32]);
    assert_eq!(public_key(&key_hex).unwrap(), expected);
}

#[test]
fn test_public_key_rejects_bad_hex() {
    assert_eq!(public_key("xyz"), Err(WalletError::InvalidHex));
    assert_eq!(public_key("0x1234"), Err(WalletError::InvalidHex));
    assert_eq!(
        public_key("0x00000000000000000000000000000000000000000000000000000000000000zz"),
        Err(WalletError::InvalidHex)
    );
}

#[test]
fn test_public_key_rejects_invalid_scalar() {
    // Zero is not a valid secret key.
    let zero = "0x0000000000000000000000000000000000000000000000000000000000000000";
    assert_eq!(public_key(zero), Err(WalletError::InvalidKey));
    // Values at or above the curve order are not valid secret keys.
    let huge = "0xffffffffffffffffffffffffffffffffffffffffffffffffffffffffffffffff";
    assert_eq!(public_key(huge), Err(WalletError::InvalidKey));
}

#[test]
fn test_package_version_with_native_dependency() {
    let report = package_version("1.2.3".to_string(), Some("0.1.0".to_string()));
    assert_eq!(report.version, "1.2.3");
    assert_eq!(report.dependencies.len(), 1);
    assert_eq!(report.dependencies[0].0, "indexer-native");
    assert_eq!(report.dependencies[0].1, "0.1.0");
}

#[test]
fn test_package_version_without_native_dependency() {
    let report = package_version("1.2.3".to_string(), None);
    assert_eq!(report.version, "1.2.3");
    assert_eq!(report.dependencies.len(), 0);
}
