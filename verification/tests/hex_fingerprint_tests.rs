use oss_store::fingerprint::{fingerprint_hex, fingerprint_key};
use oss_store::hexkey::{hex_decode_key, hex_encode};

#[test]
fn hex_encode_exact() {
    assert_eq!(hex_encode(&vec![0x0Fu8, 0xA0, 0x00, 0xFF]), "0fa000ff");
    assert_eq!(hex_encode(&Vec::new()), "");
}

#[test]
fn hex_decode_key_round_trip() {
    let bytes: Vec<u8> = (0u8..16).map(|i| i * 17).collect();
    let hex = hex_encode(&bytes);
    assert_eq!(hex.len(), 32);
    assert_eq!(hex_decode_key(&hex), Some(bytes));
}

#[test]
fn hex_decode_key_accepts_uppercase() {
    assert_eq!(
        hex_decode_key("00FFAA11223344556677889900AABBCC"),
        hex_decode_key("00ffaa11223344556677889900aabbcc")
    );
}

#[test]
fn hex_decode_key_rejects_non_hex() {
    assert_eq!(hex_decode_key("not-hex"), None);
    assert_eq!(hex_decode_key("zz000000000000000000000000000000"), None);
}

#[test]
fn hex_decode_key_rejects_wrong_length() {
    assert_eq!(hex_decode_key(""), None);
    assert_eq!(hex_decode_key("abcd"), None);
    assert_eq!(hex_decode_key("0123456789abcdef0123456789abcdef0"), None);
}

#[test]
fn md5_known_vectors() {
    // RFC 1321 test vectors pin the digest wrapper to real md5.
    assert_eq!(
        fingerprint_hex(&Vec::new()),
        "d41d8cd98f00b204e9800998ecf8427e"
    );
    assert_eq!(
        fingerprint_hex(&b"hello".to_vec()),
        "5d41402abc4b2a76b9719d911017c592"
    );
    assert_eq!(
        fingerprint_hex(&b"abcdefghijklmnopqrstuvwxyz".to_vec()),
        "c3fcd3d76192e4007dfb496cca67e13b"
    );
}

#[test]
fn fingerprint_key_is_deterministic_and_spreads() {
    let a1 = fingerprint_key(&b"alpha".to_vec());
    let a2 = fingerprint_key(&b"alpha".to_vec());
    let b = fingerprint_key(&b"beta".to_vec());
    assert_eq!(a1, a2);
    assert_ne!(a1, b);
}
