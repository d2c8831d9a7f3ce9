use oss_store::codec::{decode, encode};
use oss_store::errors::OssError;
use oss_store::record::OssRecordStore;

#[test]
fn round_trip_full_record() {
    let rec = OssRecordStore::new(
        Some(String::from("a.txt")),
        Some(String::from("text/plain")),
        Some(b"hello".to_vec()),
    );
    let bytes = encode(&rec);
    let back = decode(&bytes).unwrap();
    assert_eq!(back, rec);
}

#[test]
fn round_trip_without_metadata() {
    let rec = OssRecordStore::new(None, None, Some(vec![0u8, 1, 2, 255]));
    let bytes = encode(&rec);
    let back = decode(&bytes).unwrap();
    assert_eq!(back, rec);
}

#[test]
fn round_trip_empty_strings() {
    let rec = OssRecordStore::new(
        Some(String::from("")),
        Some(String::from("")),
        Some(vec![9u8]),
    );
    let bytes = encode(&rec);
    let back = decode(&bytes).unwrap();
    assert_eq!(back, rec);
    assert_ne!(back, OssRecordStore::new(None, None, Some(vec![9u8])));
}

#[test]
fn round_trip_multibyte_metadata() {
    let rec = OssRecordStore::new(
        Some(String::from("naïve-ファイル.txt")),
        Some(String::from("text/plain; charset=utf-8")),
        Some(b"payload".to_vec()),
    );
    let bytes = encode(&rec);
    let back = decode(&bytes).unwrap();
    assert_eq!(back, rec);
}

#[test]
fn encoding_is_the_documented_layout() {
    // One absent field is a single zero tag; a present field is a one tag,
    // an eight-byte little-endian length, then the bytes.
    let rec = OssRecordStore::new(None, None, Some(vec![0xABu8]));
    let bytes = encode(&rec);
    assert_eq!(
        bytes,
        vec![0u8, 0, 1, 1, 0, 0, 0, 0, 0, 0, 0, 0xAB]
    );
}

#[test]
fn decode_rejects_bad_tag() {
    assert_eq!(decode(&vec![7u8, 0, 0]), Err(OssError::CorruptRecord));
}

#[test]
fn decode_rejects_empty_input() {
    assert_eq!(decode(&Vec::new()), Err(OssError::CorruptRecord));
}

#[test]
fn decode_rejects_truncated_input() {
    let rec = OssRecordStore::new(Some(String::from("n")), None, Some(vec![1u8, 2, 3]));
    let mut bytes = encode(&rec);
    bytes.pop();
    assert_eq!(decode(&bytes), Err(OssError::CorruptRecord));
}

#[test]
fn decode_rejects_trailing_bytes() {
    let rec = OssRecordStore::new(None, None, Some(vec![1u8]));
    let mut bytes = encode(&rec);
    bytes.push(0u8);
    assert_eq!(decode(&bytes), Err(OssError::CorruptRecord));
}

#[test]
fn decode_rejects_invalid_utf8_name() {
    // name present, one byte 0xFF (not UTF-8), then absent type and payload
    let bytes = vec![1u8, 1, 0, 0, 0, 0, 0, 0, 0, 0xFF, 0, 0];
    assert_eq!(decode(&bytes), Err(OssError::CorruptRecord));
}

#[test]
fn decode_rejects_overlong_length_prefix() {
    // name claims 200 bytes but only one follows
    let bytes = vec![1u8, 200, 0, 0, 0, 0, 0, 0, 0, 0x41, 0, 0];
    assert_eq!(decode(&bytes), Err(OssError::CorruptRecord));
}
