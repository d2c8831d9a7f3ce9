use oss_store::codec::decode;
use oss_store::errors::OssError;
use oss_store::record::OssRecordStore;
use oss_store::service::OssService;
use oss_store::store::DedupStore;

const MAX: usize = 100 * 1024 * 1024;

#[test]
fn store_then_retrieve_scenario() {
    let mut svc = OssService::new(MAX);
    let key = svc
        .store(
            Some(String::from("a.txt")),
            Some(String::from("text/plain")),
            b"hello".to_vec(),
        )
        .unwrap();
    assert_eq!(key.len(), 32);
    let rec = svc.retrieve(&key).unwrap();
    let expected = OssRecordStore::new(
        Some(String::from("a.txt")),
        Some(String::from("text/plain")),
        Some(b"hello".to_vec()),
    );
    assert_eq!(rec, expected);

    // Repeating the same store returns the identical key and changes nothing.
    let key2 = svc
        .store(
            Some(String::from("a.txt")),
            Some(String::from("text/plain")),
            b"hello".to_vec(),
        )
        .unwrap();
    assert_eq!(key2, key);
    assert_eq!(svc.entry_count(), 1);
    assert_eq!(svc.retrieve(&key).unwrap(), expected);
}

#[test]
fn idempotent_store_creates_one_entry() {
    let mut svc = OssService::new(MAX);
    let k1 = svc.store(None, None, vec![1u8, 2, 3]).unwrap();
    let k2 = svc.store(None, None, vec![1u8, 2, 3]).unwrap();
    assert_eq!(k1, k2);
    assert_eq!(svc.entry_count(), 1);
}

#[test]
fn differing_payloads_get_differing_fingerprints() {
    let mut svc = OssService::new(MAX);
    let ka = svc
        .store(Some(String::from("x")), None, b"alpha".to_vec())
        .unwrap();
    let kb = svc
        .store(Some(String::from("x")), None, b"beta".to_vec())
        .unwrap();
    assert_ne!(ka, kb);
    assert_eq!(svc.entry_count(), 2);
}

#[test]
fn metadata_is_part_of_the_address() {
    let mut svc = OssService::new(MAX);
    let ka = svc
        .store(Some(String::from("x")), None, b"same".to_vec())
        .unwrap();
    let kb = svc
        .store(Some(String::from("y")), None, b"same".to_vec())
        .unwrap();
    assert_ne!(ka, kb);
}

#[test]
fn empty_payload_is_too_small() {
    let mut svc = OssService::new(MAX);
    assert_eq!(
        svc.store(Some(String::from("a")), None, Vec::new()),
        Err(OssError::RecordTooSmall)
    );
    assert_eq!(svc.entry_count(), 0);
}

#[test]
fn oversized_payload_is_too_big() {
    let mut svc = OssService::new(4);
    assert_eq!(
        svc.store(None, None, b"12345".to_vec()),
        Err(OssError::RecordTooBig)
    );
    assert_eq!(svc.entry_count(), 0);
    // The boundary itself is still accepted.
    assert!(svc.store(None, None, b"1234".to_vec()).is_ok());
}

#[test]
fn non_hex_key_is_invalid() {
    let svc = OssService::new(MAX);
    assert_eq!(svc.retrieve("not-hex"), Err(OssError::InvalidKey));
    assert_eq!(svc.retrieve(""), Err(OssError::InvalidKey));
    assert_eq!(
        svc.retrieve("0123456789abcdef0123456789abcde"),
        Err(OssError::InvalidKey)
    );
}

#[test]
fn never_stored_key_is_not_found() {
    let svc = OssService::new(MAX);
    assert_eq!(
        svc.retrieve("00000000000000000000000000000000"),
        Err(OssError::NotFound)
    );
}

#[test]
fn dedup_store_put_if_absent() {
    let mut store = DedupStore::new();
    assert_eq!(store.len(), 0);
    assert!(store.put_if_absent(42u128, b"first".to_vec()));
    assert!(!store.put_if_absent(42u128, b"second".to_vec()));
    assert_eq!(store.len(), 1);
    // The first writer's bytes stay.
    assert_eq!(store.get(42u128), Some(b"first".to_vec()));
    assert_eq!(store.get(7u128), None);
}

#[test]
fn stored_garbage_is_corrupt_on_decode() {
    let mut store = DedupStore::new();
    store.put_if_absent(1u128, vec![9u8, 9, 9]);
    let bytes = store.get(1u128).unwrap();
    assert_eq!(decode(&bytes), Err(OssError::CorruptRecord));
}
