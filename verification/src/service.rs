use vstd::prelude::*;
use vstd::bytes::{spec_u128_from_le_bytes, u128_from_le_bytes};

use crate::codec::{decode, encode, fits_encoding, lemma_codec_round_trip, spec_decode, spec_encode};
use crate::errors::OssError;
use crate::fingerprint::{md5_digest, md5_of, spec_fingerprint_key};
use crate::hexkey::{
    bytes_of_hex, hex_decode_key, hex_encode, hex_of, is_hex_seq, lemma_hex_round_trip,
};
use crate::record::{opt_str_view, OssRecordStore, RecordView};
use crate::store::{spec_store_effect, DedupStore};

verus! {

/// The record built from one store request: the metadata as given, the
/// payload always present.
pub open spec fn request_record(
    name: Option<Seq<char>>,
    mime: Option<Seq<char>>,
    payload: Seq<u8>,
) -> RecordView {
    RecordView { origin_name: name, origin_type: mime, content_data: Some(payload) }
}

/// The record service: validates requests, runs the codec and the
/// fingerprint engine, and keeps each distinct encoding at most once in the
/// deduplicating store.
pub struct OssService {
    store: DedupStore,
    max_record_size: usize,
}

impl OssService {
    /// The stored entries: encoding bytes keyed by fingerprint.
    pub closed spec fn contents(self) -> Map<u128, Seq<u8>> {
        self.store.contents()
    }

    /// The configured payload size ceiling.
    pub closed spec fn max_size(self) -> usize {
        self.max_record_size
    }

    /// A service over an empty store with the given payload size ceiling.
    pub fn new(max_record_size: usize) -> (s: Self)
        ensures
            s.contents() == Map::<u128, Seq<u8>>::empty(),
            s.max_size() == max_record_size,
    {
        OssService { store: DedupStore::new(), max_record_size }
    }

    /// The configured payload size ceiling.
    pub fn max_record_size(&self) -> (n: usize)
        ensures
            n == self.max_size(),
    {
        self.max_record_size
    }

    /// How many entries the store holds.
    pub fn entry_count(&self) -> (n: usize)
        ensures
            n == self.contents().len(),
    {
        self.store.len()
    }

    /// Stores the record built from the given metadata and payload, and
    /// returns its fingerprint as lowercase hexadecimal. An empty payload is
    /// rejected as `RecordTooSmall` and one over the ceiling as
    /// `RecordTooBig`, in both cases without touching the store. Otherwise
    /// the record's canonical encoding is written under its fingerprint,
    /// unless an entry already exists there.
    pub fn store(&mut self, name: Option<String>, mime: Option<String>, payload: Vec<u8>) -> (r:
        Result<String, OssError>)
        ensures
            final(self).max_size() == old(self).max_size(),
            ({
                let v = request_record(opt_str_view(name), opt_str_view(mime), payload@);
                let enc = spec_encode(v);
                let key = spec_fingerprint_key(enc);
                match r {
                    Ok(hexkey) => {
                        &&& 0 < payload@.len() <= old(self).max_size()
                        &&& hexkey@ == hex_of(md5_of(enc))
                        &&& hexkey@.len() == 32
                        &&& final(self).contents() == spec_store_effect(
                            old(self).contents(),
                            key,
                            enc,
                        )
                    },
                    Err(OssError::RecordTooSmall) => payload@.len() == 0 && final(self).contents()
                        == old(self).contents(),
                    Err(OssError::RecordTooBig) => payload@.len() > old(self).max_size()
                        && final(self).contents() == old(self).contents(),
                    Err(_) => false,
                }
            }),
    {
        if payload.len() == 0 {
            return Err(OssError::RecordTooSmall);
        }
        if payload.len() > self.max_record_size {
            return Err(OssError::RecordTooBig);
        }
        let rec = OssRecordStore::new(name, mime, Some(payload));
        let enc = encode(&rec);
        let digest = md5_digest(&enc);
        let hex = hex_encode(&digest);
        let key = u128_from_le_bytes(digest.as_slice());
        self.store.put_if_absent(key, enc);
        Ok(hex)
    }

    /// Retrieves the record stored under a hexadecimal fingerprint key. A
    /// string that is not 32 hexadecimal characters fails as `InvalidKey`,
    /// an absent entry as `NotFound`, an entry whose bytes do not decode as
    /// `CorruptRecord`; otherwise the decoded record is returned.
    pub fn retrieve(&self, key: &str) -> (r: Result<OssRecordStore, OssError>)
        ensures
            ({
                let valid = key@.len() == 32 && is_hex_seq(key@);
                let k = spec_u128_from_le_bytes(bytes_of_hex(key@));
                match r {
                    Ok(rec) => valid && self.contents().contains_key(k) && spec_decode(
                        self.contents()[k],
                    ) == Some(rec@),
                    Err(OssError::InvalidKey) => !valid,
                    Err(OssError::NotFound) => valid && !self.contents().contains_key(k),
                    Err(OssError::CorruptRecord) => valid && self.contents().contains_key(k)
                        && spec_decode(self.contents()[k]) is None,
                    Err(_) => false,
                }
            }),
    {
        let kb = match hex_decode_key(key) {
            Some(b) => b,
            None => {
                return Err(OssError::InvalidKey);
            },
        };
        let k = u128_from_le_bytes(kb.as_slice());
        let value = match self.store.get(k) {
            Some(v) => v,
            None => {
                return Err(OssError::NotFound);
            },
        };
        decode(&value)
    }
}

/// Idempotent store: writing one encoding under its key twice creates at
/// most one entry. A write onto an existing entry changes nothing, so the
/// contents after the second write are exactly the contents after the first,
/// and a write onto a fresh key grows the store by exactly one entry.
pub proof fn lemma_store_idempotent(c: Map<u128, Seq<u8>>, key: u128, value: Seq<u8>)
    ensures
        spec_store_effect(spec_store_effect(c, key, value), key, value) == spec_store_effect(
            c,
            key,
            value,
        ),
        spec_store_effect(c, key, value).contains_key(key),
        c.contains_key(key) ==> spec_store_effect(c, key, value) == c,
        !c.contains_key(key) && c.dom().finite() ==> spec_store_effect(c, key, value).len()
            == c.len() + 1,
{
}

/// Retrieval consistency: after a store of record `v` succeeds, the entry
/// under the key named by the returned hexadecimal fingerprint decodes to
/// exactly `v`. Here `digest` stands for the fingerprint bytes of `v`'s
/// encoding. When an entry already existed under that fingerprint it must be
/// `v`'s own encoding: the store keeps the first writer's bytes, so two
/// different encodings sharing one fingerprint would retrieve the first.
pub proof fn lemma_retrieval_consistency(c: Map<u128, Seq<u8>>, v: RecordView, digest: Seq<u8>)
    requires
        fits_encoding(v),
        digest.len() == 16,
        c.contains_key(spec_u128_from_le_bytes(digest)) ==> c[spec_u128_from_le_bytes(digest)]
            == spec_encode(v),
    ensures
        ({
            let hexkey = hex_of(digest);
            let k = spec_u128_from_le_bytes(bytes_of_hex(hexkey));
            let c1 = spec_store_effect(c, spec_u128_from_le_bytes(digest), spec_encode(v));
            &&& hexkey.len() == 32
            &&& is_hex_seq(hexkey)
            &&& c1.contains_key(k)
            &&& spec_decode(c1[k]) == Some(v)
        }),
{
    lemma_hex_round_trip(digest);
    lemma_codec_round_trip(v);
}

} // verus!

