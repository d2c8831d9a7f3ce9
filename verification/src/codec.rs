use vstd::prelude::*;
use vstd::bytes::{
    lemma_auto_spec_u64_to_from_le_bytes, spec_u64_from_le_bytes, spec_u64_to_le_bytes,
    u64_from_le_bytes, u64_to_le_bytes,
};
use vstd::slice::{slice_subrange, slice_to_vec};
use vstd::utf8::{decode_utf8, encode_utf8, valid_utf8};

use crate::errors::OssError;
use crate::record::{opt_bytes_view, opt_str_view, OssRecordStore, RecordView};

verus! {

/// One encoded field: a presence tag byte, and for a present field its length
/// as eight little-endian bytes followed by the field's bytes.
pub open spec fn spec_encode_field(f: Option<Seq<u8>>) -> Seq<u8> {
    match f {
        None => seq![0u8],
        Some(b) => seq![1u8] + spec_u64_to_le_bytes(b.len() as u64) + b,
    }
}

/// The bytes standing for an optional metadata string: its UTF-8 encoding.
pub open spec fn name_bytes(n: Option<Seq<char>>) -> Option<Seq<u8>> {
    match n {
        None => None,
        Some(s) => Some(encode_utf8(s)),
    }
}

/// The canonical encoding of a record: its three fields in schema order
/// (name, type, payload), each tagged for presence and length-prefixed.
/// The encoding is a pure function of the record's fields.
pub open spec fn spec_encode(v: RecordView) -> Seq<u8> {
    spec_encode_field(name_bytes(v.origin_name)) + spec_encode_field(name_bytes(v.origin_type))
        + spec_encode_field(v.content_data)
}

/// Field byte lengths small enough for the eight-byte length prefix.
pub open spec fn fits_encoding(v: RecordView) -> bool {
    &&& match v.origin_name {
        Some(s) => encode_utf8(s).len() <= u64::MAX,
        None => true,
    }
    &&& match v.origin_type {
        Some(s) => encode_utf8(s).len() <= u64::MAX,
        None => true,
    }
    &&& match v.content_data {
        Some(b) => b.len() <= u64::MAX,
        None => true,
    }
}

/// One field read off the front of `b`: the field and the remaining bytes,
/// or `None` when `b` does not start with a well-formed field.
pub open spec fn spec_take_field(b: Seq<u8>) -> Option<(Option<Seq<u8>>, Seq<u8>)> {
    if b.len() == 0 {
        None
    } else if b[0] == 0u8 {
        Some((None, b.skip(1)))
    } else if b[0] == 1u8 {
        if b.len() < 9 {
            None
        } else {
            let n = spec_u64_from_le_bytes(b.subrange(1, 9)) as int;
            if b.len() < 9 + n {
                None
            } else {
                Some((Some(b.subrange(9, 9 + n)), b.skip(9 + n)))
            }
        }
    } else {
        None
    }
}

/// The metadata string named by a field: an absent field is no string, a
/// present one must hold valid UTF-8.
pub open spec fn field_chars(f: Option<Seq<u8>>) -> Option<Option<Seq<char>>> {
    match f {
        None => Some(None),
        Some(b) => if valid_utf8(b) {
            Some(Some(decode_utf8(b)))
        } else {
            None
        },
    }
}

/// The record encoded by `b`, or `None` when `b` is not a canonical encoding:
/// exactly three well-formed fields in schema order with nothing left over,
/// and metadata fields holding valid UTF-8.
pub open spec fn spec_decode(b: Seq<u8>) -> Option<RecordView> {
    match spec_take_field(b) {
        None => None,
        Some((f_name, r1)) => match spec_take_field(r1) {
            None => None,
            Some((f_type, r2)) => match spec_take_field(r2) {
                None => None,
                Some((f_data, r3)) => {
                    if r3.len() != 0 {
                        None
                    } else {
                        match (field_chars(f_name), field_chars(f_type)) {
                            (Some(nm), Some(ty)) => Some(
                                RecordView {
                                    origin_name: nm,
                                    origin_type: ty,
                                    content_data: f_data,
                                },
                            ),
                            _ => None,
                        }
                    }
                },
            },
        },
    }
}

proof fn lemma_take_encoded_field(f: Option<Seq<u8>>, rest: Seq<u8>)
    requires
        match f {
            Some(b) => b.len() <= u64::MAX,
            None => true,
        },
    ensures
        spec_take_field(spec_encode_field(f) + rest) == Some((f, rest)),
{
    lemma_auto_spec_u64_to_from_le_bytes();
    match f {
        None => {
            let whole = spec_encode_field(f) + rest;
            assert(whole[0] == 0u8);
            assert(whole.skip(1) =~= rest);
        },
        Some(b) => {
            let whole = spec_encode_field(f) + rest;
            let lenb = spec_u64_to_le_bytes(b.len() as u64);
            assert(lenb.len() == 8);
            assert(whole.len() == 9 + b.len() + rest.len());
            assert(whole[0] == 1u8);
            assert(whole.subrange(1, 9) =~= lenb);
            assert(spec_u64_from_le_bytes(lenb) == b.len() as u64);
            assert(whole.subrange(9, 9 + b.len() as int) =~= b);
            assert(whole.skip(9 + b.len() as int) =~= rest);
        },
    }
}

/// Round trip: decoding a record's canonical encoding yields exactly the
/// record. Holds for every record whose field lengths fit the length prefix,
/// which is every record an executable encoder can be handed.
pub proof fn lemma_codec_round_trip(v: RecordView)
    requires
        fits_encoding(v),
    ensures
        spec_decode(spec_encode(v)) == Some(v),
{
    broadcast use vstd::utf8::encode_utf8_valid_utf8;
    broadcast use vstd::utf8::encode_utf8_decode_utf8;

    let f1 = name_bytes(v.origin_name);
    let f2 = name_bytes(v.origin_type);
    let f3 = v.content_data;
    let e2 = spec_encode_field(f2);
    let e3 = spec_encode_field(f3);
    let tail = Seq::<u8>::empty();
    assert(spec_encode(v) =~= spec_encode_field(f1) + (e2 + (e3 + tail)));
    lemma_take_encoded_field(f1, e2 + (e3 + tail));
    lemma_take_encoded_field(f2, e3 + tail);
    lemma_take_encoded_field(f3, tail);
    assert(field_chars(f1) == Some(v.origin_name));
    assert(field_chars(f2) == Some(v.origin_type));
}

fn push_present_field(out: &mut Vec<u8>, bytes: &[u8])
    ensures
        final(out)@ == old(out)@ + spec_encode_field(Some(bytes@)),
        bytes@.len() <= u64::MAX,
{
    out.push(1u8);
    let mut lenb = u64_to_le_bytes(bytes.len() as u64);
    out.append(&mut lenb);
    out.extend_from_slice(bytes);
    proof {
        assert(out@ =~= old(out)@ + spec_encode_field(Some(bytes@)));
    }
}

/// Serializes a record into its canonical byte encoding.
pub fn encode(rec: &OssRecordStore) -> (r: Vec<u8>)
    ensures
        r@ == spec_encode(rec@),
        fits_encoding(rec@),
{
    let mut out: Vec<u8> = Vec::new();
    match &rec.origin_name {
        None => out.push(0u8),
        Some(s) => push_present_field(&mut out, s.as_str().as_bytes()),
    }
    match &rec.origin_type {
        None => out.push(0u8),
        Some(s) => push_present_field(&mut out, s.as_str().as_bytes()),
    }
    match &rec.content_data {
        None => out.push(0u8),
        Some(v) => push_present_field(&mut out, v.as_slice()),
    }
    proof {
        assert(out@ =~= spec_encode(rec@));
    }
    out
}

fn take_field(bytes: &Vec<u8>, pos: usize) -> (r: Result<(Option<Vec<u8>>, usize), OssError>)
    requires
        pos <= bytes@.len(),
    ensures
        match r {
            Ok(p) => {
                &&& spec_take_field(bytes@.skip(pos as int)) == Some(
                    (opt_bytes_view(p.0), bytes@.skip(p.1 as int)),
                )
                &&& pos < p.1 <= bytes@.len()
            },
            Err(e) => e == OssError::CorruptRecord && spec_take_field(bytes@.skip(pos as int))
                is None,
        },
{
    let ghost tail = bytes@.skip(pos as int);
    let n_total = bytes.len();
    if pos >= n_total {
        return Err(OssError::CorruptRecord);
    }
    let tag = bytes[pos];
    proof {
        assert(tail[0] == bytes@[pos as int]);
    }
    if tag == 0 {
        proof {
            assert(tail.skip(1) =~= bytes@.skip(pos as int + 1));
        }
        return Ok((None, pos + 1));
    }
    if tag != 1 {
        return Err(OssError::CorruptRecord);
    }
    if n_total - pos < 9 {
        return Err(OssError::CorruptRecord);
    }
    let len_slice = slice_subrange(bytes.as_slice(), pos + 1, pos + 9);
    proof {
        assert(len_slice@ =~= tail.subrange(1, 9));
    }
    let n64 = u64_from_le_bytes(len_slice);
    let rem = (n_total - pos - 9) as u64;
    if n64 > rem {
        return Err(OssError::CorruptRecord);
    }
    let n = n64 as usize;
    let data = slice_to_vec(slice_subrange(bytes.as_slice(), pos + 9, pos + 9 + n));
    proof {
        assert(data@ =~= tail.subrange(9, 9 + n as int));
        assert(tail.skip(9 + n as int) =~= bytes@.skip(pos as int + 9 + n as int));
    }
    Ok((Some(data), pos + 9 + n))
}

/// Relies on `String::from_utf8`: succeeds exactly on valid UTF-8 input and
/// decodes those bytes to their characters.
#[verifier::external_body]
fn string_from_utf8(bytes: Vec<u8>) -> (r: Option<String>)
    ensures
        match r {
            Some(s) => valid_utf8(bytes@) && s@ == decode_utf8(bytes@),
            None => !valid_utf8(bytes@),
        },
{
    String::from_utf8(bytes).ok()
}

fn field_to_name(f: Option<Vec<u8>>) -> (r: Result<Option<String>, OssError>)
    ensures
        match r {
            Ok(n) => field_chars(opt_bytes_view(f)) == Some(opt_str_view(n)),
            Err(e) => e == OssError::CorruptRecord && field_chars(opt_bytes_view(f)) is None,
        },
{
    match f {
        None => Ok(None),
        Some(b) => match string_from_utf8(b) {
            Some(s) => Ok(Some(s)),
            None => Err(OssError::CorruptRecord),
        },
    }
}

/// Parses a canonical encoding back into a record. Fails with
/// `CorruptRecord` exactly when the bytes are not a canonical encoding.
pub fn decode(bytes: &Vec<u8>) -> (r: Result<OssRecordStore, OssError>)
    ensures
        match r {
            Ok(rec) => spec_decode(bytes@) == Some(rec@),
            Err(e) => e == OssError::CorruptRecord && spec_decode(bytes@) is None,
        },
{
    proof {
        assert(bytes@.skip(0) =~= bytes@);
    }
    let (f_name, p1) = match take_field(bytes, 0) {
        Ok(p) => p,
        Err(e) => {
            return Err(e);
        },
    };
    let (f_type, p2) = match take_field(bytes, p1) {
        Ok(p) => p,
        Err(e) => {
            return Err(e);
        },
    };
    let (f_data, p3) = match take_field(bytes, p2) {
        Ok(p) => p,
        Err(e) => {
            return Err(e);
        },
    };
    if p3 != bytes.len() {
        return Err(OssError::CorruptRecord);
    }
    let name = match field_to_name(f_name) {
        Ok(n) => n,
        Err(e) => {
            return Err(e);
        },
    };
    let mime = match field_to_name(f_type) {
        Ok(n) => n,
        Err(e) => {
            return Err(e);
        },
    };
    Ok(OssRecordStore { origin_name: name, origin_type: mime, content_data: f_data })
}

} // verus!
