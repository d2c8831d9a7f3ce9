use vstd::prelude::*;

verus! {

/// A stored record: optional name and type metadata, and the payload bytes.
/// The metadata is advisory; the payload is required and non-empty whenever a
/// record is accepted for storage.
#[derive(Clone, Debug)]
pub struct OssRecordStore {
    pub origin_name: Option<String>,
    pub origin_type: Option<String>,
    pub content_data: Option<Vec<u8>>,
}

/// The mathematical value of a record: metadata as character sequences and
/// the payload as a byte sequence.
pub struct RecordView {
    pub origin_name: Option<Seq<char>>,
    pub origin_type: Option<Seq<char>>,
    pub content_data: Option<Seq<u8>>,
}

pub open spec fn opt_str_view(o: Option<String>) -> Option<Seq<char>> {
    match o {
        Some(s) => Some(s@),
        None => None,
    }
}

pub open spec fn opt_bytes_view(o: Option<Vec<u8>>) -> Option<Seq<u8>> {
    match o {
        Some(v) => Some(v@),
        None => None,
    }
}

impl View for OssRecordStore {
    type V = RecordView;

    open spec fn view(&self) -> RecordView {
        RecordView {
            origin_name: opt_str_view(self.origin_name),
            origin_type: opt_str_view(self.origin_type),
            content_data: opt_bytes_view(self.content_data),
        }
    }
}

impl RecordView {
    /// A record fit for storage: the payload is present and non-empty.
    pub open spec fn is_storable(self) -> bool {
        self.content_data is Some && self.content_data->0.len() > 0
    }
}

impl OssRecordStore {
    pub fn new(_name: Option<String>, _type: Option<String>, _data: Option<Vec<u8>>) -> (r: Self)
        ensures
            r.origin_name == _name,
            r.origin_type == _type,
            r.content_data == _data,
    {
        OssRecordStore { origin_name: _name, origin_type: _type, content_data: _data }
    }
}

fn opt_string_eq(a: &Option<String>, b: &Option<String>) -> (r: bool)
    ensures
        r == (opt_str_view(*a) == opt_str_view(*b)),
{
    match (a, b) {
        (None, None) => true,
        (Some(x), Some(y)) => x.eq(y),
        _ => false,
    }
}

fn opt_bytes_eq(a: &Option<Vec<u8>>, b: &Option<Vec<u8>>) -> (r: bool)
    ensures
        r == (opt_bytes_view(*a) == opt_bytes_view(*b)),
{
    match (a, b) {
        (None, None) => true,
        (Some(x), Some(y)) => {
            let e = x == y;
            proof {
                if e {
                    assert(x@ =~= y@);
                } else {
                    if x@ == y@ {
                        assert(forall|i: int|
                            #![auto]
                            0 <= i < x@.len() ==> x@[i] == y@[i]);
                        assert(false);
                    }
                }
            }
            e
        },
        _ => false,
    }
}

impl PartialEq for OssRecordStore {
    /// Records are equal when their names, types and payloads all agree.
    fn eq(&self, other: &Self) -> (r: bool) {
        let name_eq = opt_string_eq(&self.origin_name, &other.origin_name);
        let type_eq = opt_string_eq(&self.origin_type, &other.origin_type);
        let data_eq = opt_bytes_eq(&self.content_data, &other.content_data);
        name_eq && type_eq && data_eq
    }
}

impl vstd::std_specs::cmp::PartialEqSpecImpl for OssRecordStore {
    open spec fn obeys_eq_spec() -> bool {
        true
    }

    open spec fn eq_spec(&self, other: &OssRecordStore) -> bool {
        self@ == other@
    }
}

} // verus!
