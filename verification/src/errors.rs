use vstd::prelude::*;

verus! {

/// The failures of the record service.
///
/// `InvalidKey`, `RecordTooSmall`, `RecordTooBig` and `NotFound` are client
/// input faults; `CorruptRecord` and `StoreUnavailable` are server-side data
/// or infrastructure faults. `StoreUnavailable` is reserved for a storage
/// engine whose reads or writes can fail; the in-memory engine of this crate
/// never raises it.
#[derive(Clone, Copy, Debug, PartialEq, Eq, Structural)]
pub enum OssError {
    /// The retrieval key is not hexadecimal of the fingerprint length.
    InvalidKey,
    /// The payload to store is empty.
    RecordTooSmall,
    /// The payload to store exceeds the configured maximum size.
    RecordTooBig,
    /// No record is stored under the given fingerprint.
    NotFound,
    /// Stored bytes do not decode as a record.
    CorruptRecord,
    /// The storage engine failed to read or write.
    StoreUnavailable,
}

} // verus!
