//! Records of the cache and the parameters of its operations.

use vstd::prelude::*;
use vstd::std_specs::cmp::PartialEqSpecImpl;

verus! {

/// Expiration that, in a delta operation, forbids creating a missing key.
pub const NO_AUTO_CREATE: u32 = 0xffff_ffff;

/// Metadata of a record.
#[derive(Clone, Copy, Debug)]
pub struct Header {
    /// Clock reading at the moment the record was last written.
    pub timestamp: u64,
    /// Version of the record; 0 in a request means that no version is
    /// checked.
    pub cas: u64,
    /// Client data, kept as given.
    pub flags: u32,
    /// Lifetime in seconds from `timestamp`; 0 means the record never
    /// expires.
    pub expiration: u32,
}

impl Header {
    /// A header with the given version, flags and lifetime, not yet stamped
    /// with a time.
    pub fn new(cas: u64, flags: u32, expiration: u32) -> (header: Header)
        ensures
            header == (Header { timestamp: 0, cas, flags, expiration }),
    {
        Header { timestamp: 0, cas, flags, expiration }
    }

    /// Whether a record with this header has outlived its lifetime at
    /// time `now`.
    pub open spec fn expired_at(self, now: u64) -> bool {
        self.expiration != 0 && self.timestamp + self.expiration <= now
    }

    /// Decides `expired_at`.
    pub fn is_expired_at(&self, now: u64) -> (expired: bool)
        ensures
            expired == self.expired_at(now),
    {
        self.expiration != 0 && now >= self.timestamp && now - self.timestamp
            >= self.expiration as u64
    }
}

/// A header together with the value it describes.
#[derive(Clone, Debug)]
pub struct Record {
    pub header: Header,
    pub value: Vec<u8>,
}

/// What a `Record` is to the contracts: its header and its bytes.
#[verifier::ext_equal]
pub struct RecordView {
    pub header: Header,
    pub value: Seq<u8>,
}

impl RecordView {
    /// This record as the store keeps it after a write at time `now` that
    /// was given the version `cas`.
    pub open spec fn stamped(self, cas: u64, now: u64) -> RecordView {
        RecordView { header: Header { timestamp: now, cas, ..self.header }, value: self.value }
    }

    /// This record with its lifetime replaced.
    pub open spec fn with_expiration(self, expiration: u32) -> RecordView {
        RecordView { header: Header { expiration, ..self.header }, value: self.value }
    }
}

impl View for Record {
    type V = RecordView;

    open spec fn view(&self) -> RecordView {
        RecordView { header: self.header, value: self.value@ }
    }
}

impl Record {
    /// A record holding `value`, with a header made by `Header::new`.
    pub fn new(value: Vec<u8>, cas: u64, flags: u32, expiration: u32) -> (record: Record)
        ensures
            record@ == (RecordView {
                header: Header { timestamp: 0, cas, flags, expiration },
                value: value@,
            }),
    {
        let header = Header::new(cas, flags, expiration);
        Record { header, value }
    }

    /// This record with its lifetime replaced.
    pub fn with_expiration(self, expiration: u32) -> (record: Record)
        ensures
            record@ == self@.with_expiration(expiration),
    {
        let mut record = self;
        record.header.expiration = expiration;
        record
    }
}

/// Two records are equal when their values are; headers are not compared.
impl PartialEq for Record {
    fn eq(&self, other: &Self) -> (equal: bool) {
        let equal = self.value == other.value;
        assert(equal == (self.value@ =~= other.value@));
        equal
    }
}

impl PartialEqSpecImpl for Record {
    open spec fn obeys_eq_spec() -> bool {
        true
    }

    open spec fn eq_spec(&self, other: &Self) -> bool {
        self.value@ == other.value@
    }
}

/// Parameters of a delta operation.
#[derive(Clone, Copy)]
pub struct DeltaParam {
    /// Amount to add or subtract.
    pub delta: u64,
    /// Value that a missing key is created with.
    pub value: u64,
}

pub type IncrementParam = DeltaParam;

pub type DecrementParam = IncrementParam;

/// Outcome of a successful write: the version the record now has.
#[derive(Debug)]
pub struct SetStatus {
    pub cas: u64,
}

} // verus!
