//! The cache as a mathematical state, and each operation as a function from
//! the state before it to the state after it and the result it reports.
//!
//! The engine's executable operations are specified by these functions.

use crate::memcache::decimal::{decimal_text, decimal_value};
use crate::memcache::error::{StorageError, StorageResult};
use crate::memcache::record::{DeltaParam, Header, Record, RecordView, SetStatus, NO_AUTO_CREATE};
use crate::memcache::store::expire_all;
use vstd::prelude::*;

verus! {

/// State of the cache: the record under each key, and the version that the
/// next successful write will be given.
#[verifier::ext_equal]
pub struct StoreState {
    pub records: Map<Seq<u8>, RecordView>,
    pub next_cas: u64,
}

/// What an operation leaves behind: the state after it and its result.
#[verifier::ext_equal]
pub struct Outcome<R> {
    pub state: StoreState,
    pub result: StorageResult<R>,
}

/// The result of a read, over the record's view.
pub open spec fn record_result_view(result: StorageResult<Record>) -> StorageResult<RecordView> {
    match result {
        Ok(record) => Ok(record@),
        Err(error) => Err(error),
    }
}

/// The number that a delta operation stores: the sum, wrapped to 64 bits, or
/// the difference, which stops at 0.
pub open spec fn apply_delta(value: u64, delta: u64, increment: bool) -> u64 {
    if increment {
        if value + delta > u64::MAX {
            (value + delta - 0x1_0000_0000_0000_0000) as u64
        } else {
            (value + delta) as u64
        }
    } else if delta > value {
        0
    } else {
        (value - delta) as u64
    }
}

impl StoreState {
    /// The cache before anything was written.
    pub open spec fn empty() -> StoreState {
        StoreState { records: Map::empty(), next_cas: 1 }
    }

    /// Every stored version was handed out before: it is neither 0 nor at
    /// or above the next version.
    pub open spec fn wf(self) -> bool {
        &&& 1 <= self.next_cas
        &&& forall|key: Seq<u8>| #[trigger]
            self.records.contains_key(key) ==> 1 <= self.records[key].header.cas < self.next_cas
    }

    /// A version is left to hand out.
    pub open spec fn can_issue(self) -> bool {
        self.next_cas < u64::MAX
    }

    /// Whether `key` holds a record that has not expired at time `now`.
    pub open spec fn live(self, key: Seq<u8>, now: u64) -> bool {
        self.records.contains_key(key) && !self.records[key].header.expired_at(now)
    }

    /// The state without `key`.
    pub open spec fn evict(self, key: Seq<u8>) -> StoreState {
        StoreState { records: self.records.remove(key), next_cas: self.next_cas }
    }

    /// Whether an operation that names the version `cas` is refused at time
    /// `now`: `cas` is not 0, and `key` holds a live record of another
    /// version. An expired record is no record, and so no conflict.
    pub open spec fn cas_conflict(self, key: Seq<u8>, cas: u64, now: u64) -> bool {
        cas != 0 && self.live(key, now) && self.records[key].header.cas != cas
    }

    /// The state after `record` was stored under `key` at time `now` with
    /// the next version.
    pub open spec fn store(self, key: Seq<u8>, record: RecordView, now: u64) -> StoreState {
        StoreState {
            records: self.records.insert(key, record.stamped(self.next_cas, now)),
            next_cas: (self.next_cas + 1) as u64,
        }
    }

    /// What every write owes, whatever the clock read: one that succeeds
    /// reports the version that was next, which is not 0, and leaves `key`
    /// with a record of that version; one that fails hands out no version.
    pub open spec fn reports(self, after: StoreState, key: Seq<u8>, status: StorageResult<
        SetStatus,
    >) -> bool {
        match status {
            Ok(written) => {
                &&& written.cas == self.next_cas
                &&& written.cas != 0
                &&& after.next_cas == written.cas + 1
                &&& after.records.contains_key(key)
                &&& after.records[key].header.cas == written.cas
            },
            Err(_) => after.next_cas == self.next_cas,
        }
    }

    /// Read: a live record is returned and nothing changes; an expired one
    /// is evicted and reported as missing, like an absent one.
    pub open spec fn get(self, key: Seq<u8>, now: u64) -> Outcome<RecordView> {
        if self.live(key, now) {
            Outcome { state: self, result: Ok(self.records[key]) }
        } else {
            Outcome { state: self.evict(key), result: Err(StorageError::NotFound) }
        }
    }

    /// Write: refused with `KeyExists` on a version conflict, without any
    /// change; else the record is stored with the next version and the
    /// time `now`, in place of whatever the key held, and that version is
    /// reported.
    pub open spec fn set(self, key: Seq<u8>, record: RecordView, now: u64) -> Outcome<SetStatus> {
        if self.cas_conflict(key, record.header.cas, now) {
            Outcome { state: self, result: Err(StorageError::KeyExists) }
        } else {
            Outcome {
                state: self.store(key, record, now),
                result: Ok(SetStatus { cas: self.next_cas }),
            }
        }
    }

    /// Write to a key that holds no live record; refused with `KeyExists`
    /// where it holds one.
    pub open spec fn add(self, key: Seq<u8>, record: RecordView, now: u64) -> Outcome<SetStatus> {
        if self.live(key, now) {
            Outcome { state: self, result: Err(StorageError::KeyExists) }
        } else {
            self.evict(key).set(key, record, now)
        }
    }

    /// Write to a key that holds a live record; refused with `NotFound`
    /// where it holds none.
    pub open spec fn replace(self, key: Seq<u8>, record: RecordView, now: u64) -> Outcome<
        SetStatus,
    > {
        if self.live(key, now) {
            self.set(key, record, now)
        } else {
            Outcome { state: self.evict(key), result: Err(StorageError::NotFound) }
        }
    }

    /// The record that `append` and `prepend` write: the stored header with
    /// the caller's version to check, around the joined value.
    pub open spec fn joined(self, key: Seq<u8>, cas: u64, value: Seq<u8>) -> RecordView {
        RecordView { header: Header { cas, ..self.records[key].header }, value }
    }

    /// Write of the stored value followed by the new one, under the stored
    /// flags and lifetime.
    pub open spec fn append(self, key: Seq<u8>, record: RecordView, now: u64) -> Outcome<
        SetStatus,
    > {
        if self.live(key, now) {
            let value = self.records[key].value + record.value;
            self.set(key, self.joined(key, record.header.cas, value), now)
        } else {
            Outcome { state: self.evict(key), result: Err(StorageError::NotFound) }
        }
    }

    /// Write of the new value followed by the stored one, under the stored
    /// flags and lifetime.
    pub open spec fn prepend(self, key: Seq<u8>, record: RecordView, now: u64) -> Outcome<
        SetStatus,
    > {
        if self.live(key, now) {
            let value = record.value + self.records[key].value;
            self.set(key, self.joined(key, record.header.cas, value), now)
        } else {
            Outcome { state: self.evict(key), result: Err(StorageError::NotFound) }
        }
    }

    /// Delta on a counter. On a live record whose value is a decimal number
    /// the changed number is written under the caller's header; a value that
    /// is no number is refused with `ArithOnNonNumeric`. On a key without a
    /// live record the initial value is written with no expiration, unless
    /// the header forbids it, which is reported as `NotFound`.
    pub open spec fn add_delta(
        self,
        header: Header,
        key: Seq<u8>,
        delta: DeltaParam,
        increment: bool,
        now: u64,
    ) -> Outcome<SetStatus> {
        if self.live(key, now) {
            match decimal_value(self.records[key].value, u64::MAX) {
                Some(number) => {
                    let value = decimal_text(apply_delta(number, delta.delta, increment) as nat);
                    self.set(key, RecordView { header, value }, now)
                },
                None => Outcome { state: self, result: Err(StorageError::ArithOnNonNumeric) },
            }
        } else if header.expiration == NO_AUTO_CREATE {
            Outcome { state: self.evict(key), result: Err(StorageError::NotFound) }
        } else {
            let created = RecordView {
                header: Header { timestamp: 0, cas: header.cas, flags: header.flags, expiration: 0 },
                value: decimal_text(delta.value as nat),
            };
            self.evict(key).set(key, created, now)
        }
    }

    /// Removal of a key at time `now`: `NotFound` where it holds no live
    /// record, `KeyExists` where the header names a version other than that
    /// of the live record. An expired record is evicted and reported as
    /// missing.
    pub open spec fn delete(self, key: Seq<u8>, header: Header, now: u64) -> Outcome<()> {
        if !self.live(key, now) {
            Outcome { state: self.evict(key), result: Err(StorageError::NotFound) }
        } else if self.cas_conflict(key, header.cas, now) {
            Outcome { state: self, result: Err(StorageError::KeyExists) }
        } else {
            Outcome { state: self.evict(key), result: Ok(()) }
        }
    }

    /// Every record is given the header's lifetime; values, versions and
    /// times of writing stay.
    pub open spec fn flush(self, header: Header) -> StoreState {
        StoreState {
            records: expire_all(self.records, header.expiration),
            next_cas: self.next_cas,
        }
    }
}

} // verus!
