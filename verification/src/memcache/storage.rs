//! The cache engine: reads, versioned writes, deltas, removal and flush over
//! the record store, a version sequencer and a clock.
//!
//! Every operation borrows the engine exclusively, so a version check and
//! the write that depends on it are one step: nothing can run between them.
//! Each operation that consults the clock, which is every one but `flush`,
//! comes in two forms. The form whose
//! name ends in `_at` takes the clock reading as an argument and has an
//! exact contract; the other reads the clock once and behaves as the first
//! does at that reading.

use crate::memcache::decimal::{format_decimal, parse_decimal};
use crate::memcache::error::{StorageError, StorageResult};
use crate::memcache::model::{record_result_view, Outcome, StoreState};
use crate::memcache::sequencer::CasSequencer;
use crate::memcache::store::{
    store_contents, store_expire_all, store_get, store_header, store_insert, store_new,
    store_remove,
};
use crate::memcache::timer::Timer;
use dashmap::DashMap;
use vstd::prelude::*;

pub use crate::memcache::record::{
    DecrementParam, DeltaParam, Header, IncrementParam, Record, RecordView, SetStatus,
    NO_AUTO_CREATE,
};

verus! {

/// The cache engine.
pub struct Storage<T: Timer> {
    memory: DashMap<Vec<u8>, Record>,
    timer: T,
    cas_id: CasSequencer,
}

impl<T: Timer> View for Storage<T> {
    type V = StoreState;

    closed spec fn view(&self) -> StoreState {
        StoreState { records: store_contents(self.memory), next_cas: self.cas_id@ }
    }
}

impl<T: Timer> Storage<T> {
    /// The clock that the engine reads. It is the one given to `new`, and no
    /// operation replaces it.
    pub closed spec fn clock(&self) -> T {
        self.timer
    }

    /// An empty cache that reads time from `timer`.
    pub fn new(timer: T) -> (storage: Storage<T>)
        ensures
            storage@ == StoreState::empty(),
            storage@.wf(),
            storage.clock() == timer,
    {
        Storage { memory: store_new(), timer, cas_id: CasSequencer::new() }
    }

    /// Whether the versions have run out, so that no write may be asked
    /// for any more.
    pub fn cas_exhausted(&self) -> (exhausted: bool)
        ensures
            exhausted == !self@.can_issue(),
    {
        self.cas_id.is_exhausted()
    }

    /// Tells whether `record`, just read from under `key`, has expired at
    /// time `now`, and evicts it if so.
    fn check_if_expired(&mut self, key: &[u8], record: &Record, now: u64) -> (expired: bool)
        requires
            old(self)@.records.contains_key(key@),
            old(self)@.records[key@] == record@,
        ensures
            expired == record@.header.expired_at(now),
            final(self)@ == (if expired {
                old(self)@.evict(key@)
            } else {
                old(self)@
            }),
            final(self).clock() == old(self).clock(),
    {
        if record.header.is_expired_at(now) {
            store_remove(&mut self.memory, key);
            true
        } else {
            false
        }
    }

    /// The record under `key` at time `now`. An expired record is evicted
    /// and reported as `NotFound`.
    pub fn get_at(&mut self, key: &[u8], now: u64) -> (found: StorageResult<Record>)
        requires
            old(self)@.wf(),
        ensures
            final(self)@.wf(),
            final(self).clock() == old(self).clock(),
            final(self)@ == old(self)@.get(key@, now).state,
            record_result_view(found) == old(self)@.get(key@, now).result,
    {
        match store_get(&self.memory, key) {
            Some(record) => {
                if self.check_if_expired(key, &record, now) {
                    Err(StorageError::NotFound)
                } else {
                    Ok(record)
                }
            },
            None => {
                Err(StorageError::NotFound)
            },
        }
    }

    /// The record under `key` at the clock's reading.
    pub fn get(&mut self, key: &[u8]) -> (found: StorageResult<Record>)
        requires
            old(self)@.wf(),
        ensures
            final(self)@.wf(),
            final(self).clock() == old(self).clock(),
            exists|now: u64| #[trigger]
                old(self)@.get(key@, now) == (Outcome {
                    state: final(self)@,
                    result: record_result_view(found),
                }),
    {
        let now = self.timer.secs();
        self.get_at(key, now)
    }

    /// Stores `record` under `key` at time `now`. With version 0 in the
    /// record this always succeeds. With another version it succeeds where
    /// the key holds no live record or a live record of that version, and
    /// fails with `KeyExists`, changing nothing, where it holds a live
    /// record of any other. A stored record gets the next version and the
    /// time `now`.
    pub fn set_at(&mut self, key: Vec<u8>, record: Record, now: u64) -> (status: StorageResult<
        SetStatus,
    >)
        requires
            old(self)@.wf(),
            old(self)@.can_issue(),
        ensures
            final(self)@.wf(),
            final(self).clock() == old(self).clock(),
            old(self)@.reports(final(self)@, key@, status),
            record@.header.cas == 0 ==> status is Ok,
            final(self)@ == old(self)@.set(key@, record@, now).state,
            status == old(self)@.set(key@, record@, now).result,
    {
        if record.header.cas != 0 {
            match store_header(&self.memory, key.as_slice()) {
                Some(current) => {
                    if !current.is_expired_at(now) && current.cas != record.header.cas {
                        return Err(StorageError::KeyExists);
                    }
                },
                None => {},
            }
        }
        let cas = self.cas_id.next();
        let mut stored = record;
        stored.header.cas = cas;
        stored.header.timestamp = now;
        store_insert(&mut self.memory, key, stored);
        Ok(SetStatus { cas })
    }

    /// Stores `record` under `key` at the clock's reading.
    pub fn set(&mut self, key: Vec<u8>, record: Record) -> (status: StorageResult<SetStatus>)
        requires
            old(self)@.wf(),
            old(self)@.can_issue(),
        ensures
            final(self)@.wf(),
            final(self).clock() == old(self).clock(),
            old(self)@.reports(final(self)@, key@, status),
            record@.header.cas == 0 ==> status is Ok,
            exists|now: u64| #[trigger]
                old(self)@.set(key@, record@, now) == (Outcome {
                    state: final(self)@,
                    result: status,
                }),
    {
        let now = self.timer.secs();
        self.set_at(key, record, now)
    }

    /// Stores `record` under `key` at time `now`, provided the key holds no
    /// live record; fails with `KeyExists` where it holds one.
    pub fn add_at(&mut self, key: Vec<u8>, record: Record, now: u64) -> (status: StorageResult<
        SetStatus,
    >)
        requires
            old(self)@.wf(),
            old(self)@.can_issue(),
        ensures
            final(self)@.wf(),
            final(self).clock() == old(self).clock(),
            old(self)@.reports(final(self)@, key@, status),
            final(self)@ == old(self)@.add(key@, record@, now).state,
            status == old(self)@.add(key@, record@, now).result,
    {
        match self.get_at(key.as_slice(), now) {
            Ok(_) => Err(StorageError::KeyExists),
            Err(_) => self.set_at(key, record, now),
        }
    }

    /// Stores `record` under `key` at the clock's reading, provided the key
    /// holds no live record.
    pub fn add(&mut self, key: Vec<u8>, record: Record) -> (status: StorageResult<SetStatus>)
        requires
            old(self)@.wf(),
            old(self)@.can_issue(),
        ensures
            final(self)@.wf(),
            final(self).clock() == old(self).clock(),
            old(self)@.reports(final(self)@, key@, status),
            exists|now: u64| #[trigger]
                old(self)@.add(key@, record@, now) == (Outcome {
                    state: final(self)@,
                    result: status,
                }),
    {
        let now = self.timer.secs();
        self.add_at(key, record, now)
    }

    /// Stores `record` under `key` at time `now`, provided the key holds a
    /// live record; fails with `NotFound` where it holds none, and with
    /// `KeyExists` on a version conflict.
    pub fn replace_at(&mut self, key: Vec<u8>, record: Record, now: u64) -> (status:
        StorageResult<SetStatus>)
        requires
            old(self)@.wf(),
            old(self)@.can_issue(),
        ensures
            final(self)@.wf(),
            final(self).clock() == old(self).clock(),
            old(self)@.reports(final(self)@, key@, status),
            final(self)@ == old(self)@.replace(key@, record@, now).state,
            status == old(self)@.replace(key@, record@, now).result,
    {
        match self.get_at(key.as_slice(), now) {
            Ok(_) => self.set_at(key, record, now),
            Err(_) => Err(StorageError::NotFound),
        }
    }

    /// Stores `record` under `key` at the clock's reading, provided the key
    /// holds a live record.
    pub fn replace(&mut self, key: Vec<u8>, record: Record) -> (status: StorageResult<SetStatus>)
        requires
            old(self)@.wf(),
            old(self)@.can_issue(),
        ensures
            final(self)@.wf(),
            final(self).clock() == old(self).clock(),
            old(self)@.reports(final(self)@, key@, status),
            exists|now: u64| #[trigger]
                old(self)@.replace(key@, record@, now) == (Outcome {
                    state: final(self)@,
                    result: status,
                }),
    {
        let now = self.timer.secs();
        self.replace_at(key, record, now)
    }

    /// Puts the value of `new_record` behind the live value under `key`, at
    /// time `now`. The stored flags and lifetime stay; the version in
    /// `new_record` is checked as in `set_at`. Fails with `NotFound` where
    /// the key holds no live record.
    pub fn append_at(&mut self, key: Vec<u8>, new_record: Record, now: u64) -> (status:
        StorageResult<SetStatus>)
        requires
            old(self)@.wf(),
            old(self)@.can_issue(),
        ensures
            final(self)@.wf(),
            final(self).clock() == old(self).clock(),
            old(self)@.reports(final(self)@, key@, status),
            final(self)@ == old(self)@.append(key@, new_record@, now).state,
            status == old(self)@.append(key@, new_record@, now).result,
    {
        match self.get_at(key.as_slice(), now) {
            Ok(mut record) => {
                let mut tail = new_record.value;
                record.header.cas = new_record.header.cas;
                record.value.append(&mut tail);
                self.set_at(key, record, now)
            },
            Err(_) => Err(StorageError::NotFound),
        }
    }

    /// Puts the value of `new_record` behind the live value under `key`, at
    /// the clock's reading.
    pub fn append(&mut self, key: Vec<u8>, new_record: Record) -> (status: StorageResult<
        SetStatus,
    >)
        requires
            old(self)@.wf(),
            old(self)@.can_issue(),
        ensures
            final(self)@.wf(),
            final(self).clock() == old(self).clock(),
            old(self)@.reports(final(self)@, key@, status),
            exists|now: u64| #[trigger]
                old(self)@.append(key@, new_record@, now) == (Outcome {
                    state: final(self)@,
                    result: status,
                }),
    {
        let now = self.timer.secs();
        self.append_at(key, new_record, now)
    }

    /// Puts the value of `new_record` before the live value under `key`, at
    /// time `now`. The stored flags and lifetime stay; the version in
    /// `new_record` is checked as in `set_at`. Fails with `NotFound` where
    /// the key holds no live record.
    pub fn prepend_at(&mut self, key: Vec<u8>, new_record: Record, now: u64) -> (status:
        StorageResult<SetStatus>)
        requires
            old(self)@.wf(),
            old(self)@.can_issue(),
        ensures
            final(self)@.wf(),
            final(self).clock() == old(self).clock(),
            old(self)@.reports(final(self)@, key@, status),
            final(self)@ == old(self)@.prepend(key@, new_record@, now).state,
            status == old(self)@.prepend(key@, new_record@, now).result,
    {
        match self.get_at(key.as_slice(), now) {
            Ok(record) => {
                let cas = new_record.header.cas;
                let mut joined = new_record;
                let mut tail = record.value;
                joined.value.append(&mut tail);
                joined.header = record.header;
                joined.header.cas = cas;
                self.set_at(key, joined, now)
            },
            Err(_) => Err(StorageError::NotFound),
        }
    }

    /// Puts the value of `new_record` before the live value under `key`, at
    /// the clock's reading.
    pub fn prepend(&mut self, key: Vec<u8>, new_record: Record) -> (status: StorageResult<
        SetStatus,
    >)
        requires
            old(self)@.wf(),
            old(self)@.can_issue(),
        ensures
            final(self)@.wf(),
            final(self).clock() == old(self).clock(),
            old(self)@.reports(final(self)@, key@, status),
            exists|now: u64| #[trigger]
                old(self)@.prepend(key@, new_record@, now) == (Outcome {
                    state: final(self)@,
                    result: status,
                }),
    {
        let now = self.timer.secs();
        self.prepend_at(key, new_record, now)
    }

    /// Adds `increment.delta` to the counter under `key` at time `now`; see
    /// `add_delta_at`.
    pub fn increment_at(
        &mut self,
        header: Header,
        key: Vec<u8>,
        increment: IncrementParam,
        now: u64,
    ) -> (status: StorageResult<SetStatus>)
        requires
            old(self)@.wf(),
            old(self)@.can_issue(),
        ensures
            final(self)@.wf(),
            final(self).clock() == old(self).clock(),
            old(self)@.reports(final(self)@, key@, status),
            final(self)@ == old(self)@.add_delta(header, key@, increment, true, now).state,
            status == old(self)@.add_delta(header, key@, increment, true, now).result,
    {
        self.add_delta_at(header, key, increment, true, now)
    }

    /// Subtracts `decrement.delta` from the counter under `key` at time
    /// `now`, stopping at 0; see `add_delta_at`.
    pub fn decrement_at(
        &mut self,
        header: Header,
        key: Vec<u8>,
        decrement: DecrementParam,
        now: u64,
    ) -> (status: StorageResult<SetStatus>)
        requires
            old(self)@.wf(),
            old(self)@.can_issue(),
        ensures
            final(self)@.wf(),
            final(self).clock() == old(self).clock(),
            old(self)@.reports(final(self)@, key@, status),
            final(self)@ == old(self)@.add_delta(header, key@, decrement, false, now).state,
            status == old(self)@.add_delta(header, key@, decrement, false, now).result,
    {
        self.add_delta_at(header, key, decrement, false, now)
    }

    /// Adds `increment.delta` to the counter under `key`, at the clock's
    /// reading; see `add_delta_at`.
    pub fn increment(&mut self, header: Header, key: Vec<u8>, increment: IncrementParam) -> (status:
        StorageResult<SetStatus>)
        requires
            old(self)@.wf(),
            old(self)@.can_issue(),
        ensures
            final(self)@.wf(),
            final(self).clock() == old(self).clock(),
            old(self)@.reports(final(self)@, key@, status),
            exists|now: u64| #[trigger]
                old(self)@.add_delta(header, key@, increment, true, now) == (Outcome {
                    state: final(self)@,
                    result: status,
                }),
    {
        self.add_delta(header, key, increment, true)
    }

    /// Subtracts `decrement.delta` from the counter under `key`, at the
    /// clock's reading, stopping at 0; see `add_delta_at`.
    pub fn decrement(&mut self, header: Header, key: Vec<u8>, decrement: DecrementParam) -> (status:
        StorageResult<SetStatus>)
        requires
            old(self)@.wf(),
            old(self)@.can_issue(),
        ensures
            final(self)@.wf(),
            final(self).clock() == old(self).clock(),
            old(self)@.reports(final(self)@, key@, status),
            exists|now: u64| #[trigger]
                old(self)@.add_delta(header, key@, decrement, false, now) == (Outcome {
                    state: final(self)@,
                    result: status,
                }),
    {
        self.add_delta(header, key, decrement, false)
    }

    /// Changes the counter under `key` at time `now`.
    ///
    /// Where the key holds a live record, its value must be an unsigned
    /// decimal number of 64 bits, else the call fails with
    /// `ArithOnNonNumeric`. The number is increased by `delta.delta`,
    /// wrapping at 64 bits, or decreased by it, stopping at 0; its decimal
    /// text is stored under `header`, whose version is checked as in
    /// `set_at`.
    ///
    /// Where the key holds no live record, the text of `delta.value` is
    /// stored with the header's version and flags and no expiration, unless
    /// the header's expiration is `NO_AUTO_CREATE`: then the call fails with
    /// `NotFound`.
    pub fn add_delta_at(
        &mut self,
        header: Header,
        key: Vec<u8>,
        delta: DeltaParam,
        increment: bool,
        now: u64,
    ) -> (status: StorageResult<SetStatus>)
        requires
            old(self)@.wf(),
            old(self)@.can_issue(),
        ensures
            final(self)@.wf(),
            final(self).clock() == old(self).clock(),
            old(self)@.reports(final(self)@, key@, status),
            final(self)@ == old(self)@.add_delta(header, key@, delta, increment, now).state,
            status == old(self)@.add_delta(header, key@, delta, increment, now).result,
    {
        match self.get_at(key.as_slice(), now) {
            Ok(mut record) => {
                match parse_decimal(record.value.as_slice(), u64::MAX) {
                    Some(number) => {
                        let changed = if increment {
                            number.wrapping_add(delta.delta)
                        } else if delta.delta > number {
                            0
                        } else {
                            number - delta.delta
                        };
                        record.value = format_decimal(changed);
                        record.header = header;
                        self.set_at(key, record, now)
                    },
                    None => Err(StorageError::ArithOnNonNumeric),
                }
            },
            Err(_) => {
                if header.expiration != NO_AUTO_CREATE {
                    let record = Record::new(
                        format_decimal(delta.value),
                        header.cas,
                        header.flags,
                        0,
                    );
                    self.set_at(key, record, now)
                } else {
                    Err(StorageError::NotFound)
                }
            },
        }
    }

    /// Changes the counter under `key` at the clock's reading; see
    /// `add_delta_at`.
    pub fn add_delta(
        &mut self,
        header: Header,
        key: Vec<u8>,
        delta: DeltaParam,
        increment: bool,
    ) -> (status: StorageResult<SetStatus>)
        requires
            old(self)@.wf(),
            old(self)@.can_issue(),
        ensures
            final(self)@.wf(),
            final(self).clock() == old(self).clock(),
            old(self)@.reports(final(self)@, key@, status),
            exists|now: u64| #[trigger]
                old(self)@.add_delta(header, key@, delta, increment, now) == (Outcome {
                    state: final(self)@,
                    result: status,
                }),
    {
        let now = self.timer.secs();
        self.add_delta_at(header, key, delta, increment, now)
    }

    /// Removes the live record under `key` at time `now`, provided the
    /// header's version is 0 or that of the record. Fails with `NotFound`
    /// where the key holds no live record, evicting an expired one, and
    /// with `KeyExists` on another version.
    pub fn delete_at(&mut self, key: Vec<u8>, header: Header, now: u64) -> (removed: StorageResult<
        (),
    >)
        requires
            old(self)@.wf(),
        ensures
            final(self)@.wf(),
            final(self).clock() == old(self).clock(),
            final(self)@ == old(self)@.delete(key@, header, now).state,
            removed == old(self)@.delete(key@, header, now).result,
    {
        match store_header(&self.memory, key.as_slice()) {
            Some(current) => {
                if current.is_expired_at(now) {
                    store_remove(&mut self.memory, key.as_slice());
                    Err(StorageError::NotFound)
                } else if header.cas == 0 || current.cas == header.cas {
                    store_remove(&mut self.memory, key.as_slice());
                    Ok(())
                } else {
                    Err(StorageError::KeyExists)
                }
            },
            None => {
                assert(old(self)@.evict(key@) =~= old(self)@);
                Err(StorageError::NotFound)
            },
        }
    }

    /// Removes the live record under `key` at the clock's reading.
    pub fn delete(&mut self, key: Vec<u8>, header: Header) -> (removed: StorageResult<()>)
        requires
            old(self)@.wf(),
        ensures
            final(self)@.wf(),
            final(self).clock() == old(self).clock(),
            exists|now: u64| #[trigger]
                old(self)@.delete(key@, header, now) == (Outcome {
                    state: final(self)@,
                    result: removed,
                }),
    {
        let now = self.timer.secs();
        self.delete_at(key, header, now)
    }

    /// Gives every record the header's lifetime. Nothing is removed: a
    /// record that has thereby expired is evicted when it is next read.
    pub fn flush(&mut self, header: Header)
        requires
            old(self)@.wf(),
        ensures
            final(self)@.wf(),
            final(self).clock() == old(self).clock(),
            final(self)@ == old(self)@.flush(header),
    {
        store_expire_all(&mut self.memory, header.expiration);
        assert forall|key: Seq<u8>| #[trigger] self@.records.contains_key(key) implies 1
            <= self@.records[key].header.cas < self@.next_cas by {
            assert(old(self)@.records.contains_key(key));
        }
    }
}

} // verus!
