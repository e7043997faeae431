//! Laws of the cache, proved of the model by which the engine's operations
//! are specified.

use crate::memcache::decimal::{decimal_text, decimal_value, lemma_decimal_round_trip};
use crate::memcache::error::{StorageError, StorageResult};
use crate::memcache::history::{lemma_apply, lemma_run, lemma_run_prefix, Operation, Request};
use crate::memcache::model::{Outcome, StoreState};
use crate::memcache::record::{DeltaParam, Header, RecordView, SetStatus, NO_AUTO_CREATE};
use vstd::prelude::*;

verus! {

/// Versions only grow: of two writes that succeed in the course of any run
/// of operations, the later one reports the greater version, whatever the
/// keys, the clock readings and the operations between them.
pub proof fn law_versions_increase(
    state: StoreState,
    requests: Seq<Request>,
    earlier: int,
    later: int,
)
    requires
        state.wf(),
        state.next_cas + requests.len() <= u64::MAX,
        0 <= earlier < later < requests.len(),
        state.issued_at(requests, earlier) is Some,
        state.issued_at(requests, later) is Some,
    ensures
        state.issued_at(requests, earlier)->0 < state.issued_at(requests, later)->0,
{
    let before_earlier = state.run(requests.take(earlier));
    let before_later = state.run(requests.take(later));
    lemma_run(state, requests.take(earlier));
    lemma_apply(before_earlier, requests[earlier]);
    lemma_run(state, requests.take(later));
    lemma_apply(before_later, requests[later]);
    let next = requests.take(earlier + 1);
    assert(next.drop_last() =~= requests.take(earlier));
    lemma_run_prefix(state, requests, earlier + 1, later);
}

/// The key that an operation writes to, if it is a write.
pub open spec fn written_key(operation: Operation) -> Option<Seq<u8>> {
    match operation {
        Operation::Write { key, .. } => Some(key),
        Operation::Add { key, .. } => Some(key),
        Operation::Replace { key, .. } => Some(key),
        Operation::Append { key, .. } => Some(key),
        Operation::Prepend { key, .. } => Some(key),
        Operation::AddDelta { key, .. } => Some(key),
        _ => None,
    }
}

/// The version that a write reports is not 0, is the version of the record
/// that the write leaves under its key, stamped with the time of the write,
/// and is the version of no record stored before.
pub proof fn law_reported_version_is_stored(state: StoreState, request: Request)
    requires
        state.wf(),
        state.issued(request) is Some,
    ensures
        written_key(request.operation) is Some,
        state.apply(request).records.contains_key(written_key(request.operation)->0),
        state.apply(request).records[written_key(request.operation)->0].header.cas
            == state.issued(request)->0,
        state.apply(request).records[written_key(request.operation)->0].header.timestamp
            == request.now,
        state.issued(request)->0 != 0,
        forall|key: Seq<u8>| #[trigger]
            state.records.contains_key(key) ==> state.records[key].header.cas
                != state.issued(request)->0,
{
}

/// A write on a stored key that names no version, or the version of the
/// live record, reports a version greater than the stored one and leaves
/// the key with it.
pub proof fn law_write_outgrows_stored_version(
    state: StoreState,
    key: Seq<u8>,
    record: RecordView,
    now: u64,
)
    requires
        state.wf(),
        state.records.contains_key(key),
        !state.cas_conflict(key, record.header.cas, now),
    ensures
        state.set(key, record, now).result is Ok,
        state.set(key, record, now).result->Ok_0.cas > state.records[key].header.cas,
        state.set(key, record, now).state.records[key].header.cas == state.set(
            key,
            record,
            now,
        ).result->Ok_0.cas,
{
}

/// Whether `request` is a write under `key` that names the version `cas`.
pub open spec fn writes_with_cas(request: Request, key: Seq<u8>, cas: u64) -> bool {
    match request.operation {
        Operation::Write { key: written, record } => written == key && record.header.cas == cas,
        _ => false,
    }
}

/// Whether the record that the write `earlier` stores, if it stores one, is
/// still live when `later` runs.
pub open spec fn still_live(earlier: Request, later: Request) -> bool {
    match earlier.operation {
        Operation::Write { record, .. } => !record.stamped(0, earlier.now).header.expired_at(
            later.now,
        ),
        _ => true,
    }
}

/// The result of the write at position `at` when `requests` run in order
/// from `state`.
pub open spec fn write_result(state: StoreState, requests: Seq<Request>, at: int) -> StorageResult<
    SetStatus,
> {
    match requests[at].operation {
        Operation::Write { key, record } => state.run(requests.take(at)).set(
            key,
            record,
            requests[at].now,
        ).result,
        _ => Err(StorageError::NotFound),
    }
}

/// The value of the write at position `at`.
pub open spec fn written_value(requests: Seq<Request>, at: int) -> Seq<u8> {
    match requests[at].operation {
        Operation::Write { record, .. } => record.value,
        _ => Seq::empty(),
    }
}

/// Position of the first of the first `upto` requests that meets no version
/// conflict in `state`; `upto` if each of them meets one.
pub open spec fn first_admitted(
    state: StoreState,
    key: Seq<u8>,
    cas: u64,
    requests: Seq<Request>,
    upto: int,
) -> int
    decreases upto,
{
    if upto <= 0 {
        0
    } else {
        let earlier = first_admitted(state, key, cas, requests, upto - 1);
        if earlier < upto - 1 {
            earlier
        } else if state.cas_conflict(key, cas, requests[upto - 1].now) {
            upto
        } else {
            upto - 1
        }
    }
}

/// Once a request is admitted, it stays the first admitted one however many
/// requests follow; while none is, none of those seen was.
proof fn lemma_first_admitted(
    state: StoreState,
    key: Seq<u8>,
    cas: u64,
    requests: Seq<Request>,
    upto: int,
    longer: int,
)
    requires
        0 <= upto <= longer,
    ensures
        0 <= first_admitted(state, key, cas, requests, upto) <= upto,
        first_admitted(state, key, cas, requests, upto) < upto ==> first_admitted(
            state,
            key,
            cas,
            requests,
            longer,
        ) == first_admitted(state, key, cas, requests, upto),
        first_admitted(state, key, cas, requests, upto) == upto ==> first_admitted(
            state,
            key,
            cas,
            requests,
            longer,
        ) >= upto,
        first_admitted(state, key, cas, requests, upto) < upto ==> !state.cas_conflict(
            key,
            cas,
            requests[first_admitted(state, key, cas, requests, upto)].now,
        ),
    decreases longer,
{
    if upto > 0 {
        lemma_first_admitted(state, key, cas, requests, upto - 1, upto - 1);
    }
    if longer > upto {
        lemma_first_admitted(state, key, cas, requests, upto, longer - 1);
    }
}

/// The state in which a series of writes under one key with one version
/// stands after its first `done` writes: the first write that is admitted
/// decides, the others change nothing.
proof fn lemma_contest_prefix(
    state: StoreState,
    key: Seq<u8>,
    cas: u64,
    requests: Seq<Request>,
    done: int,
)
    requires
        state.wf(),
        state.can_issue(),
        cas != 0,
        cas != state.next_cas,
        forall|i: int| 0 <= i < requests.len() ==> writes_with_cas(#[trigger] requests[i], key, cas),
        forall|i: int, j: int|
            0 <= i < j < requests.len() ==> #[trigger] still_live(requests[i], requests[j]),
        0 <= done <= requests.len(),
    ensures
        state.run(requests.take(done)) == (if first_admitted(state, key, cas, requests, done)
            == done {
            state
        } else {
            state.apply(requests[first_admitted(state, key, cas, requests, done)])
        }),
    decreases done,
{
    if done > 0 {
        lemma_contest_prefix(state, key, cas, requests, done - 1);
        lemma_first_admitted(state, key, cas, requests, done - 1, done);
        let prefix = requests.take(done);
        assert(prefix.drop_last() =~= requests.take(done - 1));
        let winner = first_admitted(state, key, cas, requests, done - 1);
        if winner < done - 1 {
            assert(still_live(requests[winner], requests[done - 1]));
        }
    }
}

/// Of any number of writes under one key that all name the same version,
/// run one after another, at most one succeeds: the first that meets no
/// conflict. Every other write fails with `KeyExists`, and in the end the
/// key holds the value of the successful write under the version that it
/// reported.
///
/// This is said of a version other than the one handed out next, as is
/// every version that was ever read from the cache, and of writes none of
/// whose records would have expired by the time of a later one: an expired
/// record is no record, and the next writer would be admitted.
pub proof fn law_single_winner(state: StoreState, key: Seq<u8>, cas: u64, requests: Seq<Request>)
    requires
        state.wf(),
        state.can_issue(),
        cas != 0,
        cas != state.next_cas,
        forall|i: int| 0 <= i < requests.len() ==> writes_with_cas(#[trigger] requests[i], key, cas),
        forall|i: int, j: int|
            0 <= i < j < requests.len() ==> #[trigger] still_live(requests[i], requests[j]),
    ensures
        forall|i: int|
            0 <= i < requests.len() ==> #[trigger] write_result(state, requests, i) == (if i
                == first_admitted(state, key, cas, requests, requests.len() as int) {
                Ok::<SetStatus, StorageError>(SetStatus { cas: state.next_cas })
            } else {
                Err::<SetStatus, StorageError>(StorageError::KeyExists)
            }),
        forall|i: int, j: int|
            0 <= i < requests.len() && 0 <= j < requests.len() && i != j && write_result(
                state,
                requests,
                i,
            ) is Ok ==> write_result(state, requests, j) == Err::<SetStatus, StorageError>(
                StorageError::KeyExists,
            ),
        forall|i: int|
            0 <= i < requests.len() && write_result(state, requests, i) is Ok ==> {
                let last = state.run(requests);
                &&& last.records.contains_key(key)
                &&& last.records[key].header.cas == write_result(state, requests, i)->Ok_0.cas
                &&& last.records[key].value == written_value(requests, i)
            },
        requests.len() > 0 && !state.cas_conflict(key, cas, requests[0].now) ==> write_result(
            state,
            requests,
            0,
        ) is Ok,
{
    let count = requests.len() as int;
    let winner = first_admitted(state, key, cas, requests, count);
    assert forall|i: int| 0 <= i < requests.len() implies #[trigger] write_result(
        state,
        requests,
        i,
    ) == (if i == winner {
        Ok::<SetStatus, StorageError>(SetStatus { cas: state.next_cas })
    } else {
        Err::<SetStatus, StorageError>(StorageError::KeyExists)
    }) by {
        lemma_contest_prefix(state, key, cas, requests, i);
        lemma_first_admitted(state, key, cas, requests, i, count);
        lemma_first_admitted(state, key, cas, requests, i + 1, count);
        let before = first_admitted(state, key, cas, requests, i);
        if before < i {
            assert(still_live(requests[before], requests[i]));
        }
    }
    lemma_contest_prefix(state, key, cas, requests, count);
    lemma_first_admitted(state, key, cas, requests, count, count);
    assert(requests.take(count) =~= requests);
}

/// A record that has expired is no record: at a time at which the record
/// under `key` has expired, every operation on `key` has the result, and
/// leaves the state, that it has where `key` holds nothing.
pub proof fn law_expired_record_is_absent(
    state: StoreState,
    key: Seq<u8>,
    record: RecordView,
    header: Header,
    delta: DeltaParam,
    increment: bool,
    now: u64,
)
    requires
        state.records.contains_key(key),
        state.records[key].header.expired_at(now),
    ensures
        state.get(key, now) == state.evict(key).get(key, now),
        state.set(key, record, now) == state.evict(key).set(key, record, now),
        state.add(key, record, now) == state.evict(key).add(key, record, now),
        state.replace(key, record, now) == state.evict(key).replace(key, record, now),
        state.append(key, record, now) == state.evict(key).append(key, record, now),
        state.prepend(key, record, now) == state.evict(key).prepend(key, record, now),
        state.add_delta(header, key, delta, increment, now) == state.evict(key).add_delta(
            header,
            key,
            delta,
            increment,
            now,
        ),
        state.delete(key, header, now) == state.evict(key).delete(key, header, now),
        state.get(key, now).result == Err::<RecordView, StorageError>(StorageError::NotFound),
        state.delete(key, header, now).result == Err::<(), StorageError>(StorageError::NotFound),
        state.set(key, record, now).result is Ok,
{
    assert(state.evict(key).evict(key) =~= state.evict(key));
}

/// A removal succeeds exactly where the key holds a live record and the
/// header names no version or the version of that record. Where it
/// succeeds the key is not found afterwards, and in every case all other
/// keys hold what they held.
pub proof fn law_delete(state: StoreState, key: Seq<u8>, header: Header, now: u64)
    ensures
        state.delete(key, header, now).result is Ok <==> state.live(key, now) && (header.cas == 0
            || header.cas == state.records[key].header.cas),
        state.delete(key, header, now).result is Ok ==> state.delete(
            key,
            header,
            now,
        ).state.get(key, now).result == Err::<RecordView, StorageError>(StorageError::NotFound),
        forall|other: Seq<u8>|
            other != key ==> (#[trigger] state.delete(key, header, now).state.records.contains_key(
                other,
            ) == state.records.contains_key(other)),
        forall|other: Seq<u8>|
            other != key && state.records.contains_key(other) ==> (#[trigger] state.delete(
                key,
                header,
                now,
            ).state.records[other]) == state.records[other],
        state.delete(key, header, now).state.next_cas == state.next_cas,
{
}

/// A record written at time `written` with lifetime `lifetime` is read back
/// unchanged at every time before `written + lifetime`, and at every time
/// if its lifetime is 0; from `written + lifetime` on a read reports
/// `NotFound` and leaves the key empty.
pub proof fn law_expiration(
    state: StoreState,
    key: Seq<u8>,
    record: RecordView,
    written: u64,
    read: u64,
)
    requires
        !state.cas_conflict(key, record.header.cas, written),
    ensures
        ({
            let stored = state.set(key, record, written).state;
            let lifetime = record.header.expiration;
            if lifetime == 0 || read < written + lifetime {
                stored.get(key, read) == (Outcome {
                    state: stored,
                    result: Ok(record.stamped(state.next_cas, written)),
                })
            } else {
                &&& stored.get(key, read).result == Err::<RecordView, StorageError>(
                    StorageError::NotFound,
                )
                &&& !stored.get(key, read).state.records.contains_key(key)
            }
        }),
{
}

/// Decrementing a counter by more than it holds stores exactly `0`, and
/// succeeds unless the header names a version other than the stored one.
pub proof fn law_decrement_floor(
    state: StoreState,
    header: Header,
    key: Seq<u8>,
    delta: DeltaParam,
    now: u64,
)
    requires
        state.live(key, now),
        decimal_value(state.records[key].value, u64::MAX) is Some,
        delta.delta > decimal_value(state.records[key].value, u64::MAX)->0,
        !state.cas_conflict(key, header.cas, now),
    ensures
        state.add_delta(header, key, delta, false, now).result is Ok,
        state.add_delta(header, key, delta, false, now).state.records[key].value =~= seq![0x30u8],
        decimal_value(
            state.add_delta(header, key, delta, false, now).state.records[key].value,
            u64::MAX,
        ) == Some(0u64),
{
    lemma_decimal_round_trip(0, u64::MAX);
}

/// A delta on a key without a live record creates the key with the decimal
/// text of the initial value and no expiration, unless the header's
/// expiration is `NO_AUTO_CREATE`: then it fails with `NotFound` and the key
/// stays empty.
pub proof fn law_delta_auto_create(
    state: StoreState,
    header: Header,
    key: Seq<u8>,
    delta: DeltaParam,
    increment: bool,
    now: u64,
)
    requires
        !state.live(key, now),
    ensures
        ({
            let outcome = state.add_delta(header, key, delta, increment, now);
            if header.expiration != NO_AUTO_CREATE {
                &&& outcome.result == Ok::<SetStatus, StorageError>(
                    SetStatus { cas: state.next_cas },
                )
                &&& outcome.state.records.contains_key(key)
                &&& outcome.state.records[key].value == decimal_text(delta.value as nat)
                &&& outcome.state.records[key].header.expiration == 0
                &&& outcome.state.records[key].header.flags == header.flags
                &&& decimal_value(outcome.state.records[key].value, u64::MAX) == Some(delta.value)
            } else {
                &&& outcome.result == Err::<SetStatus, StorageError>(StorageError::NotFound)
                &&& !outcome.state.records.contains_key(key)
            }
        }),
{
    lemma_decimal_round_trip(delta.value, u64::MAX);
}

/// `append` stores the old value followed by the new one, `prepend` the new
/// one followed by the old; both keep the stored flags and lifetime and
/// leave the record with a version other than the one it had.
pub proof fn law_append_prepend(state: StoreState, key: Seq<u8>, record: RecordView, now: u64)
    requires
        state.wf(),
        state.live(key, now),
        !state.cas_conflict(key, record.header.cas, now),
    ensures
        ({
            let old_record = state.records[key];
            let appended = state.append(key, record, now);
            let prepended = state.prepend(key, record, now);
            &&& appended.result == Ok::<SetStatus, StorageError>(SetStatus { cas: state.next_cas })
            &&& prepended.result == appended.result
            &&& appended.state.records[key].value == old_record.value + record.value
            &&& prepended.state.records[key].value == record.value + old_record.value
            &&& appended.state.records[key].header.cas != old_record.header.cas
            &&& prepended.state.records[key].header.cas != old_record.header.cas
            &&& appended.state.records[key].header.flags == old_record.header.flags
            &&& appended.state.records[key].header.expiration == old_record.header.expiration
            &&& prepended.state.records[key].header.flags == old_record.header.flags
            &&& prepended.state.records[key].header.expiration == old_record.header.expiration
        }),
{
}

/// After a flush to a lifetime other than 0, every key that was stored is
/// reported as `NotFound` by any read at or after the time of its last
/// write plus that lifetime, whatever lifetime it had before.
pub proof fn law_flush_expires(state: StoreState, header: Header, key: Seq<u8>, now: u64)
    requires
        state.records.contains_key(key),
        header.expiration != 0,
        now >= state.records[key].header.timestamp + header.expiration,
    ensures
        state.flush(header).get(key, now).result == Err::<RecordView, StorageError>(
            StorageError::NotFound,
        ),
{
}

/// A flush changes lifetimes only: keys, values, versions, flags and times
/// of writing stay.
pub proof fn law_flush_keeps_records(state: StoreState, header: Header, key: Seq<u8>)
    ensures
        state.flush(header).records.contains_key(key) == state.records.contains_key(key),
        state.records.contains_key(key) ==> state.flush(header).records[key]
            == state.records[key].with_expiration(header.expiration),
        state.flush(header).next_cas == state.next_cas,
{
}

/// A write that names no version succeeds in every state, whatever the key
/// holds, stores the record as given, and reports a version that is not 0
/// and that no stored record has.
pub proof fn law_unconditional_set_succeeds(
    state: StoreState,
    key: Seq<u8>,
    record: RecordView,
    now: u64,
)
    requires
        state.wf(),
        record.header.cas == 0,
    ensures
        state.set(key, record, now).result == Ok::<SetStatus, StorageError>(
            SetStatus { cas: state.next_cas },
        ),
        state.set(key, record, now).result->Ok_0.cas != 0,
        state.set(key, record, now).state.records[key] == record.stamped(state.next_cas, now),
        forall|other: Seq<u8>| #[trigger]
            state.records.contains_key(other) ==> state.records[other].header.cas
                < state.next_cas,
{
}

} // verus!
