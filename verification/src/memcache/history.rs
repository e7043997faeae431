//! Sequences of operations on the cache, and what holds along every one of
//! them.

use crate::memcache::model::StoreState;
use crate::memcache::record::{DeltaParam, Header, RecordView};
use vstd::prelude::*;

verus! {

/// One operation of the engine with its arguments.
pub enum Operation {
    Read { key: Seq<u8> },
    Write { key: Seq<u8>, record: RecordView },
    Add { key: Seq<u8>, record: RecordView },
    Replace { key: Seq<u8>, record: RecordView },
    Append { key: Seq<u8>, record: RecordView },
    Prepend { key: Seq<u8>, record: RecordView },
    AddDelta { header: Header, key: Seq<u8>, delta: DeltaParam, increment: bool },
    Delete { key: Seq<u8>, header: Header },
    Flush { header: Header },
}

/// An operation and the clock reading at which it runs.
pub struct Request {
    pub operation: Operation,
    pub now: u64,
}

impl StoreState {
    /// The state after `request`.
    pub open spec fn apply(self, request: Request) -> StoreState {
        let now = request.now;
        match request.operation {
            Operation::Read { key } => self.get(key, now).state,
            Operation::Write { key, record } => self.set(key, record, now).state,
            Operation::Add { key, record } => self.add(key, record, now).state,
            Operation::Replace { key, record } => self.replace(key, record, now).state,
            Operation::Append { key, record } => self.append(key, record, now).state,
            Operation::Prepend { key, record } => self.prepend(key, record, now).state,
            Operation::AddDelta { header, key, delta, increment } => self.add_delta(
                header,
                key,
                delta,
                increment,
                now,
            ).state,
            Operation::Delete { key, header } => self.delete(key, header, now).state,
            Operation::Flush { header } => self.flush(header),
        }
    }

    /// The version that `request` reports, if it is a write that succeeds.
    pub open spec fn issued(self, request: Request) -> Option<u64> {
        let now = request.now;
        let written = match request.operation {
            Operation::Write { key, record } => Some(self.set(key, record, now).result),
            Operation::Add { key, record } => Some(self.add(key, record, now).result),
            Operation::Replace { key, record } => Some(self.replace(key, record, now).result),
            Operation::Append { key, record } => Some(self.append(key, record, now).result),
            Operation::Prepend { key, record } => Some(self.prepend(key, record, now).result),
            Operation::AddDelta { header, key, delta, increment } => Some(
                self.add_delta(header, key, delta, increment, now).result,
            ),
            _ => None,
        };
        match written {
            Some(Ok(status)) => Some(status.cas),
            _ => None,
        }
    }

    /// The state after all of `requests`, in order.
    pub open spec fn run(self, requests: Seq<Request>) -> StoreState
        decreases requests.len(),
    {
        if requests.len() == 0 {
            self
        } else {
            self.run(requests.drop_last()).apply(requests.last())
        }
    }

    /// The version that the request at position `at` reports when
    /// `requests` run in order from this state.
    pub open spec fn issued_at(self, requests: Seq<Request>, at: int) -> Option<u64> {
        self.run(requests.take(at)).issued(requests[at])
    }
}

/// One operation keeps the state well-formed. It hands out at most one
/// version, and a write that succeeds reports exactly the version that was
/// next.
pub proof fn lemma_apply(state: StoreState, request: Request)
    requires
        state.wf(),
        state.can_issue(),
    ensures
        state.apply(request).wf(),
        state.next_cas <= state.apply(request).next_cas <= state.next_cas + 1,
        state.issued(request) is Some ==> state.issued(request) == Some(state.next_cas)
            && state.apply(request).next_cas == state.next_cas + 1,
{
}

/// A run of operations keeps the state well-formed and hands out at most
/// one version for each of them.
pub proof fn lemma_run(state: StoreState, requests: Seq<Request>)
    requires
        state.wf(),
        state.next_cas + requests.len() <= u64::MAX,
    ensures
        state.run(requests).wf(),
        state.next_cas <= state.run(requests).next_cas <= state.next_cas + requests.len(),
    decreases requests.len(),
{
    if requests.len() > 0 {
        lemma_run(state, requests.drop_last());
        lemma_apply(state.run(requests.drop_last()), requests.last());
    }
}

/// The next version never goes down as a run is extended.
pub proof fn lemma_run_prefix(state: StoreState, requests: Seq<Request>, shorter: int, longer: int)
    requires
        state.wf(),
        state.next_cas + requests.len() <= u64::MAX,
        0 <= shorter <= longer <= requests.len(),
    ensures
        state.run(requests.take(shorter)).next_cas <= state.run(requests.take(longer)).next_cas,
    decreases longer - shorter,
{
    if shorter < longer {
        lemma_run_prefix(state, requests, shorter, longer - 1);
        let prefix = requests.take(longer);
        assert(prefix.drop_last() =~= requests.take(longer - 1));
        lemma_run(state, requests.take(longer - 1));
        lemma_apply(state.run(requests.take(longer - 1)), prefix.last());
    }
}

} // verus!
