//! The record store: a `DashMap` from keys to records.
//!
//! Verus does not look inside the map. What it holds is named by
//! `store_contents`, and each method of the map that the engine calls is
//! given a contract over that name. These contracts are taken on trust from
//! the map's implementation; everything built on them is verified.

use crate::memcache::record::{Header, Record, RecordView};
use dashmap::DashMap;
use vstd::prelude::*;

verus! {

/// `dashmap::DashMap`, made known to the verifier as a type whose inside it
/// does not see.
#[verifier::external_type_specification]
#[verifier::external_body]
#[verifier::reject_recursive_types(K)]
#[verifier::reject_recursive_types(V)]
#[verifier::reject_recursive_types(S)]
pub struct ExDashMap<K, V, S>(DashMap<K, V, S>);

/// The records that the map holds, by key.
pub uninterp spec fn store_contents(m: DashMap<Vec<u8>, Record>) -> Map<Seq<u8>, RecordView>;

/// `records` with the lifetime of every record replaced by `expiration`.
pub open spec fn expire_all(records: Map<Seq<u8>, RecordView>, expiration: u32) -> Map<
    Seq<u8>,
    RecordView,
> {
    records.map_values(|record: RecordView| record.with_expiration(expiration))
}

/// `DashMap::new`: a map that holds nothing.
#[verifier::external_body]
pub(crate) fn store_new() -> (m: DashMap<Vec<u8>, Record>)
    ensures
        store_contents(m) =~= Map::empty(),
{
    DashMap::new()
}

/// `DashMap::get`, followed by `Clone` on what it found: a copy of the record
/// under `key`, if the map holds one.
#[verifier::external_body]
pub(crate) fn store_get(m: &DashMap<Vec<u8>, Record>, key: &[u8]) -> (found: Option<Record>)
    ensures
        found is Some <==> store_contents(*m).contains_key(key@),
        found is Some ==> found->0@ == store_contents(*m)[key@],
{
    m.get(key).map(|entry| entry.value().clone())
}

/// `DashMap::view`, with a function that picks the header: the header of the
/// record under `key`, if the map holds one.
#[verifier::external_body]
pub(crate) fn store_header(m: &DashMap<Vec<u8>, Record>, key: &[u8]) -> (header: Option<Header>)
    ensures
        header is Some <==> store_contents(*m).contains_key(key@),
        header is Some ==> header->0 == store_contents(*m)[key@].header,
{
    m.view(key, |_key, record| record.header)
}

/// `DashMap::insert`: afterwards `key` holds `record`, in place of whatever
/// it held; the other keys are untouched.
#[verifier::external_body]
pub(crate) fn store_insert(m: &mut DashMap<Vec<u8>, Record>, key: Vec<u8>, record: Record)
    ensures
        store_contents(*final(m)) == store_contents(*old(m)).insert(key@, record@),
{
    m.insert(key, record);
}

/// `DashMap::remove`: afterwards `key` holds nothing; the other keys are
/// untouched.
#[verifier::external_body]
pub(crate) fn store_remove(m: &mut DashMap<Vec<u8>, Record>, key: &[u8])
    ensures
        store_contents(*final(m)) == store_contents(*old(m)).remove(key@),
{
    m.remove(key);
}

/// `DashMap::alter_all`, with `Record::with_expiration` as the function that
/// it applies: afterwards the map holds the same keys, and each record
/// differs from what it was in its lifetime only.
#[verifier::external_body]
pub(crate) fn store_expire_all(m: &mut DashMap<Vec<u8>, Record>, expiration: u32)
    ensures
        store_contents(*final(m)) == expire_all(store_contents(*old(m)), expiration),
{
    m.alter_all(|_key, record| record.with_expiration(expiration));
}

} // verus!
