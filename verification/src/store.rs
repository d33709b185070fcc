//! A map holding at most one record per key.
//!
//! The store is described by the map from each key to the view of the record
//! kept under it. Every operation either succeeds and changes that map in the
//! one way its name says, or fails and leaves it as it was.

use std::collections::HashMap;
use std::hash::Hash;
use vstd::prelude::*;
use vstd::std_specs::hash::obeys_key_model;

verus! {

/// Why a store operation was refused.
#[derive(Clone, Copy, Debug, PartialEq, Eq)]
pub enum StoreError {
    /// A record is already stored under the key.
    DuplicateRecord,
    /// No record is stored under the key.
    RecordNotFound,
}

/// Why a partial update was refused.
#[derive(Debug, PartialEq, Eq)]
pub enum MergeError<E> {
    /// No record is stored under the key.
    RecordNotFound,
    /// A field of the update failed its validation.
    Rejected(E),
}

/// A record that accepts partial updates: a payload that mirrors the record
/// with every field optional, where an absent field leaves the stored one as
/// it is.
pub trait Mergeable: View + Sized {
    /// The partial-update payload.
    type Partial: View;

    /// Why a payload is refused.
    type Rejection;

    /// The first fault found in the payload, if it has one.
    spec fn rejection(partial: <Self::Partial as View>::V) -> Option<Self::Rejection>;

    /// The record with every present field of the payload written over it.
    spec fn merged(record: Self::V, partial: <Self::Partial as View>::V) -> Self::V;

    /// Validates every present field of the payload.
    fn check(partial: &Self::Partial) -> (r: Result<(), Self::Rejection>)
        ensures
            match r {
                Ok(_) => Self::rejection(partial@) is None,
                Err(e) => Self::rejection(partial@) == Some(e),
            },
    ;

    /// Writes every present field of a validated payload over the record.
    fn merge(self, partial: Self::Partial) -> (record: Self)
        requires
            Self::rejection(partial@) is None,
        ensures
            record@ == Self::merged(self@, partial@),
    ;
}

/// At most one record of type `V` for each key of type `K`.
pub struct RecordStore<K, V> {
    records: HashMap<K, V>,
}

impl<K: Eq + Hash, V: View> View for RecordStore<K, V> {
    type V = Map<K, V::V>;

    closed spec fn view(&self) -> Map<K, V::V> {
        self.records@.map_values(|record: V| record@)
    }
}

/// What `create` does to the records and what it answers.
pub open spec fn created<K, R>(records: Map<K, R>, key: K, record: R) -> (
    Map<K, R>,
    Result<(), StoreError>,
) {
    if records.contains_key(key) {
        (records, Err(StoreError::DuplicateRecord))
    } else {
        (records.insert(key, record), Ok(()))
    }
}

/// What `read` answers.
pub open spec fn found<K, R>(records: Map<K, R>, key: K) -> Result<R, StoreError> {
    if records.contains_key(key) {
        Ok(records[key])
    } else {
        Err(StoreError::RecordNotFound)
    }
}

/// What `remove` does to the records and what it answers.
pub open spec fn removed<K, R>(records: Map<K, R>, key: K) -> (Map<K, R>, Result<(), StoreError>) {
    if records.contains_key(key) {
        (records.remove(key), Ok(()))
    } else {
        (records, Err(StoreError::RecordNotFound))
    }
}

/// What `merge` does to the records and what it answers.
pub open spec fn merged_into<K, V: Mergeable>(
    records: Map<K, V::V>,
    key: K,
    partial: <V::Partial as View>::V,
) -> (Map<K, V::V>, Result<(), MergeError<V::Rejection>>) {
    if !records.contains_key(key) {
        (records, Err(MergeError::RecordNotFound))
    } else {
        match V::rejection(partial) {
            Some(e) => (records, Err(MergeError::Rejected(e))),
            None => (records.insert(key, V::merged(records[key], partial)), Ok(())),
        }
    }
}

/// A record that was just created is read back as it was stored.
pub proof fn lemma_read_after_create<K, R>(records: Map<K, R>, key: K, record: R)
    requires
        created(records, key, record).1 is Ok,
    ensures
        found(created(records, key, record).0, key) == Ok::<R, StoreError>(record),
{
}

/// Creating under a key that a create has just filled is refused as a
/// duplicate, and leaves the records as the first create left them.
pub proof fn lemma_create_twice<K, R>(records: Map<K, R>, key: K, first: R, second: R)
    requires
        created(records, key, first).1 is Ok,
    ensures
        created(created(records, key, first).0, key, second) == (
            created(records, key, first).0,
            Err::<(), StoreError>(StoreError::DuplicateRecord),
        ),
{
}

/// Reading, removing and merging under a key that holds no record are
/// refused, and leave the records as they were.
pub proof fn lemma_absent_key<K, V: Mergeable>(
    records: Map<K, V::V>,
    key: K,
    partial: <V::Partial as View>::V,
)
    requires
        !records.contains_key(key),
    ensures
        found(records, key) == Err::<V::V, StoreError>(StoreError::RecordNotFound),
        removed(records, key) == (records, Err::<(), StoreError>(StoreError::RecordNotFound)),
        merged_into::<K, V>(records, key, partial) == (
            records,
            Err::<(), MergeError<V::Rejection>>(MergeError::RecordNotFound),
        ),
{
}

/// After a record was removed its key holds none, and every other key holds
/// what it held.
pub proof fn lemma_read_after_remove<K, R>(records: Map<K, R>, key: K, other: K)
    requires
        removed(records, key).1 is Ok,
    ensures
        found(removed(records, key).0, key) == Err::<R, StoreError>(StoreError::RecordNotFound),
        other != key ==> found(removed(records, key).0, other) == found(records, other),
{
}

/// A refused merge leaves the records as they were.
pub proof fn lemma_refused_merge_changes_nothing<K, V: Mergeable>(
    records: Map<K, V::V>,
    key: K,
    partial: <V::Partial as View>::V,
)
    requires
        merged_into::<K, V>(records, key, partial).1 is Err,
    ensures
        merged_into::<K, V>(records, key, partial).0 == records,
{
}

impl<K: Eq + Hash, V: View> RecordStore<K, V> {
    /// An empty store.
    pub fn new() -> (store: Self)
        requires
            obeys_key_model::<K>(),
        ensures
            store@ == Map::<K, V::V>::empty(),
    {
        let store = RecordStore { records: HashMap::new() };
        assert(store@ =~= Map::<K, V::V>::empty());
        store
    }

    /// Whether a record is stored under `key`.
    pub fn contains(&self, key: &K) -> (present: bool)
        requires
            obeys_key_model::<K>(),
        ensures
            present == self@.contains_key(*key),
    {
        self.records.contains_key(key)
    }

    /// Stores `record` under `key`, unless a record is already there.
    pub fn create(&mut self, key: K, record: V) -> (r: Result<(), StoreError>)
        requires
            obeys_key_model::<K>(),
        ensures
            (final(self)@, r) == created(old(self)@, key, record@),
    {
        if self.records.contains_key(&key) {
            Err(StoreError::DuplicateRecord)
        } else {
            self.records.insert(key, record);
            assert(self@ =~= old(self)@.insert(key, record@));
            Ok(())
        }
    }

    /// The record stored under `key`.
    pub fn read(&self, key: &K) -> (r: Result<&V, StoreError>)
        requires
            obeys_key_model::<K>(),
        ensures
            match r {
                Ok(record) => found(self@, *key) == Ok::<V::V, StoreError>(record@),
                Err(e) => found(self@, *key) == Err::<V::V, StoreError>(e),
            },
    {
        match self.records.get(key) {
            Some(record) => Ok(record),
            None => Err(StoreError::RecordNotFound),
        }
    }

    /// Stores `record` under `key`, over whatever was there.
    pub fn replace(&mut self, key: K, record: V)
        requires
            obeys_key_model::<K>(),
        ensures
            final(self)@ == old(self)@.insert(key, record@),
    {
        self.records.insert(key, record);
        assert(self@ =~= old(self)@.insert(key, record@));
    }

    /// Deletes the record stored under `key`.
    pub fn remove(&mut self, key: &K) -> (r: Result<(), StoreError>)
        requires
            obeys_key_model::<K>(),
        ensures
            (final(self)@, r) == removed(old(self)@, *key),
    {
        match self.records.remove(key) {
            Some(_) => {
                assert(self@ =~= old(self)@.remove(*key));
                Ok(())
            },
            None => {
                assert(self@ =~= old(self)@);
                Err(StoreError::RecordNotFound)
            },
        }
    }
}

impl<K: Eq + Hash, V: Mergeable> RecordStore<K, V> {
    /// Writes the present fields of `partial` over the record stored under
    /// `key`. The payload is validated as a whole before anything is written.
    pub fn merge(&mut self, key: K, partial: V::Partial) -> (r: Result<
        (),
        MergeError<V::Rejection>,
    >)
        requires
            obeys_key_model::<K>(),
        ensures
            (final(self)@, r) == merged_into::<K, V>(old(self)@, key, partial@),
    {
        if !self.records.contains_key(&key) {
            return Err(MergeError::RecordNotFound);
        }
        match V::check(&partial) {
            Err(e) => Err(MergeError::Rejected(e)),
            Ok(_) => {
                match self.records.remove(&key) {
                    Some(record) => {
                        let merged = record.merge(partial);
                        self.records.insert(key, merged);
                        assert(self@ =~= old(self)@.insert(
                            key,
                            V::merged(old(self)@[key], partial@),
                        ));
                        Ok(())
                    },
                    None => Err(MergeError::RecordNotFound),
                }
            },
        }
    }
}

} // verus!
