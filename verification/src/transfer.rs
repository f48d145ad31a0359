//! The transfer store: what a sender announced, by transfer id.

use crate::ident::{is_hyphenated_id, random_id};
use vstd::hash_map::StringHashMap;
use vstd::prelude::*;

verus! {

/// What a sender announced about one transfer. Neither the name nor the size
/// is checked against anything.
#[derive(Debug, PartialEq, Eq)]
pub struct TransferInfo {
    /// The file's name, for display.
    pub file_name: String,
    /// The file's size in bytes, as the sender declared it.
    pub file_size: u64,
    /// The id of the sender's connection at the moment of the announcement.
    pub sender_id: String,
}

/// What a transfer record holds.
pub struct TransferInfoView {
    pub file_name: Seq<char>,
    pub file_size: u64,
    pub sender_id: Seq<char>,
}

impl View for TransferInfo {
    type V = TransferInfoView;

    open spec fn view(&self) -> TransferInfoView {
        TransferInfoView {
            file_name: self.file_name@,
            file_size: self.file_size,
            sender_id: self.sender_id@,
        }
    }
}

impl Clone for TransferInfo {
    fn clone(&self) -> (copy: TransferInfo)
        ensures
            copy@ == self@,
    {
        TransferInfo {
            file_name: self.file_name.clone(),
            file_size: self.file_size,
            sender_id: self.sender_id.clone(),
        }
    }
}

/// Maps transfer ids to transfer records. Records are added and read, never
/// changed or removed.
pub struct TransferStore {
    records: StringHashMap<TransferInfo>,
}

impl View for TransferStore {
    type V = Map<Seq<char>, TransferInfoView>;

    closed spec fn view(&self) -> Map<Seq<char>, TransferInfoView> {
        self.records@.map_values(|info: TransferInfo| info@)
    }
}

/// The record that a store keeps under `id`, if any.
pub open spec fn record_at(store: Map<Seq<char>, TransferInfoView>, id: Seq<char>) -> Option<
    TransferInfoView,
> {
    if store.contains_key(id) {
        Some(store[id])
    } else {
        None
    }
}

impl TransferStore {
    /// A store without records.
    pub fn new() -> (store: TransferStore)
        ensures
            store@ == Map::<Seq<char>, TransferInfoView>::empty(),
    {
        let store = TransferStore { records: StringHashMap::new() };
        assert(store@ =~= Map::<Seq<char>, TransferInfoView>::empty());
        store
    }

    /// Files `info` under `id`. An id that was already taken now names the
    /// new record.
    pub fn insert(&mut self, id: String, info: TransferInfo)
        ensures
            final(self)@ == old(self)@.insert(id@, info@),
    {
        self.records.insert(id, info);
        assert(self@ =~= old(self)@.insert(id@, info@));
    }

    /// Files `info` under a freshly drawn id and returns that id.
    pub fn create(&mut self, info: TransferInfo) -> (id: String)
        ensures
            is_hyphenated_id(id@),
            final(self)@ == old(self)@.insert(id@, info@),
    {
        let id = random_id();
        self.insert(id.clone(), info);
        id
    }

    /// The record filed under `id`, if any.
    pub fn get(&self, id: &str) -> (found: Option<&TransferInfo>)
        ensures
            match found {
                Some(info) => record_at(self@, id@) == Some(info@),
                None => record_at(self@, id@).is_none(),
            },
    {
        self.records.get(id)
    }

    /// How many transfers are on record.
    pub fn len(&self) -> (count: usize)
        ensures
            count == self@.len(),
    {
        proof {
            let f = |info: TransferInfo| info@;
            assert(self.records@.map_values(f).dom() =~= self.records@.dom());
        }
        self.records.len()
    }
}

} // verus!
