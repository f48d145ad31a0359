//! The state that all sessions share.

use crate::model::HubView;
use crate::registry::Registry;
use crate::transfer::{record_at, TransferInfo, TransferStore};
use vstd::prelude::*;

verus! {

/// The connection registry and the transfer store, made once and shared by
/// every session for as long as the hub lives.
pub struct Hub {
    pub registry: Registry,
    pub transfers: TransferStore,
}

impl View for Hub {
    type V = HubView;

    open spec fn view(&self) -> HubView {
        HubView { registry: self.registry@, transfers: self.transfers@ }
    }
}

impl Hub {
    /// A hub that knows no connection and no transfer.
    pub fn new() -> (hub: Hub)
        ensures
            hub@ == (HubView { registry: Map::empty(), transfers: Map::empty() }),
    {
        Hub { registry: Registry::new(), transfers: TransferStore::new() }
    }

    /// Looks a transfer up for display: its record, or nothing where the id
    /// is not on record.
    pub fn resolve(&self, transfer_id: &str) -> (found: Option<&TransferInfo>)
        ensures
            match found {
                Some(info) => record_at(self@.transfers, transfer_id@) == Some(info@),
                None => record_at(self@.transfers, transfer_id@).is_none(),
            },
    {
        self.transfers.get(transfer_id)
    }
}

} // verus!
