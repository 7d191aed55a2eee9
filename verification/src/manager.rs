//! The client manager: the storage behind one connection to the core.

use crate::storage::{tun_listings_are_complete, GUIStorage, StorageView};
use vstd::prelude::*;

verus! {

/// The manager of one connection to the core. A new connection starts with an
/// empty storage.
pub struct GUIClientManager {
    pub storage: GUIStorage,
}

impl View for GUIClientManager {
    type V = StorageView;

    open spec fn view(&self) -> StorageView {
        self.storage@
    }
}

impl GUIClientManager {
    /// The manager of a connection that has just been made.
    pub fn new() -> (r: Self)
        ensures
            r@ == StorageView::fresh(),
    {
        GUIClientManager { storage: GUIStorage::new() }
    }

    /// The ids of the enabled networks with a TUN device, in an order that is
    /// left open.
    pub fn get_enabled_instances_with_tun_ids(&self) -> (r: Vec<u128>)
        ensures
            self@.lists_tun(false, r@),
            forall|id: u128| #[trigger] r@.contains(id) <==> self@.is_tun(false, id),
            r@.len() > 0 <==> self@.has_tun(false),
    {
        let ids = self.storage.list_tun(false);
        proof {
            tun_listings_are_complete(self@, false, ids@);
        }
        ids
    }

    /// The ids of the enabled networks with a TUN device that the configuration
    /// server manages, in an order that is left open.
    pub fn get_enabled_instances_with_web_like_tun_ids(&self) -> (r: Vec<u128>)
        ensures
            self@.lists_tun(true, r@),
            forall|id: u128| #[trigger] r@.contains(id) <==> self@.is_tun(true, id),
            r@.len() > 0 <==> self@.has_tun(true),
    {
        let ids = self.storage.list_tun(true);
        proof {
            tun_listings_are_complete(self@, true, ids@);
        }
        ids
    }

    /// Some enabled network with a TUN device, if there is one.
    pub fn first_tun_instance(&self) -> (r: Option<u128>)
        ensures
            r matches Some(id) ==> self@.is_tun(false, id),
            r is None ==> !self@.has_tun(false),
    {
        let ids = self.get_enabled_instances_with_tun_ids();
        if ids.len() > 0 {
            assert(ids@.contains(ids@[0]));
            Some(ids[0])
        } else {
            None
        }
    }

    /// Whether `id` is an enabled network with a TUN device.
    pub fn is_tun_instance(&self, id: u128) -> (r: bool)
        ensures
            r == self@.is_tun(false, id),
    {
        let ids = self.get_enabled_instances_with_tun_ids();
        contains_id(&ids, id)
    }

    /// Whether the VPN service has nothing left to serve.
    pub fn has_no_tun(&self) -> (r: bool)
        ensures
            r == !self@.has_tun(false),
    {
        self.get_enabled_instances_with_tun_ids().len() == 0
    }
}

/// A copy of `ids`.
pub(crate) fn copy_ids(ids: &Vec<u128>) -> (r: Vec<u128>)
    ensures
        r@ == ids@,
{
    let mut copy: Vec<u128> = Vec::new();
    for i in 0..ids.len()
        invariant
            copy@ == ids@.take(i as int),
    {
        copy.push(ids[i]);
        assert(ids@.take(i + 1) =~= ids@.take(i as int).push(ids@[i as int]));
    }
    assert(ids@.take(ids@.len() as int) =~= ids@);
    copy
}

/// Whether `id` is among `ids`.
fn contains_id(ids: &Vec<u128>, id: u128) -> (r: bool)
    ensures
        r == ids@.contains(id),
{
    for i in 0..ids.len()
        invariant
            forall|k: int| 0 <= k < i ==> ids@[k] != id,
    {
        if ids[i] == id {
            return true;
        }
    }
    false
}

} // verus!
