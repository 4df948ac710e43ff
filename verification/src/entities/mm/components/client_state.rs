//! The mobiles that mobility management knows of.

use std::collections::HashMap;
use vstd::prelude::*;

verus! {

/// What is known of one mobile.
#[derive(Clone, Copy, Debug, PartialEq, Eq, Structural)]
pub struct MmClientProperties {
    pub ssi: u32,
    /// Whether the mobile is attached to the network.
    pub attached: bool,
}

/// The registry of mobiles, by their short subscriber identity.
pub struct MmClientMgr {
    clients: HashMap<u32, MmClientProperties>,
}

impl View for MmClientMgr {
    type V = Map<u32, MmClientProperties>;

    closed spec fn view(&self) -> Map<u32, MmClientProperties> {
        self.clients@
    }
}

impl MmClientMgr {
    /// A registry that knows no mobile.
    pub fn new() -> (mgr: MmClientMgr)
        ensures
            mgr@ == Map::<u32, MmClientProperties>::empty(),
    {
        MmClientMgr { clients: HashMap::new() }
    }

    /// Enters the mobile `ssi`, or overwrites what was known of it. Returns
    /// whether the mobile was not known before.
    pub fn register(&mut self, ssi: u32, attached: bool) -> (is_new: bool)
        ensures
            final(self)@ == old(self)@.insert(ssi, MmClientProperties { ssi, attached }),
            is_new == !old(self)@.contains_key(ssi),
    {
        let previous = self.clients.insert(ssi, MmClientProperties { ssi, attached });
        previous.is_none()
    }

    /// Forgets the mobile `ssi` and returns what was known of it.
    pub fn remove(&mut self, ssi: u32) -> (previous: Option<MmClientProperties>)
        ensures
            final(self)@ == old(self)@.remove(ssi),
            previous == if old(self)@.contains_key(ssi) {
                Some(old(self)@[ssi])
            } else {
                None
            },
    {
        self.clients.remove(&ssi)
    }

    /// What is known of the mobile `ssi`.
    pub fn get(&self, ssi: u32) -> (found: Option<MmClientProperties>)
        ensures
            found == if self@.contains_key(ssi) {
                Some(self@[ssi])
            } else {
                None
            },
    {
        match self.clients.get(&ssi) {
            Some(p) => Some(*p),
            None => None,
        }
    }

    /// The number of mobiles known.
    pub fn len(&self) -> (n: usize)
        ensures
            n == self@.len(),
    {
        self.clients.len()
    }
}

} // verus!
