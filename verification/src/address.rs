//! Subscriber addresses.

use vstd::prelude::*;

verus! {

/// What kind of short subscriber identity an address holds.
#[derive(Clone, Copy, Debug, PartialEq, Eq, Structural, Hash)]
pub enum SsiType {
    Unknown,
    /// A short subscriber identity of unspecified kind.
    Ssi,
    /// Individual short subscriber identity.
    Issi,
    /// Group short subscriber identity.
    Gssi,
    /// Unexchanged short subscriber identity.
    Ussi,
    /// Short management identity.
    Smi,
    /// A MAC event label standing in for an address.
    EventLabel,
}

/// A layer 2 address: a 24-bit short subscriber identity with its kind.
#[derive(Clone, Copy, Debug, PartialEq, Eq, Structural, Hash)]
pub struct TetraAddress {
    pub encrypted: bool,
    pub ssi_type: SsiType,
    pub ssi: u32,
}

impl TetraAddress {
    /// An unencrypted address.
    pub fn new(ssi: u32, ssi_type: SsiType) -> (a: TetraAddress)
        ensures
            a == (TetraAddress { encrypted: false, ssi_type, ssi }),
    {
        TetraAddress { encrypted: false, ssi_type, ssi }
    }
}

} // verus!
