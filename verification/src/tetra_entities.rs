//! The identities under which protocol entities are known to the router.

use vstd::prelude::*;

verus! {

/// The closed set of entity identities. Each entity reports exactly one.
#[derive(Clone, Copy, Debug, PartialEq, Eq, Structural, Hash)]
pub enum TetraEntity {
    Phy,
    Lmac,
    Umac,
    Llc,
    Mle,
    Mm,
    Cmce,
    Sndcp,
    /// The management source outside the protocol layers.
    Brew,
    /// The user application above the stack.
    User,
    /// A capture point that stands in for no layer in particular.
    Sink,
}

} // verus!
