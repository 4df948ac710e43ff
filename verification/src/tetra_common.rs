//! Names shared by all layers: the service access points, and the type of
//! primitive parameters whose content the stack does not interpret yet.

use vstd::prelude::*;

verus! {

/// A primitive parameter that is carried through but not interpreted.
pub type Uninterpreted = u32;

/// The service access points between the layers.
#[derive(Clone, Copy, Debug, PartialEq, Eq, Structural, Hash)]
pub enum Sap {
    /// PHY - lower MAC.
    TpSap,
    /// PHY control.
    TpcSap,
    /// Lower MAC - upper MAC.
    TmvSap,
    /// Upper MAC - LLC, signalling.
    TmaSap,
    /// Upper MAC - LLC, broadcast.
    TmbSap,
    /// Upper MAC - LLC, layer management.
    TmcSap,
    /// Upper MAC - user plane.
    TmdSap,
    /// LLC - MLE, signalling.
    TlaSap,
    /// LLC - MLE, broadcast.
    TlbSap,
    /// LLC - MLE, layer management.
    TlcSap,
    /// MLE - MM.
    LmmSap,
    /// MLE - CMCE.
    LcmcSap,
    /// MLE - SNDCP.
    LtpdSap,
    /// The packet data access point that SNDCP serves.
    TlpdSap,
    /// Management primitives from outside the protocol layers.
    Control,
}

} // verus!
