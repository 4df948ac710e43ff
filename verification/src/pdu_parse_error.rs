//! Why a bit string could not be read as a PDU.

use vstd::prelude::*;

verus! {

/// The field that a parse error speaks of.
#[derive(Clone, Copy, Debug, PartialEq, Eq, Structural)]
pub enum PduField {
    /// The PDU type at the start of a PDU.
    PduType,
    /// The identifier of a variable-length element.
    Type34ElementId,
    /// The called party type identifier of a U-SETUP.
    CalledPartyTypeIdentifier,
    /// The calling party type identifier of a D-SETUP.
    CallingPartyTypeIdentifier,
    /// The address type of an element of a group identity list.
    GroupIdentityAddressType,
}

/// Why a bit string could not be read as a PDU. Parsing never panics: every
/// malformed input ends in one of these.
#[derive(Clone, Copy, Debug, PartialEq, Eq, Structural)]
pub enum PduParseErr {
    /// The input ended inside the PDU.
    UnexpectedEof,
    /// A field holds a value that its enumeration does not define, or a value
    /// other than the one the PDU requires there.
    InvalidEnum { field: PduField, value: u64 },
    /// The input uses an encoding that is reserved: an optional part that this
    /// PDU does not carry, or a longer spelling of what has a shorter one.
    ReservedValue,
    /// A length indicator does not agree with what it measures.
    LengthOverflow,
}

} // verus!
