//! The kind of traffic channel that a circuit mode call uses.

use vstd::prelude::*;

verus! {

/// The circuit mode type, a field of three bits all of whose values are defined.
#[derive(Clone, Copy, Debug, PartialEq, Eq, Structural)]
pub enum CircuitModeType {
    /// Speech.
    TchS,
    /// Unprotected data, 7.2 kbit/s.
    Tch72,
    /// Low protection data, 4.8 kbit/s, interleaving depth 1.
    Tch48n1,
    /// Low protection data, 4.8 kbit/s, interleaving depth 4.
    Tch48n4,
    /// Low protection data, 4.8 kbit/s, interleaving depth 8.
    Tch48n8,
    /// High protection data, 2.4 kbit/s, interleaving depth 1.
    Tch24n1,
    /// High protection data, 2.4 kbit/s, interleaving depth 4.
    Tch24n4,
    /// High protection data, 2.4 kbit/s, interleaving depth 8.
    Tch24n8,
}

impl CircuitModeType {
    /// The value of the field.
    pub open spec fn spec_into_raw(self) -> u64 {
        match self {
            CircuitModeType::TchS => 0,
            CircuitModeType::Tch72 => 1,
            CircuitModeType::Tch48n1 => 2,
            CircuitModeType::Tch48n4 => 3,
            CircuitModeType::Tch48n8 => 4,
            CircuitModeType::Tch24n1 => 5,
            CircuitModeType::Tch24n4 => 6,
            CircuitModeType::Tch24n8 => 7,
        }
    }

    /// The value that the low bits of `v` name.
    pub open spec fn spec_from_raw(v: u64) -> CircuitModeType {
        if v % 8 == 0 {
            CircuitModeType::TchS
        } else if v % 8 == 1 {
            CircuitModeType::Tch72
        } else if v % 8 == 2 {
            CircuitModeType::Tch48n1
        } else if v % 8 == 3 {
            CircuitModeType::Tch48n4
        } else if v % 8 == 4 {
            CircuitModeType::Tch48n8
        } else if v % 8 == 5 {
            CircuitModeType::Tch24n1
        } else if v % 8 == 6 {
            CircuitModeType::Tch24n4
        } else {
            CircuitModeType::Tch24n8
        }
    }

    #[verifier::when_used_as_spec(spec_into_raw)]
    pub fn into_raw(self) -> (v: u64)
        ensures
            v == self.spec_into_raw(),
            v < 8,
    {
        match self {
            CircuitModeType::TchS => 0,
            CircuitModeType::Tch72 => 1,
            CircuitModeType::Tch48n1 => 2,
            CircuitModeType::Tch48n4 => 3,
            CircuitModeType::Tch48n8 => 4,
            CircuitModeType::Tch24n1 => 5,
            CircuitModeType::Tch24n4 => 6,
            CircuitModeType::Tch24n8 => 7,
        }
    }

    #[verifier::when_used_as_spec(spec_from_raw)]
    pub fn from_raw(v: u64) -> (t: CircuitModeType)
        ensures
            t == CircuitModeType::spec_from_raw(v),
            v < 8 ==> t.spec_into_raw() == v,
    {
        match v % 8 {
            0 => CircuitModeType::TchS,
            1 => CircuitModeType::Tch72,
            2 => CircuitModeType::Tch48n1,
            3 => CircuitModeType::Tch48n4,
            4 => CircuitModeType::Tch48n8,
            5 => CircuitModeType::Tch24n1,
            6 => CircuitModeType::Tch24n4,
            _ => CircuitModeType::Tch24n8,
        }
    }

    /// Every value of the enumeration is found again from its number.
    pub proof fn lemma_from_raw_into_raw(self)
        ensures
            CircuitModeType::spec_from_raw(self.spec_into_raw()) == self,
    {
    }
}

} // verus!
