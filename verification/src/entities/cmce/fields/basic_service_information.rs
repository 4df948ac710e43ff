//! What kind of call is asked for or set up.

use crate::bitbuffer::BitBuffer;
use crate::entities::cmce::enums::circuit_mode_type::CircuitModeType;
use crate::entities::cmce::enums::communication_type::CommunicationType;
use crate::typed_pdu_fields::or_zero;
use crate::typed_pdu_fields::value_or_zero;
use crate::pdu_parse_error::PduParseErr;
use crate::typed_pdu_fields::emit;
use crate::typed_pdu_fields::emit_flag;
use crate::typed_pdu_fields::get;
use crate::typed_pdu_fields::get_flag;
use crate::typed_pdu_fields::lemma_put_len;
use crate::typed_pdu_fields::lemma_put_take;
use crate::typed_pdu_fields::lemma_put_take_flag;
use crate::typed_pdu_fields::lemma_take_put;
use crate::typed_pdu_fields::lemma_take_put_flag;
use crate::typed_pdu_fields::lemma_widths;
use crate::typed_pdu_fields::opt_fits;
use crate::typed_pdu_fields::put;
use crate::typed_pdu_fields::put_flag;
use crate::typed_pdu_fields::take;
use crate::typed_pdu_fields::take_flag;
use crate::typed_pdu_fields::Frame;
use crate::typed_pdu_lists::PduElement;
use vstd::prelude::*;

verus! {

/// The basic service information, eight bits: the circuit mode type, whether
/// the call is encrypted end to end, the communication type, and then the
/// speech service for a speech call or the number of slots per frame for a data
/// call.
#[derive(Clone, Copy, Debug, PartialEq, Eq, Structural)]
pub struct BasicServiceInformation {
    pub circuit_mode_type: CircuitModeType,
    pub encryption_flag: bool,
    pub communication_type: CommunicationType,
    /// 2 bits; present for a data call.
    pub slots_per_frame: Option<u64>,
    /// 2 bits; present for a speech call.
    pub speech_service: Option<u64>,
}

impl BasicServiceInformation {
    /// The last two bits: the speech service of a speech call, the slots per
    /// frame of a data call.
    pub open spec fn last_field(self) -> u64 {
        if self.circuit_mode_type == CircuitModeType::TchS {
            or_zero(self.speech_service)
        } else {
            or_zero(self.slots_per_frame)
        }
    }
}

impl PduElement for BasicServiceInformation {
    /// A speech call names its speech service and no slots per frame, a data
    /// call the other way round, and what is named fits two bits.
    open spec fn wf(self) -> bool {
        &&& opt_fits(self.slots_per_frame, 2)
        &&& opt_fits(self.speech_service, 2)
        &&& if self.circuit_mode_type == CircuitModeType::TchS {
            self.speech_service is Some && self.slots_per_frame is None
        } else {
            self.slots_per_frame is Some && self.speech_service is None
        }
    }

    open spec fn encode_onto(self, rest: Seq<bool>) -> Seq<bool> {
        put(
            self.circuit_mode_type.spec_into_raw(),
            3,
            put_flag(
                self.encryption_flag,
                put(self.communication_type.spec_into_raw(), 2, put(self.last_field(), 2, rest)),
            ),
        )
    }

    open spec fn encoded_len(self) -> nat {
        8
    }

    /// Refused is an input of fewer than eight bits.
    open spec fn spec_parse(s: Seq<bool>) -> Result<(Self, Seq<bool>), PduParseErr> {
        match take(s, 3) {
            None => Err(PduParseErr::UnexpectedEof),
            Some((circuit_mode_type, s1)) => match take_flag(s1) {
                None => Err(PduParseErr::UnexpectedEof),
                Some((encryption_flag, s2)) => match take(s2, 2) {
                    None => Err(PduParseErr::UnexpectedEof),
                    Some((communication_type, s3)) => match take(s3, 2) {
                        None => Err(PduParseErr::UnexpectedEof),
                        Some((last, rest)) => {
                            let speech = CircuitModeType::spec_from_raw(circuit_mode_type)
                                == CircuitModeType::TchS;
                            Ok(
                                (
                                    BasicServiceInformation {
                                        circuit_mode_type: CircuitModeType::spec_from_raw(
                                            circuit_mode_type,
                                        ),
                                        encryption_flag,
                                        communication_type: CommunicationType::spec_from_raw(
                                            communication_type,
                                        ),
                                        slots_per_frame: if speech {
                                            None
                                        } else {
                                            Some(last)
                                        },
                                        speech_service: if speech {
                                            Some(last)
                                        } else {
                                            None
                                        },
                                    },
                                    rest,
                                ),
                            )
                        },
                    },
                },
            },
        }
    }

    proof fn lemma_parse_encode(self, rest: Seq<bool>) {
        lemma_widths();
        let l = put(self.last_field(), 2, rest);
        let c = put(self.communication_type.spec_into_raw(), 2, l);
        let e = put_flag(self.encryption_flag, c);
        lemma_take_put(self.circuit_mode_type.spec_into_raw(), 3, e);
        lemma_take_put_flag(self.encryption_flag, c);
        lemma_take_put(self.communication_type.spec_into_raw(), 2, l);
        lemma_take_put(self.last_field(), 2, rest);
        self.circuit_mode_type.lemma_from_raw_into_raw();
        self.communication_type.lemma_from_raw_into_raw();
    }

    proof fn lemma_encode_parse(s: Seq<bool>) {
        lemma_widths();
        lemma_put_take(s, 3);
        let s1 = take(s, 3).unwrap().1;
        lemma_put_take_flag(s1);
        let s2 = take_flag(s1).unwrap().1;
        lemma_put_take(s2, 2);
        let s3 = take(s2, 2).unwrap().1;
        lemma_put_take(s3, 2);
    }

    proof fn lemma_encoded_len(self, rest: Seq<bool>) {
        let l = put(self.last_field(), 2, rest);
        let c = put(self.communication_type.spec_into_raw(), 2, l);
        let e = put_flag(self.encryption_flag, c);
        lemma_put_len(self.circuit_mode_type.spec_into_raw(), 3, e);
        lemma_put_len(
            if self.encryption_flag {
                1
            } else {
                0
            },
            1,
            c,
        );
        lemma_put_len(self.communication_type.spec_into_raw(), 2, l);
        lemma_put_len(self.last_field(), 2, rest);
    }

    fn len_bits(&self) -> (n: usize) {
        8
    }

    fn write(&self, buf: &mut BitBuffer, fr: Ghost<Frame>, rest: Ghost<Seq<bool>>) -> (g: Ghost<
        Frame,
    >) {
        let last = match self.circuit_mode_type {
            CircuitModeType::TchS => value_or_zero(&self.speech_service),
            _ => value_or_zero(&self.slots_per_frame),
        };
        let ghost l = put(self.last_field(), 2, rest@);
        let ghost c = put(self.communication_type.spec_into_raw(), 2, l);
        let ghost e = put_flag(self.encryption_flag, c);
        let g = emit(buf, self.circuit_mode_type.into_raw(), 3, fr, Ghost(e));
        let g = emit_flag(buf, self.encryption_flag, g, Ghost(c));
        let g = emit(buf, self.communication_type.into_raw(), 2, g, Ghost(l));
        emit(buf, last, 2, g, rest)
    }

    fn read(buf: &mut BitBuffer) -> (r: Result<Self, PduParseErr>) {
        let circuit_mode_type = CircuitModeType::from_raw(get(buf, 3)?);
        let encryption_flag = get_flag(buf)?;
        let communication_type = CommunicationType::from_raw(get(buf, 2)?);
        let last = get(buf, 2)?;
        let speech = match circuit_mode_type {
            CircuitModeType::TchS => true,
            _ => false,
        };
        Ok(
            BasicServiceInformation {
                circuit_mode_type,
                encryption_flag,
                communication_type,
                slots_per_frame: if speech {
                    None
                } else {
                    Some(last)
                },
                speech_service: if speech {
                    Some(last)
                } else {
                    None
                },
            },
        )
    }
}

} // verus!
