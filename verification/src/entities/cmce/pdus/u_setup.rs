//! U-SETUP: a mobile asks for a call.

use crate::bitbuffer::BitBuffer;
use crate::bitbuffer::EncodeErr;
use crate::bits::overwrite;
use crate::entities::cmce::fields::basic_service_information::BasicServiceInformation;
use crate::pdu_parse_error::PduField;
use crate::pdu_parse_error::PduParseErr;
use crate::typed_pdu_fields::emit;
use crate::typed_pdu_fields::emit_flag;
use crate::typed_pdu_fields::fits;
use crate::typed_pdu_fields::get;
use crate::typed_pdu_fields::get_flag;
use crate::typed_pdu_fields::lemma_put_len;
use crate::typed_pdu_fields::lemma_put_take;
use crate::typed_pdu_fields::lemma_put_take_flag;
use crate::typed_pdu_fields::lemma_take_put;
use crate::typed_pdu_fields::lemma_take_put_flag;
use crate::typed_pdu_fields::lemma_widths;
use crate::typed_pdu_fields::opt_fits;
use crate::typed_pdu_fields::or_zero;
use crate::typed_pdu_fields::put;
use crate::typed_pdu_fields::put_flag;
use crate::typed_pdu_fields::take;
use crate::typed_pdu_fields::take_flag;
use crate::typed_pdu_fields::value_or_zero;
use crate::typed_pdu_fields::Frame;
use crate::typed_pdu_lists::PduElement;
use vstd::prelude::*;

verus! {

/// The value of the PDU type field of this PDU.
pub const PDU_TYPE: u64 = 7;

/// U-SETUP. The called party is named by a short number, by its SSI, or by SSI
/// and extension, as the called party type identifier says. The variable-length
/// elements of the PDU are not carried.
#[derive(Clone, Copy, Debug, PartialEq, Eq, Structural)]
pub struct USetup {
    /// 4 bits.
    pub area_selection: u64,
    pub hook_method_selection: bool,
    pub simplex_duplex_selection: bool,
    pub basic_service_information: BasicServiceInformation,
    pub request_to_transmit_send_data: bool,
    /// 4 bits.
    pub call_priority: u64,
    /// 2 bits.
    pub clir_control: u64,
    /// 2 bits: 0 short number address, 1 SSI, 2 SSI and extension; 3 is reserved.
    pub called_party_type_identifier: u64,
    /// 8 bits; present for type identifier 0.
    pub called_party_short_number_address: Option<u64>,
    /// 24 bits; present for type identifiers 1 and 2.
    pub called_party_ssi: Option<u64>,
    /// 24 bits; present for type identifier 2.
    pub called_party_extension: Option<u64>,
}

impl USetup {
    /// The values that have an encoding: every field fits its width, and the
    /// called party is named in the way its type identifier says.
    pub open spec fn wf(self) -> bool {
        &&& fits(self.area_selection, 4)
        &&& self.basic_service_information.wf()
        &&& fits(self.call_priority, 4)
        &&& fits(self.clir_control, 2)
        &&& self.called_party_type_identifier <= 2
        &&& opt_fits(self.called_party_short_number_address, 8)
        &&& opt_fits(self.called_party_ssi, 24)
        &&& opt_fits(self.called_party_extension, 24)
        &&& self.called_party_short_number_address is Some <==> self.called_party_type_identifier
            == 0
        &&& self.called_party_ssi is Some <==> self.called_party_type_identifier != 0
        &&& self.called_party_extension is Some <==> self.called_party_type_identifier == 2
    }

    /// The address of the called party in front of `rest`.
    pub open spec fn encode_called_party(self, rest: Seq<bool>) -> Seq<bool> {
        if self.called_party_type_identifier == 0 {
            put(or_zero(self.called_party_short_number_address), 8, rest)
        } else if self.called_party_type_identifier == 2 {
            put(
                or_zero(self.called_party_ssi),
                24,
                put(or_zero(self.called_party_extension), 24, rest),
            )
        } else {
            put(or_zero(self.called_party_ssi), 24, rest)
        }
    }

    /// The number of bits that the address of the called party takes.
    pub open spec fn called_party_len(self) -> nat {
        if self.called_party_type_identifier == 0 {
            8
        } else if self.called_party_type_identifier == 2 {
            48
        } else {
            24
        }
    }

    /// The fields after the basic service information, in front of `rest`.
    pub open spec fn encode_tail(self, rest: Seq<bool>) -> Seq<bool> {
        put_flag(
            self.request_to_transmit_send_data,
            put(
                self.call_priority,
                4,
                put(
                    self.clir_control,
                    2,
                    put(
                        self.called_party_type_identifier,
                        2,
                        self.encode_called_party(put_flag(false, rest)),
                    ),
                ),
            ),
        )
    }

    /// The canonical encoding in front of `rest`.
    pub open spec fn encode_onto(self, rest: Seq<bool>) -> Seq<bool> {
        put(
            PDU_TYPE,
            5,
            put(
                self.area_selection,
                4,
                put_flag(
                    self.hook_method_selection,
                    put_flag(
                        self.simplex_duplex_selection,
                        self.basic_service_information.encode_onto(self.encode_tail(rest)),
                    ),
                ),
            ),
        )
    }

    /// The canonical encoding.
    pub open spec fn encode(self) -> Seq<bool> {
        self.encode_onto(Seq::empty())
    }

    /// The length of the canonical encoding, in bits.
    pub open spec fn encoded_len(self) -> nat {
        29 + self.called_party_len()
    }

    /// The address of the called party and the O-bit at the front of `s`.
    pub open spec fn parse_called_party(s: Seq<bool>, head: USetup) -> Result<
        (USetup, Seq<bool>),
        PduParseErr,
    > {
        let named = if head.called_party_type_identifier == 0 {
            match take(s, 8) {
                None => Err(PduParseErr::UnexpectedEof),
                Some((sna, rest)) => Ok(
                    (USetup { called_party_short_number_address: Some(sna), ..head }, rest),
                ),
            }
        } else {
            match take(s, 24) {
                None => Err(PduParseErr::UnexpectedEof),
                Some((ssi, s1)) => if head.called_party_type_identifier == 2 {
                    match take(s1, 24) {
                        None => Err(PduParseErr::UnexpectedEof),
                        Some((extension, rest)) => Ok(
                            (
                                USetup {
                                    called_party_ssi: Some(ssi),
                                    called_party_extension: Some(extension),
                                    ..head
                                },
                                rest,
                            ),
                        ),
                    }
                } else {
                    Ok((USetup { called_party_ssi: Some(ssi), ..head }, s1))
                },
            }
        };
        match named {
            Err(e) => Err(e),
            Ok((pdu, s2)) => match take_flag(s2) {
                None => Err(PduParseErr::UnexpectedEof),
                Some((true, _)) => Err(PduParseErr::ReservedValue),
                Some((false, rest)) => Ok((pdu, rest)),
            },
        }
    }

    /// The fields after the basic service information at the front of `s`.
    pub open spec fn parse_tail(s: Seq<bool>, head: USetup) -> Result<
        (USetup, Seq<bool>),
        PduParseErr,
    > {
        match take_flag(s) {
            None => Err(PduParseErr::UnexpectedEof),
            Some((request_to_transmit_send_data, s1)) => match take(s1, 4) {
                None => Err(PduParseErr::UnexpectedEof),
                Some((call_priority, s2)) => match take(s2, 2) {
                    None => Err(PduParseErr::UnexpectedEof),
                    Some((clir_control, s3)) => match take(s3, 2) {
                        None => Err(PduParseErr::UnexpectedEof),
                        Some((called_party_type_identifier, s4)) => if called_party_type_identifier
                            >= 3 {
                            Err(
                                PduParseErr::InvalidEnum {
                                    field: PduField::CalledPartyTypeIdentifier,
                                    value: called_party_type_identifier,
                                },
                            )
                        } else {
                            Self::parse_called_party(
                                s4,
                                USetup {
                                    request_to_transmit_send_data,
                                    call_priority,
                                    clir_control,
                                    called_party_type_identifier,
                                    ..head
                                },
                            )
                        },
                    },
                },
            },
        }
    }

    /// The PDU at the front of `s` and what follows it, or why there is none.
    ///
    /// Refused are: an input that ends inside the PDU; a PDU type other than
    /// this one's; the reserved called party type identifier 3; and a set O-bit,
    /// which would announce optional parts that are not carried.
    pub open spec fn spec_parse(s: Seq<bool>) -> Result<(USetup, Seq<bool>), PduParseErr> {
        match take(s, 5) {
            None => Err(PduParseErr::UnexpectedEof),
            Some((pdu_type, s1)) => if pdu_type != PDU_TYPE {
                Err(PduParseErr::InvalidEnum { field: PduField::PduType, value: pdu_type })
            } else {
                match take(s1, 4) {
                    None => Err(PduParseErr::UnexpectedEof),
                    Some((area_selection, s2)) => match take_flag(s2) {
                        None => Err(PduParseErr::UnexpectedEof),
                        Some((hook_method_selection, s3)) => match take_flag(s3) {
                            None => Err(PduParseErr::UnexpectedEof),
                            Some(
                                (simplex_duplex_selection, s4),
                            ) => match BasicServiceInformation::spec_parse(s4) {
                                Err(e) => Err(e),
                                Ok((basic_service_information, s5)) => Self::parse_tail(
                                    s5,
                                    USetup {
                                        area_selection,
                                        hook_method_selection,
                                        simplex_duplex_selection,
                                        basic_service_information,
                                        request_to_transmit_send_data: false,
                                        call_priority: 0,
                                        clir_control: 0,
                                        called_party_type_identifier: 0,
                                        called_party_short_number_address: None,
                                        called_party_ssi: None,
                                        called_party_extension: None,
                                    },
                                ),
                            },
                        },
                    },
                }
            },
        }
    }

    /// Serialize-then-parse is the identity: a well-formed PDU, written in front
    /// of anything, is read back as itself, and what followed it is what is left.
    pub proof fn lemma_parse_encode(self, rest: Seq<bool>)
        requires
            self.wf(),
        ensures
            Self::spec_parse(self.encode_onto(rest)) == Ok::<(USetup, Seq<bool>), PduParseErr>(
                (self, rest),
            ),
    {
        lemma_widths();
        let o = put_flag(false, rest);
        let party = self.encode_called_party(o);
        let a8 = put(self.called_party_type_identifier, 2, party);
        let a7 = put(self.clir_control, 2, a8);
        let a6 = put(self.call_priority, 4, a7);
        let tail = self.encode_tail(rest);
        let bsi = self.basic_service_information.encode_onto(tail);
        let a3 = put_flag(self.simplex_duplex_selection, bsi);
        let a2 = put_flag(self.hook_method_selection, a3);
        let a1 = put(self.area_selection, 4, a2);
        lemma_take_put(PDU_TYPE, 5, a1);
        lemma_take_put(self.area_selection, 4, a2);
        lemma_take_put_flag(self.hook_method_selection, a3);
        lemma_take_put_flag(self.simplex_duplex_selection, bsi);
        self.basic_service_information.lemma_parse_encode(tail);
        lemma_take_put_flag(self.request_to_transmit_send_data, a6);
        lemma_take_put(self.call_priority, 4, a7);
        lemma_take_put(self.clir_control, 2, a8);
        lemma_take_put(self.called_party_type_identifier, 2, party);
        lemma_take_put(or_zero(self.called_party_short_number_address), 8, o);
        lemma_take_put(or_zero(self.called_party_ssi), 24, o);
        lemma_take_put(
            or_zero(self.called_party_ssi),
            24,
            put(or_zero(self.called_party_extension), 24, o),
        );
        lemma_take_put(or_zero(self.called_party_extension), 24, o);
        lemma_take_put_flag(false, rest);
    }

    /// Parse-then-serialize is the identity: what parses is well formed, and its
    /// encoding in front of what was left is the input.
    pub proof fn lemma_encode_parse(s: Seq<bool>)
        requires
            Self::spec_parse(s) is Ok,
        ensures
            Self::spec_parse(s).unwrap().0.wf(),
            Self::spec_parse(s).unwrap().0.encode_onto(Self::spec_parse(s).unwrap().1) == s,
    {
        lemma_widths();
        lemma_put_take(s, 5);
        let s1 = take(s, 5).unwrap().1;
        lemma_put_take(s1, 4);
        let s2 = take(s1, 4).unwrap().1;
        lemma_put_take_flag(s2);
        let s3 = take_flag(s2).unwrap().1;
        lemma_put_take_flag(s3);
        let s4 = take_flag(s3).unwrap().1;
        BasicServiceInformation::lemma_encode_parse(s4);
        let s5 = BasicServiceInformation::spec_parse(s4).unwrap().1;
        lemma_put_take_flag(s5);
        let t1 = take_flag(s5).unwrap().1;
        lemma_put_take(t1, 4);
        let t2 = take(t1, 4).unwrap().1;
        lemma_put_take(t2, 2);
        let t3 = take(t2, 2).unwrap().1;
        lemma_put_take(t3, 2);
        let (kind, t4) = take(t3, 2).unwrap();
        let t5 = if kind == 0 {
            lemma_put_take(t4, 8);
            take(t4, 8).unwrap().1
        } else {
            lemma_put_take(t4, 24);
            let u = take(t4, 24).unwrap().1;
            if kind == 2 {
                lemma_put_take(u, 24);
                take(u, 24).unwrap().1
            } else {
                u
            }
        };
        lemma_put_take_flag(t5);
    }

    /// The encoding has the length that `encoded_len` gives.
    pub proof fn lemma_encoded_len(self, rest: Seq<bool>)
        ensures
            self.encode_onto(rest).len() == self.encoded_len() + rest.len(),
    {
        let o = put_flag(false, rest);
        let party = self.encode_called_party(o);
        let a8 = put(self.called_party_type_identifier, 2, party);
        let a7 = put(self.clir_control, 2, a8);
        let a6 = put(self.call_priority, 4, a7);
        let tail = self.encode_tail(rest);
        let bsi = self.basic_service_information.encode_onto(tail);
        let a3 = put_flag(self.simplex_duplex_selection, bsi);
        let a2 = put_flag(self.hook_method_selection, a3);
        let a1 = put(self.area_selection, 4, a2);
        lemma_put_len(PDU_TYPE, 5, a1);
        lemma_put_len(self.area_selection, 4, a2);
        lemma_put_len(
            if self.hook_method_selection {
                1
            } else {
                0
            },
            1,
            a3,
        );
        lemma_put_len(
            if self.simplex_duplex_selection {
                1
            } else {
                0
            },
            1,
            bsi,
        );
        self.basic_service_information.lemma_encoded_len(tail);
        lemma_put_len(
            if self.request_to_transmit_send_data {
                1
            } else {
                0
            },
            1,
            a6,
        );
        lemma_put_len(self.call_priority, 4, a7);
        lemma_put_len(self.clir_control, 2, a8);
        lemma_put_len(self.called_party_type_identifier, 2, party);
        lemma_put_len(or_zero(self.called_party_short_number_address), 8, o);
        lemma_put_len(or_zero(self.called_party_ssi), 24, o);
        lemma_put_len(
            or_zero(self.called_party_ssi),
            24,
            put(or_zero(self.called_party_extension), 24, o),
        );
        lemma_put_len(or_zero(self.called_party_extension), 24, o);
        lemma_put_len(0, 1, rest);
    }

    /// The length of the canonical encoding, in bits.
    pub fn len_bits(&self) -> (n: usize)
        ensures
            n == self.encoded_len(),
    {
        let party: usize = if self.called_party_type_identifier == 0 {
            8
        } else if self.called_party_type_identifier == 2 {
            48
        } else {
            24
        };
        29 + party
    }

    /// Writes the canonical encoding at the cursor and moves the cursor past it.
    /// Where the buffer has no room for all of it, nothing is written.
    pub fn to_bitbuf(&self, buf: &mut BitBuffer) -> (r: Result<(), EncodeErr>)
        ensures
            final(buf).expands() == old(buf).expands(),
            r is Ok <==> self.encoded_len() <= old(buf).room(),
            match r {
                Ok(_) => final(buf).bits() == overwrite(
                    old(buf).bits(),
                    old(buf).cursor(),
                    self.encode(),
                ) && final(buf).cursor() == old(buf).cursor() + self.encoded_len(),
                Err(e) => e == old(buf).refusal() && final(buf).bits() == old(buf).bits()
                    && final(buf).cursor() == old(buf).cursor(),
            },
    {
        let n = self.len_bits();
        match buf.check_room(n) {
            Err(e) => {
                return Err(e);
            },
            Ok(_) => {},
        }
        let ghost rest = Seq::<bool>::empty();
        let ghost o = put_flag(false, rest);
        let ghost party = self.encode_called_party(o);
        let ghost a8 = put(self.called_party_type_identifier, 2, party);
        let ghost a7 = put(self.clir_control, 2, a8);
        let ghost a6 = put(self.call_priority, 4, a7);
        let ghost tail = self.encode_tail(rest);
        let ghost bsi = self.basic_service_information.encode_onto(tail);
        let ghost a3 = put_flag(self.simplex_duplex_selection, bsi);
        let ghost a2 = put_flag(self.hook_method_selection, a3);
        let ghost a1 = put(self.area_selection, 4, a2);
        proof {
            Frame::lemma_start_holds(buf, self.encode());
            self.lemma_encoded_len(rest);
        }
        let g = Ghost(Frame::start(buf, self.encode()));
        let g = emit(buf, PDU_TYPE, 5, g, Ghost(a1));
        let g = emit(buf, self.area_selection, 4, g, Ghost(a2));
        let g = emit_flag(buf, self.hook_method_selection, g, Ghost(a3));
        let g = emit_flag(buf, self.simplex_duplex_selection, g, Ghost(bsi));
        let g = self.basic_service_information.write(buf, g, Ghost(tail));
        let g = emit_flag(buf, self.request_to_transmit_send_data, g, Ghost(a6));
        let g = emit(buf, self.call_priority, 4, g, Ghost(a7));
        let g = emit(buf, self.clir_control, 2, g, Ghost(a8));
        let g = emit(buf, self.called_party_type_identifier, 2, g, Ghost(party));
        let g = if self.called_party_type_identifier == 0 {
            emit(buf, value_or_zero(&self.called_party_short_number_address), 8, g, Ghost(o))
        } else if self.called_party_type_identifier == 2 {
            let extension = value_or_zero(&self.called_party_extension);
            let g = emit(
                buf,
                value_or_zero(&self.called_party_ssi),
                24,
                g,
                Ghost(put(extension, 24, o)),
            );
            emit(buf, extension, 24, g, Ghost(o))
        } else {
            emit(buf, value_or_zero(&self.called_party_ssi), 24, g, Ghost(o))
        };
        let g = emit_flag(buf, false, g, Ghost(rest));
        proof {
            g@.lemma_done(buf);
        }
        Ok(())
    }

    /// Reads the PDU at the cursor and moves the cursor past it. The buffer's
    /// bits stay as they are; after a refusal the cursor is somewhere in the
    /// buffer.
    pub fn from_bitbuf(buf: &mut BitBuffer) -> (r: Result<USetup, PduParseErr>)
        ensures
            final(buf).bits() == old(buf).bits(),
            final(buf).expands() == old(buf).expands(),
            match Self::spec_parse(old(buf).remaining()) {
                Ok((pdu, rest)) => r == Ok::<USetup, PduParseErr>(pdu) && final(buf).remaining()
                    == rest,
                Err(e) => r == Err::<USetup, PduParseErr>(e),
            },
    {
        let pdu_type = get(buf, 5)?;
        if pdu_type != PDU_TYPE {
            return Err(PduParseErr::InvalidEnum { field: PduField::PduType, value: pdu_type });
        }
        let area_selection = get(buf, 4)?;
        let hook_method_selection = get_flag(buf)?;
        let simplex_duplex_selection = get_flag(buf)?;
        let basic_service_information = BasicServiceInformation::read(buf)?;
        let request_to_transmit_send_data = get_flag(buf)?;
        let call_priority = get(buf, 4)?;
        let clir_control = get(buf, 2)?;
        let called_party_type_identifier = get(buf, 2)?;
        if called_party_type_identifier >= 3 {
            return Err(
                PduParseErr::InvalidEnum {
                    field: PduField::CalledPartyTypeIdentifier,
                    value: called_party_type_identifier,
                },
            );
        }
        let mut pdu = USetup {
            area_selection,
            hook_method_selection,
            simplex_duplex_selection,
            basic_service_information,
            request_to_transmit_send_data,
            call_priority,
            clir_control,
            called_party_type_identifier,
            called_party_short_number_address: None,
            called_party_ssi: None,
            called_party_extension: None,
        };
        if called_party_type_identifier == 0 {
            pdu.called_party_short_number_address = Some(get(buf, 8)?);
        } else {
            pdu.called_party_ssi = Some(get(buf, 24)?);
            if called_party_type_identifier == 2 {
                pdu.called_party_extension = Some(get(buf, 24)?);
            }
        }
        let o_bit = get_flag(buf)?;
        if o_bit {
            return Err(PduParseErr::ReservedValue);
        }
        Ok(pdu)
    }
}

} // verus!
