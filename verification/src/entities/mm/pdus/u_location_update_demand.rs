//! U-LOCATION UPDATE DEMAND: the mobile asks to be registered.

use crate::bitbuffer::BitBuffer;
use crate::bitbuffer::EncodeErr;
use crate::bits::overwrite;
use crate::pdu_parse_error::PduField;
use crate::pdu_parse_error::PduParseErr;
use crate::typed_pdu_fields::emit;
use crate::typed_pdu_fields::emit_flag;
use crate::typed_pdu_fields::emit_opt;
use crate::typed_pdu_fields::fits;
use crate::typed_pdu_fields::get;
use crate::typed_pdu_fields::get_flag;
use crate::typed_pdu_fields::get_opt;
use crate::typed_pdu_fields::lemma_put_len;
use crate::typed_pdu_fields::lemma_put_opt_len;
use crate::typed_pdu_fields::lemma_put_take;
use crate::typed_pdu_fields::lemma_put_take_flag;
use crate::typed_pdu_fields::lemma_put_take_opt;
use crate::typed_pdu_fields::lemma_take_put;
use crate::typed_pdu_fields::lemma_take_put_flag;
use crate::typed_pdu_fields::lemma_take_put_opt;
use crate::typed_pdu_fields::lemma_widths;
use crate::typed_pdu_fields::opt_fits;
use crate::typed_pdu_fields::opt_len;
use crate::typed_pdu_fields::opt_width;
use crate::typed_pdu_fields::put;
use crate::typed_pdu_fields::put_flag;
use crate::typed_pdu_fields::put_opt;
use crate::typed_pdu_fields::take;
use crate::typed_pdu_fields::take_flag;
use crate::typed_pdu_fields::take_opt;
use crate::typed_pdu_fields::Frame;
use vstd::prelude::*;

verus! {

/// The value of the PDU type field of this PDU.
pub const PDU_TYPE: u64 = 2;

/// U-LOCATION UPDATE DEMAND. Of its optional parts the fields of fixed width are
/// carried; the variable-length elements are not.
#[derive(Clone, Copy, Debug, PartialEq, Eq, Structural)]
pub struct ULocationUpdateDemand {
    /// 3 bits.
    pub location_update_type: u64,
    pub request_to_append_la: bool,
    pub cipher_control: bool,
    /// 10 bits; present exactly where `cipher_control` is set.
    pub ciphering_parameters: Option<u64>,
    /// 24 bits.
    pub class_of_ms: Option<u64>,
    /// 3 bits.
    pub energy_saving_mode: Option<u64>,
    /// 15 bits.
    pub la_information: Option<u64>,
    /// 24 bits.
    pub ssi: Option<u64>,
    /// 24 bits.
    pub address_extension: Option<u64>,
}

impl ULocationUpdateDemand {
    /// Whether any optional field is present.
    pub open spec fn has_optionals(self) -> bool {
        self.class_of_ms is Some || self.energy_saving_mode is Some || self.la_information is Some
            || self.ssi is Some || self.address_extension is Some
    }

    /// The values that have an encoding: every field fits its width, and the
    /// ciphering parameters are there exactly where cipher control is set.
    pub open spec fn wf(self) -> bool {
        &&& fits(self.location_update_type, 3)
        &&& self.cipher_control <==> self.ciphering_parameters is Some
        &&& opt_fits(self.ciphering_parameters, 10)
        &&& opt_fits(self.class_of_ms, 24)
        &&& opt_fits(self.energy_saving_mode, 3)
        &&& opt_fits(self.la_information, 15)
        &&& opt_fits(self.ssi, 24)
        &&& opt_fits(self.address_extension, 24)
    }

    /// The optional part, from the O-bit on, in front of `rest`.
    pub open spec fn encode_optionals(self, rest: Seq<bool>) -> Seq<bool> {
        if self.has_optionals() {
            put_flag(
                true,
                put_opt(
                    self.class_of_ms,
                    24,
                    put_opt(
                        self.energy_saving_mode,
                        3,
                        put_opt(
                            self.la_information,
                            15,
                            put_opt(
                                self.ssi,
                                24,
                                put_opt(self.address_extension, 24, put_flag(false, rest)),
                            ),
                        ),
                    ),
                ),
            )
        } else {
            put_flag(false, rest)
        }
    }

    /// The ciphering parameters, where cipher control is set, in front of `rest`.
    pub open spec fn encode_ciphering(self, rest: Seq<bool>) -> Seq<bool> {
        match self.ciphering_parameters {
            Some(cp) => put(cp, 10, rest),
            None => rest,
        }
    }

    /// The canonical encoding in front of `rest`.
    pub open spec fn encode_onto(self, rest: Seq<bool>) -> Seq<bool> {
        put(
            PDU_TYPE,
            4,
            put(
                self.location_update_type,
                3,
                put_flag(
                    self.request_to_append_la,
                    put_flag(
                        self.cipher_control,
                        self.encode_ciphering(self.encode_optionals(rest)),
                    ),
                ),
            ),
        )
    }

    /// The canonical encoding.
    pub open spec fn encode(self) -> Seq<bool> {
        self.encode_onto(Seq::empty())
    }

    /// The length of the canonical encoding, in bits.
    pub open spec fn encoded_len(self) -> nat {
        9 + (if self.ciphering_parameters is Some {
            10nat
        } else {
            0nat
        }) + if self.has_optionals() {
            2 + opt_len(self.class_of_ms, 24) + opt_len(self.energy_saving_mode, 3) + opt_len(
                self.la_information,
                15,
            ) + opt_len(self.ssi, 24) + opt_len(self.address_extension, 24)
        } else {
            1
        }
    }

    /// The optional part of a PDU at the front of `s`, from the O-bit on.
    pub open spec fn parse_optionals(s: Seq<bool>, head: ULocationUpdateDemand) -> Result<
        (ULocationUpdateDemand, Seq<bool>),
        PduParseErr,
    > {
        match take_flag(s) {
            None => Err(PduParseErr::UnexpectedEof),
            Some((false, rest)) => Ok((head, rest)),
            Some((true, s1)) => match take_opt(s1, 24) {
                None => Err(PduParseErr::UnexpectedEof),
                Some((class_of_ms, s2)) => match take_opt(s2, 3) {
                    None => Err(PduParseErr::UnexpectedEof),
                    Some((energy_saving_mode, s3)) => match take_opt(s3, 15) {
                        None => Err(PduParseErr::UnexpectedEof),
                        Some((la_information, s4)) => match take_opt(s4, 24) {
                            None => Err(PduParseErr::UnexpectedEof),
                            Some((ssi, s5)) => match take_opt(s5, 24) {
                                None => Err(PduParseErr::UnexpectedEof),
                                Some((address_extension, s6)) => match take_flag(s6) {
                                    None => Err(PduParseErr::UnexpectedEof),
                                    Some((true, _)) => Err(PduParseErr::ReservedValue),
                                    Some((false, rest)) => {
                                        let pdu = ULocationUpdateDemand {
                                            class_of_ms,
                                            energy_saving_mode,
                                            la_information,
                                            ssi,
                                            address_extension,
                                            ..head
                                        };
                                        if pdu.has_optionals() {
                                            Ok((pdu, rest))
                                        } else {
                                            Err(PduParseErr::ReservedValue)
                                        }
                                    },
                                },
                            },
                        },
                    },
                },
            },
        }
    }

    /// The PDU at the front of `s` and what follows it, or why there is none.
    ///
    /// Refused are: an input that ends inside the PDU; a PDU type other than
    /// this one's; a set M-bit, which would announce an element that is not
    /// carried; and a set O-bit with no optional field behind it, which has the
    /// shorter spelling of a clear O-bit.
    pub open spec fn spec_parse(s: Seq<bool>) -> Result<
        (ULocationUpdateDemand, Seq<bool>),
        PduParseErr,
    > {
        match take(s, 4) {
            None => Err(PduParseErr::UnexpectedEof),
            Some((pdu_type, s1)) => if pdu_type != PDU_TYPE {
                Err(PduParseErr::InvalidEnum { field: PduField::PduType, value: pdu_type })
            } else {
                match take(s1, 3) {
                    None => Err(PduParseErr::UnexpectedEof),
                    Some((location_update_type, s2)) => match take_flag(s2) {
                        None => Err(PduParseErr::UnexpectedEof),
                        Some((request_to_append_la, s3)) => match take_flag(s3) {
                            None => Err(PduParseErr::UnexpectedEof),
                            Some((cipher_control, s4)) => {
                                let head = ULocationUpdateDemand {
                                    location_update_type,
                                    request_to_append_la,
                                    cipher_control,
                                    ciphering_parameters: None,
                                    class_of_ms: None,
                                    energy_saving_mode: None,
                                    la_information: None,
                                    ssi: None,
                                    address_extension: None,
                                };
                                if cipher_control {
                                    match take(s4, 10) {
                                        None => Err(PduParseErr::UnexpectedEof),
                                        Some((cp, s5)) => Self::parse_optionals(
                                            s5,
                                            ULocationUpdateDemand {
                                                ciphering_parameters: Some(cp),
                                                ..head
                                            },
                                        ),
                                    }
                                } else {
                                    Self::parse_optionals(s4, head)
                                }
                            },
                        },
                    },
                }
            },
        }
    }

    /// Serialize-then-parse is the identity: a well-formed PDU, written in front
    /// of anything, is read back as itself, and what followed it is what is left.
    pub proof fn lemma_parse_encode(self, rest: Seq<bool>)
        requires
            self.wf(),
        ensures
            Self::spec_parse(self.encode_onto(rest)) == Ok::<
                (ULocationUpdateDemand, Seq<bool>),
                PduParseErr,
            >((self, rest)),
    {
        lemma_widths();
        let opt = self.encode_optionals(rest);
        let cip = self.encode_ciphering(opt);
        let s3 = put_flag(self.cipher_control, cip);
        let s2 = put_flag(self.request_to_append_la, s3);
        let s1 = put(self.location_update_type, 3, s2);
        lemma_take_put(PDU_TYPE, 4, s1);
        lemma_take_put(self.location_update_type, 3, s2);
        lemma_take_put_flag(self.request_to_append_la, s3);
        lemma_take_put_flag(self.cipher_control, cip);
        if self.cipher_control {
            lemma_take_put(self.ciphering_parameters.unwrap(), 10, opt);
        }
        if self.has_optionals() {
            let m = put_flag(false, rest);
            let o5 = put_opt(self.address_extension, 24, m);
            let o4 = put_opt(self.ssi, 24, o5);
            let o3 = put_opt(self.la_information, 15, o4);
            let o2 = put_opt(self.energy_saving_mode, 3, o3);
            let o1 = put_opt(self.class_of_ms, 24, o2);
            lemma_take_put_flag(true, o1);
            lemma_take_put_opt(self.class_of_ms, 24, o2);
            lemma_take_put_opt(self.energy_saving_mode, 3, o3);
            lemma_take_put_opt(self.la_information, 15, o4);
            lemma_take_put_opt(self.ssi, 24, o5);
            lemma_take_put_opt(self.address_extension, 24, m);
            lemma_take_put_flag(false, rest);
        } else {
            lemma_take_put_flag(false, rest);
        }
    }

    /// Parse-then-serialize is the identity: what parses is well formed, and its
    /// encoding in front of what was left is the input.
    pub proof fn lemma_encode_parse(s: Seq<bool>)
        requires
            Self::spec_parse(s) is Ok,
        ensures
            Self::spec_parse(s).unwrap().0.wf(),
            Self::spec_parse(s).unwrap().0.encode_onto(Self::spec_parse(s).unwrap().1) == s,
    {
        lemma_widths();
        lemma_put_take(s, 4);
        let s1 = take(s, 4).unwrap().1;
        lemma_put_take(s1, 3);
        let s2 = take(s1, 3).unwrap().1;
        lemma_put_take_flag(s2);
        let s3 = take_flag(s2).unwrap().1;
        lemma_put_take_flag(s3);
        let (cipher_control, s4) = take_flag(s3).unwrap();
        let s5 = if cipher_control {
            lemma_put_take(s4, 10);
            take(s4, 10).unwrap().1
        } else {
            s4
        };
        lemma_put_take_flag(s5);
        let (o_bit, t1) = take_flag(s5).unwrap();
        if o_bit {
            lemma_put_take_opt(t1, 24);
            let t2 = take_opt(t1, 24).unwrap().1;
            lemma_put_take_opt(t2, 3);
            let t3 = take_opt(t2, 3).unwrap().1;
            lemma_put_take_opt(t3, 15);
            let t4 = take_opt(t3, 15).unwrap().1;
            lemma_put_take_opt(t4, 24);
            let t5 = take_opt(t4, 24).unwrap().1;
            lemma_put_take_opt(t5, 24);
            let t6 = take_opt(t5, 24).unwrap().1;
            lemma_put_take_flag(t6);
        }
    }

    /// The encoding has the length that `encoded_len` gives.
    pub proof fn lemma_encoded_len(self, rest: Seq<bool>)
        ensures
            self.encode_onto(rest).len() == self.encoded_len() + rest.len(),
    {
        let opt = self.encode_optionals(rest);
        let cip = self.encode_ciphering(opt);
        let s3 = put_flag(self.cipher_control, cip);
        let s2 = put_flag(self.request_to_append_la, s3);
        let s1 = put(self.location_update_type, 3, s2);
        lemma_put_len(PDU_TYPE, 4, s1);
        lemma_put_len(self.location_update_type, 3, s2);
        lemma_put_len(
            if self.request_to_append_la {
                1
            } else {
                0
            },
            1,
            s3,
        );
        lemma_put_len(
            if self.cipher_control {
                1
            } else {
                0
            },
            1,
            cip,
        );
        if self.ciphering_parameters is Some {
            lemma_put_len(self.ciphering_parameters.unwrap(), 10, opt);
        }
        if self.has_optionals() {
            let m = put_flag(false, rest);
            let o5 = put_opt(self.address_extension, 24, m);
            let o4 = put_opt(self.ssi, 24, o5);
            let o3 = put_opt(self.la_information, 15, o4);
            let o2 = put_opt(self.energy_saving_mode, 3, o3);
            let o1 = put_opt(self.class_of_ms, 24, o2);
            lemma_put_len(1, 1, o1);
            lemma_put_opt_len(self.class_of_ms, 24, o2);
            lemma_put_opt_len(self.energy_saving_mode, 3, o3);
            lemma_put_opt_len(self.la_information, 15, o4);
            lemma_put_opt_len(self.ssi, 24, o5);
            lemma_put_opt_len(self.address_extension, 24, m);
            lemma_put_len(0, 1, rest);
        } else {
            lemma_put_len(0, 1, rest);
        }
    }

    /// Whether any optional field is present.
    fn any_optional(&self) -> (b: bool)
        ensures
            b == self.has_optionals(),
    {
        self.class_of_ms.is_some() || self.energy_saving_mode.is_some()
            || self.la_information.is_some() || self.ssi.is_some()
            || self.address_extension.is_some()
    }

    /// The length of the canonical encoding, in bits.
    pub fn len_bits(&self) -> (n: usize)
        ensures
            n == self.encoded_len(),
    {
        let cp: usize = if self.ciphering_parameters.is_some() {
            10
        } else {
            0
        };
        let opt: usize = if self.any_optional() {
            2 + opt_width(&self.class_of_ms, 24) + opt_width(&self.energy_saving_mode, 3)
                + opt_width(&self.la_information, 15) + opt_width(&self.ssi, 24) + opt_width(
                &self.address_extension,
                24,
            )
        } else {
            1
        };
        9 + cp + opt
    }

    /// Writes the canonical encoding at the cursor and moves the cursor past it.
    /// Where the buffer has no room for all of it, nothing is written.
    pub fn to_bitbuf(&self, buf: &mut BitBuffer) -> (r: Result<(), EncodeErr>)
        ensures
            final(buf).expands() == old(buf).expands(),
            r is Ok <==> self.encoded_len() <= old(buf).room(),
            match r {
                Ok(_) => final(buf).bits() == overwrite(
                    old(buf).bits(),
                    old(buf).cursor(),
                    self.encode(),
                ) && final(buf).cursor() == old(buf).cursor() + self.encoded_len(),
                Err(e) => e == old(buf).refusal() && final(buf).bits() == old(buf).bits()
                    && final(buf).cursor() == old(buf).cursor(),
            },
    {
        let n = self.len_bits();
        match buf.check_room(n) {
            Err(e) => {
                return Err(e);
            },
            Ok(_) => {},
        }
        let ghost rest = Seq::<bool>::empty();
        let ghost opt = self.encode_optionals(rest);
        let ghost cip = self.encode_ciphering(opt);
        let ghost s3 = put_flag(self.cipher_control, cip);
        let ghost s2 = put_flag(self.request_to_append_la, s3);
        let ghost s1 = put(self.location_update_type, 3, s2);
        proof {
            Frame::lemma_start_holds(buf, self.encode());
            self.lemma_encoded_len(rest);
        }
        let g = Ghost(Frame::start(buf, self.encode()));
        let g = emit(buf, PDU_TYPE, 4, g, Ghost(s1));
        let g = emit(buf, self.location_update_type, 3, g, Ghost(s2));
        let g = emit_flag(buf, self.request_to_append_la, g, Ghost(s3));
        let g = emit_flag(buf, self.cipher_control, g, Ghost(cip));
        let g = match self.ciphering_parameters {
            Some(cp) => emit(buf, cp, 10, g, Ghost(opt)),
            None => g,
        };
        let g = if self.any_optional() {
            let ghost m = put_flag(false, rest);
            let ghost o5 = put_opt(self.address_extension, 24, m);
            let ghost o4 = put_opt(self.ssi, 24, o5);
            let ghost o3 = put_opt(self.la_information, 15, o4);
            let ghost o2 = put_opt(self.energy_saving_mode, 3, o3);
            let ghost o1 = put_opt(self.class_of_ms, 24, o2);
            let g = emit_flag(buf, true, g, Ghost(o1));
            let g = emit_opt(buf, self.class_of_ms, 24, g, Ghost(o2));
            let g = emit_opt(buf, self.energy_saving_mode, 3, g, Ghost(o3));
            let g = emit_opt(buf, self.la_information, 15, g, Ghost(o4));
            let g = emit_opt(buf, self.ssi, 24, g, Ghost(o5));
            let g = emit_opt(buf, self.address_extension, 24, g, Ghost(m));
            emit_flag(buf, false, g, Ghost(rest))
        } else {
            emit_flag(buf, false, g, Ghost(rest))
        };
        proof {
            g@.lemma_done(buf);
        }
        Ok(())
    }

    /// Reads the PDU at the cursor and moves the cursor past it. The buffer's
    /// bits stay as they are; after a refusal the cursor is somewhere in the
    /// buffer.
    pub fn from_bitbuf(buf: &mut BitBuffer) -> (r: Result<ULocationUpdateDemand, PduParseErr>)
        ensures
            final(buf).bits() == old(buf).bits(),
            final(buf).expands() == old(buf).expands(),
            match Self::spec_parse(old(buf).remaining()) {
                Ok((pdu, rest)) => r == Ok::<ULocationUpdateDemand, PduParseErr>(pdu)
                    && final(buf).remaining() == rest,
                Err(e) => r == Err::<ULocationUpdateDemand, PduParseErr>(e),
            },
    {
        let pdu_type = get(buf, 4)?;
        if pdu_type != PDU_TYPE {
            return Err(PduParseErr::InvalidEnum { field: PduField::PduType, value: pdu_type });
        }
        let location_update_type = get(buf, 3)?;
        let request_to_append_la = get_flag(buf)?;
        let cipher_control = get_flag(buf)?;
        let ciphering_parameters = if cipher_control {
            Some(get(buf, 10)?)
        } else {
            None
        };
        let mut pdu = ULocationUpdateDemand {
            location_update_type,
            request_to_append_la,
            cipher_control,
            ciphering_parameters,
            class_of_ms: None,
            energy_saving_mode: None,
            la_information: None,
            ssi: None,
            address_extension: None,
        };
        let o_bit = get_flag(buf)?;
        if !o_bit {
            return Ok(pdu);
        }
        pdu.class_of_ms = get_opt(buf, 24)?;
        pdu.energy_saving_mode = get_opt(buf, 3)?;
        pdu.la_information = get_opt(buf, 15)?;
        pdu.ssi = get_opt(buf, 24)?;
        pdu.address_extension = get_opt(buf, 24)?;
        let m_bit = get_flag(buf)?;
        if m_bit || !pdu.any_optional() {
            return Err(PduParseErr::ReservedValue);
        }
        Ok(pdu)
    }
}

} // verus!
