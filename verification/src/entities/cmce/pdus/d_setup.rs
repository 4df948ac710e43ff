//! D-SETUP: the infrastructure tells the called mobiles of a call.

use crate::bitbuffer::BitBuffer;
use crate::bitbuffer::EncodeErr;
use crate::bits::overwrite;
use crate::entities::cmce::fields::basic_service_information::BasicServiceInformation;
use crate::pdu_parse_error::PduField;
use crate::pdu_parse_error::PduParseErr;
use crate::typed_pdu_fields::emit;
use crate::typed_pdu_fields::emit_flag;
use crate::typed_pdu_fields::emit_opt;
use crate::typed_pdu_fields::fits;
use crate::typed_pdu_fields::get;
use crate::typed_pdu_fields::get_flag;
use crate::typed_pdu_fields::get_opt;
use crate::typed_pdu_fields::lemma_put_len;
use crate::typed_pdu_fields::lemma_put_opt_len;
use crate::typed_pdu_fields::lemma_put_take;
use crate::typed_pdu_fields::lemma_put_take_flag;
use crate::typed_pdu_fields::lemma_put_take_opt;
use crate::typed_pdu_fields::lemma_take_put;
use crate::typed_pdu_fields::lemma_take_put_flag;
use crate::typed_pdu_fields::lemma_take_put_opt;
use crate::typed_pdu_fields::lemma_widths;
use crate::typed_pdu_fields::opt_fits;
use crate::typed_pdu_fields::opt_len;
use crate::typed_pdu_fields::opt_width;
use crate::typed_pdu_fields::or_zero;
use crate::typed_pdu_fields::put;
use crate::typed_pdu_fields::put_flag;
use crate::typed_pdu_fields::put_opt;
use crate::typed_pdu_fields::take;
use crate::typed_pdu_fields::take_flag;
use crate::typed_pdu_fields::take_opt;
use crate::typed_pdu_fields::value_or_zero;
use crate::typed_pdu_fields::Frame;
use crate::typed_pdu_lists::PduElement;
use vstd::prelude::*;

verus! {

/// The value of the PDU type field of this PDU.
pub const PDU_TYPE: u64 = 7;

/// D-SETUP. Of its optional parts the fields of fixed width are carried: the
/// notification indicator, the temporary address, and the calling party, which
/// is named by its SSI or by SSI and extension as its type identifier says. The
/// variable-length elements are not carried.
#[derive(Clone, Copy, Debug, PartialEq, Eq, Structural)]
pub struct DSetup {
    /// 14 bits.
    pub call_identifier: u64,
    /// 4 bits.
    pub call_time_out: u64,
    pub hook_method_selection: bool,
    pub simplex_duplex_selection: bool,
    pub basic_service_information: BasicServiceInformation,
    /// 2 bits.
    pub transmission_grant: u64,
    pub transmission_request_permission: bool,
    /// 4 bits.
    pub call_priority: u64,
    /// 6 bits.
    pub notification_indicator: Option<u64>,
    /// 24 bits.
    pub temporary_address: Option<u64>,
    /// 2 bits: 1 SSI, 2 SSI and extension; 0 and 3 are reserved.
    pub calling_party_type_identifier: Option<u64>,
    /// 24 bits; present where the calling party is named.
    pub calling_party_address_ssi: Option<u64>,
    /// 24 bits; present for type identifier 2.
    pub calling_party_extension: Option<u64>,
}

impl DSetup {
    /// Whether any optional field is present.
    pub open spec fn has_optionals(self) -> bool {
        self.notification_indicator is Some || self.temporary_address is Some
            || self.calling_party_type_identifier is Some
    }

    /// The values that have an encoding: every field fits its width, and the
    /// calling party, where it is named, is named in the way its type identifier
    /// says.
    pub open spec fn wf(self) -> bool {
        &&& fits(self.call_identifier, 14)
        &&& fits(self.call_time_out, 4)
        &&& self.basic_service_information.wf()
        &&& fits(self.transmission_grant, 2)
        &&& fits(self.call_priority, 4)
        &&& opt_fits(self.notification_indicator, 6)
        &&& opt_fits(self.temporary_address, 24)
        &&& self.calling_party_type_identifier matches Some(t) ==> t == 1 || t == 2
        &&& opt_fits(self.calling_party_address_ssi, 24)
        &&& opt_fits(self.calling_party_extension, 24)
        &&& self.calling_party_address_ssi is Some <==> self.calling_party_type_identifier is Some
        &&& self.calling_party_extension is Some <==> self.calling_party_type_identifier == Some(
            2u64,
        )
    }

    /// The calling party with its P-bit, in front of `rest`.
    pub open spec fn encode_calling_party(self, rest: Seq<bool>) -> Seq<bool> {
        match self.calling_party_type_identifier {
            None => put_flag(false, rest),
            Some(t) => put_flag(
                true,
                put(
                    t,
                    2,
                    put(
                        or_zero(self.calling_party_address_ssi),
                        24,
                        if t == 2 {
                            put(or_zero(self.calling_party_extension), 24, rest)
                        } else {
                            rest
                        },
                    ),
                ),
            ),
        }
    }

    /// The number of bits that the calling party takes, P-bit included.
    pub open spec fn calling_party_len(self) -> nat {
        match self.calling_party_type_identifier {
            None => 1,
            Some(t) => if t == 2 {
                51
            } else {
                27
            },
        }
    }

    /// The optional part, from the O-bit on, in front of `rest`.
    pub open spec fn encode_optionals(self, rest: Seq<bool>) -> Seq<bool> {
        if self.has_optionals() {
            put_flag(
                true,
                put_opt(
                    self.notification_indicator,
                    6,
                    put_opt(
                        self.temporary_address,
                        24,
                        self.encode_calling_party(put_flag(false, rest)),
                    ),
                ),
            )
        } else {
            put_flag(false, rest)
        }
    }

    /// The fields after the basic service information, in front of `rest`.
    pub open spec fn encode_tail(self, rest: Seq<bool>) -> Seq<bool> {
        put(
            self.transmission_grant,
            2,
            put_flag(
                self.transmission_request_permission,
                put(self.call_priority, 4, self.encode_optionals(rest)),
            ),
        )
    }

    /// The canonical encoding in front of `rest`.
    pub open spec fn encode_onto(self, rest: Seq<bool>) -> Seq<bool> {
        put(
            PDU_TYPE,
            5,
            put(
                self.call_identifier,
                14,
                put(
                    self.call_time_out,
                    4,
                    put_flag(
                        self.hook_method_selection,
                        put_flag(
                            self.simplex_duplex_selection,
                            self.basic_service_information.encode_onto(self.encode_tail(rest)),
                        ),
                    ),
                ),
            ),
        )
    }

    /// The canonical encoding.
    pub open spec fn encode(self) -> Seq<bool> {
        self.encode_onto(Seq::empty())
    }

    /// The length of the canonical encoding, in bits.
    pub open spec fn encoded_len(self) -> nat {
        40 + if self.has_optionals() {
            2 + opt_len(self.notification_indicator, 6) + opt_len(self.temporary_address, 24)
                + self.calling_party_len()
        } else {
            1
        }
    }

    /// The calling party with its P-bit at the front of `s`.
    pub open spec fn parse_calling_party(s: Seq<bool>, head: DSetup) -> Result<
        (DSetup, Seq<bool>),
        PduParseErr,
    > {
        match take_flag(s) {
            None => Err(PduParseErr::UnexpectedEof),
            Some((false, rest)) => Ok((head, rest)),
            Some((true, s1)) => match take(s1, 2) {
                None => Err(PduParseErr::UnexpectedEof),
                Some((t, s2)) => if t != 1 && t != 2 {
                    Err(
                        PduParseErr::InvalidEnum {
                            field: PduField::CallingPartyTypeIdentifier,
                            value: t,
                        },
                    )
                } else {
                    match take(s2, 24) {
                        None => Err(PduParseErr::UnexpectedEof),
                        Some((ssi, s3)) => if t == 2 {
                            match take(s3, 24) {
                                None => Err(PduParseErr::UnexpectedEof),
                                Some((extension, rest)) => Ok(
                                    (
                                        DSetup {
                                            calling_party_type_identifier: Some(t),
                                            calling_party_address_ssi: Some(ssi),
                                            calling_party_extension: Some(extension),
                                            ..head
                                        },
                                        rest,
                                    ),
                                ),
                            }
                        } else {
                            Ok(
                                (
                                    DSetup {
                                        calling_party_type_identifier: Some(t),
                                        calling_party_address_ssi: Some(ssi),
                                        ..head
                                    },
                                    s3,
                                ),
                            )
                        },
                    }
                },
            },
        }
    }

    /// The optional part of a PDU at the front of `s`, from the O-bit on.
    pub open spec fn parse_optionals(s: Seq<bool>, head: DSetup) -> Result<
        (DSetup, Seq<bool>),
        PduParseErr,
    > {
        match take_flag(s) {
            None => Err(PduParseErr::UnexpectedEof),
            Some((false, rest)) => Ok((head, rest)),
            Some((true, s1)) => match take_opt(s1, 6) {
                None => Err(PduParseErr::UnexpectedEof),
                Some((notification_indicator, s2)) => match take_opt(s2, 24) {
                    None => Err(PduParseErr::UnexpectedEof),
                    Some((temporary_address, s3)) => match Self::parse_calling_party(
                        s3,
                        DSetup { notification_indicator, temporary_address, ..head },
                    ) {
                        Err(e) => Err(e),
                        Ok((pdu, s4)) => match take_flag(s4) {
                            None => Err(PduParseErr::UnexpectedEof),
                            Some((true, _)) => Err(PduParseErr::ReservedValue),
                            Some((false, rest)) => if pdu.has_optionals() {
                                Ok((pdu, rest))
                            } else {
                                Err(PduParseErr::ReservedValue)
                            },
                        },
                    },
                },
            },
        }
    }

    /// The fields after the basic service information at the front of `s`.
    pub open spec fn parse_tail(s: Seq<bool>, head: DSetup) -> Result<
        (DSetup, Seq<bool>),
        PduParseErr,
    > {
        match take(s, 2) {
            None => Err(PduParseErr::UnexpectedEof),
            Some((transmission_grant, s1)) => match take_flag(s1) {
                None => Err(PduParseErr::UnexpectedEof),
                Some((transmission_request_permission, s2)) => match take(s2, 4) {
                    None => Err(PduParseErr::UnexpectedEof),
                    Some((call_priority, s3)) => Self::parse_optionals(
                        s3,
                        DSetup {
                            transmission_grant,
                            transmission_request_permission,
                            call_priority,
                            ..head
                        },
                    ),
                },
            },
        }
    }

    /// The PDU at the front of `s` and what follows it, or why there is none.
    ///
    /// Refused are: an input that ends inside the PDU; a PDU type other than
    /// this one's; a reserved calling party type identifier; a set M-bit, which
    /// would announce an element that is not carried; and a set O-bit with no
    /// optional field behind it, which has the shorter spelling of a clear O-bit.
    pub open spec fn spec_parse(s: Seq<bool>) -> Result<(DSetup, Seq<bool>), PduParseErr> {
        match take(s, 5) {
            None => Err(PduParseErr::UnexpectedEof),
            Some((pdu_type, s1)) => if pdu_type != PDU_TYPE {
                Err(PduParseErr::InvalidEnum { field: PduField::PduType, value: pdu_type })
            } else {
                match take(s1, 14) {
                    None => Err(PduParseErr::UnexpectedEof),
                    Some((call_identifier, s2)) => match take(s2, 4) {
                        None => Err(PduParseErr::UnexpectedEof),
                        Some((call_time_out, s3)) => match take_flag(s3) {
                            None => Err(PduParseErr::UnexpectedEof),
                            Some((hook_method_selection, s4)) => match take_flag(s4) {
                                None => Err(PduParseErr::UnexpectedEof),
                                Some(
                                    (simplex_duplex_selection, s5),
                                ) => match BasicServiceInformation::spec_parse(s5) {
                                    Err(e) => Err(e),
                                    Ok((basic_service_information, s6)) => Self::parse_tail(
                                        s6,
                                        DSetup {
                                            call_identifier,
                                            call_time_out,
                                            hook_method_selection,
                                            simplex_duplex_selection,
                                            basic_service_information,
                                            transmission_grant: 0,
                                            transmission_request_permission: false,
                                            call_priority: 0,
                                            notification_indicator: None,
                                            temporary_address: None,
                                            calling_party_type_identifier: None,
                                            calling_party_address_ssi: None,
                                            calling_party_extension: None,
                                        },
                                    ),
                                },
                            },
                        },
                    },
                }
            },
        }
    }

    proof fn lemma_calling_party_len(self, rest: Seq<bool>)
        ensures
            self.encode_calling_party(rest).len() == self.calling_party_len() + rest.len(),
    {
        lemma_put_len(0, 1, rest);
        match self.calling_party_type_identifier {
            None => {},
            Some(t) => {
                let e = put(or_zero(self.calling_party_extension), 24, rest);
                lemma_put_len(or_zero(self.calling_party_extension), 24, rest);
                let last = if t == 2 {
                    e
                } else {
                    rest
                };
                let a = put(or_zero(self.calling_party_address_ssi), 24, last);
                lemma_put_len(or_zero(self.calling_party_address_ssi), 24, last);
                lemma_put_len(t, 2, a);
                lemma_put_len(1, 1, put(t, 2, a));
            },
        }
    }

    proof fn lemma_take_put_calling_party(self, rest: Seq<bool>)
        requires
            self.wf(),
        ensures
            Self::parse_calling_party(
                self.encode_calling_party(rest),
                DSetup {
                    calling_party_type_identifier: None,
                    calling_party_address_ssi: None,
                    calling_party_extension: None,
                    ..self
                },
            ) == Ok::<(DSetup, Seq<bool>), PduParseErr>((self, rest)),
    {
        lemma_widths();
        match self.calling_party_type_identifier {
            None => {
                lemma_take_put_flag(false, rest);
            },
            Some(t) => {
                let e = put(or_zero(self.calling_party_extension), 24, rest);
                let last = if t == 2 {
                    e
                } else {
                    rest
                };
                let a = put(or_zero(self.calling_party_address_ssi), 24, last);
                lemma_take_put_flag(true, put(t, 2, a));
                lemma_take_put(t, 2, a);
                lemma_take_put(or_zero(self.calling_party_address_ssi), 24, last);
                lemma_take_put(or_zero(self.calling_party_extension), 24, rest);
            },
        }
    }

    /// Serialize-then-parse is the identity: a well-formed PDU, written in front
    /// of anything, is read back as itself, and what followed it is what is left.
    pub proof fn lemma_parse_encode(self, rest: Seq<bool>)
        requires
            self.wf(),
        ensures
            Self::spec_parse(self.encode_onto(rest)) == Ok::<(DSetup, Seq<bool>), PduParseErr>(
                (self, rest),
            ),
    {
        lemma_widths();
        let opt = self.encode_optionals(rest);
        let a8 = put(self.call_priority, 4, opt);
        let a7 = put_flag(self.transmission_request_permission, a8);
        let tail = self.encode_tail(rest);
        let bsi = self.basic_service_information.encode_onto(tail);
        let a4 = put_flag(self.simplex_duplex_selection, bsi);
        let a3 = put_flag(self.hook_method_selection, a4);
        let a2 = put(self.call_time_out, 4, a3);
        let a1 = put(self.call_identifier, 14, a2);
        lemma_take_put(PDU_TYPE, 5, a1);
        lemma_take_put(self.call_identifier, 14, a2);
        lemma_take_put(self.call_time_out, 4, a3);
        lemma_take_put_flag(self.hook_method_selection, a4);
        lemma_take_put_flag(self.simplex_duplex_selection, bsi);
        self.basic_service_information.lemma_parse_encode(tail);
        lemma_take_put(self.transmission_grant, 2, a7);
        lemma_take_put_flag(self.transmission_request_permission, a8);
        lemma_take_put(self.call_priority, 4, opt);
        lemma_take_put_flag(false, rest);
        if self.has_optionals() {
            let m = put_flag(false, rest);
            let c = self.encode_calling_party(m);
            let o2 = put_opt(self.temporary_address, 24, c);
            let o1 = put_opt(self.notification_indicator, 6, o2);
            lemma_take_put_flag(true, o1);
            lemma_take_put_opt(self.notification_indicator, 6, o2);
            lemma_take_put_opt(self.temporary_address, 24, c);
            self.lemma_take_put_calling_party(m);
        }
    }

    /// Parse-then-serialize is the identity: what parses is well formed, and its
    /// encoding in front of what was left is the input.
    pub proof fn lemma_encode_parse(s: Seq<bool>)
        requires
            Self::spec_parse(s) is Ok,
        ensures
            Self::spec_parse(s).unwrap().0.wf(),
            Self::spec_parse(s).unwrap().0.encode_onto(Self::spec_parse(s).unwrap().1) == s,
    {
        lemma_widths();
        lemma_put_take(s, 5);
        let s1 = take(s, 5).unwrap().1;
        lemma_put_take(s1, 14);
        let s2 = take(s1, 14).unwrap().1;
        lemma_put_take(s2, 4);
        let s3 = take(s2, 4).unwrap().1;
        lemma_put_take_flag(s3);
        let s4 = take_flag(s3).unwrap().1;
        lemma_put_take_flag(s4);
        let s5 = take_flag(s4).unwrap().1;
        BasicServiceInformation::lemma_encode_parse(s5);
        let s6 = BasicServiceInformation::spec_parse(s5).unwrap().1;
        lemma_put_take(s6, 2);
        let t1 = take(s6, 2).unwrap().1;
        lemma_put_take_flag(t1);
        let t2 = take_flag(t1).unwrap().1;
        lemma_put_take(t2, 4);
        let t3 = take(t2, 4).unwrap().1;
        lemma_put_take_flag(t3);
        let (o_bit, u1) = take_flag(t3).unwrap();
        if o_bit {
            lemma_put_take_opt(u1, 6);
            let u2 = take_opt(u1, 6).unwrap().1;
            lemma_put_take_opt(u2, 24);
            let u3 = take_opt(u2, 24).unwrap().1;
            lemma_put_take_flag(u3);
            let (named, v1) = take_flag(u3).unwrap();
            let u4 = if named {
                lemma_put_take(v1, 2);
                let (t, v2) = take(v1, 2).unwrap();
                lemma_put_take(v2, 24);
                let v3 = take(v2, 24).unwrap().1;
                if t == 2 {
                    lemma_put_take(v3, 24);
                    take(v3, 24).unwrap().1
                } else {
                    v3
                }
            } else {
                v1
            };
            lemma_put_take_flag(u4);
        }
    }

    /// The encoding has the length that `encoded_len` gives.
    pub proof fn lemma_encoded_len(self, rest: Seq<bool>)
        ensures
            self.encode_onto(rest).len() == self.encoded_len() + rest.len(),
    {
        let opt = self.encode_optionals(rest);
        let a8 = put(self.call_priority, 4, opt);
        let a7 = put_flag(self.transmission_request_permission, a8);
        let tail = self.encode_tail(rest);
        let bsi = self.basic_service_information.encode_onto(tail);
        let a4 = put_flag(self.simplex_duplex_selection, bsi);
        let a3 = put_flag(self.hook_method_selection, a4);
        let a2 = put(self.call_time_out, 4, a3);
        let a1 = put(self.call_identifier, 14, a2);
        lemma_put_len(PDU_TYPE, 5, a1);
        lemma_put_len(self.call_identifier, 14, a2);
        lemma_put_len(self.call_time_out, 4, a3);
        lemma_put_len(
            if self.hook_method_selection {
                1
            } else {
                0
            },
            1,
            a4,
        );
        lemma_put_len(
            if self.simplex_duplex_selection {
                1
            } else {
                0
            },
            1,
            bsi,
        );
        self.basic_service_information.lemma_encoded_len(tail);
        lemma_put_len(self.transmission_grant, 2, a7);
        lemma_put_len(
            if self.transmission_request_permission {
                1
            } else {
                0
            },
            1,
            a8,
        );
        lemma_put_len(self.call_priority, 4, opt);
        lemma_put_len(0, 1, rest);
        if self.has_optionals() {
            let m = put_flag(false, rest);
            let c = self.encode_calling_party(m);
            let o2 = put_opt(self.temporary_address, 24, c);
            let o1 = put_opt(self.notification_indicator, 6, o2);
            lemma_put_len(1, 1, o1);
            lemma_put_opt_len(self.notification_indicator, 6, o2);
            lemma_put_opt_len(self.temporary_address, 24, c);
            self.lemma_calling_party_len(m);
        }
    }

    /// Whether any optional field is present.
    fn any_optional(&self) -> (b: bool)
        ensures
            b == self.has_optionals(),
    {
        self.notification_indicator.is_some() || self.temporary_address.is_some()
            || self.calling_party_type_identifier.is_some()
    }

    /// The length of the canonical encoding, in bits.
    pub fn len_bits(&self) -> (n: usize)
        ensures
            n == self.encoded_len(),
    {
        let calling: usize = match self.calling_party_type_identifier {
            None => 1,
            Some(t) => if t == 2 {
                51
            } else {
                27
            },
        };
        let opt: usize = if self.any_optional() {
            2 + opt_width(&self.notification_indicator, 6) + opt_width(&self.temporary_address, 24)
                + calling
        } else {
            1
        };
        40 + opt
    }

    /// Writes the calling party with its P-bit.
    fn write_calling_party(
        &self,
        buf: &mut BitBuffer,
        Ghost(fr): Ghost<Frame>,
        Ghost(rest): Ghost<Seq<bool>>,
    ) -> (g: Ghost<Frame>)
        requires
            self.calling_party_len() <= old(buf).room(),
            fr.holds(old(buf)),
            fr.pending == self.encode_calling_party(rest),
        ensures
            g@.holds(final(buf)),
            g@.base == fr.base,
            g@.at == fr.at,
            g@.all() == fr.all(),
            g@.pending == rest,
            final(buf).room() == old(buf).room() - self.calling_party_len(),
            final(buf).expands() == old(buf).expands(),
    {
        match self.calling_party_type_identifier {
            None => emit_flag(buf, false, Ghost(fr), Ghost(rest)),
            Some(t) => {
                let ssi = value_or_zero(&self.calling_party_address_ssi);
                let extension = value_or_zero(&self.calling_party_extension);
                let ghost e = put(extension, 24, rest);
                let ghost last = if t == 2 {
                    e
                } else {
                    rest
                };
                let ghost a = put(ssi, 24, last);
                let g = emit_flag(buf, true, Ghost(fr), Ghost(put(t, 2, a)));
                let g = emit(buf, t, 2, g, Ghost(a));
                let g = emit(buf, ssi, 24, g, Ghost(last));
                if t == 2 {
                    emit(buf, extension, 24, g, Ghost(rest))
                } else {
                    g
                }
            },
        }
    }

    /// Writes the canonical encoding at the cursor and moves the cursor past it.
    /// Where the buffer has no room for all of it, nothing is written.
    pub fn to_bitbuf(&self, buf: &mut BitBuffer) -> (r: Result<(), EncodeErr>)
        ensures
            final(buf).expands() == old(buf).expands(),
            r is Ok <==> self.encoded_len() <= old(buf).room(),
            match r {
                Ok(_) => final(buf).bits() == overwrite(
                    old(buf).bits(),
                    old(buf).cursor(),
                    self.encode(),
                ) && final(buf).cursor() == old(buf).cursor() + self.encoded_len(),
                Err(e) => e == old(buf).refusal() && final(buf).bits() == old(buf).bits()
                    && final(buf).cursor() == old(buf).cursor(),
            },
    {
        let n = self.len_bits();
        match buf.check_room(n) {
            Err(e) => {
                return Err(e);
            },
            Ok(_) => {},
        }
        let ghost rest = Seq::<bool>::empty();
        let ghost opt = self.encode_optionals(rest);
        let ghost a8 = put(self.call_priority, 4, opt);
        let ghost a7 = put_flag(self.transmission_request_permission, a8);
        let ghost tail = self.encode_tail(rest);
        let ghost bsi = self.basic_service_information.encode_onto(tail);
        let ghost a4 = put_flag(self.simplex_duplex_selection, bsi);
        let ghost a3 = put_flag(self.hook_method_selection, a4);
        let ghost a2 = put(self.call_time_out, 4, a3);
        let ghost a1 = put(self.call_identifier, 14, a2);
        proof {
            Frame::lemma_start_holds(buf, self.encode());
            self.lemma_encoded_len(rest);
        }
        let g = Ghost(Frame::start(buf, self.encode()));
        let g = emit(buf, PDU_TYPE, 5, g, Ghost(a1));
        let g = emit(buf, self.call_identifier, 14, g, Ghost(a2));
        let g = emit(buf, self.call_time_out, 4, g, Ghost(a3));
        let g = emit_flag(buf, self.hook_method_selection, g, Ghost(a4));
        let g = emit_flag(buf, self.simplex_duplex_selection, g, Ghost(bsi));
        let g = self.basic_service_information.write(buf, g, Ghost(tail));
        let g = emit(buf, self.transmission_grant, 2, g, Ghost(a7));
        let g = emit_flag(buf, self.transmission_request_permission, g, Ghost(a8));
        let g = emit(buf, self.call_priority, 4, g, Ghost(opt));
        let g = if self.any_optional() {
            let ghost m = put_flag(false, rest);
            let ghost c = self.encode_calling_party(m);
            let ghost o2 = put_opt(self.temporary_address, 24, c);
            let ghost o1 = put_opt(self.notification_indicator, 6, o2);
            let g = emit_flag(buf, true, g, Ghost(o1));
            let g = emit_opt(buf, self.notification_indicator, 6, g, Ghost(o2));
            let g = emit_opt(buf, self.temporary_address, 24, g, Ghost(c));
            let g = self.write_calling_party(buf, g, Ghost(m));
            emit_flag(buf, false, g, Ghost(rest))
        } else {
            emit_flag(buf, false, g, Ghost(rest))
        };
        proof {
            g@.lemma_done(buf);
        }
        Ok(())
    }

    /// Reads the PDU at the cursor and moves the cursor past it. The buffer's
    /// bits stay as they are; after a refusal the cursor is somewhere in the
    /// buffer.
    pub fn from_bitbuf(buf: &mut BitBuffer) -> (r: Result<DSetup, PduParseErr>)
        ensures
            final(buf).bits() == old(buf).bits(),
            final(buf).expands() == old(buf).expands(),
            match Self::spec_parse(old(buf).remaining()) {
                Ok((pdu, rest)) => r == Ok::<DSetup, PduParseErr>(pdu) && final(buf).remaining()
                    == rest,
                Err(e) => r == Err::<DSetup, PduParseErr>(e),
            },
    {
        let pdu_type = get(buf, 5)?;
        if pdu_type != PDU_TYPE {
            return Err(PduParseErr::InvalidEnum { field: PduField::PduType, value: pdu_type });
        }
        let call_identifier = get(buf, 14)?;
        let call_time_out = get(buf, 4)?;
        let hook_method_selection = get_flag(buf)?;
        let simplex_duplex_selection = get_flag(buf)?;
        let basic_service_information = BasicServiceInformation::read(buf)?;
        let transmission_grant = get(buf, 2)?;
        let transmission_request_permission = get_flag(buf)?;
        let call_priority = get(buf, 4)?;
        let mut pdu = DSetup {
            call_identifier,
            call_time_out,
            hook_method_selection,
            simplex_duplex_selection,
            basic_service_information,
            transmission_grant,
            transmission_request_permission,
            call_priority,
            notification_indicator: None,
            temporary_address: None,
            calling_party_type_identifier: None,
            calling_party_address_ssi: None,
            calling_party_extension: None,
        };
        let o_bit = get_flag(buf)?;
        if !o_bit {
            return Ok(pdu);
        }
        pdu.notification_indicator = get_opt(buf, 6)?;
        pdu.temporary_address = get_opt(buf, 24)?;
        let named = get_flag(buf)?;
        if named {
            let t = get(buf, 2)?;
            if t != 1 && t != 2 {
                return Err(
                    PduParseErr::InvalidEnum {
                        field: PduField::CallingPartyTypeIdentifier,
                        value: t,
                    },
                );
            }
            pdu.calling_party_type_identifier = Some(t);
            pdu.calling_party_address_ssi = Some(get(buf, 24)?);
            if t == 2 {
                pdu.calling_party_extension = Some(get(buf, 24)?);
            }
        }
        let m_bit = get_flag(buf)?;
        if m_bit || !pdu.any_optional() {
            return Err(PduParseErr::ReservedValue);
        }
        Ok(pdu)
    }
}

} // verus!
