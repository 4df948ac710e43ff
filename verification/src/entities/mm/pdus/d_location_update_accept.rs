//! D-LOCATION UPDATE ACCEPT: the infrastructure accepts a registration.

use crate::bitbuffer::BitBuffer;
use crate::bitbuffer::EncodeErr;
use crate::bits::overwrite;
use crate::entities::mm::enums::mm_location_update_accept_type::MmLocationUpdateAcceptType;
use crate::pdu_parse_error::PduField;
use crate::pdu_parse_error::PduParseErr;
use crate::typed_pdu_fields::emit;
use crate::typed_pdu_fields::emit_flag;
use crate::typed_pdu_fields::emit_opt;
use crate::typed_pdu_fields::get;
use crate::typed_pdu_fields::get_flag;
use crate::typed_pdu_fields::get_opt;
use crate::typed_pdu_fields::lemma_put_len;
use crate::typed_pdu_fields::lemma_put_opt_len;
use crate::typed_pdu_fields::lemma_put_take;
use crate::typed_pdu_fields::lemma_put_take_flag;
use crate::typed_pdu_fields::lemma_put_take_opt;
use crate::typed_pdu_fields::lemma_take_put;
use crate::typed_pdu_fields::lemma_take_put_flag;
use crate::typed_pdu_fields::lemma_take_put_opt;
use crate::typed_pdu_fields::lemma_widths;
use crate::typed_pdu_fields::opt_fits;
use crate::typed_pdu_fields::opt_len;
use crate::typed_pdu_fields::opt_width;
use crate::typed_pdu_fields::put;
use crate::typed_pdu_fields::put_flag;
use crate::typed_pdu_fields::put_opt;
use crate::typed_pdu_fields::take;
use crate::typed_pdu_fields::take_flag;
use crate::typed_pdu_fields::take_opt;
use crate::typed_pdu_fields::Frame;
use vstd::prelude::*;

verus! {

/// The value of the PDU type field of this PDU.
pub const PDU_TYPE: u64 = 5;

/// D-LOCATION UPDATE ACCEPT. Of its optional parts the fields of fixed width
/// are carried; the variable-length elements are not.
#[derive(Clone, Copy, Debug, PartialEq, Eq, Structural)]
pub struct DLocationUpdateAccept {
    /// 3 bits.
    pub location_update_accept_type: MmLocationUpdateAcceptType,
    /// 24 bits.
    pub ssi: Option<u64>,
    /// 24 bits.
    pub address_extension: Option<u64>,
    /// 16 bits.
    pub subscriber_class: Option<u64>,
    /// 14 bits.
    pub energy_saving_information: Option<u64>,
    /// 6 bits.
    pub scch_information_and_distribution_on_18th_frame: Option<u64>,
}

impl DLocationUpdateAccept {
    /// Whether any optional field is present.
    pub open spec fn has_optionals(self) -> bool {
        self.ssi is Some || self.address_extension is Some || self.subscriber_class is Some
            || self.energy_saving_information is Some
            || self.scch_information_and_distribution_on_18th_frame is Some
    }

    /// The values that have an encoding: every field fits its width.
    pub open spec fn wf(self) -> bool {
        &&& opt_fits(self.ssi, 24)
        &&& opt_fits(self.address_extension, 24)
        &&& opt_fits(self.subscriber_class, 16)
        &&& opt_fits(self.energy_saving_information, 14)
        &&& opt_fits(self.scch_information_and_distribution_on_18th_frame, 6)
    }

    /// The optional part, from the O-bit on, in front of `rest`.
    pub open spec fn encode_optionals(self, rest: Seq<bool>) -> Seq<bool> {
        if self.has_optionals() {
            put_flag(
                true,
                put_opt(
                    self.ssi,
                    24,
                    put_opt(
                        self.address_extension,
                        24,
                        put_opt(
                            self.subscriber_class,
                            16,
                            put_opt(
                                self.energy_saving_information,
                                14,
                                put_opt(
                                    self.scch_information_and_distribution_on_18th_frame,
                                    6,
                                    put_flag(false, rest),
                                ),
                            ),
                        ),
                    ),
                ),
            )
        } else {
            put_flag(false, rest)
        }
    }

    /// The canonical encoding in front of `rest`.
    pub open spec fn encode_onto(self, rest: Seq<bool>) -> Seq<bool> {
        put(
            PDU_TYPE,
            4,
            put(self.location_update_accept_type.spec_into_raw(), 3, self.encode_optionals(rest)),
        )
    }

    /// The canonical encoding.
    pub open spec fn encode(self) -> Seq<bool> {
        self.encode_onto(Seq::empty())
    }

    /// The length of the canonical encoding, in bits.
    pub open spec fn encoded_len(self) -> nat {
        7 + if self.has_optionals() {
            2 + opt_len(self.ssi, 24) + opt_len(self.address_extension, 24)
                + opt_len(self.subscriber_class, 16) + opt_len(self.energy_saving_information, 14)
                + opt_len(self.scch_information_and_distribution_on_18th_frame, 6)
        } else {
            1
        }
    }

    /// The optional part of a PDU at the front of `s`, from the O-bit on.
    pub open spec fn parse_optionals(s: Seq<bool>, head: DLocationUpdateAccept) -> Result<
        (DLocationUpdateAccept, Seq<bool>),
        PduParseErr,
    > {
        match take_flag(s) {
            None => Err(PduParseErr::UnexpectedEof),
            Some((false, rest)) => Ok((head, rest)),
            Some((true, s1)) => match take_opt(s1, 24) {
                None => Err(PduParseErr::UnexpectedEof),
                Some((ssi, s2)) => match take_opt(s2, 24) {
                    None => Err(PduParseErr::UnexpectedEof),
                    Some((address_extension, s3)) => match take_opt(s3, 16) {
                        None => Err(PduParseErr::UnexpectedEof),
                        Some((subscriber_class, s4)) => match take_opt(s4, 14) {
                            None => Err(PduParseErr::UnexpectedEof),
                            Some((energy_saving_information, s5)) => match take_opt(s5, 6) {
                                None => Err(PduParseErr::UnexpectedEof),
                                Some(
                                    (scch_information_and_distribution_on_18th_frame, s6),
                                ) => match take_flag(s6) {
                                    None => Err(PduParseErr::UnexpectedEof),
                                    Some((true, _)) => Err(PduParseErr::ReservedValue),
                                    Some((false, rest)) => {
                                        let pdu = DLocationUpdateAccept {
    ssi,
    address_extension,
    subscriber_class,
    energy_saving_information,
    scch_information_and_distribution_on_18th_frame,
    ..head
};
                                        if pdu.has_optionals() {
                                            Ok((pdu, rest))
                                        } else {
                                            Err(PduParseErr::ReservedValue)
                                        }
                                    },
                                },
                            },
                        },
                    },
                },
            },
        }
    }

    /// The PDU at the front of `s` and what follows it, or why there is none.
    ///
    /// Refused are: an input that ends inside the PDU; a PDU type other than
    /// this one's; a set M-bit, which would announce an element that is not
    /// carried; and a set O-bit with no optional field behind it, which has the
    /// shorter spelling of a clear O-bit.
    pub open spec fn spec_parse(s: Seq<bool>) -> Result<
        (DLocationUpdateAccept, Seq<bool>),
        PduParseErr,
    > {
        match take(s, 4) {
            None => Err(PduParseErr::UnexpectedEof),
            Some((pdu_type, s1)) => if pdu_type != PDU_TYPE {
                Err(PduParseErr::InvalidEnum { field: PduField::PduType, value: pdu_type })
            } else {
                match take(s1, 3) {
                    None => Err(PduParseErr::UnexpectedEof),
                    Some((location_update_accept_type, s2)) => Self::parse_optionals(
                        s2,
                        DLocationUpdateAccept {
                            location_update_accept_type: MmLocationUpdateAcceptType::spec_from_raw(
                                location_update_accept_type,
                            ),
                            ssi: None,
                            address_extension: None,
                            subscriber_class: None,
                            energy_saving_information: None,
                            scch_information_and_distribution_on_18th_frame: None,
                        },
                    ),
                }
            },
        }
    }

    /// Serialize-then-parse is the identity: a well-formed PDU, written in front
    /// of anything, is read back as itself, and what followed it is what is left.
    pub proof fn lemma_parse_encode(self, rest: Seq<bool>)
        requires
            self.wf(),
        ensures
            Self::spec_parse(self.encode_onto(rest)) == Ok::<
                (DLocationUpdateAccept, Seq<bool>),
                PduParseErr,
            >((self, rest)),
    {
        lemma_widths();
        let opt = self.encode_optionals(rest);
        let a1 = put(self.location_update_accept_type.spec_into_raw(), 3, opt);
        lemma_take_put(PDU_TYPE, 4, a1);
        lemma_take_put(self.location_update_accept_type.spec_into_raw(), 3, opt);
        self.location_update_accept_type.lemma_from_raw_into_raw();
        lemma_take_put_flag(false, rest);
        if self.has_optionals() {
            let m = put_flag(false, rest);
            let o5 = put_opt(self.scch_information_and_distribution_on_18th_frame, 6, m);
            let o4 = put_opt(self.energy_saving_information, 14, o5);
            let o3 = put_opt(self.subscriber_class, 16, o4);
            let o2 = put_opt(self.address_extension, 24, o3);
            let o1 = put_opt(self.ssi, 24, o2);
            lemma_take_put_flag(true, o1);
            lemma_take_put_opt(self.ssi, 24, o2);
            lemma_take_put_opt(self.address_extension, 24, o3);
            lemma_take_put_opt(self.subscriber_class, 16, o4);
            lemma_take_put_opt(self.energy_saving_information, 14, o5);
            lemma_take_put_opt(self.scch_information_and_distribution_on_18th_frame, 6, m);
        }
    }

    /// Parse-then-serialize is the identity: what parses is well formed, and its
    /// encoding in front of what was left is the input.
    pub proof fn lemma_encode_parse(s: Seq<bool>)
        requires
            Self::spec_parse(s) is Ok,
        ensures
            Self::spec_parse(s).unwrap().0.wf(),
            Self::spec_parse(s).unwrap().0.encode_onto(Self::spec_parse(s).unwrap().1) == s,
    {
        lemma_widths();
        lemma_put_take(s, 4);
        let s1 = take(s, 4).unwrap().1;
        lemma_put_take(s1, 3);
        let s2 = take(s1, 3).unwrap().1;
        lemma_put_take_flag(s2);
        let (o_bit, t1) = take_flag(s2).unwrap();
        if o_bit {
            lemma_put_take_opt(t1, 24);
            let t2 = take_opt(t1, 24).unwrap().1;
            lemma_put_take_opt(t2, 24);
            let t3 = take_opt(t2, 24).unwrap().1;
            lemma_put_take_opt(t3, 16);
            let t4 = take_opt(t3, 16).unwrap().1;
            lemma_put_take_opt(t4, 14);
            let t5 = take_opt(t4, 14).unwrap().1;
            lemma_put_take_opt(t5, 6);
            let t6 = take_opt(t5, 6).unwrap().1;
            lemma_put_take_flag(t6);
        }
    }

    /// The encoding has the length that `encoded_len` gives.
    pub proof fn lemma_encoded_len(self, rest: Seq<bool>)
        ensures
            self.encode_onto(rest).len() == self.encoded_len() + rest.len(),
    {
        let opt = self.encode_optionals(rest);
        let a1 = put(self.location_update_accept_type.spec_into_raw(), 3, opt);
        lemma_put_len(PDU_TYPE, 4, a1);
        lemma_put_len(self.location_update_accept_type.spec_into_raw(), 3, opt);
        lemma_put_len(0, 1, rest);
        if self.has_optionals() {
            let m = put_flag(false, rest);
            let o5 = put_opt(self.scch_information_and_distribution_on_18th_frame, 6, m);
            let o4 = put_opt(self.energy_saving_information, 14, o5);
            let o3 = put_opt(self.subscriber_class, 16, o4);
            let o2 = put_opt(self.address_extension, 24, o3);
            let o1 = put_opt(self.ssi, 24, o2);
            lemma_put_len(1, 1, o1);
            lemma_put_opt_len(self.ssi, 24, o2);
            lemma_put_opt_len(self.address_extension, 24, o3);
            lemma_put_opt_len(self.subscriber_class, 16, o4);
            lemma_put_opt_len(self.energy_saving_information, 14, o5);
            lemma_put_opt_len(self.scch_information_and_distribution_on_18th_frame, 6, m);
        }
    }

    /// Whether any optional field is present.
    fn any_optional(&self) -> (b: bool)
        ensures
            b == self.has_optionals(),
    {
        self.ssi.is_some() || self.address_extension.is_some() || self.subscriber_class.is_some()
            || self.energy_saving_information.is_some()
            || self.scch_information_and_distribution_on_18th_frame.is_some()
    }

    /// The length of the canonical encoding, in bits.
    pub fn len_bits(&self) -> (n: usize)
        ensures
            n == self.encoded_len(),
    {
        let opt: usize = if self.any_optional() {
            2 + opt_width(&self.ssi, 24) + opt_width(&self.address_extension, 24)
                + opt_width(&self.subscriber_class, 16)
                + opt_width(&self.energy_saving_information, 14)
                + opt_width(&self.scch_information_and_distribution_on_18th_frame, 6)
        } else {
            1
        };
        7 + opt
    }

    /// Writes the canonical encoding at the cursor and moves the cursor past it.
    /// Where the buffer has no room for all of it, nothing is written.
    pub fn to_bitbuf(&self, buf: &mut BitBuffer) -> (r: Result<(), EncodeErr>)
        ensures
            final(buf).expands() == old(buf).expands(),
            r is Ok <==> self.encoded_len() <= old(buf).room(),
            match r {
                Ok(_) => final(buf).bits() == overwrite(
                    old(buf).bits(),
                    old(buf).cursor(),
                    self.encode(),
                ) && final(buf).cursor() == old(buf).cursor() + self.encoded_len(),
                Err(e) => e == old(buf).refusal() && final(buf).bits() == old(buf).bits()
                    && final(buf).cursor() == old(buf).cursor(),
            },
    {
        let n = self.len_bits();
        match buf.check_room(n) {
            Err(e) => {
                return Err(e);
            },
            Ok(_) => {},
        }
        let ghost rest = Seq::<bool>::empty();
        let ghost opt = self.encode_optionals(rest);
        let ghost a1 = put(self.location_update_accept_type.spec_into_raw(), 3, opt);
        proof {
            Frame::lemma_start_holds(buf, self.encode());
            self.lemma_encoded_len(rest);
        }
        let g = Ghost(Frame::start(buf, self.encode()));
        let g = emit(buf, PDU_TYPE, 4, g, Ghost(a1));
        let g = emit(buf, self.location_update_accept_type.into_raw(), 3, g, Ghost(opt));
        let g = if self.any_optional() {
            let ghost m = put_flag(false, rest);
            let ghost o5 = put_opt(self.scch_information_and_distribution_on_18th_frame, 6, m);
            let ghost o4 = put_opt(self.energy_saving_information, 14, o5);
            let ghost o3 = put_opt(self.subscriber_class, 16, o4);
            let ghost o2 = put_opt(self.address_extension, 24, o3);
            let ghost o1 = put_opt(self.ssi, 24, o2);
            let g = emit_flag(buf, true, g, Ghost(o1));
            let g = emit_opt(buf, self.ssi, 24, g, Ghost(o2));
            let g = emit_opt(buf, self.address_extension, 24, g, Ghost(o3));
            let g = emit_opt(buf, self.subscriber_class, 16, g, Ghost(o4));
            let g = emit_opt(buf, self.energy_saving_information, 14, g, Ghost(o5));
            let g = emit_opt(
                buf,
                self.scch_information_and_distribution_on_18th_frame,
                6,
                g,
                Ghost(m),
            );
            emit_flag(buf, false, g, Ghost(rest))
        } else {
            emit_flag(buf, false, g, Ghost(rest))
        };
        proof {
            g@.lemma_done(buf);
        }
        Ok(())
    }

    /// Reads the PDU at the cursor and moves the cursor past it. The buffer's
    /// bits stay as they are; after a refusal the cursor is somewhere in the
    /// buffer.
    pub fn from_bitbuf(buf: &mut BitBuffer) -> (r: Result<DLocationUpdateAccept, PduParseErr>)
        ensures
            final(buf).bits() == old(buf).bits(),
            final(buf).expands() == old(buf).expands(),
            match Self::spec_parse(old(buf).remaining()) {
                Ok((pdu, rest)) => r == Ok::<DLocationUpdateAccept, PduParseErr>(pdu)
                    && final(buf).remaining() == rest,
                Err(e) => r == Err::<DLocationUpdateAccept, PduParseErr>(e),
            },
    {
        let pdu_type = get(buf, 4)?;
        if pdu_type != PDU_TYPE {
            return Err(PduParseErr::InvalidEnum { field: PduField::PduType, value: pdu_type });
        }
        let location_update_accept_type = MmLocationUpdateAcceptType::from_raw(get(buf, 3)?);
        let mut pdu = DLocationUpdateAccept {
            location_update_accept_type,
            ssi: None,
            address_extension: None,
            subscriber_class: None,
            energy_saving_information: None,
            scch_information_and_distribution_on_18th_frame: None,
        };
        let o_bit = get_flag(buf)?;
        if !o_bit {
            return Ok(pdu);
        }
        pdu.ssi = get_opt(buf, 24)?;
        pdu.address_extension = get_opt(buf, 24)?;
        pdu.subscriber_class = get_opt(buf, 16)?;
        pdu.energy_saving_information = get_opt(buf, 14)?;
        pdu.scch_information_and_distribution_on_18th_frame = get_opt(buf, 6)?;
        let m_bit = get_flag(buf)?;
        if m_bit || !pdu.any_optional() {
            return Err(PduParseErr::ReservedValue);
        }
        Ok(pdu)
    }
}

} // verus!
