//! U-ITSI DETACH: the mobile announces that it leaves the network.

use crate::bitbuffer::BitBuffer;
use crate::bitbuffer::EncodeErr;
use crate::bits::overwrite;
use crate::pdu_parse_error::PduField;
use crate::pdu_parse_error::PduParseErr;
use crate::typed_pdu_fields::emit;
use crate::typed_pdu_fields::emit_flag;
use crate::typed_pdu_fields::emit_opt;
use crate::typed_pdu_fields::get;
use crate::typed_pdu_fields::get_flag;
use crate::typed_pdu_fields::get_opt;
use crate::typed_pdu_fields::lemma_put_len;
use crate::typed_pdu_fields::lemma_put_opt_len;
use crate::typed_pdu_fields::lemma_put_take;
use crate::typed_pdu_fields::lemma_put_take_flag;
use crate::typed_pdu_fields::lemma_put_take_opt;
use crate::typed_pdu_fields::lemma_take_put;
use crate::typed_pdu_fields::lemma_take_put_flag;
use crate::typed_pdu_fields::lemma_take_put_opt;
use crate::typed_pdu_fields::lemma_widths;
use crate::typed_pdu_fields::opt_fits;
use crate::typed_pdu_fields::opt_len;
use crate::typed_pdu_fields::opt_width;
use crate::typed_pdu_fields::put;
use crate::typed_pdu_fields::put_flag;
use crate::typed_pdu_fields::put_opt;
use crate::typed_pdu_fields::take;
use crate::typed_pdu_fields::take_flag;
use crate::typed_pdu_fields::take_opt;
use crate::typed_pdu_fields::Frame;
use vstd::prelude::*;

verus! {

/// The value of the PDU type field of this PDU.
pub const PDU_TYPE: u64 = 1;

/// U-ITSI DETACH. The proprietary element is not carried.
#[derive(Clone, Copy, Debug, PartialEq, Eq, Structural)]
pub struct UItsiDetach {
    /// 24 bits.
    pub address_extension: Option<u64>,
}

impl UItsiDetach {
    /// Whether any optional field is present.
    pub open spec fn has_optionals(self) -> bool {
        self.address_extension is Some
    }

    /// The values that have an encoding: every field fits its width.
    pub open spec fn wf(self) -> bool {
        &&& opt_fits(self.address_extension, 24)
    }

    /// The optional part, from the O-bit on, in front of `rest`.
    pub open spec fn encode_optionals(self, rest: Seq<bool>) -> Seq<bool> {
        if self.has_optionals() {
            put_flag(true, put_opt(self.address_extension, 24, put_flag(false, rest)))
        } else {
            put_flag(false, rest)
        }
    }

    /// The canonical encoding in front of `rest`.
    pub open spec fn encode_onto(self, rest: Seq<bool>) -> Seq<bool> {
        put(PDU_TYPE, 4, self.encode_optionals(rest))
    }

    /// The canonical encoding.
    pub open spec fn encode(self) -> Seq<bool> {
        self.encode_onto(Seq::empty())
    }

    /// The length of the canonical encoding, in bits.
    pub open spec fn encoded_len(self) -> nat {
        4 + if self.has_optionals() {
            2 + opt_len(self.address_extension, 24)
        } else {
            1
        }
    }

    /// The optional part of a PDU at the front of `s`, from the O-bit on.
    pub open spec fn parse_optionals(s: Seq<bool>, head: UItsiDetach) -> Result<
        (UItsiDetach, Seq<bool>),
        PduParseErr,
    > {
        match take_flag(s) {
            None => Err(PduParseErr::UnexpectedEof),
            Some((false, rest)) => Ok((head, rest)),
            Some((true, s1)) => match take_opt(s1, 24) {
                None => Err(PduParseErr::UnexpectedEof),
                Some((address_extension, s2)) => match take_flag(s2) {
                    None => Err(PduParseErr::UnexpectedEof),
                    Some((true, _)) => Err(PduParseErr::ReservedValue),
                    Some((false, rest)) => {
                        let pdu = UItsiDetach { address_extension, ..head };
                        if pdu.has_optionals() {
                            Ok((pdu, rest))
                        } else {
                            Err(PduParseErr::ReservedValue)
                        }
                    },
                },
            },
        }
    }

    /// The PDU at the front of `s` and what follows it, or why there is none.
    ///
    /// Refused are: an input that ends inside the PDU; a PDU type other than
    /// this one's; a set M-bit, which would announce an element that is not
    /// carried; and a set O-bit with no optional field behind it, which has the
    /// shorter spelling of a clear O-bit.
    pub open spec fn spec_parse(s: Seq<bool>) -> Result<(UItsiDetach, Seq<bool>), PduParseErr> {
        match take(s, 4) {
            None => Err(PduParseErr::UnexpectedEof),
            Some((pdu_type, s1)) => if pdu_type != PDU_TYPE {
                Err(PduParseErr::InvalidEnum { field: PduField::PduType, value: pdu_type })
            } else {
                Self::parse_optionals(s1, UItsiDetach { address_extension: None })
            },
        }
    }

    /// Serialize-then-parse is the identity: a well-formed PDU, written in front
    /// of anything, is read back as itself, and what followed it is what is left.
    pub proof fn lemma_parse_encode(self, rest: Seq<bool>)
        requires
            self.wf(),
        ensures
            Self::spec_parse(self.encode_onto(rest)) == Ok::<
                (UItsiDetach, Seq<bool>),
                PduParseErr,
            >((self, rest)),
    {
        lemma_widths();
        let opt = self.encode_optionals(rest);
        lemma_take_put(PDU_TYPE, 4, opt);
        lemma_take_put_flag(false, rest);
        if self.has_optionals() {
            let m = put_flag(false, rest);
            let o1 = put_opt(self.address_extension, 24, m);
            lemma_take_put_flag(true, o1);
            lemma_take_put_opt(self.address_extension, 24, m);
        }
    }

    /// Parse-then-serialize is the identity: what parses is well formed, and its
    /// encoding in front of what was left is the input.
    pub proof fn lemma_encode_parse(s: Seq<bool>)
        requires
            Self::spec_parse(s) is Ok,
        ensures
            Self::spec_parse(s).unwrap().0.wf(),
            Self::spec_parse(s).unwrap().0.encode_onto(Self::spec_parse(s).unwrap().1) == s,
    {
        lemma_widths();
        lemma_put_take(s, 4);
        let s1 = take(s, 4).unwrap().1;
        lemma_put_take_flag(s1);
        let (o_bit, t1) = take_flag(s1).unwrap();
        if o_bit {
            lemma_put_take_opt(t1, 24);
            let t2 = take_opt(t1, 24).unwrap().1;
            lemma_put_take_flag(t2);
        }
    }

    /// The encoding has the length that `encoded_len` gives.
    pub proof fn lemma_encoded_len(self, rest: Seq<bool>)
        ensures
            self.encode_onto(rest).len() == self.encoded_len() + rest.len(),
    {
        let opt = self.encode_optionals(rest);
        lemma_put_len(PDU_TYPE, 4, opt);
        lemma_put_len(0, 1, rest);
        if self.has_optionals() {
            let m = put_flag(false, rest);
            let o1 = put_opt(self.address_extension, 24, m);
            lemma_put_len(1, 1, o1);
            lemma_put_opt_len(self.address_extension, 24, m);
        }
    }

    /// Whether any optional field is present.
    fn any_optional(&self) -> (b: bool)
        ensures
            b == self.has_optionals(),
    {
        self.address_extension.is_some()
    }

    /// The length of the canonical encoding, in bits.
    pub fn len_bits(&self) -> (n: usize)
        ensures
            n == self.encoded_len(),
    {
        let opt: usize = if self.any_optional() {
            2 + opt_width(&self.address_extension, 24)
        } else {
            1
        };
        4 + opt
    }

    /// Writes the canonical encoding at the cursor and moves the cursor past it.
    /// Where the buffer has no room for all of it, nothing is written.
    pub fn to_bitbuf(&self, buf: &mut BitBuffer) -> (r: Result<(), EncodeErr>)
        ensures
            final(buf).expands() == old(buf).expands(),
            r is Ok <==> self.encoded_len() <= old(buf).room(),
            match r {
                Ok(_) => final(buf).bits() == overwrite(
                    old(buf).bits(),
                    old(buf).cursor(),
                    self.encode(),
                ) && final(buf).cursor() == old(buf).cursor() + self.encoded_len(),
                Err(e) => e == old(buf).refusal() && final(buf).bits() == old(buf).bits()
                    && final(buf).cursor() == old(buf).cursor(),
            },
    {
        let n = self.len_bits();
        match buf.check_room(n) {
            Err(e) => {
                return Err(e);
            },
            Ok(_) => {},
        }
        let ghost rest = Seq::<bool>::empty();
        let ghost opt = self.encode_optionals(rest);
        proof {
            Frame::lemma_start_holds(buf, self.encode());
            self.lemma_encoded_len(rest);
        }
        let g = Ghost(Frame::start(buf, self.encode()));
        let g = emit(buf, PDU_TYPE, 4, g, Ghost(opt));
        let g = if self.any_optional() {
            let ghost m = put_flag(false, rest);
            let ghost o1 = put_opt(self.address_extension, 24, m);
            let g = emit_flag(buf, true, g, Ghost(o1));
            let g = emit_opt(buf, self.address_extension, 24, g, Ghost(m));
            emit_flag(buf, false, g, Ghost(rest))
        } else {
            emit_flag(buf, false, g, Ghost(rest))
        };
        proof {
            g@.lemma_done(buf);
        }
        Ok(())
    }

    /// Reads the PDU at the cursor and moves the cursor past it. The buffer's
    /// bits stay as they are; after a refusal the cursor is somewhere in the
    /// buffer.
    pub fn from_bitbuf(buf: &mut BitBuffer) -> (r: Result<UItsiDetach, PduParseErr>)
        ensures
            final(buf).bits() == old(buf).bits(),
            final(buf).expands() == old(buf).expands(),
            match Self::spec_parse(old(buf).remaining()) {
                Ok((pdu, rest)) => r == Ok::<UItsiDetach, PduParseErr>(pdu)
                    && final(buf).remaining() == rest,
                Err(e) => r == Err::<UItsiDetach, PduParseErr>(e),
            },
    {
        let pdu_type = get(buf, 4)?;
        if pdu_type != PDU_TYPE {
            return Err(PduParseErr::InvalidEnum { field: PduField::PduType, value: pdu_type });
        }
        let mut pdu = UItsiDetach { address_extension: None };
        let o_bit = get_flag(buf)?;
        if !o_bit {
            return Ok(pdu);
        }
        pdu.address_extension = get_opt(buf, 24)?;
        let m_bit = get_flag(buf)?;
        if m_bit || !pdu.any_optional() {
            return Err(PduParseErr::ReservedValue);
        }
        Ok(pdu)
    }
}

} // verus!
