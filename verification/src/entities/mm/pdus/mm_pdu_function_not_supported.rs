//! MM PDU/FUNCTION NOT SUPPORTED: the receiver of an MM PDU says that it does
//! not handle PDUs of that type.

use crate::bitbuffer::BitBuffer;
use crate::bitbuffer::EncodeErr;
use crate::bits::overwrite;
use crate::pdu_parse_error::PduField;
use crate::pdu_parse_error::PduParseErr;
use crate::typed_pdu_fields::emit;
use crate::typed_pdu_fields::emit_flag;
use crate::typed_pdu_fields::fits;
use crate::typed_pdu_fields::get;
use crate::typed_pdu_fields::get_flag;
use crate::typed_pdu_fields::lemma_put_len;
use crate::typed_pdu_fields::lemma_put_take;
use crate::typed_pdu_fields::lemma_put_take_flag;
use crate::typed_pdu_fields::lemma_take_put;
use crate::typed_pdu_fields::lemma_take_put_flag;
use crate::typed_pdu_fields::lemma_widths;
use crate::typed_pdu_fields::put;
use crate::typed_pdu_fields::put_flag;
use crate::typed_pdu_fields::take;
use crate::typed_pdu_fields::take_flag;
use crate::typed_pdu_fields::Frame;
use vstd::prelude::*;

verus! {

/// The value of the PDU type field of this PDU.
pub const PDU_TYPE: u64 = 15;

/// MM PDU/FUNCTION NOT SUPPORTED, in either direction. The optional copy of the
/// refused PDU's sub-type is not carried.
#[derive(Clone, Copy, Debug, PartialEq, Eq, Structural)]
pub struct MmPduFunctionNotSupported {
    /// 4 bits: the PDU type field of the PDU that is refused.
    pub not_supported_pdu_type: u64,
}

impl MmPduFunctionNotSupported {
    /// The values that have an encoding: every field fits its width.
    pub open spec fn wf(self) -> bool {
        &&& fits(self.not_supported_pdu_type, 4)
    }

    /// The optional part, from the O-bit on, in front of `rest`.
    pub open spec fn encode_optionals(self, rest: Seq<bool>) -> Seq<bool> {
        put_flag(false, rest)
    }

    /// The canonical encoding in front of `rest`.
    pub open spec fn encode_onto(self, rest: Seq<bool>) -> Seq<bool> {
        put(PDU_TYPE, 4, put(self.not_supported_pdu_type, 4, self.encode_optionals(rest)))
    }

    /// The canonical encoding.
    pub open spec fn encode(self) -> Seq<bool> {
        self.encode_onto(Seq::empty())
    }

    /// The length of the canonical encoding, in bits.
    pub open spec fn encoded_len(self) -> nat {
        9
    }

    /// The optional part of a PDU at the front of `s`, from the O-bit on.
    pub open spec fn parse_optionals(s: Seq<bool>, head: MmPduFunctionNotSupported) -> Result<
        (MmPduFunctionNotSupported, Seq<bool>),
        PduParseErr,
    > {
        match take_flag(s) {
            None => Err(PduParseErr::UnexpectedEof),
            Some((false, rest)) => Ok((head, rest)),
            Some((true, _)) => Err(PduParseErr::ReservedValue),
        }
    }

    /// The PDU at the front of `s` and what follows it, or why there is none.
    ///
    /// Refused are: an input that ends inside the PDU; a PDU type other than
    /// this one's; and a set O-bit, which would announce optional parts that
    /// are not carried.
    pub open spec fn spec_parse(s: Seq<bool>) -> Result<
        (MmPduFunctionNotSupported, Seq<bool>),
        PduParseErr,
    > {
        match take(s, 4) {
            None => Err(PduParseErr::UnexpectedEof),
            Some((pdu_type, s1)) => if pdu_type != PDU_TYPE {
                Err(PduParseErr::InvalidEnum { field: PduField::PduType, value: pdu_type })
            } else {
                match take(s1, 4) {
                    None => Err(PduParseErr::UnexpectedEof),
                    Some((not_supported_pdu_type, s2)) => Self::parse_optionals(
                        s2,
                        MmPduFunctionNotSupported { not_supported_pdu_type },
                    ),
                }
            },
        }
    }

    /// Serialize-then-parse is the identity: a well-formed PDU, written in front
    /// of anything, is read back as itself, and what followed it is what is left.
    pub proof fn lemma_parse_encode(self, rest: Seq<bool>)
        requires
            self.wf(),
        ensures
            Self::spec_parse(self.encode_onto(rest)) == Ok::<
                (MmPduFunctionNotSupported, Seq<bool>),
                PduParseErr,
            >((self, rest)),
    {
        lemma_widths();
        let opt = self.encode_optionals(rest);
        let a1 = put(self.not_supported_pdu_type, 4, opt);
        lemma_take_put(PDU_TYPE, 4, a1);
        lemma_take_put(self.not_supported_pdu_type, 4, opt);
        lemma_take_put_flag(false, rest);
    }

    /// Parse-then-serialize is the identity: what parses is well formed, and its
    /// encoding in front of what was left is the input.
    pub proof fn lemma_encode_parse(s: Seq<bool>)
        requires
            Self::spec_parse(s) is Ok,
        ensures
            Self::spec_parse(s).unwrap().0.wf(),
            Self::spec_parse(s).unwrap().0.encode_onto(Self::spec_parse(s).unwrap().1) == s,
    {
        lemma_widths();
        lemma_put_take(s, 4);
        let s1 = take(s, 4).unwrap().1;
        lemma_put_take(s1, 4);
        let s2 = take(s1, 4).unwrap().1;
        lemma_put_take_flag(s2);
    }

    /// The encoding has the length that `encoded_len` gives.
    pub proof fn lemma_encoded_len(self, rest: Seq<bool>)
        ensures
            self.encode_onto(rest).len() == self.encoded_len() + rest.len(),
    {
        let opt = self.encode_optionals(rest);
        let a1 = put(self.not_supported_pdu_type, 4, opt);
        lemma_put_len(PDU_TYPE, 4, a1);
        lemma_put_len(self.not_supported_pdu_type, 4, opt);
        lemma_put_len(0, 1, rest);
    }

    /// The length of the canonical encoding, in bits.
    pub fn len_bits(&self) -> (n: usize)
        ensures
            n == self.encoded_len(),
    {
        9
    }

    /// Writes the canonical encoding at the cursor and moves the cursor past it.
    /// Where the buffer has no room for all of it, nothing is written.
    pub fn to_bitbuf(&self, buf: &mut BitBuffer) -> (r: Result<(), EncodeErr>)
        ensures
            final(buf).expands() == old(buf).expands(),
            r is Ok <==> self.encoded_len() <= old(buf).room(),
            match r {
                Ok(_) => final(buf).bits() == overwrite(
                    old(buf).bits(),
                    old(buf).cursor(),
                    self.encode(),
                ) && final(buf).cursor() == old(buf).cursor() + self.encoded_len(),
                Err(e) => e == old(buf).refusal() && final(buf).bits() == old(buf).bits()
                    && final(buf).cursor() == old(buf).cursor(),
            },
    {
        let n = self.len_bits();
        match buf.check_room(n) {
            Err(e) => {
                return Err(e);
            },
            Ok(_) => {},
        }
        let ghost rest = Seq::<bool>::empty();
        let ghost opt = self.encode_optionals(rest);
        let ghost a1 = put(self.not_supported_pdu_type, 4, opt);
        proof {
            Frame::lemma_start_holds(buf, self.encode());
            self.lemma_encoded_len(rest);
        }
        let g = Ghost(Frame::start(buf, self.encode()));
        let g = emit(buf, PDU_TYPE, 4, g, Ghost(a1));
        let g = emit(buf, self.not_supported_pdu_type, 4, g, Ghost(opt));
        let g = emit_flag(buf, false, g, Ghost(rest));
        proof {
            g@.lemma_done(buf);
        }
        Ok(())
    }

    /// Reads the PDU at the cursor and moves the cursor past it. The buffer's
    /// bits stay as they are; after a refusal the cursor is somewhere in the
    /// buffer.
    pub fn from_bitbuf(buf: &mut BitBuffer) -> (r: Result<MmPduFunctionNotSupported, PduParseErr>)
        ensures
            final(buf).bits() == old(buf).bits(),
            final(buf).expands() == old(buf).expands(),
            match Self::spec_parse(old(buf).remaining()) {
                Ok((pdu, rest)) => r == Ok::<MmPduFunctionNotSupported, PduParseErr>(pdu)
                    && final(buf).remaining() == rest,
                Err(e) => r == Err::<MmPduFunctionNotSupported, PduParseErr>(e),
            },
    {
        let pdu_type = get(buf, 4)?;
        if pdu_type != PDU_TYPE {
            return Err(PduParseErr::InvalidEnum { field: PduField::PduType, value: pdu_type });
        }
        let not_supported_pdu_type = get(buf, 4)?;
        let pdu = MmPduFunctionNotSupported { not_supported_pdu_type };
        let o_bit = get_flag(buf)?;
        if o_bit {
            return Err(PduParseErr::ReservedValue);
        }
        Ok(pdu)
    }
}

} // verus!
