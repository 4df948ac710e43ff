//! U-ATTACH/DETACH GROUP IDENTITY: the mobile asks to be attached to groups or
//! detached from them.

use crate::bitbuffer::BitBuffer;
use crate::bitbuffer::EncodeErr;
use crate::bits::overwrite;
use crate::entities::mm::fields::group_identity_uplink::GroupIdentityUplink;
use crate::pdu_parse_error::PduField;
use crate::pdu_parse_error::PduParseErr;
use crate::typed_pdu_fields::emit;
use crate::typed_pdu_fields::emit_flag;
use crate::typed_pdu_fields::get;
use crate::typed_pdu_fields::get_flag;
use crate::typed_pdu_fields::lemma_put_len;
use crate::typed_pdu_fields::lemma_put_take;
use crate::typed_pdu_fields::lemma_put_take_flag;
use crate::typed_pdu_fields::lemma_take_put;
use crate::typed_pdu_fields::lemma_take_put_flag;
use crate::typed_pdu_fields::lemma_widths;
use crate::typed_pdu_fields::put;
use crate::typed_pdu_fields::put_flag;
use crate::typed_pdu_fields::take;
use crate::typed_pdu_fields::take_flag;
use crate::typed_pdu_fields::Frame;
use crate::typed_pdu_lists::emit_list;
use crate::typed_pdu_lists::get_list;
use crate::typed_pdu_lists::lemma_put_list_len;
use crate::typed_pdu_lists::lemma_put_take_list;
use crate::typed_pdu_lists::lemma_take_put_list;
use crate::typed_pdu_lists::list_encodable;
use crate::typed_pdu_lists::list_len;
use crate::typed_pdu_lists::list_len_bits;
use crate::typed_pdu_lists::list_wf;
use crate::typed_pdu_lists::put_list;
use crate::typed_pdu_lists::take_list;
use crate::typed_pdu_lists::LIST_HEADER_BITS;
use vstd::prelude::*;

verus! {

/// The value of the PDU type field of this PDU.
pub const PDU_TYPE: u64 = 7;

/// The identifier of the group identity uplink element.
pub const GROUP_IDENTITY_UPLINK_ID: u64 = 8;

/// U-ATTACH/DETACH GROUP IDENTITY. Of its variable-length elements the group
/// identity uplink list is carried; the group report response and the
/// proprietary element are not.
#[derive(Clone, Debug, PartialEq, Eq)]
pub struct UAttachDetachGroupIdentity {
    pub group_identity_report: bool,
    pub group_identity_attach_detach_mode: bool,
    pub group_identity_uplink: Option<Vec<GroupIdentityUplink>>,
}

/// A U-ATTACH/DETACH GROUP IDENTITY as a mathematical value.
pub struct UAttachDetachGroupIdentitySpec {
    pub group_identity_report: bool,
    pub group_identity_attach_detach_mode: bool,
    pub group_identity_uplink: Option<Seq<GroupIdentityUplink>>,
}

impl View for UAttachDetachGroupIdentity {
    type V = UAttachDetachGroupIdentitySpec;

    open spec fn view(&self) -> UAttachDetachGroupIdentitySpec {
        UAttachDetachGroupIdentitySpec {
            group_identity_report: self.group_identity_report,
            group_identity_attach_detach_mode: self.group_identity_attach_detach_mode,
            group_identity_uplink: match self.group_identity_uplink {
                Some(list) => Some(list@),
                None => None,
            },
        }
    }
}

impl UAttachDetachGroupIdentitySpec {
    /// The list, where there is one, is short enough for its count and length
    /// fields.
    pub open spec fn encodable(self) -> bool {
        self.group_identity_uplink matches Some(list) ==> list_encodable(list)
    }

    /// The values that have an encoding and are read back from it: an encodable
    /// list of well-formed elements, or no list.
    pub open spec fn wf(self) -> bool {
        self.group_identity_uplink matches Some(list) ==> list_encodable(list) && list_wf(list)
    }

    /// The optional part, from the O-bit on, in front of `rest`.
    pub open spec fn encode_optionals(self, rest: Seq<bool>) -> Seq<bool> {
        match self.group_identity_uplink {
            None => put_flag(false, rest),
            Some(list) => put_flag(
                true,
                put_flag(true, put_list(GROUP_IDENTITY_UPLINK_ID, list, put_flag(false, rest))),
            ),
        }
    }

    /// The canonical encoding in front of `rest`.
    pub open spec fn encode_onto(self, rest: Seq<bool>) -> Seq<bool> {
        put(
            PDU_TYPE,
            4,
            put_flag(
                self.group_identity_report,
                put_flag(self.group_identity_attach_detach_mode, self.encode_optionals(rest)),
            ),
        )
    }

    /// The canonical encoding.
    pub open spec fn encode(self) -> Seq<bool> {
        self.encode_onto(Seq::empty())
    }

    /// The length of the canonical encoding, in bits.
    pub open spec fn encoded_len(self) -> nat {
        6 + match self.group_identity_uplink {
            None => 1,
            Some(list) => 3 + LIST_HEADER_BITS as nat + list_len(list),
        }
    }

    /// The optional part of a PDU at the front of `s`, from the O-bit on.
    pub open spec fn parse_optionals(s: Seq<bool>) -> Result<
        (Option<Seq<GroupIdentityUplink>>, Seq<bool>),
        PduParseErr,
    > {
        match take_flag(s) {
            None => Err(PduParseErr::UnexpectedEof),
            Some((false, rest)) => Ok((None, rest)),
            Some((true, s1)) => match take_flag(s1) {
                None => Err(PduParseErr::UnexpectedEof),
                Some((false, _)) => Err(PduParseErr::ReservedValue),
                Some((true, s2)) => match take_list::<GroupIdentityUplink>(
                    s2,
                    GROUP_IDENTITY_UPLINK_ID,
                ) {
                    Err(e) => Err(e),
                    Ok((list, s3)) => match take_flag(s3) {
                        None => Err(PduParseErr::UnexpectedEof),
                        Some((true, _)) => Err(PduParseErr::ReservedValue),
                        Some((false, rest)) => Ok((Some(list), rest)),
                    },
                },
            },
        }
    }

    /// The PDU at the front of `s` and what follows it, or why there is none.
    ///
    /// Refused are: an input that ends inside the PDU; a PDU type other than
    /// this one's; a set O-bit with no element behind it, which has the shorter
    /// spelling of a clear O-bit; an element other than the group identity uplink
    /// list; a list that is refused; and a second element.
    pub open spec fn spec_parse(s: Seq<bool>) -> Result<
        (UAttachDetachGroupIdentitySpec, Seq<bool>),
        PduParseErr,
    > {
        match take(s, 4) {
            None => Err(PduParseErr::UnexpectedEof),
            Some((pdu_type, s1)) => if pdu_type != PDU_TYPE {
                Err(PduParseErr::InvalidEnum { field: PduField::PduType, value: pdu_type })
            } else {
                match take_flag(s1) {
                    None => Err(PduParseErr::UnexpectedEof),
                    Some((group_identity_report, s2)) => match take_flag(s2) {
                        None => Err(PduParseErr::UnexpectedEof),
                        Some(
                            (group_identity_attach_detach_mode, s3),
                        ) => match Self::parse_optionals(s3) {
                            Err(e) => Err(e),
                            Ok((group_identity_uplink, rest)) => Ok(
                                (
                                    UAttachDetachGroupIdentitySpec {
                                        group_identity_report,
                                        group_identity_attach_detach_mode,
                                        group_identity_uplink,
                                    },
                                    rest,
                                ),
                            ),
                        },
                    },
                }
            },
        }
    }

    /// Serialize-then-parse is the identity: a well-formed PDU, written in front
    /// of anything, is read back as itself, and what followed it is what is left.
    pub proof fn lemma_parse_encode(self, rest: Seq<bool>)
        requires
            self.wf(),
        ensures
            Self::spec_parse(self.encode_onto(rest)) == Ok::<
                (UAttachDetachGroupIdentitySpec, Seq<bool>),
                PduParseErr,
            >((self, rest)),
    {
        lemma_widths();
        let opt = self.encode_optionals(rest);
        let a2 = put_flag(self.group_identity_attach_detach_mode, opt);
        let a1 = put_flag(self.group_identity_report, a2);
        lemma_take_put(PDU_TYPE, 4, a1);
        lemma_take_put_flag(self.group_identity_report, a2);
        lemma_take_put_flag(self.group_identity_attach_detach_mode, opt);
        match self.group_identity_uplink {
            None => {
                lemma_take_put_flag(false, rest);
            },
            Some(list) => {
                let end = put_flag(false, rest);
                let l = put_list(GROUP_IDENTITY_UPLINK_ID, list, end);
                lemma_take_put_flag(true, put_flag(true, l));
                lemma_take_put_flag(true, l);
                lemma_take_put_list(GROUP_IDENTITY_UPLINK_ID, list, end);
                lemma_take_put_flag(false, rest);
            },
        }
    }

    /// Parse-then-serialize is the identity: what parses is well formed, and its
    /// encoding in front of what was left is the input.
    pub proof fn lemma_encode_parse(s: Seq<bool>)
        requires
            Self::spec_parse(s) is Ok,
        ensures
            Self::spec_parse(s).unwrap().0.wf(),
            Self::spec_parse(s).unwrap().0.encode_onto(Self::spec_parse(s).unwrap().1) == s,
    {
        lemma_widths();
        lemma_put_take(s, 4);
        let s1 = take(s, 4).unwrap().1;
        lemma_put_take_flag(s1);
        let s2 = take_flag(s1).unwrap().1;
        lemma_put_take_flag(s2);
        let s3 = take_flag(s2).unwrap().1;
        lemma_put_take_flag(s3);
        let (o_bit, t1) = take_flag(s3).unwrap();
        if o_bit {
            lemma_put_take_flag(t1);
            let t2 = take_flag(t1).unwrap().1;
            lemma_put_take_list::<GroupIdentityUplink>(t2, GROUP_IDENTITY_UPLINK_ID);
            let t3 = take_list::<GroupIdentityUplink>(t2, GROUP_IDENTITY_UPLINK_ID).unwrap().1;
            lemma_put_take_flag(t3);
        }
    }

    /// The encoding has the length that `encoded_len` gives.
    pub proof fn lemma_encoded_len(self, rest: Seq<bool>)
        ensures
            self.encode_onto(rest).len() == self.encoded_len() + rest.len(),
    {
        let opt = self.encode_optionals(rest);
        let a2 = put_flag(self.group_identity_attach_detach_mode, opt);
        let a1 = put_flag(self.group_identity_report, a2);
        lemma_put_len(PDU_TYPE, 4, a1);
        lemma_put_len(
            if self.group_identity_report {
                1
            } else {
                0
            },
            1,
            a2,
        );
        lemma_put_len(
            if self.group_identity_attach_detach_mode {
                1
            } else {
                0
            },
            1,
            opt,
        );
        lemma_put_len(0, 1, rest);
        match self.group_identity_uplink {
            None => {},
            Some(list) => {
                let end = put_flag(false, rest);
                let l = put_list(GROUP_IDENTITY_UPLINK_ID, list, end);
                lemma_put_len(1, 1, put_flag(true, l));
                lemma_put_len(1, 1, l);
                lemma_put_list_len(GROUP_IDENTITY_UPLINK_ID, list, end);
            },
        }
    }
}

impl UAttachDetachGroupIdentity {
    /// Writes the canonical encoding at the cursor and moves the cursor past it.
    /// A list with more elements than its count field can say, or longer than its
    /// length indicator can say, is refused with `LengthOverflow`; where the
    /// buffer has no room for all of the PDU, the buffer refuses. After a refusal
    /// nothing is written.
    pub fn to_bitbuf(&self, buf: &mut BitBuffer) -> (r: Result<(), EncodeErr>)
        ensures
            final(buf).expands() == old(buf).expands(),
            r is Ok <==> self@.encodable() && self@.encoded_len() <= old(buf).room(),
            match r {
                Ok(_) => final(buf).bits() == overwrite(
                    old(buf).bits(),
                    old(buf).cursor(),
                    self@.encode(),
                ) && final(buf).cursor() == old(buf).cursor() + self@.encoded_len(),
                Err(e) => e == (if self@.encodable() {
                    old(buf).refusal()
                } else {
                    EncodeErr::LengthOverflow
                }) && final(buf).bits() == old(buf).bits() 
                    && final(buf).cursor() == old(buf).cursor(),
            },
    {
        let list_bits: usize = match &self.group_identity_uplink {
            None => 0,
            Some(list) => match list_len_bits(list) {
                None => {
                    return Err(EncodeErr::LengthOverflow);
                },
                Some(n) => n,
            },
        };
        let n: usize = if self.group_identity_uplink.is_some() {
            9 + LIST_HEADER_BITS + list_bits
        } else {
            7
        };
        match buf.check_room(n) {
            Err(e) => {
                return Err(e);
            },
            Ok(_) => {},
        }
        let ghost rest = Seq::<bool>::empty();
        let ghost opt = self@.encode_optionals(rest);
        let ghost a2 = put_flag(self.group_identity_attach_detach_mode, opt);
        let ghost a1 = put_flag(self.group_identity_report, a2);
        proof {
            Frame::lemma_start_holds(buf, self@.encode());
            self@.lemma_encoded_len(rest);
        }
        let g = Ghost(Frame::start(buf, self@.encode()));
        let g = emit(buf, PDU_TYPE, 4, g, Ghost(a1));
        let g = emit_flag(buf, self.group_identity_report, g, Ghost(a2));
        let g = emit_flag(buf, self.group_identity_attach_detach_mode, g, Ghost(opt));
        let g = match &self.group_identity_uplink {
            None => emit_flag(buf, false, g, Ghost(rest)),
            Some(list) => {
                let ghost end = put_flag(false, rest);
                let ghost l = put_list(GROUP_IDENTITY_UPLINK_ID, list@, end);
                let g = emit_flag(buf, true, g, Ghost(put_flag(true, l)));
                let g = emit_flag(buf, true, g, Ghost(l));
                let g = emit_list(buf, GROUP_IDENTITY_UPLINK_ID, list, list_bits, g, Ghost(end));
                emit_flag(buf, false, g, Ghost(rest))
            },
        };
        proof {
            g@.lemma_done(buf);
        }
        Ok(())
    }

    /// Reads the PDU at the cursor and moves the cursor past it. The buffer's
    /// bits stay as they are; after a refusal the cursor is somewhere in the
    /// buffer.
    pub fn from_bitbuf(buf: &mut BitBuffer) -> (r: Result<UAttachDetachGroupIdentity, PduParseErr>)
        ensures
            final(buf).bits() == old(buf).bits(),
            final(buf).expands() == old(buf).expands(),
            match UAttachDetachGroupIdentitySpec::spec_parse(old(buf).remaining()) {
                Ok((pdu, rest)) => r is Ok && r.unwrap()@ == pdu && final(buf).remaining() == rest,
                Err(e) => r == Err::<UAttachDetachGroupIdentity, PduParseErr>(e),
            },
    {
        let pdu_type = get(buf, 4)?;
        if pdu_type != PDU_TYPE {
            return Err(PduParseErr::InvalidEnum { field: PduField::PduType, value: pdu_type });
        }
        let group_identity_report = get_flag(buf)?;
        let group_identity_attach_detach_mode = get_flag(buf)?;
        let o_bit = get_flag(buf)?;
        if !o_bit {
            return Ok(
                UAttachDetachGroupIdentity {
                    group_identity_report,
                    group_identity_attach_detach_mode,
                    group_identity_uplink: None,
                },
            );
        }
        let m_bit = get_flag(buf)?;
        if !m_bit {
            return Err(PduParseErr::ReservedValue);
        }
        let list = get_list::<GroupIdentityUplink>(buf, GROUP_IDENTITY_UPLINK_ID)?;
        let m_bit = get_flag(buf)?;
        if m_bit {
            return Err(PduParseErr::ReservedValue);
        }
        Ok(
            UAttachDetachGroupIdentity {
                group_identity_report,
                group_identity_attach_detach_mode,
                group_identity_uplink: Some(list),
            },
        )
    }
}

} // verus!
