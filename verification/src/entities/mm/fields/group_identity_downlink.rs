//! One group that the infrastructure attaches a mobile to or detaches it from.

use crate::bitbuffer::BitBuffer;
use crate::entities::mm::fields::group_identity_attachment::GroupIdentityAttachment;
use crate::typed_pdu_fields::or_zero;
use crate::typed_pdu_fields::value_or_zero;
use crate::pdu_parse_error::PduParseErr;
use crate::typed_pdu_fields::emit;
use crate::typed_pdu_fields::emit_flag;
use crate::typed_pdu_fields::fits;
use crate::typed_pdu_fields::get;
use crate::typed_pdu_fields::get_flag;
use crate::typed_pdu_fields::lemma_put_len;
use crate::typed_pdu_fields::lemma_put_take;
use crate::typed_pdu_fields::lemma_put_take_flag;
use crate::typed_pdu_fields::lemma_take_put;
use crate::typed_pdu_fields::lemma_take_put_flag;
use crate::typed_pdu_fields::lemma_widths;
use crate::typed_pdu_fields::opt_fits;
use crate::typed_pdu_fields::put;
use crate::typed_pdu_fields::put_flag;
use crate::typed_pdu_fields::take;
use crate::typed_pdu_fields::take_flag;
use crate::typed_pdu_fields::Frame;
use crate::typed_pdu_lists::PduElement;
use vstd::prelude::*;

verus! {

/// One element of the group identity downlink list. It grants an attachment or
/// tells of a detachment with its reason. The group is given by its GSSI, by
/// GSSI and address extension, by a visitor GSSI, or by all three.
#[derive(Clone, Copy, Debug, PartialEq, Eq, Structural)]
pub struct GroupIdentityDownlink {
    /// Present in an attachment.
    pub group_identity_attachment: Option<GroupIdentityAttachment>,
    /// 2 bits; present in a detachment.
    pub group_identity_detachment_uplink: Option<u64>,
    /// 24 bits.
    pub gssi: Option<u64>,
    /// 24 bits.
    pub address_extension: Option<u64>,
    /// 24 bits.
    pub vgssi: Option<u64>,
}

impl GroupIdentityDownlink {
    /// The group identity address type: which address fields follow.
    pub open spec fn address_type(self) -> u64 {
        if self.vgssi is Some {
            if self.gssi is Some {
                3
            } else {
                2
            }
        } else if self.address_extension is Some {
            1
        } else {
            0
        }
    }

    /// The address fields in front of `rest`.
    pub open spec fn encode_address(self, rest: Seq<bool>) -> Seq<bool> {
        if self.vgssi is Some {
            if self.gssi is Some {
                put(
                    or_zero(self.gssi),
                    24,
                    put(or_zero(self.address_extension), 24, put(or_zero(self.vgssi), 24, rest)),
                )
            } else {
                put(or_zero(self.vgssi), 24, rest)
            }
        } else if self.address_extension is Some {
            put(or_zero(self.gssi), 24, put(or_zero(self.address_extension), 24, rest))
        } else {
            put(or_zero(self.gssi), 24, rest)
        }
    }

    /// The number of bits that the address fields take.
    pub open spec fn address_len(self) -> nat {
        if self.vgssi is Some {
            if self.gssi is Some {
                72
            } else {
                24
            }
        } else if self.address_extension is Some {
            48
        } else {
            24
        }
    }

    /// What stands before the address: the attachment or the detachment, in
    /// front of `rest`.
    pub open spec fn encode_what(self, rest: Seq<bool>) -> Seq<bool> {
        match self.group_identity_attachment {
            Some(a) => put_flag(
                false,
                put(a.group_identity_attachment_lifetime, 2, put(a.class_of_usage, 3, rest)),
            ),
            None => put_flag(
                true,
                put(or_zero(self.group_identity_detachment_uplink), 2, rest),
            ),
        }
    }

    /// The attachment or detachment at the front of `s`.
    pub open spec fn parse_what(s: Seq<bool>) -> Result<
        (GroupIdentityDownlink, Seq<bool>),
        PduParseErr,
    > {
        let blank = GroupIdentityDownlink {
            group_identity_attachment: None,
            group_identity_detachment_uplink: None,
            gssi: None,
            address_extension: None,
            vgssi: None,
        };
        match take_flag(s) {
            None => Err(PduParseErr::UnexpectedEof),
            Some((true, s1)) => match take(s1, 2) {
                None => Err(PduParseErr::UnexpectedEof),
                Some((reason, rest)) => Ok(
                    (
                        GroupIdentityDownlink {
                            group_identity_detachment_uplink: Some(reason),
                            ..blank
                        },
                        rest,
                    ),
                ),
            },
            Some((false, s1)) => match take(s1, 2) {
                None => Err(PduParseErr::UnexpectedEof),
                Some((lifetime, s2)) => match take(s2, 3) {
                    None => Err(PduParseErr::UnexpectedEof),
                    Some((class_of_usage, rest)) => Ok(
                        (
                            GroupIdentityDownlink {
                                group_identity_attachment: Some(
                                    GroupIdentityAttachment {
                                        group_identity_attachment_lifetime: lifetime,
                                        class_of_usage,
                                    },
                                ),
                                ..blank
                            },
                            rest,
                        ),
                    ),
                },
            },
        }
    }

    /// The address fields at the front of `s`.
    pub open spec fn parse_address(s: Seq<bool>, address_type: u64, head: GroupIdentityDownlink)
        -> Result<(GroupIdentityDownlink, Seq<bool>), PduParseErr> {
        if address_type == 2 {
            match take(s, 24) {
                None => Err(PduParseErr::UnexpectedEof),
                Some((vgssi, rest)) => Ok(
                    (GroupIdentityDownlink { vgssi: Some(vgssi), ..head }, rest),
                ),
            }
        } else {
            match take(s, 24) {
                None => Err(PduParseErr::UnexpectedEof),
                Some((gssi, s1)) => if address_type == 0 {
                    Ok((GroupIdentityDownlink { gssi: Some(gssi), ..head }, s1))
                } else {
                    match take(s1, 24) {
                        None => Err(PduParseErr::UnexpectedEof),
                        Some((address_extension, s2)) => if address_type == 1 {
                            Ok(
                                (
                                    GroupIdentityDownlink {
                                        gssi: Some(gssi),
                                        address_extension: Some(address_extension),
                                        ..head
                                    },
                                    s2,
                                ),
                            )
                        } else {
                            match take(s2, 24) {
                                None => Err(PduParseErr::UnexpectedEof),
                                Some((vgssi, rest)) => Ok(
                                    (
                                        GroupIdentityDownlink {
                                            gssi: Some(gssi),
                                            address_extension: Some(address_extension),
                                            vgssi: Some(vgssi),
                                            ..head
                                        },
                                        rest,
                                    ),
                                ),
                            }
                        },
                    }
                },
            }
        }
    }

    fn address_kind(&self) -> (t: u64)
        ensures
            t == self.address_type(),
    {
        if self.vgssi.is_some() {
            if self.gssi.is_some() {
                3
            } else {
                2
            }
        } else if self.address_extension.is_some() {
            1
        } else {
            0
        }
    }

    proof fn lemma_address_len(self, rest: Seq<bool>)
        ensures
            self.encode_address(rest).len() == self.address_len() + rest.len(),
    {
        let v = put(or_zero(self.vgssi), 24, rest);
        let a = put(or_zero(self.address_extension), 24, rest);
        let av = put(or_zero(self.address_extension), 24, v);
        lemma_put_len(or_zero(self.vgssi), 24, rest);
        lemma_put_len(or_zero(self.address_extension), 24, rest);
        lemma_put_len(or_zero(self.address_extension), 24, v);
        lemma_put_len(or_zero(self.gssi), 24, rest);
        lemma_put_len(or_zero(self.gssi), 24, a);
        lemma_put_len(or_zero(self.gssi), 24, av);
    }
}

impl PduElement for GroupIdentityDownlink {
    /// Exactly one of attachment and detachment reason is there, the address
    /// fields are one of the four combinations, and every field fits its width.
    open spec fn wf(self) -> bool {
        &&& self.group_identity_attachment is Some
            <==> self.group_identity_detachment_uplink is None
        &&& self.group_identity_attachment matches Some(a) ==> fits(
            a.group_identity_attachment_lifetime,
            2,
        ) && fits(a.class_of_usage, 3)
        &&& opt_fits(self.group_identity_detachment_uplink, 2)
        &&& opt_fits(self.gssi, 24)
        &&& opt_fits(self.address_extension, 24)
        &&& opt_fits(self.vgssi, 24)
        &&& self.address_extension is Some ==> self.gssi is Some
        &&& self.gssi is None ==> self.vgssi is Some
        &&& self.gssi is Some && self.vgssi is Some ==> self.address_extension is Some
    }

    open spec fn encode_onto(self, rest: Seq<bool>) -> Seq<bool> {
        self.encode_what(put(self.address_type(), 2, self.encode_address(rest)))
    }

    open spec fn encoded_len(self) -> nat {
        (if self.group_identity_attachment is Some {
            6nat
        } else {
            3nat
        }) + 2 + self.address_len()
    }

    /// Refused is an input that ends inside the element.
    open spec fn spec_parse(s: Seq<bool>) -> Result<(Self, Seq<bool>), PduParseErr> {
        match GroupIdentityDownlink::parse_what(s) {
            Err(e) => Err(e),
            Ok((head, s1)) => match take(s1, 2) {
                None => Err(PduParseErr::UnexpectedEof),
                Some((address_type, s2)) => GroupIdentityDownlink::parse_address(
                    s2,
                    address_type,
                    head,
                ),
            },
        }
    }

    proof fn lemma_parse_encode(self, rest: Seq<bool>) {
        lemma_widths();
        let body = self.encode_address(rest);
        let address = put(self.address_type(), 2, body);
        match self.group_identity_attachment {
            Some(a) => {
                let c = put(a.class_of_usage, 3, address);
                lemma_take_put_flag(false, put(a.group_identity_attachment_lifetime, 2, c));
                lemma_take_put(a.group_identity_attachment_lifetime, 2, c);
                lemma_take_put(a.class_of_usage, 3, address);
            },
            None => {
                let d = or_zero(self.group_identity_detachment_uplink);
                lemma_take_put_flag(true, put(d, 2, address));
                lemma_take_put(d, 2, address);
            },
        }
        lemma_take_put(self.address_type(), 2, body);
        let v = put(or_zero(self.vgssi), 24, rest);
        lemma_take_put(or_zero(self.vgssi), 24, rest);
        lemma_take_put(or_zero(self.address_extension), 24, rest);
        lemma_take_put(or_zero(self.address_extension), 24, v);
        lemma_take_put(or_zero(self.gssi), 24, rest);
        lemma_take_put(or_zero(self.gssi), 24, put(or_zero(self.address_extension), 24, rest));
        lemma_take_put(or_zero(self.gssi), 24, put(or_zero(self.address_extension), 24, v));
    }

    proof fn lemma_encode_parse(s: Seq<bool>) {
        lemma_widths();
        lemma_put_take_flag(s);
        let (detach, s1) = take_flag(s).unwrap();
        lemma_put_take(s1, 2);
        let s2 = take(s1, 2).unwrap().1;
        let s3 = if detach {
            s2
        } else {
            lemma_put_take(s2, 3);
            take(s2, 3).unwrap().1
        };
        lemma_put_take(s3, 2);
        let (address_type, s4) = take(s3, 2).unwrap();
        lemma_put_take(s4, 24);
        if address_type == 1 || address_type == 3 {
            let s5 = take(s4, 24).unwrap().1;
            lemma_put_take(s5, 24);
            if address_type == 3 {
                lemma_put_take(take(s5, 24).unwrap().1, 24);
            }
        }
    }

    proof fn lemma_encoded_len(self, rest: Seq<bool>) {
        let body = self.encode_address(rest);
        let address = put(self.address_type(), 2, body);
        self.lemma_address_len(rest);
        lemma_put_len(self.address_type(), 2, body);
        match self.group_identity_attachment {
            Some(a) => {
                let c = put(a.class_of_usage, 3, address);
                lemma_put_len(0, 1, put(a.group_identity_attachment_lifetime, 2, c));
                lemma_put_len(a.group_identity_attachment_lifetime, 2, c);
                lemma_put_len(a.class_of_usage, 3, address);
            },
            None => {
                let d = or_zero(self.group_identity_detachment_uplink);
                lemma_put_len(1, 1, put(d, 2, address));
                lemma_put_len(d, 2, address);
            },
        }
    }

    fn len_bits(&self) -> (n: usize) {
        let what: usize = if self.group_identity_attachment.is_some() {
            6
        } else {
            3
        };
        let address: usize = if self.vgssi.is_some() {
            if self.gssi.is_some() {
                72
            } else {
                24
            }
        } else if self.address_extension.is_some() {
            48
        } else {
            24
        };
        what + 2 + address
    }

    fn write(&self, buf: &mut BitBuffer, fr: Ghost<Frame>, rest: Ghost<Seq<bool>>) -> (g: Ghost<
        Frame,
    >) {
        let ghost body = self.encode_address(rest@);
        let ghost address = put(self.address_type(), 2, body);
        proof {
            self.lemma_address_len(rest@);
        }
        let g = match self.group_identity_attachment {
            Some(a) => {
                let ghost c = put(a.class_of_usage, 3, address);
                let g = emit_flag(
                    buf,
                    false,
                    fr,
                    Ghost(put(a.group_identity_attachment_lifetime, 2, c)),
                );
                let g = emit(buf, a.group_identity_attachment_lifetime, 2, g, Ghost(c));
                emit(buf, a.class_of_usage, 3, g, Ghost(address))
            },
            None => {
                let d = value_or_zero(&self.group_identity_detachment_uplink);
                let g = emit_flag(buf, true, fr, Ghost(put(d, 2, address)));
                emit(buf, d, 2, g, Ghost(address))
            },
        };
        let g = emit(buf, self.address_kind(), 2, g, Ghost(body));
        let gssi = value_or_zero(&self.gssi);
        let ae = value_or_zero(&self.address_extension);
        let vgssi = value_or_zero(&self.vgssi);
        if self.vgssi.is_some() {
            if self.gssi.is_some() {
                let ghost v = put(vgssi, 24, rest@);
                let g = emit(buf, gssi, 24, g, Ghost(put(ae, 24, v)));
                let g = emit(buf, ae, 24, g, Ghost(v));
                emit(buf, vgssi, 24, g, rest)
            } else {
                emit(buf, vgssi, 24, g, rest)
            }
        } else if self.address_extension.is_some() {
            let g = emit(buf, gssi, 24, g, Ghost(put(ae, 24, rest@)));
            emit(buf, ae, 24, g, rest)
        } else {
            emit(buf, gssi, 24, g, rest)
        }
    }

    fn read(buf: &mut BitBuffer) -> (r: Result<Self, PduParseErr>) {
        let detach = get_flag(buf)?;
        let mut elem = GroupIdentityDownlink {
            group_identity_attachment: None,
            group_identity_detachment_uplink: None,
            gssi: None,
            address_extension: None,
            vgssi: None,
        };
        if detach {
            elem.group_identity_detachment_uplink = Some(get(buf, 2)?);
        } else {
            let group_identity_attachment_lifetime = get(buf, 2)?;
            let class_of_usage = get(buf, 3)?;
            elem.group_identity_attachment = Some(
                GroupIdentityAttachment { group_identity_attachment_lifetime, class_of_usage },
            );
        }
        let address_type = get(buf, 2)?;
        if address_type == 2 {
            elem.vgssi = Some(get(buf, 24)?);
        } else {
            elem.gssi = Some(get(buf, 24)?);
            if address_type != 0 {
                elem.address_extension = Some(get(buf, 24)?);
                if address_type != 1 {
                    elem.vgssi = Some(get(buf, 24)?);
                }
            }
        }
        Ok(elem)
    }
}

} // verus!
