//! One group that a mobile asks to attach to or detach from.

use crate::bitbuffer::BitBuffer;
use crate::pdu_parse_error::PduField;
use crate::pdu_parse_error::PduParseErr;
use crate::typed_pdu_fields::emit;
use crate::typed_pdu_fields::emit_flag;
use crate::typed_pdu_fields::fits;
use crate::typed_pdu_fields::get;
use crate::typed_pdu_fields::get_flag;
use crate::typed_pdu_fields::lemma_put_len;
use crate::typed_pdu_fields::lemma_put_take;
use crate::typed_pdu_fields::lemma_put_take_flag;
use crate::typed_pdu_fields::lemma_take_put;
use crate::typed_pdu_fields::lemma_take_put_flag;
use crate::typed_pdu_fields::lemma_widths;
use crate::typed_pdu_fields::opt_fits;
use crate::typed_pdu_fields::or_zero;
use crate::typed_pdu_fields::put;
use crate::typed_pdu_fields::put_flag;
use crate::typed_pdu_fields::take;
use crate::typed_pdu_fields::take_flag;
use crate::typed_pdu_fields::value_or_zero;
use crate::typed_pdu_fields::Frame;
use crate::typed_pdu_lists::PduElement;
use vstd::prelude::*;

verus! {

/// One element of the group identity uplink list. It asks either for an
/// attachment, and then names the class of usage, or for a detachment, and then
/// names the reason. The group is given by its GSSI, by GSSI and address
/// extension, or by a visitor GSSI.
#[derive(Clone, Copy, Debug, PartialEq, Eq, Structural)]
pub struct GroupIdentityUplink {
    /// 3 bits; present in a request to attach.
    pub class_of_usage: Option<u64>,
    /// 2 bits; present in a request to detach.
    pub group_identity_detachment_uplink: Option<u64>,
    /// 24 bits.
    pub gssi: Option<u64>,
    /// 24 bits.
    pub address_extension: Option<u64>,
    /// 24 bits.
    pub vgssi: Option<u64>,
}

impl GroupIdentityUplink {
    /// The group identity address type: which address fields follow.
    pub open spec fn address_type(self) -> u64 {
        if self.vgssi is Some {
            2
        } else if self.address_extension is Some {
            1
        } else {
            0
        }
    }

    /// The address fields in front of `rest`.
    pub open spec fn encode_address(self, rest: Seq<bool>) -> Seq<bool> {
        if self.vgssi is Some {
            put(or_zero(self.vgssi), 24, rest)
        } else if self.address_extension is Some {
            put(or_zero(self.gssi), 24, put(or_zero(self.address_extension), 24, rest))
        } else {
            put(or_zero(self.gssi), 24, rest)
        }
    }

    /// The address fields at the front of `s`, for an address type below 3.
    pub open spec fn parse_address(s: Seq<bool>, address_type: u64, head: GroupIdentityUplink)
        -> Result<(GroupIdentityUplink, Seq<bool>), PduParseErr> {
        if address_type == 2 {
            match take(s, 24) {
                None => Err(PduParseErr::UnexpectedEof),
                Some((vgssi, rest)) => Ok(
                    (GroupIdentityUplink { vgssi: Some(vgssi), ..head }, rest),
                ),
            }
        } else {
            match take(s, 24) {
                None => Err(PduParseErr::UnexpectedEof),
                Some((gssi, s1)) => if address_type == 1 {
                    match take(s1, 24) {
                        None => Err(PduParseErr::UnexpectedEof),
                        Some((address_extension, rest)) => Ok(
                            (
                                GroupIdentityUplink {
                                    gssi: Some(gssi),
                                    address_extension: Some(address_extension),
                                    ..head
                                },
                                rest,
                            ),
                        ),
                    }
                } else {
                    Ok((GroupIdentityUplink { gssi: Some(gssi), ..head }, s1))
                },
            }
        }
    }

    fn address_kind(&self) -> (t: u64)
        ensures
            t == self.address_type(),
    {
        if self.vgssi.is_some() {
            2
        } else if self.address_extension.is_some() {
            1
        } else {
            0
        }
    }
}

impl PduElement for GroupIdentityUplink {
    /// Exactly one of class of usage and detachment reason is there, the address
    /// fields are one of the three combinations, and every field fits its width.
    open spec fn wf(self) -> bool {
        &&& self.class_of_usage is Some <==> self.group_identity_detachment_uplink is None
        &&& opt_fits(self.class_of_usage, 3)
        &&& opt_fits(self.group_identity_detachment_uplink, 2)
        &&& opt_fits(self.gssi, 24)
        &&& opt_fits(self.address_extension, 24)
        &&& opt_fits(self.vgssi, 24)
        &&& if self.vgssi is Some {
            self.gssi is None && self.address_extension is None
        } else {
            self.gssi is Some
        }
    }

    open spec fn encode_onto(self, rest: Seq<bool>) -> Seq<bool> {
        let address = put(self.address_type(), 2, self.encode_address(rest));
        match self.class_of_usage {
            Some(class_of_usage) => put_flag(false, put(class_of_usage, 3, address)),
            None => put_flag(true, put(or_zero(self.group_identity_detachment_uplink), 2, address)),
        }
    }

    open spec fn encoded_len(self) -> nat {
        (if self.class_of_usage is Some {
            4nat
        } else {
            3nat
        }) + 2 + if self.vgssi is None && self.address_extension is Some {
            48nat
        } else {
            24nat
        }
    }

    /// Refused are: an input that ends inside the element, and the address type 3,
    /// which the uplink does not use.
    open spec fn spec_parse(s: Seq<bool>) -> Result<(Self, Seq<bool>), PduParseErr> {
        match take_flag(s) {
            None => Err(PduParseErr::UnexpectedEof),
            Some((detach, s1)) => match take(
                s1,
                if detach {
                    2
                } else {
                    3
                },
            ) {
                None => Err(PduParseErr::UnexpectedEof),
                Some((what, s2)) => match take(s2, 2) {
                    None => Err(PduParseErr::UnexpectedEof),
                    Some((address_type, s3)) => if address_type >= 3 {
                        Err(
                            PduParseErr::InvalidEnum {
                                field: PduField::GroupIdentityAddressType,
                                value: address_type,
                            },
                        )
                    } else {
                        GroupIdentityUplink::parse_address(
                            s3,
                            address_type,
                            GroupIdentityUplink {
                                class_of_usage: if detach {
                                    None
                                } else {
                                    Some(what)
                                },
                                group_identity_detachment_uplink: if detach {
                                    Some(what)
                                } else {
                                    None
                                },
                                gssi: None,
                                address_extension: None,
                                vgssi: None,
                            },
                        )
                    },
                },
            },
        }
    }

    proof fn lemma_parse_encode(self, rest: Seq<bool>) {
        lemma_widths();
        let body = self.encode_address(rest);
        let address = put(self.address_type(), 2, body);
        match self.class_of_usage {
            Some(class_of_usage) => {
                lemma_take_put_flag(false, put(class_of_usage, 3, address));
                lemma_take_put(class_of_usage, 3, address);
            },
            None => {
                let d = or_zero(self.group_identity_detachment_uplink);
                lemma_take_put_flag(true, put(d, 2, address));
                lemma_take_put(d, 2, address);
            },
        }
        lemma_take_put(self.address_type(), 2, body);
        if self.vgssi is Some {
            lemma_take_put(or_zero(self.vgssi), 24, rest);
        } else if self.address_extension is Some {
            lemma_take_put(or_zero(self.gssi), 24, put(or_zero(self.address_extension), 24, rest));
            lemma_take_put(or_zero(self.address_extension), 24, rest);
        } else {
            lemma_take_put(or_zero(self.gssi), 24, rest);
        }
    }

    proof fn lemma_encode_parse(s: Seq<bool>) {
        lemma_widths();
        lemma_put_take_flag(s);
        let (detach, s1) = take_flag(s).unwrap();
        let n: nat = if detach {
            2
        } else {
            3
        };
        lemma_put_take(s1, n);
        let s2 = take(s1, n).unwrap().1;
        lemma_put_take(s2, 2);
        let (address_type, s3) = take(s2, 2).unwrap();
        lemma_put_take(s3, 24);
        if address_type == 1 {
            lemma_put_take(take(s3, 24).unwrap().1, 24);
        }
    }

    proof fn lemma_encoded_len(self, rest: Seq<bool>) {
        let body = self.encode_address(rest);
        let address = put(self.address_type(), 2, body);
        match self.class_of_usage {
            Some(class_of_usage) => {
                lemma_put_len(0, 1, put(class_of_usage, 3, address));
                lemma_put_len(class_of_usage, 3, address);
            },
            None => {
                let d = or_zero(self.group_identity_detachment_uplink);
                lemma_put_len(1, 1, put(d, 2, address));
                lemma_put_len(d, 2, address);
            },
        }
        lemma_put_len(self.address_type(), 2, body);
        if self.vgssi is Some {
            lemma_put_len(or_zero(self.vgssi), 24, rest);
        } else if self.address_extension is Some {
            lemma_put_len(or_zero(self.gssi), 24, put(or_zero(self.address_extension), 24, rest));
            lemma_put_len(or_zero(self.address_extension), 24, rest);
        } else {
            lemma_put_len(or_zero(self.gssi), 24, rest);
        }
    }

    fn len_bits(&self) -> (n: usize) {
        let what: usize = if self.class_of_usage.is_some() {
            4
        } else {
            3
        };
        let address: usize = if self.vgssi.is_none() && self.address_extension.is_some() {
            48
        } else {
            24
        };
        what + 2 + address
    }

    fn write(&self, buf: &mut BitBuffer, fr: Ghost<Frame>, rest: Ghost<Seq<bool>>) -> (g: Ghost<
        Frame,
    >) {
        let ghost body = self.encode_address(rest@);
        let ghost address = put(self.address_type(), 2, body);
        let g = match self.class_of_usage {
            Some(class_of_usage) => {
                let g = emit_flag(buf, false, fr, Ghost(put(class_of_usage, 3, address)));
                emit(buf, class_of_usage, 3, g, Ghost(address))
            },
            None => {
                let d = value_or_zero(&self.group_identity_detachment_uplink);
                let g = emit_flag(buf, true, fr, Ghost(put(d, 2, address)));
                emit(buf, d, 2, g, Ghost(address))
            },
        };
        let g = emit(buf, self.address_kind(), 2, g, Ghost(body));
        if self.vgssi.is_some() {
            emit(buf, value_or_zero(&self.vgssi), 24, g, rest)
        } else if self.address_extension.is_some() {
            let ae = value_or_zero(&self.address_extension);
            let g = emit(buf, value_or_zero(&self.gssi), 24, g, Ghost(put(ae, 24, rest@)));
            emit(buf, ae, 24, g, rest)
        } else {
            emit(buf, value_or_zero(&self.gssi), 24, g, rest)
        }
    }

    fn read(buf: &mut BitBuffer) -> (r: Result<Self, PduParseErr>) {
        let detach = get_flag(buf)?;
        let what = get(
            buf,
            if detach {
                2
            } else {
                3
            },
        )?;
        let address_type = get(buf, 2)?;
        if address_type >= 3 {
            return Err(
                PduParseErr::InvalidEnum {
                    field: PduField::GroupIdentityAddressType,
                    value: address_type,
                },
            );
        }
        let mut elem = GroupIdentityUplink {
            class_of_usage: if detach {
                None
            } else {
                Some(what)
            },
            group_identity_detachment_uplink: if detach {
                Some(what)
            } else {
                None
            },
            gssi: None,
            address_extension: None,
            vgssi: None,
        };
        if address_type == 2 {
            elem.vgssi = Some(get(buf, 24)?);
        } else {
            elem.gssi = Some(get(buf, 24)?);
            if address_type == 1 {
                elem.address_extension = Some(get(buf, 24)?);
            }
        }
        Ok(elem)
    }
}

} // verus!
