//! Mobility management on the base station side.
//!
//! MM serves one service access point, the LMM-SAP, and handles one primitive
//! on it: the indication that carries a PDU from a mobile. It reads the PDU
//! type, hands the PDU to the handler of that type, and where a handler owes
//! the mobile an answer, puts the answer in the queue for the MLE.

use crate::address::SsiType;
use crate::address::TetraAddress;
use crate::bitbuffer::BitBuffer;
use crate::bits::overwrite;
use crate::config::stack_config::SharedConfig;
use crate::entities::mm::components::client_state::MmClientMgr;
use crate::entities::mm::components::client_state::MmClientProperties;
use crate::entities::mm::enums::mm_location_update_accept_type::MmLocationUpdateAcceptType;
use crate::entities::mm::enums::mm_pdu_type_ul::MmPduTypeUl;
use crate::entities::mm::enums::mm_pdu_type_ul::MM_PDU_TYPE_BITS;
use crate::entities::mm::fields::group_identity_attachment::GroupIdentityAttachment;
use crate::entities::mm::fields::group_identity_downlink::GroupIdentityDownlink;
use crate::typed_pdu_fields::or_zero;
use crate::typed_pdu_fields::value_or_zero;
use crate::entities::mm::fields::group_identity_uplink::GroupIdentityUplink;
use crate::entities::mm::pdus::d_attach_detach_group_identity_acknowledgement as ack;
use crate::entities::mm::pdus::d_location_update_accept::DLocationUpdateAccept;
use crate::entities::mm::pdus::mm_pdu_function_not_supported::MmPduFunctionNotSupported;
use crate::entities::mm::pdus::u_attach_detach_group_identity::UAttachDetachGroupIdentity;
use crate::entities::mm::pdus::u_attach_detach_group_identity::UAttachDetachGroupIdentitySpec;
use crate::entities::mm::pdus::u_itsi_detach::UItsiDetach;
use crate::entities::mm::pdus::u_location_update_demand::ULocationUpdateDemand;
use crate::entities::sink::Sink;
use crate::entities::TetraEntityTrait;
use crate::messagerouter::MessageQueue;
use crate::saps::lmm::LmmMleUnitdataInd;
use crate::saps::lmm::LmmMleUnitdataReq;
use crate::saps::sapmsg::SapMsg;
use crate::saps::sapmsg::SapMsgInner;
use crate::tdma_time::TdmaTime;
use crate::tetra_common::Sap;
use crate::tetra_entities::TetraEntity;
use crate::typed_pdu_fields::lemma_take_some;
use crate::typed_pdu_fields::peek;
use crate::typed_pdu_fields::take;
use vstd::prelude::*;

verus! {

/// The location update type of a mobile that attaches with its ITSI.
pub const LOCATION_UPDATE_TYPE_ITSI_ATTACH: u64 = 3;

/// The lifetime granted to a group attachment: the mobile attaches again after
/// its next location update.
pub const GROUP_ATTACHMENT_LIFETIME: u64 = 3;

/// Mobility management of a base station.
pub struct MmBs {
    config: SharedConfig,
    /// The mobiles that have registered.
    pub clients: MmClientMgr,
}

/// The indication in a primitive that carries one.
pub open spec fn indication(message: SapMsg) -> LmmMleUnitdataInd
    recommends
        message.msg is LmmMleUnitdataInd,
{
    message.msg->LmmMleUnitdataInd_0
}

/// The bits of the PDU that a primitive carries, from the cursor of its buffer on.
pub open spec fn pdu_bits(message: SapMsg) -> Seq<bool> {
    indication(message).sdu.remaining()
}

/// The mobile that a primitive comes from.
pub open spec fn sender(message: SapMsg) -> u32 {
    indication(message).received_address.ssi
}

/// `reply` is the request that sends a PDU with the bits `sdu` to the mobile
/// `ssi`: an MLE-UNITDATA request on the LMM-SAP from MM to the MLE, stamped with
/// `dltime`, its buffer holding exactly `sdu` with the cursor at the start.
pub open spec fn is_reply(reply: SapMsg, dltime: TdmaTime, ssi: u32, sdu: Seq<bool>) -> bool {
    &&& reply.sap == Sap::LmmSap
    &&& reply.src == TetraEntity::Mm
    &&& reply.dest == TetraEntity::Mle
    &&& reply.dltime == dltime
    &&& reply.msg matches SapMsgInner::LmmMleUnitdataReq(req) && {
        &&& req.sdu.bits() == sdu
        &&& req.sdu.cursor() == 0
        &&& req.handle == 0
        &&& req.address == (TetraAddress { encrypted: false, ssi_type: SsiType::Ssi, ssi })
        &&& req.layer2service == 0
        &&& !req.stealing_permission
        &&& !req.stealing_repeats_flag
        &&& !req.encryption_flag
        &&& !req.is_null_pdu
    }
}

/// What a handler has made of the queue: nothing, where it owes no answer, or
/// one more primitive at the end, the answer it owes.
pub open spec fn answered(
    before: Seq<SapMsg>,
    after: Seq<SapMsg>,
    dltime: TdmaTime,
    ssi: u32,
    owed: Option<Seq<bool>>,
) -> bool {
    match owed {
        None => after == before,
        Some(sdu) => after.len() == before.len() + 1 && after.drop_last() == before && is_reply(
            after.last(),
            dltime,
            ssi,
            sdu,
        ),
    }
}

/// The accept that answers an ITSI attach of the mobile `ssi`.
pub open spec fn accept_for(ssi: u32) -> DLocationUpdateAccept {
    DLocationUpdateAccept {
        location_update_accept_type: MmLocationUpdateAcceptType::ItsiAttach,
        ssi: Some(ssi as u64),
        address_extension: None,
        subscriber_class: None,
        energy_saving_information: None,
        scch_information_and_distribution_on_18th_frame: None,
    }
}

/// The attachment that is granted for one group that a mobile has named,
/// whether it asked to attach to it or to detach from it.
pub open spec fn attachment_for(asked: GroupIdentityUplink) -> GroupIdentityDownlink {
    GroupIdentityDownlink {
        group_identity_attachment: Some(
            GroupIdentityAttachment {
                group_identity_attachment_lifetime: GROUP_ATTACHMENT_LIFETIME,
                class_of_usage: or_zero(asked.class_of_usage),
            },
        ),
        group_identity_detachment_uplink: None,
        gssi: asked.gssi,
        address_extension: asked.address_extension,
        vgssi: asked.vgssi,
    }
}

/// The acknowledgement that answers a request for the groups `asked`: all are
/// accepted, each with the attachment that `attachment_for` gives.
pub open spec fn acknowledgement_for(
    asked: Seq<GroupIdentityUplink>,
) -> ack::DAttachDetachGroupIdentityAcknowledgementSpec {
    ack::DAttachDetachGroupIdentityAcknowledgementSpec {
        group_identity_accept_reject: 0,
        reserved: false,
        group_identity_downlink: Some(asked.map_values(|e: GroupIdentityUplink| attachment_for(e))),
    }
}

/// The refusal that answers a PDU of a type that is not handled.
pub open spec fn refusal_of(pdu_type: MmPduTypeUl) -> MmPduFunctionNotSupported {
    MmPduFunctionNotSupported { not_supported_pdu_type: pdu_type.spec_into_raw() }
}

/// What is owed to a mobile that sent a U-LOCATION UPDATE DEMAND: the accept,
/// where the PDU can be read and asks for an ITSI attach.
pub open spec fn location_update_answer(message: SapMsg) -> Option<Seq<bool>> {
    match ULocationUpdateDemand::spec_parse(pdu_bits(message)) {
        Ok((pdu, _)) => if pdu.location_update_type == LOCATION_UPDATE_TYPE_ITSI_ATTACH {
            Some(accept_for(sender(message)).encode())
        } else {
            None
        },
        Err(_) => None,
    }
}

/// What is owed to a mobile that sent a U-ATTACH/DETACH GROUP IDENTITY: the
/// acknowledgement, where the PDU can be read, names groups, and the
/// acknowledgement for them can be encoded.
pub open spec fn group_identity_answer(message: SapMsg) -> Option<Seq<bool>> {
    match UAttachDetachGroupIdentitySpec::spec_parse(pdu_bits(message)) {
        Ok((pdu, _)) => match pdu.group_identity_uplink {
            Some(asked) => if acknowledgement_for(asked).encodable() {
                Some(acknowledgement_for(asked).encode())
            } else {
                None
            },
            None => None,
        },
        Err(_) => None,
    }
}

/// The mobiles known after a primitive of PDU type `pdu_type` has been handled.
pub open spec fn clients_after(
    clients: Map<u32, MmClientProperties>,
    pdu_type: MmPduTypeUl,
    message: SapMsg,
) -> Map<u32, MmClientProperties> {
    match pdu_type {
        MmPduTypeUl::UItsiDetach => if UItsiDetach::spec_parse(pdu_bits(message)) is Ok {
            clients.remove(sender(message))
        } else {
            clients
        },
        MmPduTypeUl::ULocationUpdateDemand => if location_update_answer(message) is Some {
            clients.insert(
                sender(message),
                MmClientProperties { ssi: sender(message), attached: true },
            )
        } else {
            clients
        },
        _ => clients,
    }
}

/// What is owed to the mobile that sent a PDU of type `pdu_type`.
pub open spec fn answer_to(pdu_type: MmPduTypeUl, message: SapMsg) -> Option<Seq<bool>> {
    match pdu_type {
        MmPduTypeUl::ULocationUpdateDemand => location_update_answer(message),
        MmPduTypeUl::UAttachDetachGroupIdentity => group_identity_answer(message),
        MmPduTypeUl::UMmStatus => Some(refusal_of(MmPduTypeUl::UMmStatus).encode()),
        _ => None,
    }
}

/// The PDU type of the PDU that a primitive carries, where its first four bits
/// name one.
pub open spec fn pdu_type_of(message: SapMsg) -> Option<MmPduTypeUl> {
    match take(pdu_bits(message), MM_PDU_TYPE_BITS as nat) {
        None => None,
        Some((bits, _)) => match MmPduTypeUl::spec_try_from(bits) {
            Ok(pdu_type) => Some(pdu_type),
            Err(_) => None,
        },
    }
}

/// A primitive that carries fewer than four bits names no PDU type: it is
/// dropped.
pub proof fn lemma_short_names_no_type(message: SapMsg)
    requires
        pdu_bits(message).len() < MM_PDU_TYPE_BITS,
    ensures
        pdu_type_of(message) is None,
{
    lemma_take_some(pdu_bits(message), MM_PDU_TYPE_BITS as nat);
}

impl MmBs {
    /// The mobiles that have registered, by their SSI.
    pub closed spec fn known(&self) -> Map<u32, MmClientProperties> {
        self.clients@
    }

    /// The shared configuration that the entity holds.
    pub closed spec fn shared_config(&self) -> SharedConfig {
        self.config
    }

    /// Mobility management that holds `config` and knows no mobile.
    pub fn new(config: SharedConfig) -> (mm: MmBs)
        ensures
            mm.shared_config() == config,
            mm.known() == Map::<u32, MmClientProperties>::empty(),
    {
        MmBs { config, clients: MmClientMgr::new() }
    }

    /// Puts the answer with the bits of `sdu` for the mobile `ssi` in the queue.
    fn send_reply(queue: &mut MessageQueue, mut sdu: BitBuffer, dltime: TdmaTime, ssi: u32)
        ensures
            answered(old(queue)@, final(queue)@, dltime, ssi, Some(sdu.bits())),
    {
        sdu.seek(0);
        let address = TetraAddress { encrypted: false, ssi_type: SsiType::Ssi, ssi };
        let reply = SapMsg {
            sap: Sap::LmmSap,
            src: TetraEntity::Mm,
            dest: TetraEntity::Mle,
            dltime,
            msg: SapMsgInner::LmmMleUnitdataReq(
                LmmMleUnitdataReq {
                    sdu,
                    handle: 0,
                    address,
                    layer2service: 0,
                    stealing_permission: false,
                    stealing_repeats_flag: false,
                    encryption_flag: false,
                    is_null_pdu: false,
                },
            ),
        };
        queue.push_back(reply);
        assert(queue@.drop_last() =~= old(queue)@);
    }

    /// Handles a U-ITSI DETACH: the mobile is forgotten. A PDU that cannot be
    /// read changes nothing. Nothing is answered.
    fn rx_u_itsi_detach(&mut self, queue: &mut MessageQueue, message: SapMsg)
        requires
            message.msg is LmmMleUnitdataInd,
        ensures
            final(self).shared_config() == old(self).shared_config(),
            final(self).known() == clients_after(
                old(self).known(),
                MmPduTypeUl::UItsiDetach,
                message,
            ),
            final(queue)@ == old(queue)@,
    {
        if let SapMsgInner::LmmMleUnitdataInd(prim) = message.msg {
            let mut sdu = prim.sdu;
            match UItsiDetach::from_bitbuf(&mut sdu) {
                Ok(_) => {
                    let _ = self.clients.remove(prim.received_address.ssi);
                },
                Err(_) => {},
            }
        }
    }

    /// Handles a U-LOCATION UPDATE DEMAND. Where the PDU can be read and asks
    /// for an ITSI attach, the mobile is registered as attached and is sent a
    /// D-LOCATION UPDATE ACCEPT of type ITSI attach that names its SSI. Any
    /// other PDU changes nothing and is not answered.
    fn rx_u_location_update_demand(&mut self, queue: &mut MessageQueue, message: SapMsg)
        requires
            message.msg is LmmMleUnitdataInd,
        ensures
            final(self).shared_config() == old(self).shared_config(),
            final(self).known() == clients_after(
                old(self).known(),
                MmPduTypeUl::ULocationUpdateDemand,
                message,
            ),
            answered(
                old(queue)@,
                final(queue)@,
                message.dltime,
                sender(message),
                location_update_answer(message),
            ),
    {
        let dltime = message.dltime;
        if let SapMsgInner::LmmMleUnitdataInd(prim) = message.msg {
            let mut sdu = prim.sdu;
            let pdu = match ULocationUpdateDemand::from_bitbuf(&mut sdu) {
                Ok(pdu) => pdu,
                Err(_) => {
                    return ;
                },
            };
            if pdu.location_update_type != LOCATION_UPDATE_TYPE_ITSI_ATTACH {
                return ;
            }
            let ssi = prim.received_address.ssi;
            let _ = self.clients.register(ssi, true);
            let pdu_response = DLocationUpdateAccept {
                location_update_accept_type: MmLocationUpdateAcceptType::ItsiAttach,
                ssi: Some(ssi as u64),
                address_extension: None,
                subscriber_class: None,
                energy_saving_information: None,
                scch_information_and_distribution_on_18th_frame: None,
            };
            let mut reply = BitBuffer::new_autoexpand(38);
            let written = pdu_response.to_bitbuf(&mut reply);
            proof {
                assert(written is Ok);
                assert(overwrite(Seq::<bool>::empty(), 0, pdu_response.encode())
                    =~= pdu_response.encode());
            }
            Self::send_reply(queue, reply, dltime, ssi);
        }
    }

    /// The attachments that are granted for the groups that a mobile has named.
    fn grant(asked: &Vec<GroupIdentityUplink>) -> (granted: Vec<GroupIdentityDownlink>)
        ensures
            granted@ == asked@.map_values(|e: GroupIdentityUplink| attachment_for(e)),
    {
        let mut granted: Vec<GroupIdentityDownlink> = Vec::with_capacity(asked.len());
        let mut i: usize = 0;
        while i < asked.len()
            invariant
                i <= asked.len(),
                granted@ == asked@.take(i as int).map_values(
                    |e: GroupIdentityUplink| attachment_for(e),
                ),
            decreases asked.len() - i,
        {
            let elem = &asked[i];
            granted.push(
                GroupIdentityDownlink {
                    group_identity_attachment: Some(
                        GroupIdentityAttachment {
                            group_identity_attachment_lifetime: GROUP_ATTACHMENT_LIFETIME,
                            class_of_usage: value_or_zero(&elem.class_of_usage),
                        },
                    ),
                    group_identity_detachment_uplink: None,
                    gssi: elem.gssi,
                    address_extension: elem.address_extension,
                    vgssi: elem.vgssi,
                },
            );
            i = i + 1;
            assert(granted@ =~= asked@.take(i as int).map_values(
                |e: GroupIdentityUplink| attachment_for(e),
            ));
        }
        assert(asked@.take(asked.len() as int) =~= asked@);
        granted
    }

    /// Handles a U-ATTACH/DETACH GROUP IDENTITY. Where the PDU can be read and
    /// names groups, the mobile is sent a D-ATTACH/DETACH GROUP IDENTITY
    /// ACKNOWLEDGEMENT that accepts them all and grants each an attachment with
    /// the lifetime `GROUP_ATTACHMENT_LIFETIME` and the class of usage that was
    /// asked for, unless the acknowledgement is too long to be encoded. A PDU
    /// that cannot be read, or that names no groups, is not answered.
    fn rx_u_attach_detach_group_identity(&mut self, queue: &mut MessageQueue, message: SapMsg)
        requires
            message.msg is LmmMleUnitdataInd,
        ensures
            final(self).shared_config() == old(self).shared_config(),
            final(self).known() == old(self).known(),
            answered(
                old(queue)@,
                final(queue)@,
                message.dltime,
                sender(message),
                group_identity_answer(message),
            ),
    {
        let dltime = message.dltime;
        if let SapMsgInner::LmmMleUnitdataInd(prim) = message.msg {
            let mut sdu = prim.sdu;
            let ssi = prim.received_address.ssi;
            let pdu = match UAttachDetachGroupIdentity::from_bitbuf(&mut sdu) {
                Ok(pdu) => pdu,
                Err(_) => {
                    return ;
                },
            };
            let asked = match pdu.group_identity_uplink {
                Some(asked) => asked,
                None => {
                    return ;
                },
            };
            let pdu_response = ack::DAttachDetachGroupIdentityAcknowledgement {
                group_identity_accept_reject: 0,
                reserved: false,
                group_identity_downlink: Some(Self::grant(&asked)),
            };
            assert(pdu_response@ == acknowledgement_for(asked@));
            let mut reply = BitBuffer::new_autoexpand(32);
            match pdu_response.to_bitbuf(&mut reply) {
                Ok(_) => {
                    proof {
                        assert(overwrite(Seq::<bool>::empty(), 0, pdu_response@.encode())
                            =~= pdu_response@.encode());
                    }
                    Self::send_reply(queue, reply, dltime, ssi);
                },
                Err(_) => {},
            }
        }
    }

    /// Handles a U-MM STATUS: the mobile is told that PDUs of this type are not
    /// handled.
    fn rx_u_mm_status(&mut self, queue: &mut MessageQueue, message: SapMsg)
        requires
            message.msg is LmmMleUnitdataInd,
        ensures
            final(self).shared_config() == old(self).shared_config(),
            final(self).known() == old(self).known(),
            answered(
                old(queue)@,
                final(queue)@,
                message.dltime,
                sender(message),
                Some(refusal_of(MmPduTypeUl::UMmStatus).encode()),
            ),
    {
        let dltime = message.dltime;
        if let SapMsgInner::LmmMleUnitdataInd(prim) = message.msg {
            let pdu_response = MmPduFunctionNotSupported {
                not_supported_pdu_type: MmPduTypeUl::UMmStatus.into_raw(),
            };
            let mut reply = BitBuffer::new_autoexpand(9);
            let written = pdu_response.to_bitbuf(&mut reply);
            proof {
                assert(written is Ok);
                assert(overwrite(Seq::<bool>::empty(), 0, pdu_response.encode())
                    =~= pdu_response.encode());
            }
            Self::send_reply(queue, reply, dltime, prim.received_address.ssi);
        }
    }

    /// Handles an indication: reads the PDU type from the first four bits and
    /// hands the primitive to the handler of that type. A primitive with fewer
    /// than four bits, or whose bits name no uplink PDU type, is dropped: nothing
    /// changes and nothing is answered. So is a PDU of a type that has no handler.
    pub fn rx_lmm_mle_unitdata_ind(&mut self, queue: &mut MessageQueue, message: SapMsg)
        requires
            message.msg is LmmMleUnitdataInd,
        ensures
            final(self).shared_config() == old(self).shared_config(),
            match pdu_type_of(message) {
                Some(pdu_type) => final(self).known() == clients_after(
                    old(self).known(),
                    pdu_type,
                    message,
                ) && answered(
                    old(queue)@,
                    final(queue)@,
                    message.dltime,
                    sender(message),
                    answer_to(pdu_type, message),
                ),
                None => final(self).known() == old(self).known() && final(queue)@ == old(queue)@,
            },
    {
        let bits = match &message.msg {
            SapMsgInner::LmmMleUnitdataInd(prim) => match peek(&prim.sdu, MM_PDU_TYPE_BITS) {
                Some(bits) => bits,
                None => {
                    return ;
                },
            },
            _ => {
                return ;
            },
        };
        let pdu_type = match MmPduTypeUl::try_from(bits) {
            Ok(pdu_type) => pdu_type,
            Err(_) => {
                return ;
            },
        };
        match pdu_type {
            MmPduTypeUl::UItsiDetach => self.rx_u_itsi_detach(queue, message),
            MmPduTypeUl::ULocationUpdateDemand => self.rx_u_location_update_demand(queue, message),
            MmPduTypeUl::UMmStatus => self.rx_u_mm_status(queue, message),
            MmPduTypeUl::UAttachDetachGroupIdentity => self.rx_u_attach_detach_group_identity(
                queue,
                message,
            ),
            MmPduTypeUl::UAuthentication
            | MmPduTypeUl::UCkChangeResult
            | MmPduTypeUl::UOtar
            | MmPduTypeUl::UInformationProvide
            | MmPduTypeUl::UAttachDetachGroupIdentityAcknowledgement
            | MmPduTypeUl::UTeiProvide
            | MmPduTypeUl::UDisableStatus
            | MmPduTypeUl::MmPduFunctionNotSupported => {},
        }
    }
}

/// What handling the indication `message` makes of mobility management and of
/// the queue: the mobiles that are known afterwards and the answer that is
/// queued are those that the type of the PDU calls for, and a primitive whose
/// PDU type cannot be read changes nothing. The configuration handle stays.
pub open spec fn indication_handled(
    before: MmBs,
    after: MmBs,
    waiting: Seq<SapMsg>,
    queued: Seq<SapMsg>,
    message: SapMsg,
) -> bool {
    &&& after.shared_config() == before.shared_config()
    &&& match pdu_type_of(message) {
        Some(pdu_type) => {
            &&& after.known() == clients_after(before.known(), pdu_type, message)
            &&& answered(
                waiting,
                queued,
                message.dltime,
                sender(message),
                answer_to(pdu_type, message),
            )
        },
        None => after.known() == before.known() && queued == waiting,
    }
}

impl TetraEntityTrait for MmBs {
    open spec fn spec_entity(&self) -> TetraEntity {
        TetraEntity::Mm
    }

    open spec fn spec_config(&self) -> Option<SharedConfig> {
        Some(self.shared_config())
    }

    fn entity(&self) -> (e: TetraEntity) {
        TetraEntity::Mm
    }

    /// MM serves the LMM-SAP and handles the indication on it.
    open spec fn accepts(&self, message: &SapMsg) -> bool {
        message.sap == Sap::LmmSap && message.msg is LmmMleUnitdataInd
    }

    fn can_accept(&self, message: &SapMsg) -> (b: bool) {
        message.sap == Sap::LmmSap && match &message.msg {
            SapMsgInner::LmmMleUnitdataInd(_) => true,
            _ => false,
        }
    }

    fn set_config(&mut self, config: SharedConfig)
        ensures
            final(self).shared_config() == config,
            final(self).known() == old(self).known(),
    {
        self.config = config;
    }

    /// Handles the indication, as `indication_handled` says.
    fn rx_prim(&mut self, queue: &mut MessageQueue, message: SapMsg)
        ensures
            indication_handled(*old(self), *final(self), old(queue)@, final(queue)@, message),
    {
        let ghost before = queue@;
        let ghost owed = match pdu_type_of(message) {
            Some(pdu_type) => answer_to(pdu_type, message),
            None => None,
        };
        self.rx_lmm_mle_unitdata_ind(queue, message);
        assert(answered(before, queue@, message.dltime, sender(message), owed));
    }

    /// Mobility management has no turn at the start of a tick: nothing changes.
    fn tick_start(&mut self, queue: &mut MessageQueue, ts: Option<TdmaTime>)
        ensures
            *final(self) == *old(self),
            final(queue)@ == old(queue)@,
    {
    }

    /// Mobility management has no turn at the end of a tick: nothing changes, and the router
    /// is not asked to stop.
    fn tick_end(&mut self, queue: &mut MessageQueue, ts: Option<TdmaTime>) -> (stop: bool)
        ensures
            !stop,
            *final(self) == *old(self),
            final(queue)@ == old(queue)@,
    {
        false
    }

    fn as_sink(&mut self) -> (sink: Option<&mut Sink>) {
        None
    }
}

} // verus!
