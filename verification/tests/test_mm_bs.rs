use bluestation::address::{SsiType, TetraAddress};
use bluestation::bitbuffer::BitBuffer;
use bluestation::config::stack_config::{
    CfgCellInfo, CfgNetInfo, CfgPhyIo, PhyBackend, SharedConfig, StackConfig, StackMode, StackState,
};
use bluestation::entities::cmce::cmce_bs::CmceBs;
use bluestation::entities::mm::enums::mm_location_update_accept_type::MmLocationUpdateAcceptType;
use bluestation::entities::mm::fields::group_identity_attachment::GroupIdentityAttachment;
use bluestation::entities::mm::fields::group_identity_downlink::GroupIdentityDownlink;
use bluestation::entities::mm::fields::group_identity_uplink::GroupIdentityUplink;
use bluestation::entities::mm::mm_bs::MmBs;
use bluestation::entities::mm::mm_ms::MmMs;
use bluestation::entities::mm::pdus::d_attach_detach_group_identity_acknowledgement::DAttachDetachGroupIdentityAcknowledgement;
use bluestation::entities::mm::pdus::d_location_update_accept::DLocationUpdateAccept;
use bluestation::entities::mm::pdus::mm_pdu_function_not_supported::MmPduFunctionNotSupported;
use bluestation::entities::mm::pdus::u_attach_detach_group_identity::UAttachDetachGroupIdentity;
use bluestation::entities::mm::pdus::u_itsi_detach::UItsiDetach;
use bluestation::entities::mm::pdus::u_location_update_demand::ULocationUpdateDemand;
use bluestation::entities::sink::Sink;
use bluestation::entities::sndcp::sndcp_bs::Sndcp;
use bluestation::entities::StackEntity;
use bluestation::messagerouter::{MessageRouter, RouterFault};
use bluestation::saps::lmm::LmmMleUnitdataInd;
use bluestation::saps::sapmsg::{SapMsg, SapMsgInner};
use bluestation::tdma_time::TdmaTime;
use bluestation::tetra_common::Sap;
use bluestation::tetra_entities::TetraEntity;

/// Quick setup of components and sinks around a router.
struct ComponentTest {
    config: SharedConfig,
    router: MessageRouter<StackEntity>,
    sinks: Vec<TetraEntity>,
}

fn default_test_config(stack_mode: StackMode) -> StackConfig {
    StackConfig {
        stack_mode,
        phy_io: CfgPhyIo { backend: PhyBackend::NoBackend, input_file: None, soapysdr: None },
        net: CfgNetInfo { mcc: 204, mnc: 1337 },
        cell: CfgCellInfo {
            colour_code: 1,
            location_area: 2,
            main_carrier: 1521,
            freq_band: 4,
            duplex_spacing_setting: 0,
            subscriber_class: 65535,
            system_wide_services: true,
            voice_service: true,
            system_code: 3,
            ..CfgCellInfo::default()
        },
    }
}

impl ComponentTest {
    fn new(stack_mode: StackMode, start_dl_time: Option<TdmaTime>) -> Self {
        let config = default_test_config(stack_mode);
        assert!(config.validate().is_ok());
        let shared = SharedConfig::from_parts(config, StackState::default());
        let mut router = MessageRouter::new(shared.clone());
        router.set_dl_time(start_dl_time.unwrap_or_default());
        ComponentTest { config: shared, router, sinks: vec![] }
    }

    fn populate_entities(&mut self, components: Vec<TetraEntity>, sinks: Vec<TetraEntity>) {
        let ms = self.config.config().stack_mode == StackMode::Ms;
        for component in components.iter() {
            let entity = match component {
                TetraEntity::Mm if ms => StackEntity::MmMs(MmMs::new(self.config.clone())),
                TetraEntity::Mm => StackEntity::MmBs(MmBs::new(self.config.clone())),
                TetraEntity::Sndcp => StackEntity::Sndcp(Sndcp::new(self.config.clone())),
                TetraEntity::Cmce => StackEntity::CmceBs(CmceBs::new(self.config.clone())),
                _ => panic!("Component not implemented: {:?}", component),
            };
            self.router.register_entity(entity);
        }
        for sink in sinks.iter() {
            assert!(!self.sinks.contains(sink), "Sink already exists: {:?}", sink);
            assert!(
                self.router.get_entity(*sink).is_none(),
                "Sink already registered as entity: {:?}",
                sink
            );
            self.sinks.push(*sink);
            self.router.register_entity(StackEntity::Sink(Sink::new(*sink)));
        }
    }

    fn run_stack(&mut self, num_ticks: Option<usize>) {
        self.router.run_stack(num_ticks.unwrap()).unwrap();
    }

    fn submit_message(&mut self, message: SapMsg) {
        self.router.submit_message(message);
    }

    fn dump_sinks(&mut self) -> Vec<SapMsg> {
        let mut msgs = vec![];
        for sink in self.sinks.iter() {
            let mut sink_msgs = self.router.dump_sink(*sink);
            msgs.append(&mut sink_msgs);
        }
        msgs
    }
}

fn indication(sdu: BitBuffer, ssi: u32, dltime: TdmaTime) -> SapMsg {
    SapMsg {
        sap: Sap::LmmSap,
        src: TetraEntity::Mle,
        dest: TetraEntity::Mm,
        dltime,
        msg: SapMsgInner::LmmMleUnitdataInd(LmmMleUnitdataInd {
            sdu,
            handle: 0,
            received_address: TetraAddress { encrypted: false, ssi_type: SsiType::Issi, ssi },
        }),
    }
}

fn bs_test() -> ComponentTest {
    let mut test = ComponentTest::new(StackMode::Bs, None);
    test.populate_entities(vec![TetraEntity::Mm], vec![TetraEntity::Mle]);
    test
}

/// The buffer of the one reply in the sink, after checking its envelope.
fn only_reply(msgs: Vec<SapMsg>, dltime: TdmaTime, ssi: u32) -> BitBuffer {
    assert_eq!(msgs.len(), 1);
    let msg = msgs.into_iter().next().unwrap();
    assert_eq!(msg.sap, Sap::LmmSap);
    assert_eq!(msg.src, TetraEntity::Mm);
    assert_eq!(msg.dest, TetraEntity::Mle);
    assert_eq!(msg.dltime, dltime);
    match msg.msg {
        SapMsgInner::LmmMleUnitdataReq(req) => {
            assert_eq!(req.handle, 0);
            assert_eq!(
                req.address,
                TetraAddress { encrypted: false, ssi_type: SsiType::Ssi, ssi }
            );
            assert_eq!(req.layer2service, 0);
            assert!(!req.stealing_permission);
            assert!(!req.stealing_repeats_flag);
            assert!(!req.encryption_flag);
            assert!(!req.is_null_pdu);
            assert_eq!(req.sdu.get_pos(), 0);
            req.sdu
        }
        other => panic!("unexpected primitive: {:?}", other),
    }
}

#[test]
fn test_unsupported_u_mm_status() {
    // Motorola requesting power management
    let test_vec1 = "00110000010010";
    let dltime_vec1 = TdmaTime::default().add_timeslots(2); // Downlink time: 0/1/1/3
    let ultime_vec1 = dltime_vec1.add_timeslots(-2); // Uplink time: 0/1/1/1
    let test_prim1 = LmmMleUnitdataInd {
        sdu: BitBuffer::from_bitstr(test_vec1),
        handle: 0,
        received_address: TetraAddress {
            encrypted: false,
            ssi_type: SsiType::Issi,
            ssi: 2040814,
        },
    };
    let test_sapmsg1 = SapMsg {
        sap: Sap::LmmSap,
        src: TetraEntity::Mle,
        dest: TetraEntity::Mm,
        dltime: ultime_vec1,
        msg: SapMsgInner::LmmMleUnitdataInd(test_prim1),
    };

    // Setup testing stack
    let mut test = ComponentTest::new(StackMode::Bs, Some(dltime_vec1));
    let components = vec![TetraEntity::Mm];
    let sinks: Vec<TetraEntity> = vec![TetraEntity::Mle];
    test.populate_entities(components, sinks);

    // Submit and process message
    test.submit_message(test_sapmsg1);
    test.run_stack(Some(1));
    let sink_msgs = test.dump_sinks();

    // Evaluate results. We should have an MM message in the sink
    assert_eq!(sink_msgs.len(), 1);
    println!("We have the expected MM message, but full validation of result not implemented");
}

#[test]
fn u_mm_status_is_answered_with_not_supported() {
    let mut test = bs_test();
    let dltime = TdmaTime { h: 0, m: 1, f: 1, t: 1 };
    test.submit_message(indication(BitBuffer::from_bitstr("00110000010010"), 2040814, dltime));
    test.run_stack(Some(1));
    let mut sdu = only_reply(test.dump_sinks(), dltime, 2040814);
    assert_eq!(sdu.dump_bin(), "111100110");
    let pdu = MmPduFunctionNotSupported::from_bitbuf(&mut sdu).unwrap();
    assert_eq!(pdu, MmPduFunctionNotSupported { not_supported_pdu_type: 3 });
}

#[test]
fn location_update_with_itsi_attach_is_accepted() {
    let demand = ULocationUpdateDemand {
        location_update_type: 3,
        request_to_append_la: false,
        cipher_control: false,
        ciphering_parameters: None,
        class_of_ms: Some(0x123456),
        energy_saving_mode: None,
        la_information: None,
        ssi: None,
        address_extension: None,
    };
    let mut sdu = BitBuffer::new_autoexpand(64);
    demand.to_bitbuf(&mut sdu).unwrap();
    sdu.seek(0);

    let mut test = bs_test();
    let dltime = TdmaTime { h: 3, m: 2, f: 1, t: 4 };
    test.submit_message(indication(sdu, 1000001, dltime));
    test.run_stack(Some(1));

    let mut reply = only_reply(test.dump_sinks(), dltime, 1000001);
    // type 5, accept type 3, O-bit, P-bit and SSI, four clear P-bits, M-bit
    assert_eq!(reply.dump_bin(), "01010111100001111010000100100000100000");
    let accept = DLocationUpdateAccept::from_bitbuf(&mut reply).unwrap();
    assert_eq!(
        accept,
        DLocationUpdateAccept {
            location_update_accept_type: MmLocationUpdateAcceptType::ItsiAttach,
            ssi: Some(1000001),
            address_extension: None,
            subscriber_class: None,
            energy_saving_information: None,
            scch_information_and_distribution_on_18th_frame: None,
        }
    );
    assert_eq!(reply.get_len_remaining(), 0);
}

#[test]
fn location_update_of_another_type_is_dropped() {
    let demand = ULocationUpdateDemand {
        location_update_type: 0,
        request_to_append_la: false,
        cipher_control: false,
        ciphering_parameters: None,
        class_of_ms: None,
        energy_saving_mode: None,
        la_information: None,
        ssi: None,
        address_extension: None,
    };
    let mut sdu = BitBuffer::new_autoexpand(64);
    demand.to_bitbuf(&mut sdu).unwrap();
    sdu.seek(0);
    let mut test = bs_test();
    test.submit_message(indication(sdu, 1000001, TdmaTime::default()));
    test.run_stack(Some(1));
    assert_eq!(test.dump_sinks().len(), 0);
}

#[test]
fn location_update_registers_and_detach_forgets() {
    let config = SharedConfig::from_config(default_test_config(StackMode::Bs));
    let mut mm = MmBs::new(config);
    let mut queue = bluestation::messagerouter::MessageQueue::new();
    assert_eq!(mm.clients.len(), 0);

    let demand = ULocationUpdateDemand {
        location_update_type: 3,
        request_to_append_la: true,
        cipher_control: true,
        ciphering_parameters: Some(0x2aa),
        class_of_ms: None,
        energy_saving_mode: None,
        la_information: None,
        ssi: None,
        address_extension: None,
    };
    let mut sdu = BitBuffer::new_autoexpand(64);
    demand.to_bitbuf(&mut sdu).unwrap();
    sdu.seek(0);
    mm.rx_lmm_mle_unitdata_ind(&mut queue, indication(sdu, 77, TdmaTime::default()));
    assert_eq!(queue.len(), 1);
    assert_eq!(mm.clients.len(), 1);
    assert!(mm.clients.get(77).unwrap().attached);
    assert!(mm.clients.get(78).is_none());

    let mut sdu = BitBuffer::new_autoexpand(8);
    UItsiDetach { address_extension: None }.to_bitbuf(&mut sdu).unwrap();
    sdu.seek(0);
    assert_eq!(sdu.dump_bin(), "00010");
    mm.rx_lmm_mle_unitdata_ind(&mut queue, indication(sdu, 77, TdmaTime::default()));
    assert_eq!(queue.len(), 1);
    assert_eq!(mm.clients.len(), 0);
}

#[test]
fn group_attach_is_acknowledged() {
    let request = UAttachDetachGroupIdentity {
        group_identity_report: false,
        group_identity_attach_detach_mode: false,
        group_identity_uplink: Some(vec![GroupIdentityUplink {
            class_of_usage: Some(4),
            group_identity_detachment_uplink: None,
            gssi: Some(91),
            address_extension: None,
            vgssi: None,
        }]),
    };
    let mut sdu = BitBuffer::new_autoexpand(64);
    request.to_bitbuf(&mut sdu).unwrap();
    sdu.seek(0);

    let mut test = bs_test();
    let dltime = TdmaTime { h: 0, m: 1, f: 1, t: 1 };
    test.submit_message(indication(sdu, 1000001, dltime));
    test.run_stack(Some(1));

    let mut reply = only_reply(test.dump_sinks(), dltime, 1000001);
    let ack = DAttachDetachGroupIdentityAcknowledgement::from_bitbuf(&mut reply).unwrap();
    assert_eq!(
        ack,
        DAttachDetachGroupIdentityAcknowledgement {
            group_identity_accept_reject: 0,
            reserved: false,
            group_identity_downlink: Some(vec![GroupIdentityDownlink {
                group_identity_attachment: Some(GroupIdentityAttachment {
                    group_identity_attachment_lifetime: 3,
                    class_of_usage: 4,
                }),
                group_identity_detachment_uplink: None,
                gssi: Some(91),
                address_extension: None,
                vgssi: None,
            }]),
        }
    );
}

#[test]
fn group_request_without_groups_is_dropped() {
    let request = UAttachDetachGroupIdentity {
        group_identity_report: true,
        group_identity_attach_detach_mode: false,
        group_identity_uplink: None,
    };
    let mut sdu = BitBuffer::new_autoexpand(64);
    request.to_bitbuf(&mut sdu).unwrap();
    sdu.seek(0);
    assert_eq!(sdu.dump_bin(), "0111100");
    let mut test = bs_test();
    test.submit_message(indication(sdu, 5, TdmaTime::default()));
    test.run_stack(Some(1));
    assert_eq!(test.dump_sinks().len(), 0);
}

#[test]
fn unknown_pdu_type_is_dropped_and_the_stack_goes_on() {
    let mut test = bs_test();
    // 1010 is a reserved uplink PDU type.
    test.submit_message(indication(BitBuffer::from_bitstr("10100000"), 5, TdmaTime::default()));
    // Fewer than four bits.
    test.submit_message(indication(BitBuffer::from_bitstr("001"), 5, TdmaTime::default()));
    // A type without a handler.
    test.submit_message(indication(BitBuffer::from_bitstr("00000000"), 5, TdmaTime::default()));
    test.run_stack(Some(1));
    assert_eq!(test.dump_sinks().len(), 0);
    // The next tick runs without fault and still answers.
    test.submit_message(indication(BitBuffer::from_bitstr("0011"), 5, TdmaTime::default()));
    test.run_stack(Some(1));
    assert_eq!(test.dump_sinks().len(), 1);
}

#[test]
fn truncated_pdu_is_dropped() {
    let mut test = bs_test();
    // A location update demand that ends after its type.
    test.submit_message(indication(BitBuffer::from_bitstr("00100"), 5, TdmaTime::default()));
    // A detach whose O-bit announces what is not there.
    test.submit_message(indication(BitBuffer::from_bitstr("00011"), 5, TdmaTime::default()));
    test.run_stack(Some(1));
    assert_eq!(test.dump_sinks().len(), 0);
}

#[test]
fn primitive_on_the_wrong_sap_is_a_fault() {
    let mut test = bs_test();
    let mut message = indication(BitBuffer::from_bitstr("0011"), 5, TdmaTime::default());
    message.sap = Sap::LcmcSap;
    test.submit_message(message);
    assert_eq!(
        test.router.run_stack(1),
        Err(RouterFault::Refused { dest: TetraEntity::Mm, sap: Sap::LcmcSap })
    );
}

#[test]
fn mobile_side_names_the_type_and_drops() {
    let config = SharedConfig::from_config(default_test_config(StackMode::Ms));
    let mut mm = MmMs::new(config);
    let mut queue = bluestation::messagerouter::MessageQueue::new();
    let accept = DLocationUpdateAccept {
        location_update_accept_type: MmLocationUpdateAcceptType::ItsiAttach,
        ssi: None,
        address_extension: None,
        subscriber_class: None,
        energy_saving_information: None,
        scch_information_and_distribution_on_18th_frame: None,
    };
    let mut sdu = BitBuffer::new_autoexpand(16);
    accept.to_bitbuf(&mut sdu).unwrap();
    sdu.seek(0);
    let dropped = mm.rx_lmm_mle_unitdata_ind(&mut queue, indication(sdu, 5, TdmaTime::default()));
    assert_eq!(
        dropped,
        Some(bluestation::entities::mm::enums::mm_pdu_type_dl::MmPduTypeDl::DLocationUpdateAccept)
    );
    assert_eq!(queue.len(), 0);
    // 1000 is a reserved downlink type.
    let dropped = mm.rx_lmm_mle_unitdata_ind(
        &mut queue,
        indication(BitBuffer::from_bitstr("1000"), 5, TdmaTime::default()),
    );
    assert_eq!(dropped, None);
}
