use bluestation::address::{SsiType, TetraAddress};
use bluestation::bitbuffer::BitBuffer;
use bluestation::config::stack_config::{
    CfgCellInfo, CfgNetInfo, CfgPhyIo, PhyBackend, SharedConfig, StackConfig, StackMode, StackState,
};
use bluestation::entities::cmce::cmce_bs::CmceBs;
use bluestation::entities::cmce::enums::circuit_mode_type::CircuitModeType;
use bluestation::entities::cmce::enums::communication_type::CommunicationType;
use bluestation::entities::cmce::fields::basic_service_information::BasicServiceInformation;
use bluestation::entities::cmce::pdus::d_setup::DSetup;
use bluestation::entities::cmce::pdus::u_setup::USetup;
use bluestation::entities::cmce::subentities::cc::{
    may_emit, LateEntrySchedule, Turn, D_SETUP_BACKUP_DELAY, D_SETUP_REPEATS, LATE_ENTRY_INTERVAL,
};
use bluestation::entities::cmce::subentities::ss::SsSubentity;
use bluestation::entities::sink::Sink;
use bluestation::entities::StackEntity;
use bluestation::messagerouter::{MessageQueue, MessageRouter};
use bluestation::saps::control::{BrewSubscriberAction, MmSubscriberUpdate};
use bluestation::saps::lcmc::LcmcMleUnitdataInd;
use bluestation::saps::sapmsg::{SapMsg, SapMsgInner};
use bluestation::tdma_time::TdmaTime;
use bluestation::tetra_common::Sap;
use bluestation::tetra_entities::TetraEntity;
use bluestation::tx_receipt::{TxReporter, TxState};

const TEST_GSSI: u32 = 91;
const TEST_ISSI: u32 = 1000001;

/// Quick setup of components and sinks around a router.
struct ComponentTest {
    config: SharedConfig,
    router: MessageRouter<StackEntity>,
    sinks: Vec<TetraEntity>,
}

fn default_test_config_bs() -> StackConfig {
    StackConfig {
        stack_mode: StackMode::Bs,
        phy_io: CfgPhyIo { backend: PhyBackend::NoBackend, input_file: None, soapysdr: None },
        net: CfgNetInfo { mcc: 204, mnc: 1337 },
        cell: CfgCellInfo {
            colour_code: 1,
            location_area: 2,
            main_carrier: 1521,
            freq_band: 4,
            duplex_spacing_setting: 0,
            subscriber_class: 65535,
            system_wide_services: true,
            voice_service: true,
            system_code: 3,
            ..CfgCellInfo::default()
        },
    }
}

impl ComponentTest {
    fn new(_stack_mode: StackMode, start_dl_time: Option<TdmaTime>) -> Self {
        let config = default_test_config_bs();
        assert!(config.validate().is_ok());
        let shared = SharedConfig::from_parts(config, StackState::default());
        let mut router = MessageRouter::new(shared.clone());
        router.set_dl_time(start_dl_time.unwrap_or_default());
        ComponentTest { config: shared, router, sinks: vec![] }
    }

    fn populate_entities(&mut self, components: Vec<TetraEntity>, sinks: Vec<TetraEntity>) {
        for component in components.iter() {
            let entity = match component {
                TetraEntity::Cmce => StackEntity::CmceBs(CmceBs::new(self.config.clone())),
                _ => panic!("Component not implemented: {:?}", component),
            };
            self.router.register_entity(entity);
        }
        for sink in sinks.iter() {
            assert!(!self.sinks.contains(sink), "Sink already exists: {:?}", sink);
            assert!(
                self.router.get_entity(*sink).is_none(),
                "Sink already registered as entity: {:?}",
                sink
            );
            self.sinks.push(*sink);
            self.router.register_entity(StackEntity::Sink(Sink::new(*sink)));
        }
    }

    fn run_stack(&mut self, num_ticks: Option<usize>) {
        self.router.run_stack(num_ticks.unwrap()).unwrap();
    }

    fn submit_message(&mut self, message: SapMsg) {
        self.router.submit_message(message);
    }

    fn dump_sinks(&mut self) -> Vec<SapMsg> {
        let mut msgs = vec![];
        for sink in self.sinks.iter() {
            let mut sink_msgs = self.router.dump_sink(*sink);
            msgs.append(&mut sink_msgs);
        }
        msgs
    }
}

/// Helper: register a subscriber on a GSSI so CMCE accepts calls for that group.
fn register_subscriber(test: &mut ComponentTest, dltime: TdmaTime, issi: u32, gssi: u32) {
    let register = SapMsg {
        sap: Sap::Control,
        src: TetraEntity::Mm,
        dest: TetraEntity::Cmce,
        dltime,
        msg: SapMsgInner::MmSubscriberUpdate(MmSubscriberUpdate {
            issi,
            groups: vec![],
            action: BrewSubscriberAction::Register,
        }),
    };
    test.submit_message(register);
    test.run_stack(Some(1));

    let affiliate = SapMsg {
        sap: Sap::Control,
        src: TetraEntity::Mm,
        dest: TetraEntity::Cmce,
        dltime,
        msg: SapMsgInner::MmSubscriberUpdate(MmSubscriberUpdate {
            issi,
            groups: vec![gssi],
            action: BrewSubscriberAction::Affiliate,
        }),
    };
    test.submit_message(affiliate);
    test.run_stack(Some(1));
    test.dump_sinks();
}

fn group_call_request(dest_gssi: u32) -> USetup {
    USetup {
        area_selection: 0,
        hook_method_selection: false,
        simplex_duplex_selection: false,
        basic_service_information: BasicServiceInformation {
            circuit_mode_type: CircuitModeType::TchS,
            encryption_flag: false,
            communication_type: CommunicationType::P2Mp,
            slots_per_frame: None,
            speech_service: Some(0),
        },
        request_to_transmit_send_data: false,
        call_priority: 0,
        clir_control: 0,
        called_party_type_identifier: 1,
        called_party_ssi: Some(dest_gssi as u64),
        called_party_short_number_address: None,
        called_party_extension: None,
    }
}

/// Helper: build a U-SETUP SAP message for a group call.
fn build_u_setup_msg(dltime: TdmaTime, calling_issi: u32, dest_gssi: u32) -> SapMsg {
    let u_setup = group_call_request(dest_gssi);

    let mut sdu = BitBuffer::new_autoexpand(80);
    u_setup.to_bitbuf(&mut sdu).expect("Failed to serialize USetup");
    sdu.seek(0);

    SapMsg {
        sap: Sap::LcmcSap,
        src: TetraEntity::Mle,
        dest: TetraEntity::Cmce,
        dltime,
        msg: SapMsgInner::LcmcMleUnitdataInd(LcmcMleUnitdataInd {
            sdu,
            handle: 1,
            endpoint_id: 1,
            link_id: 1,
            received_tetra_address: TetraAddress::new(calling_issi, SsiType::Issi),
            chan_change_resp_req: false,
            chan_change_handle: None,
        }),
    }
}

/// Extract tx_reporters from D-SETUP messages in the sink output.
/// D-SETUPs are identified as LcmcMleUnitdataReq with a chan_alloc that has a usage field.
fn extract_d_setup_reporters(msgs: &mut Vec<SapMsg>) -> Vec<TxReporter> {
    let mut reporters = vec![];
    for msg in msgs.iter_mut() {
        if msg.dest == TetraEntity::Mle {
            if let SapMsgInner::LcmcMleUnitdataReq(ref mut prim) = msg.msg {
                if prim.chan_alloc.as_ref().is_some_and(|ca| ca.usage.is_some()) {
                    if let Some(reporter) = prim.tx_reporter.take() {
                        reporters.push(reporter);
                    }
                }
            }
        }
    }
    reporters
}

/// Count D-SETUP messages in sink output without taking reporters.
fn count_d_setups(msgs: &[SapMsg]) -> usize {
    msgs.iter()
        .filter(|msg| {
            msg.dest == TetraEntity::Mle
                && matches!(&msg.msg, SapMsgInner::LcmcMleUnitdataReq(prim)
                    if prim.chan_alloc.as_ref().is_some_and(|ca| ca.usage.is_some()))
        })
        .count()
}

/// Test that late-entry D-SETUP re-sends are throttled when the previous
/// D-SETUP's TxReceipt is still in Pending state (UMAC hasn't transmitted it yet),
/// and that they resume once the receipt reaches a final state.
#[test]
fn test_dsetup_late_entry_throttle() {
    // Start at timeslot 1 so circuit creation aligns cleanly with tick_start checks
    let dltime = TdmaTime { h: 0, m: 1, f: 1, t: 1 };
    let mut test = ComponentTest::new(StackMode::Bs, Some(dltime));

    let components = vec![TetraEntity::Cmce];
    let sinks = vec![TetraEntity::Mle, TetraEntity::Umac, TetraEntity::Brew];
    test.populate_entities(components, sinks);

    register_subscriber(&mut test, dltime, TEST_ISSI, TEST_GSSI);

    // Send U-SETUP to start a group call
    let u_setup_msg = build_u_setup_msg(dltime, TEST_ISSI, TEST_GSSI);
    test.submit_message(u_setup_msg);
    test.run_stack(Some(1));

    // Collect initial output — should contain D-SETUP (initial send with no tracked receipt)
    let initial_msgs = test.dump_sinks();
    let initial_setups = count_d_setups(&initial_msgs);
    assert!(initial_setups > 0, "Expected initial D-SETUP after U-SETUP");

    // Run a few more ticks to get through the D_SETUP_REPEATS backup window.
    // The backup send goes through (receipt is None) and creates a tracked receipt.
    test.run_stack(Some(8));
    let mut backup_msgs = test.dump_sinks();
    let backup_reporters = extract_d_setup_reporters(&mut backup_msgs);

    // We should have at least one reporter from the backup send
    assert!(
        !backup_reporters.is_empty(),
        "Expected backup D-SETUP with tx_reporter in initial window"
    );
    let last_reporter = &backup_reporters[backup_reporters.len() - 1];
    assert_eq!(last_reporter.get_state(), TxState::Pending);

    // Run for 2 full late-entry intervals (720 ticks). With the receipt still Pending,
    // ALL late-entry D-SETUPs should be suppressed.
    test.run_stack(Some(720));
    let throttled_msgs = test.dump_sinks();
    let throttled_count = count_d_setups(&throttled_msgs);
    assert_eq!(
        throttled_count, 0,
        "Late-entry D-SETUPs should be suppressed while receipt is Pending"
    );

    // Now mark the previous D-SETUP as transmitted (simulating UMAC sending it over the air)
    last_reporter.mark_transmitted().unwrap();

    // Run for 2 more late-entry intervals. Now D-SETUPs should go through.
    test.run_stack(Some(720));
    let mut unthrottled_msgs = test.dump_sinks();
    let unthrottled_count = count_d_setups(&unthrottled_msgs);
    assert!(
        unthrottled_count > 0,
        "Late-entry D-SETUPs should resume once receipt reaches final state"
    );

    // Each re-send that went through should have created a fresh reporter
    let new_reporters = extract_d_setup_reporters(&mut unthrottled_msgs);
    assert_eq!(
        new_reporters.len(),
        unthrottled_count,
        "Each re-sent D-SETUP should carry a fresh tx_reporter"
    );
}

#[test]
fn d_setup_tells_the_group_of_the_call() {
    let dltime = TdmaTime { h: 0, m: 1, f: 1, t: 1 };
    let mut test = ComponentTest::new(StackMode::Bs, Some(dltime));
    test.populate_entities(vec![TetraEntity::Cmce], vec![TetraEntity::Mle]);
    register_subscriber(&mut test, dltime, TEST_ISSI, TEST_GSSI);
    test.submit_message(build_u_setup_msg(dltime, TEST_ISSI, TEST_GSSI));
    test.run_stack(Some(1));

    let msgs = test.dump_sinks();
    assert_eq!(msgs.len(), 1);
    let msg = msgs.into_iter().next().unwrap();
    assert_eq!(msg.sap, Sap::LcmcSap);
    assert_eq!(msg.src, TetraEntity::Cmce);
    assert_eq!(msg.dest, TetraEntity::Mle);
    assert_eq!(msg.dltime, dltime);
    let SapMsgInner::LcmcMleUnitdataReq(mut req) = msg.msg else {
        panic!("not a request");
    };
    assert!(req.tx_reporter.is_none());
    let chan_alloc = req.chan_alloc.unwrap();
    assert_eq!(chan_alloc.usage, Some(5));
    assert_eq!(chan_alloc.timeslot, 2);
    assert_eq!(req.sdu.get_pos(), 0);
    let pdu = DSetup::from_bitbuf(&mut req.sdu).unwrap();
    assert_eq!(
        pdu,
        DSetup {
            call_identifier: 1,
            call_time_out: 0,
            hook_method_selection: false,
            simplex_duplex_selection: false,
            basic_service_information: group_call_request(TEST_GSSI).basic_service_information,
            transmission_grant: 0,
            transmission_request_permission: false,
            call_priority: 0,
            notification_indicator: None,
            temporary_address: None,
            calling_party_type_identifier: Some(1),
            calling_party_address_ssi: Some(TEST_ISSI as u64),
            calling_party_extension: None,
        }
    );
    assert_eq!(req.sdu.get_len_remaining(), 0);
}

#[test]
fn call_for_a_group_without_members_is_not_set_up() {
    let dltime = TdmaTime { h: 0, m: 1, f: 1, t: 1 };
    let mut test = ComponentTest::new(StackMode::Bs, Some(dltime));
    test.populate_entities(vec![TetraEntity::Cmce], vec![TetraEntity::Mle]);
    register_subscriber(&mut test, dltime, TEST_ISSI, TEST_GSSI);
    test.submit_message(build_u_setup_msg(dltime, TEST_ISSI, TEST_GSSI + 1));
    test.run_stack(Some(20));
    assert_eq!(test.dump_sinks().len(), 0);
}

#[test]
fn detached_group_has_no_members_left() {
    let config = SharedConfig::from_config(default_test_config_bs());
    let mut cmce = CmceBs::new(config);
    let mut queue = MessageQueue::new();
    let dltime = TdmaTime::default();
    let update = |action, groups: Vec<u32>| MmSubscriberUpdate { issi: TEST_ISSI, groups, action };
    cmce.rx_subscriber_update(&update(BrewSubscriberAction::Register, vec![]));
    cmce.rx_subscriber_update(&update(BrewSubscriberAction::Affiliate, vec![91, 92]));
    cmce.rx_lcmc_mle_unitdata_ind(&mut queue, build_u_setup_msg(dltime, TEST_ISSI, 92));
    assert_eq!(queue.len(), 1);
    assert_eq!(cmce.num_calls(), 1);
    cmce.rx_subscriber_update(&update(BrewSubscriberAction::Detach, vec![92]));
    cmce.rx_lcmc_mle_unitdata_ind(&mut queue, build_u_setup_msg(dltime, TEST_ISSI, 92));
    assert_eq!(queue.len(), 1);
    cmce.rx_lcmc_mle_unitdata_ind(&mut queue, build_u_setup_msg(dltime, TEST_ISSI, 91));
    assert_eq!(queue.len(), 2);
    assert_eq!(cmce.num_calls(), 2);
    cmce.rx_subscriber_update(&update(BrewSubscriberAction::Deregister, vec![]));
    cmce.rx_lcmc_mle_unitdata_ind(&mut queue, build_u_setup_msg(dltime, TEST_ISSI, 91));
    assert_eq!(queue.len(), 2);
}

#[test]
fn other_cmce_pdus_are_dropped() {
    let dltime = TdmaTime { h: 0, m: 1, f: 1, t: 1 };
    let mut test = ComponentTest::new(StackMode::Bs, Some(dltime));
    test.populate_entities(vec![TetraEntity::Cmce], vec![TetraEntity::Mle]);
    let mut msg = build_u_setup_msg(dltime, TEST_ISSI, TEST_GSSI);
    if let SapMsgInner::LcmcMleUnitdataInd(ref mut prim) = msg.msg {
        // U-ALERT, a reserved type, too few bits
        prim.sdu = BitBuffer::from_bitstr("00000000");
    }
    test.submit_message(msg);
    let mut msg = build_u_setup_msg(dltime, TEST_ISSI, TEST_GSSI);
    if let SapMsgInner::LcmcMleUnitdataInd(ref mut prim) = msg.msg {
        prim.sdu = BitBuffer::from_bitstr("00001000");
    }
    test.submit_message(msg);
    let mut msg = build_u_setup_msg(dltime, TEST_ISSI, TEST_GSSI);
    if let SapMsgInner::LcmcMleUnitdataInd(ref mut prim) = msg.msg {
        prim.sdu = BitBuffer::from_bitstr("0011");
    }
    test.submit_message(msg);
    test.run_stack(Some(3));
    assert_eq!(test.dump_sinks().len(), 0);
}

#[test]
fn late_entry_gives_up_after_its_repeats() {
    let dltime = TdmaTime { h: 0, m: 1, f: 1, t: 1 };
    let mut test = ComponentTest::new(StackMode::Bs, Some(dltime));
    test.populate_entities(vec![TetraEntity::Cmce], vec![TetraEntity::Mle]);
    register_subscriber(&mut test, dltime, TEST_ISSI, TEST_GSSI);
    test.submit_message(build_u_setup_msg(dltime, TEST_ISSI, TEST_GSSI));
    test.run_stack(Some(1));
    assert_eq!(count_d_setups(&test.dump_sinks()), 1);
    // Report every copy as transmitted as soon as it appears.
    let mut copies = 0;
    for _ in 0..(D_SETUP_REPEATS as usize + 3) {
        test.run_stack(Some(LATE_ENTRY_INTERVAL as usize));
        let mut msgs = test.dump_sinks();
        for reporter in extract_d_setup_reporters(&mut msgs) {
            reporter.mark_transmitted().unwrap();
            copies += 1;
        }
    }
    assert_eq!(copies, D_SETUP_REPEATS as usize);
}

#[test]
fn emission_is_held_back_only_by_a_receipt_that_is_not_final() {
    assert!(may_emit(None));
    assert!(may_emit(Some(true)));
    assert!(!may_emit(Some(false)));
}

#[test]
fn turn_of_a_call() {
    let start = TdmaTime { h: 0, m: 1, f: 1, t: 1 };
    let schedule = LateEntrySchedule::starting(start);
    let backup = start.add_timeslots(D_SETUP_BACKUP_DELAY as i32);
    for retained in [None, Some(false), Some(true)] {
        assert_eq!(schedule.turn(start, retained), Turn::Rest);
    }
    assert_eq!(schedule.turn(backup, None), Turn::Sent);
    assert_eq!(schedule.turn(backup, Some(true)), Turn::Sent);
    assert_eq!(schedule.turn(backup, Some(false)), Turn::HeldBack);
}

#[test]
fn schedule_of_a_call() {
    let start = TdmaTime { h: 0, m: 1, f: 1, t: 1 };
    let schedule = LateEntrySchedule::starting(start);
    assert!(!schedule.due(start));
    assert!(!schedule.due(start.add_timeslots(D_SETUP_BACKUP_DELAY as i32 - 1)));
    let backup = start.add_timeslots(D_SETUP_BACKUP_DELAY as i32);
    assert_eq!(backup, TdmaTime { h: 0, m: 1, f: 2, t: 1 });
    assert!(schedule.due(backup));
    assert!(schedule.due(backup.add_timeslots(1000)));
    // Half a cycle later it counts as not yet due.
    assert!(!schedule.due(backup.add_timeslots(138240)));

    let held = schedule.held_back(backup);
    assert!(!held.due(backup.add_timeslots(LATE_ENTRY_INTERVAL as i32 - 1)));
    assert!(held.due(backup.add_timeslots(LATE_ENTRY_INTERVAL as i32)));

    let mut schedule = Some(schedule);
    let mut sent = 0;
    while let Some(s) = schedule {
        schedule = s.sent(backup);
        sent += 1;
    }
    assert_eq!(sent, D_SETUP_REPEATS);
}

#[test]
fn supplementary_services_drop_what_they_get() {
    let mut ss = SsSubentity::new();
    let mut queue = MessageQueue::new();
    ss.route_re_deliver(&mut queue, build_u_setup_msg(TdmaTime::default(), 1, 2));
    assert_eq!(queue.len(), 0);
}
