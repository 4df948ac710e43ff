use bluestation::address::{SsiType, TetraAddress};
use bluestation::bitbuffer::BitBuffer;
use bluestation::config::stack_config::{
    CfgCellInfo, CfgNetInfo, CfgPhyIo, PhyBackend, SharedConfig, StackConfig, StackMode,
};
use bluestation::entities::sink::Sink;
use bluestation::entities::{StackEntity, TetraEntityTrait};
use bluestation::messagerouter::{MessageQueue, MessageRouter, RouterFault, DEFAULT_DELIVERY_CAP};
use bluestation::saps::lmm::LmmMleUnitdataInd;
use bluestation::saps::sapmsg::{SapMsg, SapMsgInner};
use bluestation::stack::build_bs_stack;
use bluestation::tdma_time::TdmaTime;
use bluestation::tetra_common::Sap;
use bluestation::tetra_entities::TetraEntity;
use std::sync::{Arc, Mutex};

fn test_config() -> SharedConfig {
    SharedConfig::from_config(StackConfig {
        stack_mode: StackMode::Bs,
        phy_io: CfgPhyIo { backend: PhyBackend::NoBackend, input_file: None, soapysdr: None },
        net: CfgNetInfo { mcc: 204, mnc: 1337 },
        cell: CfgCellInfo::default(),
    })
}

/// A primitive that is told from others by its handle.
fn numbered(handle: u32, src: TetraEntity, dest: TetraEntity, dltime: TdmaTime) -> SapMsg {
    SapMsg {
        sap: Sap::LmmSap,
        src,
        dest,
        dltime,
        msg: SapMsgInner::LmmMleUnitdataInd(LmmMleUnitdataInd {
            sdu: BitBuffer::new(0),
            handle,
            received_address: TetraAddress::new(0, SsiType::Issi),
        }),
    }
}

fn handle_of(msg: &SapMsg) -> u32 {
    match &msg.msg {
        SapMsgInner::LmmMleUnitdataInd(prim) => prim.handle,
        _ => panic!("not numbered"),
    }
}

#[derive(Debug, Clone, PartialEq, Eq)]
enum Seen {
    Start(TetraEntity, TdmaTime),
    End(TetraEntity, TdmaTime),
    Rx(TetraEntity, u32),
    Config(TetraEntity, u16),
}

/// An entity that writes down every turn it gets, and on a primitive with a
/// handle below `fan_out` sends two more to `peer`.
struct Probe {
    id: TetraEntity,
    peer: TetraEntity,
    log: Arc<Mutex<Vec<Seen>>>,
    at_start: Vec<u32>,
    at_end: Vec<u32>,
    fan_out: u32,
    stop_at: Option<TdmaTime>,
    picky: bool,
}

impl Probe {
    fn new(id: TetraEntity, peer: TetraEntity, log: &Arc<Mutex<Vec<Seen>>>) -> Probe {
        Probe {
            id,
            peer,
            log: log.clone(),
            at_start: vec![],
            at_end: vec![],
            fan_out: 0,
            stop_at: None,
            picky: false,
        }
    }
}

impl TetraEntityTrait for Probe {
    fn spec_entity(&self) -> TetraEntity {
        self.id
    }

    fn entity(&self) -> TetraEntity {
        self.id
    }

    fn accepts(&self, message: &SapMsg) -> bool {
        !self.picky || message.sap == Sap::LmmSap
    }

    fn can_accept(&self, message: &SapMsg) -> bool {
        self.accepts(message)
    }

    fn as_sink(&mut self) -> Option<&mut Sink> {
        None
    }

    fn spec_may_stop(&self) -> bool {
        self.stop_at.is_some()
    }

    fn set_config(&mut self, config: SharedConfig) {
        self.log.lock().unwrap().push(Seen::Config(self.id, config.config().net.mcc));
    }

    fn rx_prim(&mut self, queue: &mut MessageQueue, message: SapMsg) {
        let handle = handle_of(&message);
        self.log.lock().unwrap().push(Seen::Rx(self.id, handle));
        if handle < self.fan_out {
            queue.push_back(numbered(handle * 2 + 1, self.id, self.peer, message.dltime));
            queue.push_back(numbered(handle * 2 + 2, self.id, self.peer, message.dltime));
        }
    }

    fn tick_start(&mut self, queue: &mut MessageQueue, ts: Option<TdmaTime>) {
        let now = ts.unwrap();
        self.log.lock().unwrap().push(Seen::Start(self.id, now));
        for handle in self.at_start.drain(..) {
            queue.push_back(numbered(handle, self.id, self.peer, now));
        }
    }

    fn tick_end(&mut self, queue: &mut MessageQueue, ts: Option<TdmaTime>) -> bool {
        let now = ts.unwrap();
        self.log.lock().unwrap().push(Seen::End(self.id, now));
        for handle in self.at_end.drain(..) {
            queue.push_back(numbered(handle, self.id, self.peer, now));
        }
        self.stop_at == Some(now)
    }
}

fn other(probe: Probe) -> StackEntity {
    StackEntity::Other(Box::new(probe))
}

#[test]
fn every_tick_starts_all_then_ends_all() {
    let log = Arc::new(Mutex::new(vec![]));
    let mut router = MessageRouter::new(test_config());
    router.register_entity(other(Probe::new(TetraEntity::Umac, TetraEntity::Llc, &log)));
    router.register_entity(other(Probe::new(TetraEntity::Llc, TetraEntity::Umac, &log)));
    router.register_entity(other(Probe::new(TetraEntity::Mle, TetraEntity::Llc, &log)));
    assert_eq!(router.run_stack(3), Ok(3));

    let t0 = TdmaTime { h: 0, m: 1, f: 1, t: 1 };
    let mut expected = vec![];
    for n in 0..3 {
        let now = t0.add_timeslots(n);
        for id in [TetraEntity::Umac, TetraEntity::Llc, TetraEntity::Mle] {
            expected.push(Seen::Start(id, now));
        }
        for id in [TetraEntity::Umac, TetraEntity::Llc, TetraEntity::Mle] {
            expected.push(Seen::End(id, now));
        }
    }
    assert_eq!(*log.lock().unwrap(), expected);
    assert_eq!(router.get_dl_time(), TdmaTime { h: 0, m: 1, f: 1, t: 4 });
}

#[test]
fn primitives_are_delivered_first_in_first_out() {
    let log = Arc::new(Mutex::new(vec![]));
    let mut router = MessageRouter::new(test_config());
    let mut a = Probe::new(TetraEntity::Umac, TetraEntity::Llc, &log);
    a.fan_out = 3;
    let mut b = Probe::new(TetraEntity::Llc, TetraEntity::Umac, &log);
    b.fan_out = 3;
    router.register_entity(other(a));
    router.register_entity(other(b));
    let now = TdmaTime::default();
    // 0 fans out to 1 and 2, which fan out to 3, 4 and 5, 6: breadth first.
    router.submit_message(numbered(0, TetraEntity::Llc, TetraEntity::Umac, now));
    router.submit_message(numbered(100, TetraEntity::Mle, TetraEntity::Llc, now));
    assert_eq!(router.get_msgqueue_len(), 2);
    assert_eq!(router.deliver_all_messages(), Ok(8));
    assert_eq!(router.get_msgqueue_len(), 0);
    let seen: Vec<u32> = log
        .lock()
        .unwrap()
        .iter()
        .map(|s| match s {
            Seen::Rx(_, handle) => *handle,
            other => panic!("unexpected turn: {:?}", other),
        })
        .collect();
    assert_eq!(seen, vec![0, 100, 1, 2, 3, 4, 5, 6]);
}

#[test]
fn what_the_turns_enqueue_is_delivered_in_the_same_tick() {
    let log = Arc::new(Mutex::new(vec![]));
    let mut router = MessageRouter::new(test_config());
    let mut a = Probe::new(TetraEntity::Umac, TetraEntity::Llc, &log);
    a.at_start = vec![1, 2];
    a.at_end = vec![3];
    router.register_entity(other(a));
    router.register_entity(other(Probe::new(TetraEntity::Llc, TetraEntity::Umac, &log)));
    assert_eq!(router.tick(), Ok(false));
    let now = TdmaTime::default();
    assert_eq!(
        *log.lock().unwrap(),
        vec![
            Seen::Start(TetraEntity::Umac, now),
            Seen::Start(TetraEntity::Llc, now),
            Seen::Rx(TetraEntity::Llc, 1),
            Seen::Rx(TetraEntity::Llc, 2),
            Seen::End(TetraEntity::Umac, now),
            Seen::End(TetraEntity::Llc, now),
            Seen::Rx(TetraEntity::Llc, 3),
        ]
    );
    assert_eq!(router.get_msgqueue_len(), 0);
}

#[test]
fn any_entity_can_stop_the_run() {
    let log = Arc::new(Mutex::new(vec![]));
    let mut router = MessageRouter::new(test_config());
    let mut a = Probe::new(TetraEntity::Umac, TetraEntity::Llc, &log);
    a.stop_at = Some(TdmaTime { h: 0, m: 1, f: 1, t: 3 });
    router.register_entity(other(a));
    router.register_entity(other(Probe::new(TetraEntity::Llc, TetraEntity::Umac, &log)));
    assert_eq!(router.run_stack(10), Ok(3));
    // The entity after the one that stops still had its turn in that tick.
    assert_eq!(
        log.lock().unwrap().last(),
        Some(&Seen::End(TetraEntity::Llc, TdmaTime { h: 0, m: 1, f: 1, t: 3 }))
    );
    assert_eq!(router.get_dl_time(), TdmaTime { h: 0, m: 1, f: 1, t: 4 });
    assert_eq!(router.run_stack(0), Ok(0));
}

#[test]
fn unknown_destination_is_dropped() {
    let mut router = MessageRouter::new(test_config());
    router.register_entity(StackEntity::Sink(Sink::new(TetraEntity::Mle)));
    let now = TdmaTime::default();
    router.submit_message(numbered(1, TetraEntity::Mm, TetraEntity::Mle, now));
    router.submit_message(numbered(2, TetraEntity::Mm, TetraEntity::Llc, now));
    router.submit_message(numbered(3, TetraEntity::Mm, TetraEntity::Mle, now));
    assert_eq!(router.deliver_all_messages(), Ok(3));
    let captured: Vec<u32> = router.dump_sink(TetraEntity::Mle).iter().map(handle_of).collect();
    assert_eq!(captured, vec![1, 3]);
    assert_eq!(router.dump_sink(TetraEntity::Mle).len(), 0);
    assert_eq!(router.dump_sink(TetraEntity::Llc).len(), 0);
}

#[test]
fn runaway_delivery_hits_the_cap() {
    let log = Arc::new(Mutex::new(vec![]));
    let mut router = MessageRouter::new(test_config());
    let mut a = Probe::new(TetraEntity::Umac, TetraEntity::Umac, &log);
    a.fan_out = u32::MAX / 4;
    router.register_entity(other(a));
    router.set_delivery_cap(50);
    router.submit_message(numbered(0, TetraEntity::Llc, TetraEntity::Umac, TdmaTime::default()));
    assert_eq!(router.deliver_all_messages(), Err(RouterFault::DeliveryCapExceeded));
    assert_eq!(log.lock().unwrap().len(), 50);
    assert_eq!(router.get_msgqueue_len(), 51);
}

#[test]
fn refusal_is_a_fault_and_the_clock_moves_on() {
    let log = Arc::new(Mutex::new(vec![]));
    let mut router = MessageRouter::new(test_config());
    let mut a = Probe::new(TetraEntity::Umac, TetraEntity::Llc, &log);
    a.picky = true;
    router.register_entity(other(a));
    let mut message = numbered(0, TetraEntity::Llc, TetraEntity::Umac, TdmaTime::default());
    message.sap = Sap::TmaSap;
    router.submit_message(message);
    assert_eq!(
        router.tick(),
        Err(RouterFault::Refused { dest: TetraEntity::Umac, sap: Sap::TmaSap })
    );
    assert_eq!(router.get_dl_time(), TdmaTime { h: 0, m: 1, f: 1, t: 2 });
    assert_eq!(router.tick(), Ok(false));
}

#[test]
fn registering_twice_replaces() {
    let mut router = MessageRouter::new(test_config());
    assert!(router.get_entity(TetraEntity::Mle).is_none());
    assert_eq!(router.register_entity(StackEntity::Sink(Sink::new(TetraEntity::Mle))), TetraEntity::Mle);
    assert_eq!(router.register_entity(StackEntity::Sink(Sink::new(TetraEntity::Llc))), TetraEntity::Llc);
    assert_eq!(router.get_entity(TetraEntity::Mle).unwrap().entity(), TetraEntity::Mle);
    let now = TdmaTime::default();
    router.submit_message(numbered(1, TetraEntity::Mm, TetraEntity::Mle, now));
    router.deliver_all_messages().unwrap();
    // The new sink takes the place of the old one, and has captured nothing.
    router.register_entity(StackEntity::Sink(Sink::new(TetraEntity::Mle)));
    assert_eq!(router.dump_sink(TetraEntity::Mle).len(), 0);
}

#[test]
fn router_defaults() {
    let mut router: MessageRouter<StackEntity> = MessageRouter::new(test_config());
    assert_eq!(router.get_dl_time(), TdmaTime { h: 0, m: 1, f: 1, t: 1 });
    assert_eq!(router.get_msgqueue_len(), 0);
    assert_eq!(DEFAULT_DELIVERY_CAP, 100_000);
    router.set_dl_time(TdmaTime { h: 63, m: 60, f: 18, t: 4 });
    assert_eq!(router.tick(), Ok(false));
    assert_eq!(router.get_dl_time(), TdmaTime { h: 0, m: 1, f: 1, t: 1 });
    router.set_config(test_config());
}

#[test]
fn base_station_stack() {
    let log = Arc::new(Mutex::new(vec![]));
    let cfg = test_config();
    let phy = other(Probe::new(TetraEntity::Phy, TetraEntity::Lmac, &log));
    let lmac = other(Probe::new(TetraEntity::Lmac, TetraEntity::Umac, &log));
    let umac = other(Probe::new(TetraEntity::Umac, TetraEntity::Llc, &log));
    let llc = other(Probe::new(TetraEntity::Llc, TetraEntity::Mle, &log));
    let mle = StackEntity::Sink(Sink::new(TetraEntity::Mle));
    let mut router = build_bs_stack(&cfg, phy, lmac, umac, llc, mle);
    let all = [
        TetraEntity::Phy,
        TetraEntity::Lmac,
        TetraEntity::Umac,
        TetraEntity::Llc,
        TetraEntity::Mle,
        TetraEntity::Mm,
        TetraEntity::Sndcp,
        TetraEntity::Cmce,
    ];
    for id in all {
        assert_eq!(router.get_entity(id).unwrap().entity(), id);
    }
    assert!(router.get_entity(TetraEntity::Brew).is_none());
    assert_eq!(router.get_dl_time(), TdmaTime::default());
    assert_eq!(router.run_stack(1), Ok(1));
    // The turns go round in the order of registration.
    let now = TdmaTime::default();
    assert_eq!(
        *log.lock().unwrap(),
        vec![
            Seen::Start(TetraEntity::Phy, now),
            Seen::Start(TetraEntity::Lmac, now),
            Seen::Start(TetraEntity::Umac, now),
            Seen::Start(TetraEntity::Llc, now),
            Seen::End(TetraEntity::Phy, now),
            Seen::End(TetraEntity::Lmac, now),
            Seen::End(TetraEntity::Umac, now),
            Seen::End(TetraEntity::Llc, now),
        ]
    );
    // What mobility management answers reaches the MLE.
    let mut status = numbered(0, TetraEntity::Mle, TetraEntity::Mm, router.get_dl_time());
    if let SapMsgInner::LmmMleUnitdataInd(prim) = &mut status.msg {
        prim.sdu = BitBuffer::from_bitstr("00110000010010");
    }
    router.submit_message(status);
    assert_eq!(router.run_stack(1), Ok(1));
    let answers = router.dump_sink(TetraEntity::Mle);
    assert_eq!(answers.len(), 1);
    assert_eq!(answers[0].src, TetraEntity::Mm);
    assert_eq!(answers[0].dest, TetraEntity::Mle);
}

#[test]
fn queue_grows_at_its_end() {
    let mut queue = MessageQueue::new();
    assert!(queue.is_empty());
    let now = TdmaTime::default();
    queue.push_back(numbered(1, TetraEntity::Mm, TetraEntity::Mle, now));
    queue.push_back(numbered(2, TetraEntity::Mm, TetraEntity::Mle, now));
    assert_eq!(queue.len(), 2);
    assert!(!queue.is_empty());
}

fn config_of_network(mcc: u16) -> SharedConfig {
    SharedConfig::from_config(StackConfig {
        stack_mode: StackMode::Bs,
        phy_io: CfgPhyIo { backend: PhyBackend::NoBackend, input_file: None, soapysdr: None },
        net: CfgNetInfo { mcc, mnc: 1337 },
        cell: CfgCellInfo::default(),
    })
}

#[test]
fn set_config_reaches_every_entity() {
    let log = Arc::new(Mutex::new(vec![]));
    let mut router = MessageRouter::new(test_config());
    router.register_entity(other(Probe::new(TetraEntity::Umac, TetraEntity::Llc, &log)));
    router.register_entity(StackEntity::Sink(Sink::new(TetraEntity::Mle)));
    router.register_entity(other(Probe::new(TetraEntity::Llc, TetraEntity::Umac, &log)));
    router.set_config(config_of_network(901));
    assert_eq!(
        *log.lock().unwrap(),
        vec![Seen::Config(TetraEntity::Umac, 901), Seen::Config(TetraEntity::Llc, 901)]
    );
    assert_eq!(router.get_msgqueue_len(), 0);
    assert_eq!(router.dump_sink(TetraEntity::Mle).len(), 0);
}

#[test]
fn stack_entity_hands_the_primitive_on() {
    let mut queue = MessageQueue::new();
    let now = TdmaTime::default();
    let mut sink = StackEntity::Sink(Sink::new(TetraEntity::Mle));
    sink.rx_prim(&mut queue, numbered(7, TetraEntity::Mm, TetraEntity::Mle, now));
    sink.rx_prim(&mut queue, numbered(8, TetraEntity::Mm, TetraEntity::Mle, now));
    let captured = sink.as_sink().unwrap().take_msgqueue();
    assert_eq!(captured.iter().map(handle_of).collect::<Vec<u32>>(), vec![7, 8]);
    assert!(queue.is_empty());

    let log = Arc::new(Mutex::new(vec![]));
    let mut probe = Probe::new(TetraEntity::Umac, TetraEntity::Llc, &log);
    probe.fan_out = 1;
    let mut outside = other(probe);
    outside.rx_prim(&mut queue, numbered(0, TetraEntity::Llc, TetraEntity::Umac, now));
    assert_eq!(*log.lock().unwrap(), vec![Seen::Rx(TetraEntity::Umac, 0)]);
    assert_eq!(queue.len(), 2);
    assert!(outside.as_sink().is_none());
}

#[test]
fn stack_entity_hands_the_turns_on() {
    let mut queue = MessageQueue::new();
    let now = TdmaTime { h: 0, m: 1, f: 2, t: 3 };
    let cfg = test_config();
    let mut quiet = vec![
        StackEntity::MmBs(bluestation::entities::mm::mm_bs::MmBs::new(cfg.clone())),
        StackEntity::MmMs(bluestation::entities::mm::mm_ms::MmMs::new(cfg.clone())),
        StackEntity::CmceBs(bluestation::entities::cmce::cmce_bs::CmceBs::new(cfg.clone())),
        StackEntity::Sndcp(bluestation::entities::sndcp::sndcp_bs::Sndcp::new(cfg.clone())),
        StackEntity::Sink(Sink::new(TetraEntity::Mle)),
    ];
    for entity in quiet.iter_mut() {
        entity.tick_start(&mut queue, Some(now));
        assert!(!entity.tick_end(&mut queue, Some(now)));
        entity.set_config(config_of_network(901));
    }
    assert!(queue.is_empty());

    let log = Arc::new(Mutex::new(vec![]));
    let mut probe = Probe::new(TetraEntity::Umac, TetraEntity::Llc, &log);
    probe.at_start = vec![1];
    probe.stop_at = Some(now);
    let mut outside = other(probe);
    outside.tick_start(&mut queue, Some(now));
    assert!(outside.tick_end(&mut queue, Some(now)));
    outside.set_config(config_of_network(262));
    assert_eq!(
        *log.lock().unwrap(),
        vec![
            Seen::Start(TetraEntity::Umac, now),
            Seen::End(TetraEntity::Umac, now),
            Seen::Config(TetraEntity::Umac, 262)
        ]
    );
    assert_eq!(queue.len(), 1);
}

#[test]
fn stack_of_entities_that_never_ask_runs_every_tick() {
    let cfg = test_config();
    let mut router = build_bs_stack(
        &cfg,
        StackEntity::Sink(Sink::new(TetraEntity::Phy)),
        StackEntity::Sink(Sink::new(TetraEntity::Lmac)),
        StackEntity::Sink(Sink::new(TetraEntity::Umac)),
        StackEntity::Sink(Sink::new(TetraEntity::Llc)),
        StackEntity::Sink(Sink::new(TetraEntity::Mle)),
    );
    assert_eq!(router.run_stack(5), Ok(5));
    assert_eq!(router.get_dl_time(), TdmaTime { h: 0, m: 1, f: 2, t: 2 });
    router.set_config(config_of_network(901));
    assert_eq!(router.tick(), Ok(false));
}
