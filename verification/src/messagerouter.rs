//! The message queue and the router that owns the entities.

use crate::config::stack_config::SharedConfig;
use crate::entities::TetraEntityTrait;
use crate::saps::sapmsg::SapMsg;
use crate::tdma_time::TdmaTime;
use crate::tetra_common::Sap;
use crate::tetra_entities::TetraEntity;
use std::collections::VecDeque;
use vstd::prelude::*;

verus! {

/// The queue of primitives that wait for delivery, first in, first out. The
/// router owns it and lends it to one entity at a time, which may add
/// primitives at its end. Only the router takes primitives off it.
pub struct MessageQueue {
    queue: VecDeque<SapMsg>,
}

impl View for MessageQueue {
    type V = Seq<SapMsg>;

    /// The waiting primitives, the next to be delivered first.
    closed spec fn view(&self) -> Seq<SapMsg> {
        self.queue@
    }
}

impl MessageQueue {
    /// An empty queue.
    pub fn new() -> (q: MessageQueue)
        ensures
            q@ == Seq::<SapMsg>::empty(),
    {
        MessageQueue { queue: VecDeque::new() }
    }

    /// Adds a primitive at the end.
    pub fn push_back(&mut self, message: SapMsg)
        ensures
            final(self)@ == old(self)@.push(message),
    {
        self.queue.push_back(message);
    }

    /// Takes the first primitive off the queue.
    pub(crate) fn pop_front(&mut self) -> (r: Option<SapMsg>)
        ensures
            match r {
                Some(message) => old(self)@.len() > 0 && message == old(self)@.first()
                    && final(self)@ == old(self)@.drop_first(),
                None => old(self)@.len() == 0 && final(self)@ == old(self)@,
            },
    {
        let r = self.queue.pop_front();
        proof {
            if r is Some {
                assert(self.queue@ =~= old(self)@.drop_first());
            }
        }
        r
    }

    /// The number of waiting primitives.
    pub fn len(&self) -> (n: usize)
        ensures
            n == self@.len(),
    {
        self.queue.len()
    }

    /// Whether no primitive waits.
    pub fn is_empty(&self) -> (b: bool)
        ensures
            b == (self@.len() == 0),
    {
        self.queue.len() == 0
    }
}

/// The number of primitives that one run of delivery takes at most, unless the
/// router is told otherwise.
pub const DEFAULT_DELIVERY_CAP: usize = 100_000;

/// One turn that the router gave an entity: the start or the end of a tick,
/// with the number of the tick and the downlink time that the entity was told.
pub enum TickEvent {
    Start { entity: TetraEntity, tick: nat, time: TdmaTime },
    End { entity: TetraEntity, tick: nat, time: TdmaTime },
}

/// Why the router stopped inside a tick. Either one is a programming fault.
#[derive(Clone, Copy, Debug, PartialEq, Eq, Structural)]
pub enum RouterFault {
    /// The entity registered as `dest` does not take a primitive of this
    /// service access point and body.
    Refused { dest: TetraEntity, sap: Sap },
    /// Delivery took as many primitives as the cap allows and the queue was
    /// still not empty.
    DeliveryCapExceeded,
}

impl TickEvent {
    /// The entity whose turn it was.
    pub open spec fn entity(self) -> TetraEntity {
        match self {
            TickEvent::Start { entity, .. } => entity,
            TickEvent::End { entity, .. } => entity,
        }
    }

    /// The number of the tick.
    pub open spec fn tick(self) -> nat {
        match self {
            TickEvent::Start { tick, .. } => tick,
            TickEvent::End { tick, .. } => tick,
        }
    }

    /// Where a turn stands in time: the start of tick `n` at `2n`, its end at
    /// `2n + 1`.
    pub open spec fn rank(self) -> nat {
        match self {
            TickEvent::Start { tick, .. } => 2 * tick,
            TickEvent::End { tick, .. } => 2 * tick + 1,
        }
    }
}

/// The turns are in the order of time: no turn is followed by an earlier one.
pub open spec fn in_order(turns: Seq<TickEvent>) -> bool {
    forall|i: int, j: int| 0 <= i <= j < turns.len() ==> turns[i].rank() <= turns[j].rank()
}

/// The start turns of tick `n` at the time `time` for the entities `ids`, in
/// their order.
pub open spec fn starts(ids: Seq<TetraEntity>, n: nat, time: TdmaTime) -> Seq<TickEvent> {
    Seq::new(ids.len(), |i: int| TickEvent::Start { entity: ids[i], tick: n, time })
}

/// The end turns of tick `n` at the time `time` for the entities `ids`, in their
/// order.
pub open spec fn ends(ids: Seq<TetraEntity>, n: nat, time: TdmaTime) -> Seq<TickEvent> {
    Seq::new(ids.len(), |i: int| TickEvent::End { entity: ids[i], tick: n, time })
}

/// The turns of the whole tick `n` at the time `time` for the entities `ids`:
/// all start turns, then all end turns.
pub open spec fn whole_tick(ids: Seq<TetraEntity>, n: nat, time: TdmaTime) -> Seq<TickEvent> {
    starts(ids, n, time) + ends(ids, n, time)
}

/// The turns of the `n` whole ticks from tick `first` on, of which the first is
/// at the time `time` and each of the others one timeslot after the one before.
pub open spec fn whole_ticks(ids: Seq<TetraEntity>, first: nat, time: TdmaTime, n: nat) -> Seq<
    TickEvent,
>
    decreases n,
{
    if n == 0 {
        Seq::empty()
    } else {
        whole_ticks(ids, first, time, (n - 1) as nat) + whole_tick(
            ids,
            (first + n - 1) as nat,
            time.plus(n - 1),
        )
    }
}

/// A sequence that begins with `a` and is then given one more item, or none,
/// still begins with `a`, and keeps its items where they were.
pub proof fn lemma_prefix_grows<T>(a: Seq<T>, b: Seq<T>, c: Seq<T>)
    requires
        a.is_prefix_of(b),
        c == b || (c.len() == b.len() + 1 && c.drop_last() == b),
    ensures
        a.is_prefix_of(c),
        forall|k: int| 0 <= k < b.len() ==> c[k] == b[k],
{
    assert forall|k: int| 0 <= k < b.len() implies c[k] == b[k] by {
        if c != b {
            assert(c.drop_last()[k] == c[k]);
        }
    }
    assert forall|k: int| 0 <= k < a.len() implies c.subrange(0, a.len() as int)[k] == a[k] by {
        assert(b.subrange(0, a.len() as int)[k] == a[k]);
    }
    assert(c.subrange(0, a.len() as int) =~= a);
}

/// Of the primitives `taken` from place `from` on, those that were handed to
/// the entity `id`, in the order in which they were taken: `delivered` says of
/// each primitive taken whether it was handed to an entity.
pub open spec fn handed_to(
    taken: Seq<SapMsg>,
    delivered: Seq<bool>,
    id: TetraEntity,
    from: int,
) -> Seq<SapMsg>
    decreases taken.len(),
{
    if taken.len() == 0 || taken.len() <= from || delivered.len() != taken.len() {
        Seq::empty()
    } else {
        let rest = handed_to(taken.drop_last(), delivered.drop_last(), id, from);
        if delivered.last() && taken.last().dest == id {
            rest.push(taken.last())
        } else {
            rest
        }
    }
}

/// What was handed to an entity from a place on is what was handed to it up to
/// a later place, and then what was handed to it from there on.
pub proof fn lemma_handed_on(
    early: Seq<SapMsg>,
    early_delivered: Seq<bool>,
    taken: Seq<SapMsg>,
    delivered: Seq<bool>,
    id: TetraEntity,
    from: int,
)
    requires
        early.is_prefix_of(taken),
        early_delivered.is_prefix_of(delivered),
        early.len() == early_delivered.len(),
        taken.len() == delivered.len(),
        0 <= from <= early.len(),
    ensures
        handed_to(taken, delivered, id, from) == handed_to(early, early_delivered, id, from)
            + handed_to(taken, delivered, id, early.len() as int),
    decreases taken.len(),
{
    let n = early.len() as int;
    if taken.len() == n {
        assert(taken =~= early);
        assert(delivered =~= early_delivered);
        assert(handed_to(taken, delivered, id, from) =~= handed_to(early, early_delivered, id, from)
            + handed_to(taken, delivered, id, n));
    } else {
        let t = taken.drop_last();
        let d = delivered.drop_last();
        assert(t.subrange(0, n) =~= taken.subrange(0, n));
        assert(d.subrange(0, n) =~= delivered.subrange(0, n));
        lemma_handed_on(early, early_delivered, t, d, id, from);
        assert(handed_to(taken, delivered, id, from) =~= handed_to(early, early_delivered, id, from)
            + handed_to(taken, delivered, id, n));
    }
}

/// Where every primitive taken from place `from` on was addressed to `id` and
/// handed over, what was handed to `id` is all of them, in their order.
pub proof fn lemma_handed_all(
    taken: Seq<SapMsg>,
    delivered: Seq<bool>,
    id: TetraEntity,
    from: int,
)
    requires
        taken.len() == delivered.len(),
        0 <= from <= taken.len(),
        forall|k: int|
            from <= k < taken.len() ==> (#[trigger] taken[k]).dest == id && delivered[k],
    ensures
        handed_to(taken, delivered, id, from) == taken.subrange(from, taken.len() as int),
    decreases taken.len(),
{
    if taken.len() > from {
        let t = taken.drop_last();
        let d = delivered.drop_last();
        assert forall|k: int| from <= k < t.len() implies (#[trigger] t[k]).dest == id
            && d[k] by {
            assert(t[k] == taken[k] && d[k] == delivered[k]);
        }
        lemma_handed_all(t, d, id, from);
        assert(taken[taken.len() - 1].dest == id && delivered[taken.len() - 1]);
        assert(t.subrange(from, taken.len() - 1).push(taken.last()) =~= taken.subrange(
            from,
            taken.len() as int,
        ));
    } else {
        assert(taken.subrange(from, taken.len() as int) =~= Seq::<SapMsg>::empty());
    }
}

/// Whether a run ended because an entity refused a primitive.
pub open spec fn refused<T>(r: Result<T, RouterFault>) -> bool {
    r matches Err(RouterFault::Refused { .. })
}

/// No identity occurs twice.
pub open spec fn distinct(ids: Seq<TetraEntity>) -> bool {
    forall|i: int, j: int| 0 <= i < j < ids.len() ==> ids[i] != ids[j]
}

/// The router: it owns every entity, the queue and the clock, and gives the
/// entities their turns. `E` is the type of the entities: one type for all of
/// them, such as `StackEntity`.
///
/// Besides what it needs to run, the router keeps a record of what it has done:
/// the turns it has given and the primitives it has taken off the queue, each in
/// order. The record exists for the contracts only and costs nothing at run time.
pub struct MessageRouter<E: TetraEntityTrait> {
    config: SharedConfig,
    entities: Vec<E>,
    queue: MessageQueue,
    dltime: TdmaTime,
    delivery_cap: usize,
    ticks: Ghost<nat>,
    turns: Ghost<Seq<TickEvent>>,
    taken: Ghost<Seq<SapMsg>>,
    delivered: Ghost<Seq<bool>>,
    answers: Ghost<Seq<Seq<bool>>>,
}

impl<E: TetraEntityTrait> MessageRouter<E> {
    /// The identities of the registered entities, in the order of registration.
    pub closed spec fn identities(&self) -> Seq<TetraEntity> {
        Seq::new(self.entities@.len(), |i: int| self.entities@[i].spec_entity())
    }

    /// What the sink registered under `id` has captured and not yet handed out,
    /// oldest first; nothing where no sink is registered under `id`.
    pub closed spec fn captured_by(&self, id: TetraEntity) -> Seq<SapMsg> {
        if self.identities().contains(id) {
            self.kept()[self.place_of(id)]
        } else {
            Seq::empty()
        }
    }

    /// The configuration handle that the router holds.
    pub closed spec fn shared_config(&self) -> SharedConfig {
        self.config
    }

    /// The configuration handle that the entity registered under `id` holds;
    /// none where no entity is registered under `id`, or one that holds none.
    pub closed spec fn config_of(&self, id: TetraEntity) -> Option<SharedConfig> {
        if self.identities().contains(id) {
            self.configs()[self.place_of(id)]
        } else {
            None
        }
    }

    /// Whether an entity is registered that may ask the router to stop.
    pub closed spec fn may_stop(&self) -> bool {
        self.stoppers().contains(true)
    }

    /// Of each registered entity, in the order of registration, whether it may
    /// ask the router to stop.
    closed spec fn stoppers(&self) -> Seq<bool> {
        Seq::new(self.entities@.len(), |i: int| self.entities@[i].spec_may_stop())
    }

    /// The configuration handles of the registered entities, in the order of
    /// registration.
    closed spec fn configs(&self) -> Seq<Option<SharedConfig>> {
        Seq::new(self.entities@.len(), |i: int| self.entities@[i].spec_config())
    }

    /// Whether an entity is registered under `id` that takes `message`.
    pub closed spec fn takes(&self, id: TetraEntity, message: SapMsg) -> bool {
        self.identities().contains(id) && self.entities@[self.place_of(id)].accepts(&message)
    }

    /// Under every identity the same primitives are taken as in `before`.
    pub open spec fn takes_as(&self, before: MessageRouter<E>) -> bool {
        forall|id: TetraEntity, message: SapMsg|
            (#[trigger] self.takes(id, message)) == before.takes(id, message)
    }

    /// As `takes_as`, of the entity at each place.
    closed spec fn takers_as(&self, before: &MessageRouter<E>) -> bool {
        &&& self.entities@.len() == before.entities@.len()
        &&& forall|k: int, message: SapMsg|
            0 <= k < self.entities@.len() ==> (#[trigger] self.entities@[k].accepts(&message))
                == before.entities@[k].accepts(&message)
    }

    /// What holds of the entity at each place holds of the entity under each
    /// identity.
    proof fn lemma_takes_as(&self, before: &MessageRouter<E>)
        requires
            self.takers_as(before),
            self.identities() == before.identities(),
        ensures
            self.takes_as(*before),
    {
    }

    /// Whether a sink is registered under `id`.
    pub closed spec fn is_sink(&self, id: TetraEntity) -> bool {
        self.identities().contains(id) && self.sinks()[self.place_of(id)]
    }

    /// Of each registered entity, in the order of registration, whether it is a
    /// sink.
    closed spec fn sinks(&self) -> Seq<bool> {
        Seq::new(self.entities@.len(), |i: int| self.entities@[i].spec_captures())
    }

    /// What each registered entity has captured, in the order of registration.
    closed spec fn kept(&self) -> Seq<Seq<SapMsg>> {
        Seq::new(self.entities@.len(), |i: int| self.entities@[i].spec_captured())
    }

    /// What the sink registered under `id` has captured is what it had captured
    /// in `before`, and then the primitives that were handed to it since, in
    /// the order in which they were taken off the queue. Under an identity
    /// that is not that of a sink, nothing has changed.
    pub open spec fn captured_since(&self, before: MessageRouter<E>, id: TetraEntity) -> bool {
        self.captured_by(id) == if before.is_sink(id) {
            before.captured_by(id) + handed_to(
                self.taken(),
                self.delivered(),
                id,
                before.taken().len() as int,
            )
        } else {
            before.captured_by(id)
        }
    }

    /// As `captured_since`, of the entity at each place, for what was taken
    /// from place `from` on.
    closed spec fn kept_since(&self, before: &MessageRouter<E>, from: int) -> bool {
        &&& self.kept().len() == before.kept().len()
        &&& forall|k: int|
            0 <= k < self.kept().len() ==> #[trigger] self.kept()[k] == if before.sinks()[k] {
                before.kept()[k] + handed_to(
                    self.taken(),
                    self.delivered(),
                    before.identities()[k],
                    from,
                )
            } else {
                before.kept()[k]
            }
    }

    /// What holds of the entity at each place holds of the entity under each
    /// identity.
    proof fn lemma_captured_since(&self, before: &MessageRouter<E>)
        requires
            self.kept_since(before, before.taken().len() as int),
            self.identities() == before.identities(),
            self.sinks() == before.sinks(),
            distinct(self.identities()),
        ensures
            forall|id: TetraEntity| self.captured_since(*before, id),
            forall|id: TetraEntity| self.is_sink(id) == before.is_sink(id),
    {
        assert forall|id: TetraEntity| self.captured_since(*before, id) by {
            if self.identities().contains(id) {
                let k = self.identities().index_of(id);
                assert(self.identities()[k] == id);
                assert(self.kept()[k] == self.entities@[k].spec_captured());
                assert(before.kept()[k] == before.entities@[k].spec_captured());
            }
        }
    }

    /// One more primitive was taken since `earlier`: it was dropped or refused,
    /// or it was handed to the entity at `place`, which kept it if it is a
    /// sink.
    proof fn lemma_kept_on(
        &self,
        earlier: &MessageRouter<E>,
        before: &MessageRouter<E>,
        from: int,
        place: Option<int>,
    )
        requires
            earlier.kept_since(before, from),
            distinct(before.identities()),
            earlier.identities() == before.identities(),
            earlier.taken().len() == earlier.delivered().len(),
            0 <= from <= earlier.taken().len(),
            self.taken().len() == earlier.taken().len() + 1,
            self.taken().drop_last() == earlier.taken(),
            self.delivered().len() == earlier.delivered().len() + 1,
            self.delivered().drop_last() == earlier.delivered(),
            self.kept().len() == earlier.kept().len(),
            match place {
                None => !self.delivered().last() && self.kept() == earlier.kept(),
                Some(i) => {
                    &&& 0 <= i < self.kept().len()
                    &&& self.delivered().last()
                    &&& before.identities()[i] == self.taken().last().dest
                    &&& self.kept()[i] == if before.sinks()[i] {
                        earlier.kept()[i].push(self.taken().last())
                    } else {
                        earlier.kept()[i]
                    }
                    &&& forall|k: int|
                        0 <= k < self.kept().len() && k != i ==> self.kept()[k]
                            == earlier.kept()[k]
                },
            },
        ensures
            self.kept_since(before, from),
    {
        assert forall|k: int| 0 <= k < self.kept().len() implies #[trigger] self.kept()[k]
            == if before.sinks()[k] {
            before.kept()[k] + handed_to(
                self.taken(),
                self.delivered(),
                before.identities()[k],
                from,
            )
        } else {
            before.kept()[k]
        } by {
            let id = before.identities()[k];
            let rest = handed_to(earlier.taken(), earlier.delivered(), id, from);
            assert(earlier.kept()[k] == if before.sinks()[k] {
                before.kept()[k] + rest
            } else {
                before.kept()[k]
            });
            if before.sinks()[k] {
                if place == Some(k) {
                    assert(handed_to(self.taken(), self.delivered(), id, from) == rest.push(
                        self.taken().last(),
                    ));
                    assert((before.kept()[k] + rest).push(self.taken().last())
                        =~= before.kept()[k] + rest.push(self.taken().last()));
                } else {
                    if let Some(i) = place {
                        assert(before.identities()[i] != before.identities()[k]);
                    }
                    assert(handed_to(self.taken(), self.delivered(), id, from) == rest);
                }
            }
        }
    }

    /// What was captured up to `mid` and what was captured since is what was
    /// captured in all: `self` is the router at the latest moment, `before` the
    /// router at the earliest.
    proof fn lemma_captured_on(
        &self,
        mid: &MessageRouter<E>,
        before: &MessageRouter<E>,
        id: TetraEntity,
    )
        requires
            mid.captured_since(*before, id),
            self.captured_since(*mid, id),
            mid.is_sink(id) == before.is_sink(id),
            before.taken().is_prefix_of(mid.taken()),
            mid.taken().is_prefix_of(self.taken()),
            mid.delivered().is_prefix_of(self.delivered()),
            mid.taken().len() == mid.delivered().len(),
            self.taken().len() == self.delivered().len(),
        ensures
            self.captured_since(*before, id),
    {
        if before.is_sink(id) {
            let from = before.taken().len() as int;
            lemma_handed_on(mid.taken(), mid.delivered(), self.taken(), self.delivered(), id, from);
            let a = before.captured_by(id);
            let b = handed_to(mid.taken(), mid.delivered(), id, from);
            let c = handed_to(self.taken(), self.delivered(), id, mid.taken().len() as int);
            assert((a + b) + c =~= a + (b + c));
        }
    }

    /// The place among the registered entities of the one with identity `id`.
    closed spec fn place_of(&self, id: TetraEntity) -> int {
        self.identities().index_of(id)
    }

    /// The primitives that wait for delivery, the next one first.
    pub closed spec fn queue(&self) -> Seq<SapMsg> {
        self.queue@
    }

    /// The primitives that have been taken off the queue, delivered or dropped,
    /// in the order in which they were taken.
    pub closed spec fn taken(&self) -> Seq<SapMsg> {
        self.taken@
    }

    /// For each primitive that has been taken off the queue, in the order of
    /// `taken`, whether it was handed to an entity.
    pub closed spec fn delivered(&self) -> Seq<bool> {
        self.delivered@
    }

    /// Every primitive that was ever put in the queue, in the order in which it
    /// was put there: those taken, then those that wait.
    pub open spec fn history(&self) -> Seq<SapMsg> {
        self.taken() + self.queue()
    }

    /// The turns that the router has given, in the order in which it gave them.
    pub closed spec fn turns(&self) -> Seq<TickEvent> {
        self.turns@
    }

    /// What the entities answered in their turns at the end of a tick: for every
    /// tick whose end turns were given, in the order of the ticks, whether each
    /// entity asked the router to stop, in the order of registration.
    pub closed spec fn answers(&self) -> Seq<Seq<bool>> {
        self.answers@
    }

    /// The end turns of one more tick are on record than in `before`, with an
    /// answer of every registered entity.
    pub open spec fn ended_once(&self, before: MessageRouter<E>) -> bool {
        &&& self.answers().len() == before.answers().len() + 1
        &&& self.answers().drop_last() == before.answers()
        &&& self.answers().last().len() == before.identities().len()
    }

    /// In none of the ticks whose end turns are on record from place `from` on,
    /// the last of them left aside, an entity asked the router to stop.
    pub open spec fn none_asked_before_last(&self, from: int) -> bool {
        forall|k: int|
            from <= k < self.answers().len() - 1 ==> !(#[trigger] self.answers()[k]).contains(true)
    }

    /// The number of ticks that are over.
    pub closed spec fn ticks(&self) -> nat {
        self.ticks@
    }

    /// The current downlink time.
    pub closed spec fn dltime(&self) -> TdmaTime {
        self.dltime
    }

    /// The most primitives that one run of delivery takes.
    pub closed spec fn delivery_cap(&self) -> usize {
        self.delivery_cap
    }

    /// How a run of delivery that returned `r` has ended, `before` being the
    /// router at its start. After a run without fault the queue is empty, and
    /// `r` says how many primitives were taken. After a run that reached the cap
    /// the queue is not empty and as many primitives were taken as the cap
    /// allows. After a refusal the primitive taken last is the one that was
    /// refused: `dest` and `sap` are its destination, which is registered and
    /// does not take it, and its service access point.
    pub open spec fn delivery_ended(
        &self,
        before: MessageRouter<E>,
        r: Result<usize, RouterFault>,
    ) -> bool {
        match r {
            Ok(n) => self.queue().len() == 0 && self.taken().len() == before.taken().len() + n,
            Err(RouterFault::DeliveryCapExceeded) => self.queue().len() > 0 && self.taken().len()
                == before.taken().len() + before.delivery_cap(),
            Err(RouterFault::Refused { dest, sap }) => self.taken().len() > before.taken().len()
                && self.taken().last().dest == dest && self.taken().last().sap == sap
                && self.identities().contains(dest) && !self.takes(dest, self.taken().last()),
        }
    }

    /// How the router stands after a tick, or a run of ticks, that ended in the
    /// fault `fault`, `before` being the router at its start. Where the cap was
    /// reached, the queue is not empty and at least as many primitives were
    /// taken as the cap allows. After a refusal the primitive taken last is the
    /// one that was refused: `dest` and `sap` are its destination, which is
    /// registered and does not take it, and its service access point.
    pub open spec fn fault_found(&self, before: MessageRouter<E>, fault: RouterFault) -> bool {
        match fault {
            RouterFault::DeliveryCapExceeded => self.queue().len() > 0 && self.taken().len()
                >= before.taken().len() + before.delivery_cap(),
            RouterFault::Refused { dest, sap } => self.taken().len() > before.taken().len()
                && self.taken().last().dest == dest && self.taken().last().sap == sap
                && self.identities().contains(dest) && !self.takes(dest, self.taken().last()),
        }
    }

    /// No turn given so far has a rank above `bound`.
    pub open spec fn turns_up_to(&self, bound: nat) -> bool {
        forall|k: int| 0 <= k < self.turns().len() ==> self.turns()[k].rank() <= bound
    }

    /// Of the primitives taken from place `from` on, exactly those were handed
    /// to an entity that the entity registered as their destination takes. The
    /// others were dropped, their destination not being registered; but where
    /// `refused` says that the run ended in a refusal, the last one may be a
    /// primitive that its destination is registered for and does not take.
    pub open spec fn routed(&self, from: int, refused: bool) -> bool {
        forall|k: int|
            from <= k < self.taken().len() ==> {
                &&& #[trigger] self.delivered()[k] <==> self.takes(
                    self.taken()[k].dest,
                    self.taken()[k],
                )
                &&& self.delivered()[k] || !self.identities().contains(self.taken()[k].dest) || (
                refused && k == self.taken().len() - 1)
            }
    }

    /// No primitive that waits is addressed to a registered entity.
    pub open spec fn all_unaddressed(&self) -> bool {
        forall|k: int|
            0 <= k < self.queue().len() ==> !self.identities().contains(
                (#[trigger] self.queue()[k]).dest,
            )
    }

    /// None of the primitives taken from place `from` on was handed to an entity.
    pub open spec fn none_delivered(&self, from: int) -> bool {
        forall|k: int| from <= k < self.taken().len() ==> !(#[trigger] self.delivered()[k])
    }

    /// What holds of the router at every moment: no identity is registered
    /// twice, the clock shows a valid time, the turns are in order, and of every
    /// primitive taken it is on record whether it was delivered.
    pub open spec fn inv(&self) -> bool {
        &&& distinct(self.identities())
        &&& self.dltime().is_valid()
        &&& in_order(self.turns())
        &&& self.delivered().len() == self.taken().len()
    }

    /// What holds of the router between ticks: the invariant, and every turn
    /// given so far belongs to a tick that is over.
    pub open spec fn wf(&self) -> bool {
        &&& self.inv()
        &&& forall|k: int| 0 <= k < self.turns().len() ==> self.turns()[k].rank() < 2 * self.ticks()
    }

    /// A router with no entities, an empty queue and the clock at the start of
    /// the cycle.
    pub fn new(config: SharedConfig) -> (router: MessageRouter<E>)
        ensures
            router.wf(),
            router.shared_config() == config,
            !router.may_stop(),
            router.answers() == Seq::<Seq<bool>>::empty(),
            router.identities() == Seq::<TetraEntity>::empty(),
            router.queue() == Seq::<SapMsg>::empty(),
            router.taken() == Seq::<SapMsg>::empty(),
            router.delivered() == Seq::<bool>::empty(),
            router.turns() == Seq::<TickEvent>::empty(),
            router.ticks() == 0,
            router.dltime() == (TdmaTime { h: 0, m: 1, f: 1, t: 1 }),
            router.delivery_cap() == DEFAULT_DELIVERY_CAP,
    {
        let router = MessageRouter {
            config,
            entities: Vec::new(),
            queue: MessageQueue::new(),
            dltime: TdmaTime::default(),
            delivery_cap: DEFAULT_DELIVERY_CAP,
            ticks: Ghost(0),
            turns: Ghost(Seq::empty()),
            taken: Ghost(Seq::empty()),
            delivered: Ghost(Seq::empty()),
            answers: Ghost(Seq::empty()),
        };
        assert(router.identities() =~= Seq::<TetraEntity>::empty());
        assert(router.stoppers() =~= Seq::<bool>::empty());
        router
    }

    /// The place of the entity with identity `id` among the registered ones.
    fn find(&self, id: TetraEntity) -> (found: Option<usize>)
        ensures
            match found {
                Some(i) => i < self.entities@.len() && self.identities()[i as int] == id,
                None => !self.identities().contains(id),
            },
            self.identities().len() == self.entities@.len(),
    {
        let mut i: usize = 0;
        while i < self.entities.len()
            invariant
                i <= self.entities.len(),
                forall|k: int| 0 <= k < i ==> self.identities()[k] != id,
            decreases self.entities.len() - i,
        {
            if self.entities[i].entity() == id {
                return Some(i);
            }
            i = i + 1;
        }
        None
    }

    /// Registers an entity. Where an entity with the same identity is
    /// registered already, the new one takes its place, also in the order of
    /// turns; else the new one comes last. Returns the identity under which the
    /// entity is registered.
    pub fn register_entity(&mut self, entity: E) -> (id: TetraEntity)
        requires
            old(self).wf(),
        ensures
            id == entity.spec_entity(),
            final(self).wf(),
            final(self).captured_by(id) == entity.spec_captured(),
            forall|other: TetraEntity|
                other != id ==> final(self).captured_by(other) == old(self).captured_by(other),
            final(self).config_of(id) == entity.spec_config(),
            final(self).is_sink(id) == entity.spec_captures(),
            forall|message: SapMsg| #[trigger]
                final(self).takes(id, message) == entity.accepts(&message),
            forall|other: TetraEntity, message: SapMsg|
                other != id ==> (#[trigger] final(self).takes(other, message)) == old(self).takes(
                    other,
                    message,
                ),
            forall|other: TetraEntity|
                other != id ==> final(self).is_sink(other) == old(self).is_sink(other),
            entity.spec_may_stop() ==> final(self).may_stop(),
            final(self).may_stop() ==> old(self).may_stop() || entity.spec_may_stop(),
            forall|other: TetraEntity|
                other != id ==> final(self).config_of(other) == old(self).config_of(other),
            final(self).identities() == if old(self).identities().contains(id) {
                old(self).identities()
            } else {
                old(self).identities().push(id)
            },
            final(self).queue() == old(self).queue(),
            final(self).taken() == old(self).taken(),
            final(self).delivered() == old(self).delivered(),
            final(self).turns() == old(self).turns(),
            final(self).ticks() == old(self).ticks(),
            final(self).dltime() == old(self).dltime(),
            final(self).delivery_cap() == old(self).delivery_cap(),
            final(self).shared_config() == old(self).shared_config(),
            final(self).answers() == old(self).answers(),
    {
        let id = entity.entity();
        match self.find(id) {
            Some(i) => {
                self.entities[i] = entity;
                proof {
                    assert(self.identities() =~= old(self).identities());
                    assert(self.stoppers() =~= old(self).stoppers().update(
                        i as int,
                        entity.spec_may_stop(),
                    ));
                    assert(self.stoppers()[i as int] == entity.spec_may_stop());
                    if self.may_stop() {
                        let k = self.stoppers().index_of(true);
                        assert(k == i || old(self).stoppers()[k]);
                    }
                    self.lemma_captured_at(i as int);
                    assert forall|other: TetraEntity| other != id implies self.captured_by(other)
                        == old(self).captured_by(other) && self.config_of(other) == old(self)
                        .config_of(other) && self.is_sink(other) == old(self).is_sink(other) by {
                        self.lemma_captured_same(old(self), i as int, other);
                    }
                    assert forall|other: TetraEntity, message: SapMsg| other != id implies (
                    #[trigger] self.takes(other, message)) == old(self).takes(other, message) by {
                        self.lemma_captured_same(old(self), i as int, other);
                    }
                }
            },
            None => {
                self.entities.push(entity);
                proof {
                    let n = old(self).identities().len() as int;
                    assert(self.identities() =~= old(self).identities().push(id));
                    assert(self.stoppers() =~= old(self).stoppers().push(entity.spec_may_stop()));
                    assert(self.stoppers()[n] == entity.spec_may_stop());
                    if self.may_stop() {
                        let k = self.stoppers().index_of(true);
                        assert(k == n || old(self).stoppers()[k]);
                    }
                    self.lemma_captured_at(n);
                    assert forall|other: TetraEntity| other != id implies self.captured_by(other)
                        == old(self).captured_by(other) && self.config_of(other) == old(self)
                        .config_of(other) && self.is_sink(other) == old(self).is_sink(other) by {
                        if old(self).identities().contains(other) {
                            let k = old(self).identities().index_of(other);
                            assert(self.identities()[k] == other);
                            self.lemma_captured_at(k);
                            old(self).lemma_captured_at(k);
                        } else {
                            if self.identities().contains(other) {
                                let k = self.identities().index_of(other);
                                assert(k != n);
                                assert(old(self).identities()[k] == other);
                            }
                        }
                    }
                    assert forall|other: TetraEntity, message: SapMsg| other != id implies (
                    #[trigger] self.takes(other, message)) == old(self).takes(other, message) by {
                        if old(self).identities().contains(other) {
                            let k = old(self).identities().index_of(other);
                            assert(self.identities()[k] == other);
                            self.lemma_captured_at(k);
                            old(self).lemma_captured_at(k);
                        } else {
                            if self.identities().contains(other) {
                                let k = self.identities().index_of(other);
                                assert(k != n);
                                assert(old(self).identities()[k] == other);
                            }
                        }
                    }
                }
            },
        }
        id
    }

    /// The entity registered under `id`, if there is one: the entity of which
    /// `config_of`, `is_sink`, `captured_by` and `takes` speak under `id`.
    pub fn get_entity(&self, id: TetraEntity) -> (found: Option<&E>)
        requires
            self.wf(),
        ensures
            found is Some <==> self.identities().contains(id),
            found matches Some(entity) ==> {
                &&& entity.spec_entity() == id
                &&& entity.spec_config() == self.config_of(id)
                &&& entity.spec_captures() == self.is_sink(id)
                &&& entity.spec_captured() == self.captured_by(id)
                &&& entity.spec_may_stop() ==> self.may_stop()
                &&& forall|message: SapMsg| #[trigger]
                    entity.accepts(&message) == self.takes(id, message)
            },
    {
        match self.find(id) {
            Some(i) => {
                proof {
                    self.lemma_captured_at(i as int);
                    assert(self.stoppers()[i as int] == self.entities@[i as int].spec_may_stop());
                }
                Some(&self.entities[i])
            },
            None => None,
        }
    }

    /// Hands out what the sink registered under `id` has captured, oldest first,
    /// and lets the sink start afresh. Where no sink is registered under `id`,
    /// nothing is handed out.
    pub fn dump_sink(&mut self, id: TetraEntity) -> (msgs: Vec<SapMsg>)
        requires
            old(self).wf(),
        ensures
            final(self).wf(),
            final(self).identities() == old(self).identities(),
            final(self).queue() == old(self).queue(),
            final(self).taken() == old(self).taken(),
            final(self).delivered() == old(self).delivered(),
            final(self).turns() == old(self).turns(),
            final(self).ticks() == old(self).ticks(),
            final(self).dltime() == old(self).dltime(),
            final(self).delivery_cap() == old(self).delivery_cap(),
            final(self).shared_config() == old(self).shared_config(),
            final(self).answers() == old(self).answers(),
            msgs@ == old(self).captured_by(id),
            final(self).captured_by(id) == Seq::<SapMsg>::empty(),
            forall|other: TetraEntity|
                other != id ==> final(self).captured_by(other) == old(self).captured_by(other),
            forall|any: TetraEntity| final(self).config_of(any) == old(self).config_of(any),
            final(self).may_stop() == old(self).may_stop(),
            forall|id: TetraEntity| final(self).is_sink(id) == old(self).is_sink(id),
            final(self).takes_as(*old(self)),
    {
        let msgs = match self.find(id) {
            Some(i) => {
                proof {
                    self.lemma_captured_at(i as int);
                }
                let msgs = match self.entities[i].as_sink() {
                    Some(sink) => sink.take_msgqueue(),
                    None => Vec::new(),
                };
                proof {
                    assert(self.identities() =~= old(self).identities());
                    assert(self.stoppers() =~= old(self).stoppers());
                    assert(self.sinks() =~= old(self).sinks());
                    self.lemma_captured_at(i as int);
                    assert forall|other: TetraEntity| other != id implies self.captured_by(other)
                        == old(self).captured_by(other) by {
                        self.lemma_captured_same(old(self), i as int, other);
                    }
                }
                msgs
            },
            None => Vec::new(),
        };
        assert(self.identities() =~= old(self).identities());
        msgs
    }

    /// Under an identity that is registered, the entity at its place is the one
    /// whose captured primitives `captured_by` gives, and whose configuration
    /// handle `config_of` gives.
    proof fn lemma_captured_at(&self, i: int)
        requires
            distinct(self.identities()),
            0 <= i < self.identities().len(),
        ensures
            self.captured_by(self.identities()[i]) == self.entities@[i].spec_captured(),
            self.config_of(self.identities()[i]) == self.entities@[i].spec_config(),
            self.is_sink(self.identities()[i]) == self.entities@[i].spec_captures(),
            forall|message: SapMsg| #[trigger]
                self.takes(self.identities()[i], message) == self.entities@[i].accepts(&message),
    {
        let id = self.identities()[i];
        assert(self.identities().contains(id));
        let j = self.identities().index_of(id);
        if i < j {
            assert(self.identities()[i] != self.identities()[j]);
        } else if j < i {
            assert(self.identities()[j] != self.identities()[i]);
        }
    }

    /// A router that differs from another only in the entity at place `i`, which
    /// has kept its identity, gives the same for every other identity.
    proof fn lemma_captured_same(&self, before: &MessageRouter<E>, i: int, other: TetraEntity)
        requires
            self.identities() == before.identities(),
            0 <= i < self.identities().len(),
            self.entities@.len() == before.entities@.len(),
            forall|k: int|
                0 <= k < self.entities@.len() && k != i ==> self.entities@[k]
                    == before.entities@[k],
            other != self.identities()[i],
        ensures
            self.captured_by(other) == before.captured_by(other),
            self.config_of(other) == before.config_of(other),
            self.is_sink(other) == before.is_sink(other),
            forall|message: SapMsg| #[trigger]
                self.takes(other, message) == before.takes(other, message),
    {
        if self.identities().contains(other) {
            let k = self.identities().index_of(other);
            assert(k != i);
        }
    }

    /// Puts a primitive at the end of the queue.
    pub fn submit_message(&mut self, message: SapMsg)
        requires
            old(self).wf(),
        ensures
            final(self).wf(),
            final(self).queue() == old(self).queue().push(message),
            final(self).history() == old(self).history().push(message),
            final(self).identities() == old(self).identities(),
            forall|id: TetraEntity| final(self).captured_by(id) == old(self).captured_by(id),
            forall|id: TetraEntity| final(self).config_of(id) == old(self).config_of(id),
            final(self).may_stop() == old(self).may_stop(),
            forall|id: TetraEntity| final(self).is_sink(id) == old(self).is_sink(id),
            final(self).takes_as(*old(self)),
            final(self).taken() == old(self).taken(),
            final(self).delivered() == old(self).delivered(),
            final(self).turns() == old(self).turns(),
            final(self).ticks() == old(self).ticks(),
            final(self).dltime() == old(self).dltime(),
            final(self).delivery_cap() == old(self).delivery_cap(),
            final(self).shared_config() == old(self).shared_config(),
            final(self).answers() == old(self).answers(),
    {
        self.queue.push_back(message);
        assert(self.identities() =~= old(self).identities());
        assert(self.history() =~= old(self).history().push(message));
    }

    /// The number of primitives that wait for delivery.
    pub fn get_msgqueue_len(&self) -> (n: usize)
        ensures
            n == self.queue().len(),
    {
        self.queue.len()
    }

    /// The current downlink time.
    pub fn get_dl_time(&self) -> (time: TdmaTime)
        ensures
            time == self.dltime(),
    {
        self.dltime
    }

    /// Sets the clock.
    pub fn set_dl_time(&mut self, time: TdmaTime)
        requires
            old(self).wf(),
            time.is_valid(),
        ensures
            final(self).wf(),
            final(self).dltime() == time,
            final(self).identities() == old(self).identities(),
            forall|id: TetraEntity| final(self).captured_by(id) == old(self).captured_by(id),
            forall|id: TetraEntity| final(self).config_of(id) == old(self).config_of(id),
            final(self).may_stop() == old(self).may_stop(),
            forall|id: TetraEntity| final(self).is_sink(id) == old(self).is_sink(id),
            final(self).takes_as(*old(self)),
            final(self).queue() == old(self).queue(),
            final(self).taken() == old(self).taken(),
            final(self).delivered() == old(self).delivered(),
            final(self).turns() == old(self).turns(),
            final(self).ticks() == old(self).ticks(),
            final(self).delivery_cap() == old(self).delivery_cap(),
            final(self).shared_config() == old(self).shared_config(),
            final(self).answers() == old(self).answers(),
    {
        self.dltime = time;
        assert(self.identities() =~= old(self).identities());
    }

    /// Sets the most primitives that one run of delivery takes.
    pub fn set_delivery_cap(&mut self, cap: usize)
        requires
            old(self).wf(),
        ensures
            final(self).wf(),
            final(self).delivery_cap() == cap,
            final(self).dltime() == old(self).dltime(),
            final(self).identities() == old(self).identities(),
            final(self).shared_config() == old(self).shared_config(),
            final(self).answers() == old(self).answers(),
            forall|id: TetraEntity| final(self).captured_by(id) == old(self).captured_by(id),
            forall|id: TetraEntity| final(self).config_of(id) == old(self).config_of(id),
            final(self).may_stop() == old(self).may_stop(),
            forall|id: TetraEntity| final(self).is_sink(id) == old(self).is_sink(id),
            final(self).takes_as(*old(self)),
            final(self).queue() == old(self).queue(),
            final(self).taken() == old(self).taken(),
            final(self).delivered() == old(self).delivered(),
            final(self).turns() == old(self).turns(),
            final(self).ticks() == old(self).ticks(),
    {
        self.delivery_cap = cap;
        assert(self.identities() =~= old(self).identities());
    }

    /// Replaces the shared configuration handle, here and in every entity:
    /// the router holds `config`, and so does every registered entity that held
    /// a handle. What the sinks have captured stays.
    pub fn set_config(&mut self, config: SharedConfig)
        requires
            old(self).wf(),
        ensures
            final(self).wf(),
            final(self).shared_config() == config,
            forall|id: TetraEntity| #[trigger]
                final(self).config_of(id) == match old(self).config_of(id) {
                    Some(_) => Some(config),
                    None => None,
                },
            forall|id: TetraEntity| final(self).captured_by(id) == old(self).captured_by(id),
            final(self).may_stop() == old(self).may_stop(),
            forall|id: TetraEntity| final(self).is_sink(id) == old(self).is_sink(id),
            final(self).takes_as(*old(self)),
            final(self).answers() == old(self).answers(),
            final(self).identities() == old(self).identities(),
            final(self).queue() == old(self).queue(),
            final(self).taken() == old(self).taken(),
            final(self).delivered() == old(self).delivered(),
            final(self).turns() == old(self).turns(),
            final(self).ticks() == old(self).ticks(),
            final(self).dltime() == old(self).dltime(),
            final(self).delivery_cap() == old(self).delivery_cap(),
    {
        let mut i: usize = 0;
        let ghost was = self.entities@;
        while i < self.entities.len()
            invariant
                i <= self.entities.len(),
                was == old(self).entities@,
                self.entities@.len() == was.len(),
                self.identities() == old(self).identities(),
                forall|k: int|
                    0 <= k < i ==> self.entities@[k].spec_config() == match was[k].spec_config() {
                        Some(_) => Some(config),
                        None => None,
                    },
                forall|k: int|
                    0 <= k < was.len() ==> self.entities@[k].spec_captured()
                        == was[k].spec_captured(),
                forall|k: int| i <= k < was.len() ==> self.entities@[k] == was[k],
                self.stoppers() == old(self).stoppers(),
                self.sinks() == old(self).sinks(),
                self.takers_as(old(self)),
                self.queue == old(self).queue,
                self.answers == old(self).answers,
                self.dltime == old(self).dltime,
                self.delivery_cap == old(self).delivery_cap,
                self.ticks == old(self).ticks,
                self.turns == old(self).turns,
                self.taken == old(self).taken,
                self.delivered == old(self).delivered,
            decreases self.entities.len() - i,
        {
            let ghost before = self.identities();
            let ghost stops = self.stoppers();
            let ghost were_sinks = self.sinks();
            self.entities[i].set_config(config.clone());
            assert(self.identities() =~= before);
            assert(self.stoppers() =~= stops);
            assert(self.sinks() =~= were_sinks);
            i = i + 1;
        }
        self.config = config;
        assert(self.identities() =~= old(self).identities());
    }

    /// Takes primitives off the queue and delivers them until the queue is
    /// empty, the cap is reached or an entity refuses a primitive. Returns how
    /// many primitives were taken.
    fn deliver_pending(&mut self) -> (r: Result<usize, RouterFault>)
        requires
            old(self).inv(),
        ensures
            final(self).inv(),
            final(self).identities() == old(self).identities(),
            final(self).configs() == old(self).configs(),
            final(self).stoppers() == old(self).stoppers(),
            final(self).sinks() == old(self).sinks(),
            final(self).takers_as(old(self)),
            final(self).kept_since(old(self), old(self).taken().len() as int),
            final(self).turns() == old(self).turns(),
            final(self).ticks() == old(self).ticks(),
            final(self).dltime() == old(self).dltime(),
            final(self).delivery_cap() == old(self).delivery_cap(),
            final(self).shared_config() == old(self).shared_config(),
            final(self).answers() == old(self).answers(),
            old(self).taken().is_prefix_of(final(self).taken()),
            old(self).delivered().is_prefix_of(final(self).delivered()),
            old(self).history().is_prefix_of(final(self).history()),
            final(self).taken().len() <= old(self).taken().len() + old(self).delivery_cap(),
            final(self).delivery_ended(*old(self), r),
            final(self).routed(old(self).taken().len() as int, refused(r)),
            final(self).none_delivered(old(self).taken().len() as int) ==> final(self).history()
                == old(self).history(),
            old(self).all_unaddressed() ==> final(self).none_delivered(
                old(self).taken().len() as int,
            ) && !refused(r),
    {
        let mut n: usize = 0;
        assert(self.history() =~= old(self).history());
        assert(self.configs() =~= old(self).configs());
        assert(self.stoppers() =~= old(self).stoppers());
        assert(self.sinks() =~= old(self).sinks());
        proof {
            assert forall|k: int| 0 <= k < self.kept().len() implies #[trigger] self.kept()[k]
                =~= self.kept()[k] + handed_to(
                self.taken(),
                self.delivered(),
                self.identities()[k],
                self.taken().len() as int,
            ) by {}
        }
        while n < self.delivery_cap
            invariant
                self.inv(),
                n <= self.delivery_cap,
                self.identities() == old(self).identities(),
                self.configs() == old(self).configs(),
                self.stoppers() == old(self).stoppers(),
                self.sinks() == old(self).sinks(),
                self.takers_as(old(self)),
                self.kept_since(old(self), old(self).taken().len() as int),
                self.turns() == old(self).turns(),
                self.ticks() == old(self).ticks(),
                self.dltime() == old(self).dltime(),
                self.delivery_cap() == old(self).delivery_cap(),
                self.shared_config() == old(self).shared_config(),
                self.answers() == old(self).answers(),
                old(self).taken().is_prefix_of(self.taken()),
                old(self).delivered().is_prefix_of(self.delivered()),
                old(self).history().is_prefix_of(self.history()),
                self.taken().len() == old(self).taken().len() + n,
                self.routed(old(self).taken().len() as int, false),
                self.none_delivered(old(self).taken().len() as int) ==> self.history()
                    == old(self).history(),
                old(self).all_unaddressed() ==> self.none_delivered(
                    old(self).taken().len() as int,
                ),
            decreases self.delivery_cap - n,
        {
            let ghost ids = self.identities();
            let ghost handles = self.configs();
            let ghost stops = self.stoppers();
            let ghost were_sinks = self.sinks();
            let ghost history = self.history();
            let ghost first = old(self).taken().len() as int;
            let ghost earlier = *self;
            let message = match self.queue.pop_front() {
                Some(message) => message,
                None => {
                    assert(self.queue() == earlier.queue());
                    assert(self.history() == history);
                    return Ok(n);
                },
            };
            self.taken = Ghost(self.taken@.push(message));
            n = n + 1;
            proof {
                assert(self.history() =~= history);
                assert(self.identities() =~= ids);
                assert(self.configs() =~= handles);
                assert(self.stoppers() =~= stops);
                assert(self.sinks() =~= were_sinks);
            }
            let dest = message.dest;
            let sap = message.sap;
            proof {
                if old(self).all_unaddressed() {
                    let place = earlier.taken().len() as int;
                    assert(earlier.history() == old(self).history());
                    assert(earlier.history()[place] == earlier.queue()[0]);
                    assert(old(self).history()[place] == old(self).queue()[place - first]);
                    assert(!self.identities().contains(dest));
                }
            }
            match self.find(dest) {
                None => {
                    self.delivered = Ghost(self.delivered@.push(false));
                    proof {
                        self.lemma_none_delivered_before(&earlier, first);
                        assert(self.taken().drop_last() =~= earlier.taken());
                        assert(self.delivered().drop_last() =~= earlier.delivered());
                        assert(self.kept() =~= earlier.kept());
                        self.lemma_kept_on(&earlier, old(self), first, None);
                    }
                },
                Some(i) => {
                    assert(self.identities()[i as int] == dest);
                    if !self.entities[i].can_accept(&message) {
                        self.delivered = Ghost(self.delivered@.push(false));
                        proof {
                            self.lemma_none_delivered_before(&earlier, first);
                            assert(self.taken().drop_last() =~= earlier.taken());
                            assert(self.delivered().drop_last() =~= earlier.delivered());
                            assert(self.kept() =~= earlier.kept());
                            self.lemma_kept_on(&earlier, old(self), first, None);
                        }
                        return Err(RouterFault::Refused { dest, sap });
                    }
                    self.delivered = Ghost(self.delivered@.push(true));
                    self.entities[i].rx_prim(&mut self.queue, message);
                    proof {
                        assert(self.identities() =~= ids);
                        assert(self.configs() =~= handles);
                        assert(self.stoppers() =~= stops);
                        assert(self.sinks() =~= were_sinks);
                        assert(history.is_prefix_of(self.history()));
                        assert(self.delivered()[self.taken().len() - 1]);
                        assert(self.taken().drop_last() =~= earlier.taken());
                        assert(self.delivered().drop_last() =~= earlier.delivered());
                        assert(self.taken().last() == message);
                        assert(earlier.sinks()[i as int] == earlier.entities@[i as int]
                            .spec_captures());
                        assert(self.kept()[i as int] == self.entities@[i as int].spec_captured());
                        assert(earlier.kept()[i as int] == earlier.entities@[i as int]
                            .spec_captured());
                        assert forall|k: int|
                            0 <= k < self.kept().len() && k != i implies self.kept()[k]
                            == earlier.kept()[k] by {
                            assert(self.entities@[k] == earlier.entities@[k]);
                        }
                        self.lemma_kept_on(&earlier, old(self), first, Some(i as int));
                    }
                },
            }
        }
        if self.queue.is_empty() {
            Ok(n)
        } else {
            Err(RouterFault::DeliveryCapExceeded)
        }
    }

    /// Delivers until the queue is empty: takes the first primitive off the
    /// queue and hands it to the entity registered under its destination, again
    /// and again. A primitive whose destination is not registered is dropped.
    /// What the entities put in the queue meanwhile is delivered in the same
    /// run, after everything that waited before it.
    ///
    /// The run ends with a fault where an entity does not take a primitive
    /// addressed to it, and where the cap on the number of primitives is reached
    /// with primitives still waiting. Returns how many primitives were taken.
    ///
    /// A sink has afterwards, behind what it had captured, the primitives that
    /// were handed to it, in the order in which they were taken.
    ///
    /// Where no waiting primitive is addressed to a registered entity, no entity
    /// is asked and the outcome is owed: all are dropped if the cap allows it,
    /// and else the run ends with the cap exceeded.
    pub fn deliver_all_messages(&mut self) -> (r: Result<usize, RouterFault>)
        requires
            old(self).wf(),
        ensures
            final(self).wf(),
            final(self).identities() == old(self).identities(),
            forall|id: TetraEntity| final(self).config_of(id) == old(self).config_of(id),
            final(self).may_stop() == old(self).may_stop(),
            forall|id: TetraEntity| final(self).captured_since(*old(self), id),
            forall|id: TetraEntity| final(self).is_sink(id) == old(self).is_sink(id),
            final(self).takes_as(*old(self)),
            final(self).turns() == old(self).turns(),
            final(self).ticks() == old(self).ticks(),
            final(self).dltime() == old(self).dltime(),
            final(self).delivery_cap() == old(self).delivery_cap(),
            final(self).shared_config() == old(self).shared_config(),
            final(self).answers() == old(self).answers(),
            old(self).taken().is_prefix_of(final(self).taken()),
            old(self).delivered().is_prefix_of(final(self).delivered()),
            old(self).history().is_prefix_of(final(self).history()),
            final(self).taken().len() <= old(self).taken().len() + old(self).delivery_cap(),
            final(self).delivery_ended(*old(self), r),
            final(self).routed(old(self).taken().len() as int, refused(r)),
            final(self).none_delivered(old(self).taken().len() as int) ==> final(self).history()
                == old(self).history(),
            old(self).all_unaddressed() ==> {
                &&& final(self).none_delivered(old(self).taken().len() as int)
                &&& final(self).history() == old(self).history()
                &&& r is Ok <==> old(self).queue().len() <= old(self).delivery_cap()
                &&& r matches Ok(n) ==> n == old(self).queue().len()
                &&& r matches Err(fault) ==> fault == RouterFault::DeliveryCapExceeded
            },
    {
        self.deliver_pending()
    }

    /// Gives every entity its turn at the start of the tick, in the order of
    /// registration.
    fn tick_all(&mut self)
        requires
            old(self).wf(),
        ensures
            final(self).inv(),
            final(self).identities() == old(self).identities(),
            final(self).configs() == old(self).configs(),
            final(self).stoppers() == old(self).stoppers(),
            final(self).sinks() == old(self).sinks(),
            final(self).takers_as(old(self)),
            final(self).kept() == old(self).kept(),
            final(self).turns() == old(self).turns() + starts(
                old(self).identities(),
                old(self).ticks(),
                old(self).dltime(),
            ),
            final(self).turns_up_to(2 * old(self).ticks()),
            final(self).ticks() == old(self).ticks(),
            final(self).dltime() == old(self).dltime(),
            final(self).delivery_cap() == old(self).delivery_cap(),
            final(self).shared_config() == old(self).shared_config(),
            final(self).answers() == old(self).answers(),
            final(self).taken() == old(self).taken(),
            final(self).delivered() == old(self).delivered(),
            old(self).history().is_prefix_of(final(self).history()),
            old(self).identities().len() == 0 ==> final(self).queue() == old(self).queue(),
    {
        let mut i: usize = 0;
        let ghost ids = self.identities();
        let ghost tick = self.ticks@;
        let ghost now = self.dltime;
        assert(self.turns() =~= old(self).turns() + starts(ids.take(0), tick, now));
        assert(self.history() =~= old(self).history());
        assert(self.configs() =~= old(self).configs());
        assert(self.stoppers() =~= old(self).stoppers());
        assert(self.sinks() =~= old(self).sinks());
        assert(self.kept() =~= old(self).kept());
        while i < self.entities.len()
            invariant
                i <= self.entities.len(),
                ids == old(self).identities(),
                tick == old(self).ticks(),
                now == old(self).dltime(),
                ids.len() == self.entities@.len(),
                self.inv(),
                self.identities() == ids,
                self.configs() == old(self).configs(),
                self.stoppers() == old(self).stoppers(),
                self.sinks() == old(self).sinks(),
                self.takers_as(old(self)),
                self.kept() == old(self).kept(),
                self.turns() == old(self).turns() + starts(ids.take(i as int), tick, now),
                self.turns_up_to(2 * tick),
                self.ticks() == tick,
                self.dltime() == old(self).dltime(),
                self.delivery_cap() == old(self).delivery_cap(),
                self.shared_config() == old(self).shared_config(),
                self.answers() == old(self).answers(),
                self.taken() == old(self).taken(),
                self.delivered() == old(self).delivered(),
                old(self).history().is_prefix_of(self.history()),
                i == 0 ==> self.queue() == old(self).queue(),
            decreases self.entities.len() - i,
        {
            let ghost history = self.history();
            let ghost handles = self.configs();
            let ghost stops = self.stoppers();
            let ghost were_sinks = self.sinks();
            let ghost was_kept = self.kept();
            let ghost turns = self.turns@;
            self.entities[i].tick_start(&mut self.queue, Some(self.dltime));
            self.turns = Ghost(
                self.turns@.push(TickEvent::Start { entity: ids[i as int], tick, time: now }),
            );
            proof {
                assert(self.identities() =~= ids);
                assert(self.configs() =~= handles);
                assert(self.stoppers() =~= stops);
                assert(self.sinks() =~= were_sinks);
                assert(self.kept() =~= was_kept);
                assert(history.is_prefix_of(self.history()));
                assert(starts(ids.take(i as int), tick, now).push(
                    TickEvent::Start { entity: ids[i as int], tick, time: now },
                ) =~= starts(ids.take(i + 1), tick, now));
                assert(self.turns() =~= old(self).turns() + starts(ids.take(i + 1), tick, now));
            }
            i = i + 1;
        }
        assert(ids.take(ids.len() as int) =~= ids);
    }

    /// Gives every entity its turn at the end of the tick, in the order of
    /// registration. Returns whether any of them asked to stop.
    fn tick_end(&mut self) -> (stop: bool)
        requires
            old(self).inv(),
            old(self).turns_up_to(2 * old(self).ticks() + 1),
        ensures
            old(self).identities().len() == 0 ==> !stop,
            stop ==> old(self).may_stop(),
            final(self).ended_once(*old(self)),
            stop == final(self).answers().last().contains(true),
            final(self).inv(),
            final(self).identities() == old(self).identities(),
            final(self).configs() == old(self).configs(),
            final(self).stoppers() == old(self).stoppers(),
            final(self).sinks() == old(self).sinks(),
            final(self).takers_as(old(self)),
            final(self).kept() == old(self).kept(),
            final(self).turns() == old(self).turns() + ends(
                old(self).identities(),
                old(self).ticks(),
                old(self).dltime(),
            ),
            final(self).turns_up_to(2 * old(self).ticks() + 1),
            final(self).ticks() == old(self).ticks(),
            final(self).dltime() == old(self).dltime(),
            final(self).delivery_cap() == old(self).delivery_cap(),
            final(self).shared_config() == old(self).shared_config(),
            final(self).taken() == old(self).taken(),
            final(self).delivered() == old(self).delivered(),
            old(self).history().is_prefix_of(final(self).history()),
            old(self).identities().len() == 0 ==> final(self).queue() == old(self).queue(),
    {
        let mut i: usize = 0;
        let mut stop = false;
        let ghost given = Seq::<bool>::empty();
        let ghost ids = self.identities();
        let ghost tick = self.ticks@;
        let ghost now = self.dltime;
        assert(self.turns() =~= old(self).turns() + ends(ids.take(0), tick, now));
        assert(self.history() =~= old(self).history());
        assert(self.configs() =~= old(self).configs());
        assert(self.stoppers() =~= old(self).stoppers());
        assert(self.sinks() =~= old(self).sinks());
        assert(self.kept() =~= old(self).kept());
        while i < self.entities.len()
            invariant
                i <= self.entities.len(),
                i == 0 ==> !stop,
                stop ==> old(self).may_stop(),
                given.len() == i,
                stop == given.contains(true),
                self.answers() == old(self).answers(),
                ids == old(self).identities(),
                tick == old(self).ticks(),
                now == old(self).dltime(),
                ids.len() == self.entities@.len(),
                self.inv(),
                self.identities() == ids,
                self.configs() == old(self).configs(),
                self.stoppers() == old(self).stoppers(),
                self.sinks() == old(self).sinks(),
                self.takers_as(old(self)),
                self.kept() == old(self).kept(),
                self.turns() == old(self).turns() + ends(ids.take(i as int), tick, now),
                self.turns_up_to(2 * tick + 1),
                self.ticks() == tick,
                self.dltime() == old(self).dltime(),
                self.delivery_cap() == old(self).delivery_cap(),
                self.shared_config() == old(self).shared_config(),
                self.taken() == old(self).taken(),
                self.delivered() == old(self).delivered(),
                old(self).history().is_prefix_of(self.history()),
                i == 0 ==> self.queue() == old(self).queue(),
            decreases self.entities.len() - i,
        {
            let ghost history = self.history();
            let ghost handles = self.configs();
            let ghost stops = self.stoppers();
            let ghost were_sinks = self.sinks();
            let ghost was_kept = self.kept();
            let asked = self.entities[i].tick_end(&mut self.queue, Some(self.dltime));
            if asked {
                stop = true;
                assert(stops[i as int]);
            }
            proof {
                let earlier = given;
                given = given.push(asked);
                assert(given.drop_last() =~= earlier);
                if given.contains(true) {
                    let k = given.index_of(true);
                    assert(k == i || earlier[k]);
                }
                if stop && !asked {
                    let k = earlier.index_of(true);
                    assert(given[k]);
                }
                if asked {
                    assert(given[i as int]);
                }
            }
            self.turns = Ghost(
                self.turns@.push(TickEvent::End { entity: ids[i as int], tick, time: now }),
            );
            proof {
                assert(self.identities() =~= ids);
                assert(self.configs() =~= handles);
                assert(self.stoppers() =~= stops);
                assert(self.sinks() =~= were_sinks);
                assert(self.kept() =~= was_kept);
                assert(history.is_prefix_of(self.history()));
                assert(ends(ids.take(i as int), tick, now).push(
                    TickEvent::End { entity: ids[i as int], tick, time: now },
                ) =~= ends(ids.take(i + 1), tick, now));
                assert(self.turns() =~= old(self).turns() + ends(ids.take(i + 1), tick, now));
            }
            i = i + 1;
        }
        assert(ids.take(ids.len() as int) =~= ids);
        proof {
            let earlier = self.answers@;
            self.answers = Ghost(earlier.push(given));
            assert(self.answers().drop_last() =~= earlier);
            assert(self.identities() =~= ids);
            assert(self.configs() =~= old(self).configs());
            assert(self.stoppers() =~= old(self).stoppers());
            assert(self.sinks() =~= old(self).sinks());
            assert(self.kept() =~= old(self).kept());
        }
        stop
    }

    /// Ends the tick: the clock moves on by one timeslot.
    fn advance(&mut self)
        requires
            old(self).inv(),
            old(self).turns_up_to(2 * old(self).ticks() + 1),
        ensures
            final(self).wf(),
            final(self).identities() == old(self).identities(),
            final(self).configs() == old(self).configs(),
            final(self).stoppers() == old(self).stoppers(),
            final(self).sinks() == old(self).sinks(),
            final(self).takers_as(old(self)),
            final(self).kept() == old(self).kept(),
            final(self).turns() == old(self).turns(),
            final(self).ticks() == old(self).ticks() + 1,
            final(self).dltime() == old(self).dltime().plus(1),
            final(self).delivery_cap() == old(self).delivery_cap(),
            final(self).shared_config() == old(self).shared_config(),
            final(self).answers() == old(self).answers(),
            final(self).taken() == old(self).taken(),
            final(self).delivered() == old(self).delivered(),
            final(self).queue() == old(self).queue(),
    {
        self.dltime = self.dltime.next();
        self.ticks = Ghost(self.ticks@ + 1);
        assert(self.identities() =~= old(self).identities());
        assert(self.configs() =~= old(self).configs());
        assert(self.stoppers() =~= old(self).stoppers());
        assert(self.sinks() =~= old(self).sinks());
        assert(self.kept() =~= old(self).kept());
    }

    /// Where none of the primitives taken from place `from` on was delivered,
    /// none was at any earlier moment: `self` is the router at the later moment,
    /// `earlier` the router at the earlier one.
    proof fn lemma_none_delivered_before(&self, earlier: &MessageRouter<E>, from: int)
        requires
            0 <= from,
            earlier.delivered().len() == earlier.taken().len(),
            earlier.taken().is_prefix_of(self.taken()),
            earlier.delivered().is_prefix_of(self.delivered()),
        ensures
            self.none_delivered(from) ==> earlier.none_delivered(from),
    {
        if self.none_delivered(from) {
            assert forall|k: int| from <= k < earlier.taken().len() implies !(
            #[trigger] earlier.delivered()[k]) by {
                let n = earlier.taken().len() as int;
                assert(self.delivered().subrange(0, n)[k] == earlier.delivered()[k]);
                assert(!self.delivered()[k]);
            }
        }
    }

    /// What was routed up to a moment and what was routed since is what was
    /// routed in all: `self` is the router at the later moment, `mid` the router
    /// at the earlier one.
    proof fn lemma_routed_on(&self, mid: &MessageRouter<E>, from: int, refused: bool)
        requires
            0 <= from,
            mid.routed(from, false),
            self.routed(mid.taken().len() as int, refused),
            mid.delivered().len() == mid.taken().len(),
            mid.taken().is_prefix_of(self.taken()),
            mid.delivered().is_prefix_of(self.delivered()),
            mid.identities() == self.identities(),
            self.takes_as(*mid),
            !refused || self.taken().len() > mid.taken().len(),
        ensures
            self.routed(from, refused),
    {
        assert forall|k: int| from <= k < self.taken().len() implies {
            &&& #[trigger] self.delivered()[k] <==> self.takes(
                self.taken()[k].dest,
                self.taken()[k],
            )
            &&& self.delivered()[k] || !self.identities().contains(self.taken()[k].dest) || (
            refused && k == self.taken().len() - 1)
        } by {
            if k < mid.taken().len() {
                let n = mid.taken().len() as int;
                assert(self.delivered().subrange(0, n)[k] == mid.delivered()[k]);
                assert(self.taken().subrange(0, n)[k] == mid.taken()[k]);
                assert(mid.delivered()[k] <==> mid.takes(mid.taken()[k].dest, mid.taken()[k]));
                assert(self.takes(mid.taken()[k].dest, mid.taken()[k]) == mid.takes(
                    mid.taken()[k].dest,
                    mid.taken()[k],
                ));
            }
        }
    }

    /// Runs one tick to completion: every entity gets its turn at the start of
    /// the tick, in the order of registration; the queue is delivered until it
    /// is empty; every entity gets its turn at the end of the tick, in the same
    /// order; what the end turns put in the queue is delivered too; and the
    /// clock moves on by one timeslot. Returns whether an entity asked, in its
    /// end turn, to stop.
    ///
    /// A fault in delivery ends the tick where it stands; the clock moves on
    /// all the same, so that the next tick is a new one.
    ///
    /// The answers of the end turns go on record, and the tick returns `true`
    /// exactly where one of them was `true`. A sink has afterwards, behind what
    /// it had captured, the primitives that were handed to it in this tick.
    pub fn tick(&mut self) -> (r: Result<bool, RouterFault>)
        requires
            old(self).wf(),
        ensures
            final(self).wf(),
            final(self).identities() == old(self).identities(),
            forall|id: TetraEntity| final(self).config_of(id) == old(self).config_of(id),
            final(self).may_stop() == old(self).may_stop(),
            forall|id: TetraEntity| final(self).captured_since(*old(self), id),
            forall|id: TetraEntity| final(self).is_sink(id) == old(self).is_sink(id),
            final(self).takes_as(*old(self)),
            r == Ok::<bool, RouterFault>(true) ==> old(self).may_stop(),
            final(self).ticks() == old(self).ticks() + 1,
            final(self).dltime() == old(self).dltime().plus(1),
            final(self).delivery_cap() == old(self).delivery_cap(),
            final(self).shared_config() == old(self).shared_config(),
            old(self).taken().is_prefix_of(final(self).taken()),
            old(self).delivered().is_prefix_of(final(self).delivered()),
            old(self).history().is_prefix_of(final(self).history()),
            final(self).routed(old(self).taken().len() as int, refused(r)),
            refused(r) ==> final(self).taken().len() > old(self).taken().len(),
            r matches Err(fault) ==> final(self).fault_found(*old(self), fault),
            match r {
                Ok(stop) => final(self).ended_once(*old(self)) && stop == final(self).answers()
                    .last().contains(true),
                Err(_) => final(self).answers() == old(self).answers() || final(self).ended_once(
                    *old(self),
                ),
            },
            old(self).identities().len() == 0 ==> final(self).history() == old(self).history() && (
            r is Ok <==> old(self).queue().len() <= old(self).delivery_cap()) && r != Ok::<
                bool,
                RouterFault,
            >(true),
            match r {
                Ok(_) => final(self).queue().len() == 0 && final(self).turns() == old(self).turns()
                    + whole_tick(old(self).identities(), old(self).ticks(), old(self).dltime()),
                Err(_) => final(self).turns() == old(self).turns() + starts(
                    old(self).identities(),
                    old(self).ticks(),
                    old(self).dltime(),
                ) || final(self).turns() == old(self).turns() + whole_tick(
                    old(self).identities(),
                    old(self).ticks(),
                    old(self).dltime(),
                ),
            },
    {
        self.tick_all();
        let ghost started = *self;
        let first = self.deliver_pending();
        proof {
            self.lemma_captured_since(&started);
        }
        let ghost fed = *self;
        match first {
            Err(fault) => {
                self.advance();
                proof {
                    self.lemma_captured_since(&fed);
                    assert forall|id: TetraEntity| self.captured_since(*old(self), id) by {
                        assert(fed.captured_since(started, id));
                        assert(self.captured_since(fed, id));
                    }
                }
                return Err(fault);
            },
            Ok(_) => {},
        }
        let stop = self.tick_end();
        let ghost mid = *self;
        let delivered = self.deliver_pending();
        proof {
            self.lemma_routed_on(&mid, old(self).taken().len() as int, refused(delivered));
            self.lemma_captured_since(&mid);
        }
        let ghost ended = *self;
        self.advance();
        proof {
            self.lemma_captured_since(&ended);
            mid.lemma_captured_since(&fed);
            assert forall|id: TetraEntity| self.captured_since(*old(self), id) by {
                assert(fed.captured_since(started, id));
                assert(mid.captured_since(fed, id));
                assert(ended.captured_since(mid, id));
                assert(self.captured_since(ended, id));
                ended.lemma_captured_on(&mid, &started, id);
            }
        }
        match delivered {
            Err(fault) => Err(fault),
            Ok(_) => Ok(stop),
        }
    }

    /// Runs ticks until `num_ticks` of them are over, an entity asks to stop, or
    /// a tick ends in a fault. Returns the number of ticks that were run, the
    /// one that an entity stopped included.
    ///
    /// The turns given are those of whole ticks, one after the other; after a
    /// fault the last tick may have its start turns only. No tick is run after
    /// one in which an entity asked to stop. A sink has afterwards, behind what
    /// it had captured, the primitives that were handed to it in this run.
    pub fn run_stack(&mut self, num_ticks: usize) -> (r: Result<usize, RouterFault>)
        requires
            old(self).wf(),
        ensures
            final(self).wf(),
            final(self).identities() == old(self).identities(),
            forall|id: TetraEntity| final(self).config_of(id) == old(self).config_of(id),
            final(self).may_stop() == old(self).may_stop(),
            forall|id: TetraEntity| final(self).captured_since(*old(self), id),
            forall|id: TetraEntity| final(self).is_sink(id) == old(self).is_sink(id),
            final(self).takes_as(*old(self)),
            r matches Ok(n) && n < num_ticks ==> old(self).may_stop(),
            final(self).delivery_cap() == old(self).delivery_cap(),
            final(self).shared_config() == old(self).shared_config(),
            old(self).taken().is_prefix_of(final(self).taken()),
            old(self).delivered().is_prefix_of(final(self).delivered()),
            old(self).history().is_prefix_of(final(self).history()),
            old(self).turns().is_prefix_of(final(self).turns()),
            old(self).answers().is_prefix_of(final(self).answers()),
            final(self).none_asked_before_last(old(self).answers().len() as int),
            final(self).routed(old(self).taken().len() as int, refused(r)),
            refused(r) ==> final(self).taken().len() > old(self).taken().len(),
            r matches Err(fault) ==> final(self).fault_found(*old(self), fault),
            final(self).dltime() == old(self).dltime().plus(
                final(self).ticks() - old(self).ticks(),
            ),
            old(self).identities().len() == 0 ==> final(self).history() == old(self).history() && (
            r is Ok <==> num_ticks == 0 || old(self).queue().len() <= old(self).delivery_cap()) && (
            r matches Ok(n) ==> n == num_ticks),
            match r {
                Ok(n) => {
                    &&& n <= num_ticks
                    &&& n < num_ticks ==> n > 0 && final(self).answers().last().contains(true)
                    &&& final(self).answers().len() == old(self).answers().len() + n
                    &&& final(self).turns() == old(self).turns() + whole_ticks(
                        old(self).identities(),
                        old(self).ticks(),
                        old(self).dltime(),
                        n as nat,
                    )
                    &&& n > 0 ==> final(self).queue().len() == 0
                    &&& n == 0 ==> final(self).queue() == old(self).queue()
                    &&& final(self).ticks() == old(self).ticks() + n
                    &&& final(self).dltime() == old(self).dltime().plus(n as int)
                },
                Err(_) => {
                    let ids = old(self).identities();
                    let whole = (final(self).ticks() - old(self).ticks() - 1) as nat;
                    let run = old(self).turns() + whole_ticks(
                        ids,
                        old(self).ticks(),
                        old(self).dltime(),
                        whole,
                    );
                    let tick = old(self).ticks() + whole;
                    let time = old(self).dltime().plus(whole as int);
                    &&& old(self).ticks() < final(self).ticks() <= old(self).ticks() + num_ticks
                    &&& final(self).turns() == run + starts(ids, tick, time) || final(self).turns()
                        == run + whole_tick(ids, tick, time)
                },
            },
    {
        let mut n: usize = 0;
        proof {
            self.dltime().lemma_plus(0, 0);
            assert(self.history() =~= old(self).history());
            assert forall|id: TetraEntity| self.captured_since(*old(self), id) by {
                assert(self.captured_by(id) + handed_to(
                    self.taken(),
                    self.delivered(),
                    id,
                    self.taken().len() as int,
                ) =~= self.captured_by(id));
            }
            assert(self.turns() =~= old(self).turns() + whole_ticks(
                old(self).identities(),
                old(self).ticks(),
                old(self).dltime(),
                0,
            ));
        }
        while n < num_ticks
            invariant
                n <= num_ticks,
                self.wf(),
                self.identities() == old(self).identities(),
                forall|id: TetraEntity| self.config_of(id) == old(self).config_of(id),
                self.may_stop() == old(self).may_stop(),
                forall|id: TetraEntity| self.captured_since(*old(self), id),
                forall|id: TetraEntity| self.is_sink(id) == old(self).is_sink(id),
                self.takes_as(*old(self)),
                self.delivery_cap() == old(self).delivery_cap(),
                self.shared_config() == old(self).shared_config(),
                old(self).wf(),
                old(self).taken().is_prefix_of(self.taken()),
                old(self).delivered().is_prefix_of(self.delivered()),
                old(self).history().is_prefix_of(self.history()),
                old(self).turns().is_prefix_of(self.turns()),
                old(self).answers().is_prefix_of(self.answers()),
                self.answers().len() == old(self).answers().len() + n,
                forall|k: int|
                    old(self).answers().len() <= k < self.answers().len() ==> !(
                    #[trigger] self.answers()[k]).contains(true),
                self.turns() == old(self).turns() + whole_ticks(
                    old(self).identities(),
                    old(self).ticks(),
                    old(self).dltime(),
                    n as nat,
                ),
                self.routed(old(self).taken().len() as int, false),
                old(self).identities().len() == 0 ==> self.history() == old(self).history(),
                old(self).identities().len() == 0 && n > 0 ==> old(self).queue().len()
                    <= old(self).delivery_cap(),
                n > 0 ==> self.queue().len() == 0,
                n == 0 ==> self.queue() == old(self).queue(),
                self.ticks() == old(self).ticks() + n,
                self.dltime() == old(self).dltime().plus(n as int),
            decreases num_ticks - n,
        {
            let ghost mid = *self;
            let r = self.tick();
            n = n + 1;
            proof {
                old(self).dltime().lemma_plus(n - 1, 1);
                self.lemma_routed_on(&mid, old(self).taken().len() as int, refused(r));
                let ids = old(self).identities();
                let run = whole_ticks(ids, old(self).ticks(), old(self).dltime(), (n - 1) as nat);
                let tick = mid.ticks();
                let time = mid.dltime();
                assert(old(self).turns() + whole_ticks(
                    ids,
                    old(self).ticks(),
                    old(self).dltime(),
                    n as nat,
                ) =~= old(self).turns() + run + whole_tick(ids, tick, time));
                lemma_prefix_grows(old(self).answers(), mid.answers(), self.answers());
                assert forall|id: TetraEntity| self.captured_since(*old(self), id) by {
                    assert(mid.captured_since(*old(self), id));
                    assert(self.captured_since(mid, id));
                    self.lemma_captured_on(&mid, old(self), id);
                }
            }
            match r {
                Err(fault) => {
                    return Err(fault);
                },
                Ok(stop) => {
                    if stop {
                        return Ok(n);
                    }
                },
            }
        }
        Ok(n)
    }

    /// No entity's turn at the end of a tick comes before its turn at the start
    /// of that tick, and no entity's turn at the start of a tick comes before
    /// its turn at the end of the tick before: of two turns of one entity, a
    /// start and an end, the start comes first where both belong to one tick,
    /// and the end comes first where it belongs to the tick before.
    pub proof fn lemma_turns_in_order(&self, i: int, j: int)
        requires
            self.inv(),
            0 <= i < self.turns().len(),
            0 <= j < self.turns().len(),
            self.turns()[i] is Start,
            self.turns()[j] is End,
            self.turns()[i].entity() == self.turns()[j].entity(),
        ensures
            self.turns()[i].tick() == self.turns()[j].tick() ==> i < j,
            self.turns()[i].tick() == self.turns()[j].tick() + 1 ==> j < i,
    {
    }

    /// Delivery is first in, first out. Let `later` be the router at a later
    /// moment than `self`: what `self` has taken and the history of `self` are
    /// the beginnings of those of `later`. If, of two primitives that stand in
    /// the history of `self` at the places `a` before `b`, the one at `b` has
    /// been taken by then, so has the one at `a`, and it was taken first: both
    /// were taken at the places that they have in the history.
    pub proof fn lemma_first_in_first_out(&self, later: &MessageRouter<E>, a: int, b: int)
        requires
            self.taken().is_prefix_of(later.taken()),
            self.history().is_prefix_of(later.history()),
            0 <= a < b < self.history().len(),
            b < later.taken().len(),
        ensures
            later.taken()[a] == self.history()[a],
            later.taken()[b] == self.history()[b],
    {
    }
}

} // verus!
