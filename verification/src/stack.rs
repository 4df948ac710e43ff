//! Putting a stack together.

use crate::config::stack_config::SharedConfig;
use crate::entities::cmce::cmce_bs::CmceBs;
use crate::entities::mm::mm_bs::MmBs;
use crate::entities::sndcp::sndcp_bs::Sndcp;
use crate::entities::StackEntity;
use crate::entities::TetraEntityTrait;
use crate::messagerouter::MessageRouter;
use crate::messagerouter::TickEvent;
use crate::saps::sapmsg::SapMsg;
use crate::tdma_time::TdmaTime;
use crate::tetra_entities::TetraEntity;
use vstd::prelude::*;

verus! {

/// The router of a stack.
pub type StackRouter = MessageRouter<StackEntity>;

/// The identities `ids` after an entity with the identity `id` has been
/// registered: as before where `id` was among them, else with `id` at the end.
pub open spec fn with_identity(ids: Seq<TetraEntity>, id: TetraEntity) -> Seq<TetraEntity> {
    if ids.contains(id) {
        ids
    } else {
        ids.push(id)
    }
}

/// The identities `ids` after entities with the identities `more` have been
/// registered, one after the other.
pub open spec fn with_identities(ids: Seq<TetraEntity>, more: Seq<TetraEntity>) -> Seq<
    TetraEntity,
>
    decreases more.len(),
{
    if more.len() == 0 {
        ids
    } else {
        with_identity(with_identities(ids, more.drop_last()), more.last())
    }
}

/// The identities of the stack of a base station, in the order of their turns.
pub open spec fn bs_identities() -> Seq<TetraEntity> {
    seq![
        TetraEntity::Phy,
        TetraEntity::Lmac,
        TetraEntity::Umac,
        TetraEntity::Llc,
        TetraEntity::Mle,
        TetraEntity::Mm,
        TetraEntity::Sndcp,
        TetraEntity::Cmce,
    ]
}

/// Builds the stack of a base station: a router with the PHY, the lower and the
/// upper MAC, the LLC and the MLE that the caller brings, in this order, and,
/// after them, mobility management, packet data and circuit mode control. The
/// queue is empty and the clock stands at the start of the cycle.
///
/// Where the five are brought under their own identities, the stack has the
/// eight entities of a base station, each once. An entity that is brought under
/// the identity of one that comes after it is replaced by that one. The router
/// and the three upper entities hold `cfg`, and the stack may stop only if one
/// of the five may.
pub fn build_bs_stack(
    cfg: &SharedConfig,
    phy: StackEntity,
    lmac: StackEntity,
    umac: StackEntity,
    llc: StackEntity,
    mle: StackEntity,
) -> (router: StackRouter)
    ensures
        router.wf(),
        router.identities() == with_identities(
            seq![phy.spec_entity()],
            seq![
                lmac.spec_entity(),
                umac.spec_entity(),
                llc.spec_entity(),
                mle.spec_entity(),
                TetraEntity::Mm,
                TetraEntity::Sndcp,
                TetraEntity::Cmce,
            ],
        ),
        phy.spec_entity() == TetraEntity::Phy && lmac.spec_entity() == TetraEntity::Lmac
            && umac.spec_entity() == TetraEntity::Umac && llc.spec_entity() == TetraEntity::Llc
            && mle.spec_entity() == TetraEntity::Mle ==> router.identities() == bs_identities(),
        router.shared_config() == *cfg,
        router.may_stop() ==> phy.spec_may_stop() || lmac.spec_may_stop() || umac.spec_may_stop()
            || llc.spec_may_stop() || mle.spec_may_stop(),
        router.config_of(TetraEntity::Mm) == Some(*cfg),
        router.config_of(TetraEntity::Sndcp) == Some(*cfg),
        router.config_of(TetraEntity::Cmce) == Some(*cfg),
        router.queue() == Seq::<SapMsg>::empty(),
        router.taken() == Seq::<SapMsg>::empty(),
        router.delivered() == Seq::<bool>::empty(),
        router.turns() == Seq::<TickEvent>::empty(),
        router.ticks() == 0,
        router.dltime() == (TdmaTime { h: 0, m: 1, f: 1, t: 1 }),
{
    let ghost ids = seq![
        lmac.spec_entity(),
        umac.spec_entity(),
        llc.spec_entity(),
        mle.spec_entity(),
        TetraEntity::Mm,
        TetraEntity::Sndcp,
        TetraEntity::Cmce,
    ];
    let ghost first = seq![phy.spec_entity()];
    let mut router: StackRouter = MessageRouter::new(cfg.clone());
    let _ = router.register_entity(phy);
    assert(router.identities() =~= with_identities(first, ids.take(0)));
    let _ = router.register_entity(lmac);
    assert(ids.take(1).drop_last() =~= ids.take(0));
    let _ = router.register_entity(umac);
    assert(ids.take(2).drop_last() =~= ids.take(1));
    let _ = router.register_entity(llc);
    assert(ids.take(3).drop_last() =~= ids.take(2));
    let _ = router.register_entity(mle);
    assert(ids.take(4).drop_last() =~= ids.take(3));
    let _ = router.register_entity(StackEntity::MmBs(MmBs::new(cfg.clone())));
    assert(ids.take(5).drop_last() =~= ids.take(4));
    let _ = router.register_entity(StackEntity::Sndcp(Sndcp::new(cfg.clone())));
    assert(ids.take(6).drop_last() =~= ids.take(5));
    let _ = router.register_entity(StackEntity::CmceBs(CmceBs::new(cfg.clone())));
    assert(ids.take(7).drop_last() =~= ids.take(6));
    assert(ids.take(7) =~= ids);
    assert(router.identities() == with_identities(first, ids)) by {
        reveal_with_fuel(with_identities, 8);
    }
    router.set_dl_time(TdmaTime::default());
    proof {
        if first[0] == TetraEntity::Phy && ids[0] == TetraEntity::Lmac && ids[1]
            == TetraEntity::Umac && ids[2] == TetraEntity::Llc && ids[3] == TetraEntity::Mle {
            assert(router.identities() =~= bs_identities());
        }
    }
    router
}

} // verus!
