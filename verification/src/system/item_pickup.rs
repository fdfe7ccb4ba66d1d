use vstd::prelude::*;
use crate::components::{InBackpack, Position};
use crate::state::{State, melee_intents_ok, no_melee_intents};
use crate::store::EntityStore;
use crate::system::melee_combat::log_view;
use crate::text::{pickup_msg, pickup_text};

verus! {

/// The display text of an optional name.
pub open spec fn name_text(s: EntityStore, e: int) -> Seq<char> {
    match s.names@[e] {
        Some(n) => n.name@,
        None => "???"@,
    }
}

/// Whether entity `e` has a pickup to perform.
pub open spec fn pickup_applies(s: EntityStore, e: int) -> bool {
    &&& s.alive@[e]
    &&& s.wants_pickup@[e] is Some
    &&& s.wants_pickup@[e].unwrap().item < s.n()
}

/// One pickup: the item loses its place on the map and joins the
/// collector's backpack; the player's own pickups are logged.
pub open spec fn pickup_step(
    s: EntityStore,
    player: int,
    e: int,
    pos: Seq<Option<Position>>,
    bp: Seq<Option<InBackpack>>,
    log: Seq<Seq<char>>,
) -> (Seq<Option<Position>>, Seq<Option<InBackpack>>, Seq<Seq<char>>) {
    if pickup_applies(s, e) {
        let intent = s.wants_pickup@[e].unwrap();
        let item = intent.item as int;
        let pos2 = pos.update(item, None);
        let bp2 = bp.update(item, Some(InBackpack { owner: intent.collected_by }));
        if intent.collected_by == player {
            (pos2, bp2, log.push(pickup_text(name_text(s, item))))
        } else {
            (pos2, bp2, log)
        }
    } else {
        (pos, bp, log)
    }
}

/// The whole pickup pass, collectors processed in entity order.
pub open spec fn pickup_fold(
    s: EntityStore,
    player: int,
    upto: int,
    pos: Seq<Option<Position>>,
    bp: Seq<Option<InBackpack>>,
    log: Seq<Seq<char>>,
) -> (Seq<Option<Position>>, Seq<Option<InBackpack>>, Seq<Seq<char>>)
    decreases upto,
{
    if upto <= 0 {
        (pos, bp, log)
    } else {
        let rec = pickup_fold(s, player, upto - 1, pos, bp, log);
        pickup_step(s, player, upto - 1, rec.0, rec.1, rec.2)
    }
}

/// The pickup stage: moves items into backpacks and clears the intents.
pub struct ItemCollectionSystem;

impl ItemCollectionSystem {
    pub fn run(state: &mut State)
        requires
            old(state).inv(),
        ensures
            final(state).inv(),
            final(state).store.n() == old(state).store.n(),
            ({
                let r = pickup_fold(
                    old(state).store,
                    old(state).player_entity as int,
                    old(state).store.n(),
                    old(state).store.positions@,
                    old(state).store.in_backpack@,
                    log_view(old(state).log.entries@),
                );
                &&& final(state).store.positions@ == r.0
                &&& final(state).store.in_backpack@ == r.1
                &&& log_view(final(state).log.entries@) == r.2
            }),
            forall|e: int|
                0 <= e < old(state).store.n() ==> (#[trigger] final(state).store.wants_pickup@[e])
                    is None,
            melee_intents_ok(old(state).store) ==> melee_intents_ok(final(state).store),
            no_melee_intents(old(state).store) ==> no_melee_intents(final(state).store),
            final(state).store.alive@ == old(state).store.alive@,
            final(state).store.renderables@ == old(state).store.renderables@,
            final(state).store.players@ == old(state).store.players@,
            final(state).store.viewsheds@ == old(state).store.viewsheds@,
            final(state).store.monsters@ == old(state).store.monsters@,
            final(state).store.names@ == old(state).store.names@,
            final(state).store.blocks_tile@ == old(state).store.blocks_tile@,
            final(state).store.combat_stats@ == old(state).store.combat_stats@,
            final(state).store.wants_melee@ == old(state).store.wants_melee@,
            final(state).store.suffer_damage@ == old(state).store.suffer_damage@,
            final(state).store.items@ == old(state).store.items@,
            final(state).store.provides_healing@ == old(state).store.provides_healing@,
            final(state).store.wants_use@ == old(state).store.wants_use@,
            final(state).store.wants_drop@ == old(state).store.wants_drop@,
            final(state).store.consumables@ == old(state).store.consumables@,
            final(state).store.ranged@ == old(state).store.ranged@,
            final(state).store.inflicts_damage@ == old(state).store.inflicts_damage@,
            final(state).store.aoe@ == old(state).store.aoe@,
            final(state).store.confusion@ == old(state).store.confusion@,
            final(state).store.pending_delete@ == old(state).store.pending_delete@,
            final(state).map == old(state).map,
            final(state).run_state == old(state).run_state,
            final(state).player_entity == old(state).player_entity,
            final(state).player_data == old(state).player_data,
    {
        let n = state.store.alive.len();
        let player = state.player_entity;
        let ghost s_init = old(state).store;
        let ghost pos0 = old(state).store.positions@;
        let ghost bp0 = old(state).store.in_backpack@;
        let ghost log0 = log_view(old(state).log.entries@);
        let mut e: usize = 0;
        while e < n
            invariant
                old(state).inv(),
                state.store.wf(),
                n == state.store.n(),
                n == old(state).store.n(),
                0 <= e <= n,
                player == old(state).player_entity,
                s_init == old(state).store,
                pos0 == old(state).store.positions@,
                bp0 == old(state).store.in_backpack@,
                log0 == log_view(old(state).log.entries@),
                ({
                    let r = pickup_fold(s_init, player as int, e as int, pos0, bp0, log0);
                    &&& state.store.positions@ == r.0
                    &&& state.store.in_backpack@ == r.1
                    &&& log_view(state.log.entries@) == r.2
                }),
                crate::state::positions_in_bounds(state.store),
                forall|j: int|
                    0 <= j < state.store.n() && (#[trigger] state.store.in_backpack@[j]) is Some
                        ==> state.store.in_backpack@[j].unwrap().owner < state.store.n(),
                state.store.alive@ == old(state).store.alive@,
                state.store.renderables@ == old(state).store.renderables@,
                state.store.players@ == old(state).store.players@,
                state.store.viewsheds@ == old(state).store.viewsheds@,
                state.store.monsters@ == old(state).store.monsters@,
                state.store.names@ == old(state).store.names@,
                state.store.blocks_tile@ == old(state).store.blocks_tile@,
                state.store.combat_stats@ == old(state).store.combat_stats@,
                state.store.wants_melee@ == old(state).store.wants_melee@,
                state.store.suffer_damage@ == old(state).store.suffer_damage@,
                state.store.items@ == old(state).store.items@,
                state.store.provides_healing@ == old(state).store.provides_healing@,
                state.store.wants_pickup@ == old(state).store.wants_pickup@,
                state.store.wants_use@ == old(state).store.wants_use@,
                state.store.wants_drop@ == old(state).store.wants_drop@,
                state.store.consumables@ == old(state).store.consumables@,
                state.store.ranged@ == old(state).store.ranged@,
                state.store.inflicts_damage@ == old(state).store.inflicts_damage@,
                state.store.aoe@ == old(state).store.aoe@,
                state.store.confusion@ == old(state).store.confusion@,
                state.store.pending_delete@ == old(state).store.pending_delete@,
                state.map == old(state).map,
                state.run_state == old(state).run_state,
                state.player_entity == old(state).player_entity,
                state.player_data == old(state).player_data,
            decreases n - e,
        {
            let ghost pos_pre = state.store.positions@;
            let ghost bp_pre = state.store.in_backpack@;
            let ghost log_pre = log_view(state.log.entries@);
            let intent = state.store.wants_pickup[e];
            if state.store.alive[e] {
                if let Some(pickup) = intent {
                    state.store.positions[pickup.item] = None;
                    state.store.in_backpack[pickup.item] = Some(
                        InBackpack { owner: pickup.collected_by },
                    );
                    if pickup.collected_by == player {
                        let msg = pickup_msg(
                            match &state.store.names[pickup.item] {
                                Some(nm) => nm.name.as_str(),
                                None => "???",
                            },
                        );
                        state.log.log(msg);
                        proof {
                            assert(log_view(state.log.entries@) =~= log_pre.push(
                                pickup_text(name_text(s_init, pickup.item as int)),
                            ));
                        }
                    }
                }
            }
            proof {
                assert(pickup_fold(s_init, player as int, e as int + 1, pos0, bp0, log0)
                    == pickup_step(s_init, player as int, e as int, pos_pre, bp_pre, log_pre));
                if !pickup_applies(s_init, e as int) {
                    assert(state.store.positions@ =~= pos_pre);
                    assert(state.store.in_backpack@ =~= bp_pre);
                    assert(log_view(state.log.entries@) =~= log_pre);
                }
            }
            e = e + 1;
        }

        let mut k: usize = 0;
        while k < n
            invariant
                old(state).inv(),
                state.store.wf(),
                n == state.store.n(),
                n == old(state).store.n(),
                0 <= k <= n,
                s_init == old(state).store,
                ({
                    let r = pickup_fold(
                        s_init,
                        old(state).player_entity as int,
                        n as int,
                        old(state).store.positions@,
                        old(state).store.in_backpack@,
                        log_view(old(state).log.entries@),
                    );
                    &&& state.store.positions@ == r.0
                    &&& state.store.in_backpack@ == r.1
                    &&& log_view(state.log.entries@) == r.2
                }),
                forall|j: int| 0 <= j < k ==> (#[trigger] state.store.wants_pickup@[j]) is None,
                crate::state::positions_in_bounds(state.store),
                forall|j: int|
                    0 <= j < state.store.n() && (#[trigger] state.store.in_backpack@[j]) is Some
                        ==> state.store.in_backpack@[j].unwrap().owner < state.store.n(),
                state.store.alive@ == old(state).store.alive@,
                state.store.renderables@ == old(state).store.renderables@,
                state.store.players@ == old(state).store.players@,
                state.store.viewsheds@ == old(state).store.viewsheds@,
                state.store.monsters@ == old(state).store.monsters@,
                state.store.names@ == old(state).store.names@,
                state.store.blocks_tile@ == old(state).store.blocks_tile@,
                state.store.combat_stats@ == old(state).store.combat_stats@,
                state.store.wants_melee@ == old(state).store.wants_melee@,
                state.store.suffer_damage@ == old(state).store.suffer_damage@,
                state.store.items@ == old(state).store.items@,
                state.store.provides_healing@ == old(state).store.provides_healing@,
                state.store.wants_use@ == old(state).store.wants_use@,
                state.store.wants_drop@ == old(state).store.wants_drop@,
                state.store.consumables@ == old(state).store.consumables@,
                state.store.ranged@ == old(state).store.ranged@,
                state.store.inflicts_damage@ == old(state).store.inflicts_damage@,
                state.store.aoe@ == old(state).store.aoe@,
                state.store.confusion@ == old(state).store.confusion@,
                state.store.pending_delete@ == old(state).store.pending_delete@,
                state.map == old(state).map,
                state.run_state == old(state).run_state,
                state.player_entity == old(state).player_entity,
                state.player_data == old(state).player_data,
            decreases n - k,
        {
            state.store.wants_pickup[k] = None;
            k = k + 1;
        }
    }
}

} // verus!
