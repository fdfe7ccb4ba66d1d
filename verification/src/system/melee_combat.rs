use vstd::prelude::*;
use crate::components::{SufferDamage, pending_of};
use crate::state::{State, melee_intents_ok, no_melee_intents};
use crate::system::damage::sat_i32;
use crate::text::{melee_hit_msg, melee_hit_text, melee_miss_msg, melee_miss_text};

verus! {

/// The melee formula: attacker power minus defender defense, floored at
/// zero (and clamped by the machine word above).
pub open spec fn melee_damage(power: int, defense: int) -> int {
    if power - defense <= 0 {
        0
    } else {
        sat_i32(power - defense)
    }
}

/// The pending-damage column as plain data: one optional list of queued
/// hits per entity.
pub open spec fn sd_col(s: Seq<Option<SufferDamage>>) -> Seq<Option<Seq<i32>>> {
    Seq::new(
        s.len(),
        |i: int|
            match s[i] {
                Some(sd) => Some(sd.amount@),
                None => None,
            },
    )
}

/// The log as plain text lines.
pub open spec fn log_view(l: Seq<String>) -> Seq<Seq<char>> {
    Seq::new(l.len(), |i: int| l[i]@)
}

/// Whether entity `e` strikes this turn: it is alive, wants to, can
/// fight, has a name, and both sides still stand.
pub open spec fn melee_applies(s: crate::store::EntityStore, e: int) -> bool {
    &&& s.alive@[e]
    &&& s.wants_melee@[e] is Some
    &&& s.wants_melee@[e].unwrap().target < s.n()
    &&& s.names@[e] is Some
    &&& s.combat_stats@[e] is Some
    &&& s.combat_stats@[e].unwrap().hp > 0
    &&& s.combat_stats@[s.wants_melee@[e].unwrap().target as int] is Some
    &&& s.names@[s.wants_melee@[e].unwrap().target as int] is Some
    &&& s.combat_stats@[s.wants_melee@[e].unwrap().target as int].unwrap().hp > 0
}

/// One attacker's effect on the pending-damage column and the log: a
/// zero-damage strike logs a miss and queues nothing; a positive strike
/// logs a hit and queues the damage against the target.
pub open spec fn melee_step(
    s: crate::store::EntityStore,
    e: int,
    sd: Seq<Option<Seq<i32>>>,
    log: Seq<Seq<char>>,
) -> (Seq<Option<Seq<i32>>>, Seq<Seq<char>>) {
    if melee_applies(s, e) {
        let t = s.wants_melee@[e].unwrap().target as int;
        let dmg = melee_damage(
            s.combat_stats@[e].unwrap().power as int,
            s.combat_stats@[t].unwrap().defense as int,
        );
        let an = s.names@[e].unwrap().name@;
        let tn = s.names@[t].unwrap().name@;
        if dmg == 0 {
            (sd, log.push(melee_miss_text(an, tn)))
        } else {
            (
                sd.update(
                    t,
                    Some(
                        match sd[t] {
                            Some(l) => l.push(dmg as i32),
                            None => seq![dmg as i32],
                        },
                    ),
                ),
                log.push(melee_hit_text(an, tn, dmg)),
            )
        }
    } else {
        (sd, log)
    }
}

/// The whole melee stage, attackers processed in entity order.
pub open spec fn melee_fold(
    s: crate::store::EntityStore,
    upto: int,
    sd: Seq<Option<Seq<i32>>>,
    log: Seq<Seq<char>>,
) -> (Seq<Option<Seq<i32>>>, Seq<Seq<char>>)
    decreases upto,
{
    if upto <= 0 {
        (sd, log)
    } else {
        let rec = melee_fold(s, upto - 1, sd, log);
        melee_step(s, upto - 1, rec.0, rec.1)
    }
}

/// The melee stage: turns queued melee intents into pending damage and
/// log lines, then clears every intent.
pub struct MeleeCombatSystem;

impl MeleeCombatSystem {
    pub fn run(state: &mut State)
        requires
            old(state).inv(),
            melee_intents_ok(old(state).store),
        ensures
            final(state).inv(),
            no_melee_intents(final(state).store),
            final(state).store.n() == old(state).store.n(),
            sd_col(final(state).store.suffer_damage@) == melee_fold(
                old(state).store,
                old(state).store.n(),
                sd_col(old(state).store.suffer_damage@),
                log_view(old(state).log.entries@),
            ).0,
            log_view(final(state).log.entries@) == melee_fold(
                old(state).store,
                old(state).store.n(),
                sd_col(old(state).store.suffer_damage@),
                log_view(old(state).log.entries@),
            ).1,
            final(state).store.alive@ == old(state).store.alive@,
            final(state).store.positions@ == old(state).store.positions@,
            final(state).store.renderables@ == old(state).store.renderables@,
            final(state).store.players@ == old(state).store.players@,
            final(state).store.viewsheds@ == old(state).store.viewsheds@,
            final(state).store.monsters@ == old(state).store.monsters@,
            final(state).store.names@ == old(state).store.names@,
            final(state).store.blocks_tile@ == old(state).store.blocks_tile@,
            final(state).store.combat_stats@ == old(state).store.combat_stats@,
            final(state).store.items@ == old(state).store.items@,
            final(state).store.provides_healing@ == old(state).store.provides_healing@,
            final(state).store.in_backpack@ == old(state).store.in_backpack@,
            final(state).store.wants_pickup@ == old(state).store.wants_pickup@,
            final(state).store.wants_use@ == old(state).store.wants_use@,
            final(state).store.wants_drop@ == old(state).store.wants_drop@,
            final(state).store.consumables@ == old(state).store.consumables@,
            final(state).store.ranged@ == old(state).store.ranged@,
            final(state).store.inflicts_damage@ == old(state).store.inflicts_damage@,
            final(state).store.aoe@ == old(state).store.aoe@,
            final(state).store.confusion@ == old(state).store.confusion@,
            final(state).store.pending_delete@ == old(state).store.pending_delete@,
            final(state).map == old(state).map,
            final(state).run_state == old(state).run_state,
            final(state).player_entity == old(state).player_entity,
            final(state).player_data == old(state).player_data,
    {
        let n = state.store.alive.len();
        let ghost s_init = old(state).store;
        let ghost sd0 = sd_col(old(state).store.suffer_damage@);
        let ghost log0 = log_view(old(state).log.entries@);
        let mut e: usize = 0;
        while e < n
            invariant
                old(state).inv(),
                melee_intents_ok(old(state).store),
                state.store.wf(),
                n == state.store.n(),
                n == old(state).store.n(),
                0 <= e <= n,
                s_init == old(state).store,
                sd0 == sd_col(old(state).store.suffer_damage@),
                log0 == log_view(old(state).log.entries@),
                sd_col(state.store.suffer_damage@) == melee_fold(s_init, e as int, sd0, log0).0,
                log_view(state.log.entries@) == melee_fold(s_init, e as int, sd0, log0).1,
                state.store.alive@ == old(state).store.alive@,
                state.store.positions@ == old(state).store.positions@,
                state.store.renderables@ == old(state).store.renderables@,
                state.store.players@ == old(state).store.players@,
                state.store.viewsheds@ == old(state).store.viewsheds@,
                state.store.monsters@ == old(state).store.monsters@,
                state.store.names@ == old(state).store.names@,
                state.store.blocks_tile@ == old(state).store.blocks_tile@,
                state.store.combat_stats@ == old(state).store.combat_stats@,
                state.store.wants_melee@ == old(state).store.wants_melee@,
                state.store.items@ == old(state).store.items@,
                state.store.provides_healing@ == old(state).store.provides_healing@,
                state.store.in_backpack@ == old(state).store.in_backpack@,
                state.store.wants_pickup@ == old(state).store.wants_pickup@,
                state.store.wants_use@ == old(state).store.wants_use@,
                state.store.wants_drop@ == old(state).store.wants_drop@,
                state.store.consumables@ == old(state).store.consumables@,
                state.store.ranged@ == old(state).store.ranged@,
                state.store.inflicts_damage@ == old(state).store.inflicts_damage@,
                state.store.aoe@ == old(state).store.aoe@,
                state.store.confusion@ == old(state).store.confusion@,
                state.store.pending_delete@ == old(state).store.pending_delete@,
                state.map == old(state).map,
                state.run_state == old(state).run_state,
                state.player_entity == old(state).player_entity,
                state.player_data == old(state).player_data,
            decreases n - e,
        {
            let ghost sd_pre = sd_col(state.store.suffer_damage@);
            let ghost log_pre = log_view(state.log.entries@);
            let intent = state.store.wants_melee[e];
            if state.store.alive[e] {
                if let Some(intent) = intent {
                    let has_name = state.store.names[e].is_some();
                    let stats_opt = state.store.combat_stats[e];
                    if has_name {
                        if let Some(stats) = stats_opt {
                            if stats.hp > 0 {
                                let target = intent.target;
                                let target_stats = state.store.combat_stats[target].unwrap();
                                if target_stats.hp > 0 {
                                    let wide: i64 = (stats.power as i64) - (
                                    target_stats.defense as i64);
                                    if wide <= 0 {
                                        let msg = melee_miss_msg(
                                            match &state.store.names[e] {
                                                Some(nm) => nm.name.as_str(),
                                                None => "???",
                                            },
                                            match &state.store.names[target] {
                                                Some(nm) => nm.name.as_str(),
                                                None => "???",
                                            },
                                        );
                                        state.log.log(msg);
                                        proof {
                                            assert(log_view(state.log.entries@) =~= log_pre.push(
                                                melee_miss_text(
                                                    s_init.names@[e as int].unwrap().name@,
                                                    s_init.names@[intent.target as int].unwrap().name@,
                                                ),
                                            ));
                                        }
                                    } else {
                                        let dmg: i32 = if wide > i32::MAX as i64 {
                                            i32::MAX
                                        } else {
                                            wide as i32
                                        };
                                        let msg = melee_hit_msg(
                                            match &state.store.names[e] {
                                                Some(nm) => nm.name.as_str(),
                                                None => "???",
                                            },
                                            match &state.store.names[target] {
                                                Some(nm) => nm.name.as_str(),
                                                None => "???",
                                            },
                                            dmg,
                                        );
                                        state.log.log(msg);
                                        let ghost sdcol_pre = state.store.suffer_damage@;
                                        SufferDamage::new_damage(
                                            &mut state.store.suffer_damage,
                                            target,
                                            dmg,
                                        );
                                        proof {
                                            let t = intent.target as int;
                                            assert(dmg as int == melee_damage(
                                                stats.power as int,
                                                target_stats.defense as int,
                                            ));
                                            assert(state.store.suffer_damage@[t].unwrap().amount@
                                                == pending_of(sdcol_pre, t).push(dmg));
                                            assert(sd_col(state.store.suffer_damage@)
                                                =~= sd_pre.update(
                                                t,
                                                Some(
                                                    match sd_pre[t] {
                                                        Some(l) => l.push(dmg),
                                                        None => seq![dmg],
                                                    },
                                                ),
                                            ));
                                            assert(log_view(state.log.entries@) =~= log_pre.push(
                                                melee_hit_text(
                                                    s_init.names@[e as int].unwrap().name@,
                                                    s_init.names@[t].unwrap().name@,
                                                    dmg as int,
                                                ),
                                            ));
                                        }
                                    }
                                }
                            }
                        }
                    }
                }
            }
            proof {
                assert(melee_fold(s_init, e as int + 1, sd0, log0) == melee_step(
                    s_init,
                    e as int,
                    sd_pre,
                    log_pre,
                ));
                if !melee_applies(s_init, e as int) {
                    assert(sd_col(state.store.suffer_damage@) =~= sd_pre);
                    assert(log_view(state.log.entries@) =~= log_pre);
                }
            }
            e = e + 1;
        }

        let mut k: usize = 0;
        while k < n
            invariant
                old(state).inv(),
                state.store.wf(),
                n == state.store.n(),
                n == old(state).store.n(),
                0 <= k <= n,
                s_init == old(state).store,
                sd0 == sd_col(old(state).store.suffer_damage@),
                log0 == log_view(old(state).log.entries@),
                sd_col(state.store.suffer_damage@) == melee_fold(s_init, n as int, sd0, log0).0,
                log_view(state.log.entries@) == melee_fold(s_init, n as int, sd0, log0).1,
                forall|j: int| 0 <= j < k ==> (#[trigger] state.store.wants_melee@[j]) is None,
                state.store.alive@ == old(state).store.alive@,
                state.store.positions@ == old(state).store.positions@,
                state.store.renderables@ == old(state).store.renderables@,
                state.store.players@ == old(state).store.players@,
                state.store.viewsheds@ == old(state).store.viewsheds@,
                state.store.monsters@ == old(state).store.monsters@,
                state.store.names@ == old(state).store.names@,
                state.store.blocks_tile@ == old(state).store.blocks_tile@,
                state.store.combat_stats@ == old(state).store.combat_stats@,
                state.store.items@ == old(state).store.items@,
                state.store.provides_healing@ == old(state).store.provides_healing@,
                state.store.in_backpack@ == old(state).store.in_backpack@,
                state.store.wants_pickup@ == old(state).store.wants_pickup@,
                state.store.wants_use@ == old(state).store.wants_use@,
                state.store.wants_drop@ == old(state).store.wants_drop@,
                state.store.consumables@ == old(state).store.consumables@,
                state.store.ranged@ == old(state).store.ranged@,
                state.store.inflicts_damage@ == old(state).store.inflicts_damage@,
                state.store.aoe@ == old(state).store.aoe@,
                state.store.confusion@ == old(state).store.confusion@,
                state.store.pending_delete@ == old(state).store.pending_delete@,
                state.map == old(state).map,
                state.run_state == old(state).run_state,
                state.player_entity == old(state).player_entity,
                state.player_data == old(state).player_data,
            decreases n - k,
        {
            state.store.wants_melee[k] = None;
            k = k + 1;
        }
    }
}

} // verus!
