use vstd::prelude::*;
use crate::components::{CombatStats, Entity, pending_of};
use crate::state::{State, no_melee_intents};
use crate::store::EntityStore;
use crate::text::died_msg;

verus! {

/// Clamp an unbounded integer into the `i64` range.
pub open spec fn sat64(x: int) -> int {
    if x < i64::MIN {
        i64::MIN as int
    } else if x > i64::MAX {
        i64::MAX as int
    } else {
        x
    }
}

/// Clamp an unbounded integer into the `i32` range.
pub open spec fn sat_i32(x: int) -> int {
    if x < i32::MIN {
        i32::MIN as int
    } else if x > i32::MAX {
        i32::MAX as int
    } else {
        x
    }
}

/// The sum of a pending-damage list, accumulated left to right with
/// 64-bit saturation (exact for every damage total a game can reach).
pub open spec fn sum_sat(s: Seq<i32>) -> int
    decreases s.len(),
{
    if s.len() == 0 {
        0
    } else {
        sat64(sum_sat(s.drop_last()) + s.last())
    }
}

/// What the damage stage leaves as an entity's hit points: the old
/// value minus everything pending, clamped by the machine word.
pub open spec fn hp_after_damage(hp: int, pending: Seq<i32>) -> int {
    sat_i32(sat64(hp - sum_sat(pending)))
}

/// Saturating add of a pending amount into the 64-bit accumulator.
fn sat_add64(acc: i64, v: i32) -> (r: i64)
    ensures
        r as int == sat64(acc + v),
{
    match acc.checked_add(v as i64) {
        Some(s) => s,
        None => {
            if v < 0 {
                i64::MIN
            } else {
                i64::MAX
            }
        },
    }
}

/// The saturating sum of one entity's pending-damage list.
fn sum_pending_list(v: &Vec<i32>) -> (r: i64)
    ensures
        r as int == sum_sat(v@),
{
    let mut acc: i64 = 0;
    let mut i: usize = 0;
    while i < v.len()
        invariant
            0 <= i <= v@.len(),
            acc as int == sum_sat(v@.subrange(0, i as int)),
        decreases v@.len() - i,
    {
        let ghost pre = v@.subrange(0, i as int);
        acc = sat_add64(acc, v[i]);
        proof {
            assert(v@.subrange(0, i as int + 1).drop_last() =~= pre);
            assert(v@.subrange(0, i as int + 1).last() == v@[i as int]);
        }
        i = i + 1;
    }
    proof {
        assert(v@.subrange(0, v@.len() as int) =~= v@);
    }
    acc
}

/// Subtract the pending total from a hit-point value, clamped into
/// `i32`.
fn apply_total(hp: i32, total: i64) -> (r: i32)
    ensures
        r as int == sat_i32(sat64(hp - total)),
{
    let wide = match (hp as i64).checked_sub(total) {
        Some(d) => d,
        None => {
            if total > 0 {
                i64::MIN
            } else {
                i64::MAX
            }
        },
    };
    if wide < i32::MIN as i64 {
        i32::MIN
    } else if wide > i32::MAX as i64 {
        i32::MAX
    } else {
        wide as i32
    }
}


/// The death lines the sweep appends, dead non-players in entity
/// order; a nameless one is logged under the placeholder.
pub open spec fn death_log_fold(s: EntityStore, upto: int, log: Seq<Seq<char>>) -> Seq<Seq<char>>
    decreases upto,
{
    if upto <= 0 {
        log
    } else {
        let prev = death_log_fold(s, upto - 1, log);
        let e = upto - 1;
        if s.alive@[e] && s.combat_stats@[e] is Some && s.combat_stats@[e].unwrap().hp <= 0
            && !s.players@[e] {
            if s.names@[e] is Some {
                prev.push(crate::text::died_text(s.names@[e].unwrap().name@))
            } else {
                prev.push(crate::text::died_text("???"@))
            }
        } else {
            prev
        }
    }
}

/// The damage-resolution stage and the dead-entity sweep.
pub struct DamageSystem;

impl DamageSystem {
    /// Apply every pending-damage list: each combatant's hit points drop
    /// by the sum of its queued hits, and every pending list is cleared,
    /// however many hits it held.
    pub fn run(state: &mut State)
        requires
            old(state).inv(),
        ensures
            final(state).inv(),
            final(state).store.n() == old(state).store.n(),
            forall|e: int|
                0 <= e < old(state).store.n() ==> #[trigger] final(state).store.combat_stats@[e]
                    == (if old(state).store.combat_stats@[e] is Some && old(
                    state,
                ).store.suffer_damage@[e] is Some {
                    Some(
                        CombatStats {
                            max_hp: old(state).store.combat_stats@[e].unwrap().max_hp,
                            hp: hp_after_damage(
                                old(state).store.combat_stats@[e].unwrap().hp as int,
                                pending_of(old(state).store.suffer_damage@, e),
                            ) as i32,
                            defense: old(state).store.combat_stats@[e].unwrap().defense,
                            power: old(state).store.combat_stats@[e].unwrap().power,
                        },
                    )
                } else {
                    old(state).store.combat_stats@[e]
                }),
            forall|e: int|
                0 <= e < old(state).store.n() ==> (#[trigger] final(state).store.suffer_damage@[e])
                    is None,
            final(state).store.alive@ == old(state).store.alive@,
            final(state).store.positions@ == old(state).store.positions@,
            final(state).store.renderables@ == old(state).store.renderables@,
            final(state).store.players@ == old(state).store.players@,
            final(state).store.viewsheds@ == old(state).store.viewsheds@,
            final(state).store.monsters@ == old(state).store.monsters@,
            final(state).store.names@ == old(state).store.names@,
            final(state).store.blocks_tile@ == old(state).store.blocks_tile@,
            final(state).store.wants_melee@ == old(state).store.wants_melee@,
            final(state).store.items@ == old(state).store.items@,
            final(state).store.provides_healing@ == old(state).store.provides_healing@,
            final(state).store.in_backpack@ == old(state).store.in_backpack@,
            final(state).store.wants_pickup@ == old(state).store.wants_pickup@,
            final(state).store.wants_use@ == old(state).store.wants_use@,
            final(state).store.wants_drop@ == old(state).store.wants_drop@,
            final(state).store.consumables@ == old(state).store.consumables@,
            final(state).store.ranged@ == old(state).store.ranged@,
            final(state).store.inflicts_damage@ == old(state).store.inflicts_damage@,
            final(state).store.aoe@ == old(state).store.aoe@,
            final(state).store.confusion@ == old(state).store.confusion@,
            final(state).store.pending_delete@ == old(state).store.pending_delete@,
            final(state).map == old(state).map,
            final(state).log == old(state).log,
            final(state).run_state == old(state).run_state,
            final(state).player_entity == old(state).player_entity,
            final(state).player_data == old(state).player_data,
    {
        let n = state.store.alive.len();
        let mut e: usize = 0;
        while e < n
            invariant
                old(state).inv(),
                state.store.wf(),
                n == state.store.n(),
                n == old(state).store.n(),
                0 <= e <= n,
                forall|j: int|
                    0 <= j < e ==> #[trigger] state.store.combat_stats@[j] == (if old(
                        state,
                    ).store.combat_stats@[j] is Some && old(state).store.suffer_damage@[j]
                        is Some {
                        Some(
                            CombatStats {
                                max_hp: old(state).store.combat_stats@[j].unwrap().max_hp,
                                hp: hp_after_damage(
                                    old(state).store.combat_stats@[j].unwrap().hp as int,
                                    pending_of(old(state).store.suffer_damage@, j),
                                ) as i32,
                                defense: old(state).store.combat_stats@[j].unwrap().defense,
                                power: old(state).store.combat_stats@[j].unwrap().power,
                            },
                        )
                    } else {
                        old(state).store.combat_stats@[j]
                    }),
                forall|j: int|
                    0 <= j < e ==> (#[trigger] state.store.suffer_damage@[j]) is None,
                forall|j: int|
                    e <= j < n ==> #[trigger] state.store.combat_stats@[j] == old(
                        state,
                    ).store.combat_stats@[j],
                forall|j: int|
                    e <= j < n ==> #[trigger] state.store.suffer_damage@[j] == old(
                        state,
                    ).store.suffer_damage@[j],
                state.store.alive@ == old(state).store.alive@,
                state.store.positions@ == old(state).store.positions@,
                state.store.renderables@ == old(state).store.renderables@,
                state.store.players@ == old(state).store.players@,
                state.store.viewsheds@ == old(state).store.viewsheds@,
                state.store.monsters@ == old(state).store.monsters@,
                state.store.names@ == old(state).store.names@,
                state.store.blocks_tile@ == old(state).store.blocks_tile@,
                state.store.wants_melee@ == old(state).store.wants_melee@,
                state.store.items@ == old(state).store.items@,
                state.store.provides_healing@ == old(state).store.provides_healing@,
                state.store.in_backpack@ == old(state).store.in_backpack@,
                state.store.wants_pickup@ == old(state).store.wants_pickup@,
                state.store.wants_use@ == old(state).store.wants_use@,
                state.store.wants_drop@ == old(state).store.wants_drop@,
                state.store.consumables@ == old(state).store.consumables@,
                state.store.ranged@ == old(state).store.ranged@,
                state.store.inflicts_damage@ == old(state).store.inflicts_damage@,
                state.store.aoe@ == old(state).store.aoe@,
                state.store.confusion@ == old(state).store.confusion@,
                state.store.pending_delete@ == old(state).store.pending_delete@,
                state.map == old(state).map,
                state.log == old(state).log,
                state.run_state == old(state).run_state,
                state.player_entity == old(state).player_entity,
                state.player_data == old(state).player_data,
            decreases n - e,
        {
            let stats_opt = state.store.combat_stats[e];
            let has_damage = state.store.suffer_damage[e].is_some();
            if let Some(stats) = stats_opt {
                if has_damage {
                    let total = match &state.store.suffer_damage[e] {
                        Some(sd) => sum_pending_list(&sd.amount),
                        None => 0,
                    };
                    let new_hp = apply_total(stats.hp, total);
                    state.store.combat_stats[e] = Some(
                        CombatStats {
                            max_hp: stats.max_hp,
                            hp: new_hp,
                            defense: stats.defense,
                            power: stats.power,
                        },
                    );
                }
            }
            state.store.suffer_damage[e] = None;
            e = e + 1;
        }
    }

    /// Sweep the dead: delete every non-player combatant at or below
    /// zero hit points (logging its name), and report whether the
    /// player is dead — the player entity itself is never deleted here.
    pub fn delete_the_dead(state: &mut State) -> (player_died: bool)
        requires
            old(state).inv(),
        ensures
            final(state).inv(),
            final(state).store.n() == old(state).store.n(),
            player_died == exists|e: int|
                0 <= e < old(state).store.n() && #[trigger] old(state).store.alive@[e] && old(
                    state,
                ).store.players@[e] && old(state).store.combat_stats@[e] is Some && old(
                    state,
                ).store.combat_stats@[e].unwrap().hp <= 0,
            forall|j: int|
                0 <= j < old(state).store.n() && #[trigger] old(state).store.alive@[j] && !old(
                    state,
                ).store.players@[j] && old(state).store.combat_stats@[j] is Some && old(
                    state,
                ).store.combat_stats@[j].unwrap().hp <= 0 ==> !final(state).store.alive@[j]
                    && final(state).store.row_blank(j),
            forall|j: int|
                0 <= j < old(state).store.n() && !(old(state).store.alive@[j] && !old(
                    state,
                ).store.players@[j] && old(state).store.combat_stats@[j] is Some && old(
                    state,
                ).store.combat_stats@[j].unwrap().hp <= 0) ==> EntityStore::row_eq(
                    old(state).store,
                    final(state).store,
                    j,
                ),
            no_melee_intents(old(state).store) ==> no_melee_intents(final(state).store),
            crate::system::melee_combat::log_view(final(state).log.entries@) == death_log_fold(
                old(state).store,
                old(state).store.n(),
                crate::system::melee_combat::log_view(old(state).log.entries@),
            ),
            final(state).map == old(state).map,
            final(state).run_state == old(state).run_state,
            final(state).player_entity == old(state).player_entity,
            final(state).player_data == old(state).player_data,
    {
        let mut player_died = false;
        let mut dead: Vec<Entity> = Vec::new();
        let n = state.store.alive.len();
        let mut e: usize = 0;
        while e < n
            invariant
                old(state).inv(),
                state.store == old(state).store,
                state.map == old(state).map,
                state.run_state == old(state).run_state,
                state.player_entity == old(state).player_entity,
                state.player_data == old(state).player_data,
                n == state.store.n(),
                0 <= e <= n,
                crate::system::melee_combat::log_view(state.log.entries@) == death_log_fold(
                    old(state).store,
                    e as int,
                    crate::system::melee_combat::log_view(old(state).log.entries@),
                ),
                forall|k: int| 0 <= k < dead@.len() ==> (#[trigger] dead@[k]) < e,
                forall|j: int|
                    0 <= j < e ==> (#[trigger] EntityStore::doomed(dead@, j) <==> (
                    state.store.alive@[j] && !state.store.players@[j]
                        && state.store.combat_stats@[j] is Some
                        && state.store.combat_stats@[j].unwrap().hp <= 0)),
                player_died == exists|j: int|
                    0 <= j < e && #[trigger] state.store.alive@[j] && state.store.players@[j]
                        && state.store.combat_stats@[j] is Some
                        && state.store.combat_stats@[j].unwrap().hp <= 0,
            decreases n - e,
        {
            let ghost prev = dead@;
            let ghost prev_died = player_died;
            let ghost log_pre = crate::system::melee_combat::log_view(state.log.entries@);
            let stats_opt = state.store.combat_stats[e];
            if state.store.alive[e] {
                if let Some(stats) = stats_opt {
                    if stats.hp <= 0 {
                        if state.store.players[e] {
                            player_died = true;
                            proof {
                                assert(state.store.alive@[e as int] && state.store.players@[
                                    e as int
                                ] && state.store.combat_stats@[e as int] is Some
                                    && state.store.combat_stats@[e as int].unwrap().hp <= 0);
                            }
                        } else {
                            let msg = match &state.store.names[e] {
                                Some(name) => died_msg(name.name.as_str()),
                                None => died_msg("???"),
                            };
                            state.log.log(msg);
                            dead.push(e);
                            proof {
                                assert(dead@[dead@.len() - 1] == e);
                                if state.store.names@[e as int] is Some {
                                    assert(crate::system::melee_combat::log_view(
                                        state.log.entries@,
                                    ) =~= log_pre.push(crate::text::died_text(
                                        state.store.names@[e as int].unwrap().name@,
                                    )));
                                } else {
                                    assert(crate::system::melee_combat::log_view(
                                        state.log.entries@,
                                    ) =~= log_pre.push(crate::text::died_text("???"@)));
                                }
                            }
                        }
                    }
                }
            }
            proof {
                assert forall|j: int|
                    0 <= j < e + 1 implies (EntityStore::doomed(dead@, j) <==> (
                    state.store.alive@[j] && !state.store.players@[j]
                        && state.store.combat_stats@[j] is Some
                        && state.store.combat_stats@[j].unwrap().hp <= 0)) by {
                    if dead@ == prev {
                        assert(EntityStore::doomed(dead@, j) == EntityStore::doomed(prev, j));
                        if j == e {
                            assert(!EntityStore::doomed(prev, j));
                        }
                    } else {
                        assert(dead@ == prev.push(e));
                        if EntityStore::doomed(dead@, j) {
                            let k = choose|k: int|
                                0 <= k < dead@.len() && (#[trigger] dead@[k]) == j;
                            if k < prev.len() {
                                assert(prev[k] == dead@[k]);
                                assert(EntityStore::doomed(prev, j));
                            } else {
                                assert(j == e);
                            }
                        }
                        if j < e {
                            if EntityStore::doomed(prev, j) {
                                let k = choose|k: int|
                                    0 <= k < prev.len() && (#[trigger] prev[k]) == j;
                                assert(dead@[k] == j);
                                assert(EntityStore::doomed(dead@, j));
                            }
                        } else {
                            assert(dead@[dead@.len() - 1] == e);
                            assert(EntityStore::doomed(dead@, j));
                        }
                    }
                }
            }
            e = e + 1;
        }
        let ghost s0 = state.store;
        state.store.delete_list(&dead);
        proof {
            assert forall|j: int|
                0 <= j < s0.n() && s0.alive@[j] && !s0.players@[j] && s0.combat_stats@[j] is Some
                    && s0.combat_stats@[j].unwrap().hp <= 0 implies !state.store.alive@[j]
                && state.store.row_blank(j) by {
                assert(EntityStore::doomed(dead@, j));
            }
            assert forall|j: int|
                0 <= j < s0.n() && !(s0.alive@[j] && !s0.players@[j] && s0.combat_stats@[j]
                    is Some && s0.combat_stats@[j].unwrap().hp <= 0) implies EntityStore::row_eq(
                s0,
                state.store,
                j,
            ) by {
                assert(!EntityStore::doomed(dead@, j));
            }
            let p = state.player_entity as int;
            assert(!EntityStore::doomed(dead@, p));
            assert(EntityStore::row_eq(s0, state.store, p));
            assert forall|e2: int|
                0 <= e2 < state.store.n() && (#[trigger] state.store.positions@[e2]) is Some
                    implies crate::map::in_bounds_pt(
                (state.store.positions@[e2].unwrap().x as int,
                state.store.positions@[e2].unwrap().y as int),
            ) by {
                if EntityStore::doomed(dead@, e2) {
                } else {
                    assert(EntityStore::row_eq(s0, state.store, e2));
                }
            }
            assert forall|e2: int|
                0 <= e2 < state.store.n() && (#[trigger] state.store.combat_stats@[e2]) is Some
                    implies state.store.names@[e2] is Some by {
                if EntityStore::doomed(dead@, e2) {
                } else {
                    assert(EntityStore::row_eq(s0, state.store, e2));
                }
            }
            assert forall|e2: int|
                0 <= e2 < state.store.n() && (#[trigger] state.store.wants_melee@[e2]) is Some
                    implies state.store.wants_melee@[e2].unwrap().target < state.store.n() by {
                if !EntityStore::doomed(dead@, e2) {
                    assert(EntityStore::row_eq(s0, state.store, e2));
                }
            }
            assert forall|e2: int|
                0 <= e2 < state.store.n() && (#[trigger] state.store.wants_pickup@[e2]) is Some
                    implies state.store.wants_pickup@[e2].unwrap().item < state.store.n()
                && state.store.wants_pickup@[e2].unwrap().collected_by < state.store.n() by {
                if !EntityStore::doomed(dead@, e2) {
                    assert(EntityStore::row_eq(s0, state.store, e2));
                }
            }
            assert forall|e2: int|
                0 <= e2 < state.store.n() && (#[trigger] state.store.wants_use@[e2]) is Some
                    implies state.store.wants_use@[e2].unwrap().item < state.store.n() && (
            state.store.wants_use@[e2].unwrap().target is Some ==> crate::map::in_bounds_pt(
                (state.store.wants_use@[e2].unwrap().target.unwrap().x as int,
                state.store.wants_use@[e2].unwrap().target.unwrap().y as int),
            )) by {
                if !EntityStore::doomed(dead@, e2) {
                    assert(EntityStore::row_eq(s0, state.store, e2));
                }
            }
            assert forall|e2: int|
                0 <= e2 < state.store.n() && (#[trigger] state.store.wants_drop@[e2]) is Some
                    implies state.store.wants_drop@[e2].unwrap().item < state.store.n() by {
                if !EntityStore::doomed(dead@, e2) {
                    assert(EntityStore::row_eq(s0, state.store, e2));
                }
            }
            assert forall|e2: int|
                0 <= e2 < state.store.n() && (#[trigger] state.store.in_backpack@[e2]) is Some
                    implies state.store.in_backpack@[e2].unwrap().owner < state.store.n() by {
                if !EntityStore::doomed(dead@, e2) {
                    assert(EntityStore::row_eq(s0, state.store, e2));
                }
            }
            assert forall|e2: int|
                0 <= e2 < state.store.n() && s0.wants_melee@[e2] is None implies (
            #[trigger] state.store.wants_melee@[e2]) is None by {
                if !EntityStore::doomed(dead@, e2) {
                    assert(EntityStore::row_eq(s0, state.store, e2));
                }
            }
            assert forall|e2: int|
                0 <= e2 < state.store.n() && (#[trigger] state.store.players@[e2]) implies e2
                    == state.player_entity as int by {
                if !EntityStore::doomed(dead@, e2) {
                    assert(EntityStore::row_eq(s0, state.store, e2));
                }
            }
        }
        player_died
    }
}

} // verus!
