pub mod damage;
pub mod inventory_system;
pub mod item_pickup;
pub mod map_indexing;
pub mod melee_combat;
pub mod monster;
pub mod visibility;

use vstd::prelude::*;
use crate::components::Point;
use crate::fov::visible_from;
use crate::map::{TileType, in_bounds_pt, pt_idx};
use crate::state::{State, melee_intents_ok, no_melee_intents};
use crate::store::EntityStore;
use crate::system::damage::hp_after_damage;
use crate::system::inventory_system::{drop_fold, use_applies};
use crate::system::item_pickup::pickup_fold;
use crate::system::map_indexing::{occupants_upto, tile_entity_blocked};
use crate::system::melee_combat::{log_view, melee_fold, sd_col};
use crate::system::monster::{attacker_at, chase_possible, decremented, monster_acts, no_attacker_before};
use crate::system::visibility::vis_processed;
use crate::components::{CombatStats, WantsToMelee, pending_of};

verus! {

/// The columns no pipeline stage ever writes, carried across every
/// stage relation.
pub open spec fn stable_columns_eq(a: EntityStore, b: EntityStore) -> bool {
    &&& b.alive@ == a.alive@
    &&& b.renderables@ == a.renderables@
    &&& b.players@ == a.players@
    &&& b.monsters@ == a.monsters@
    &&& b.names@ == a.names@
    &&& b.blocks_tile@ == a.blocks_tile@
    &&& b.items@ == a.items@
    &&& b.provides_healing@ == a.provides_healing@
    &&& b.consumables@ == a.consumables@
    &&& b.ranged@ == a.ranged@
    &&& b.inflicts_damage@ == a.inflicts_damage@
    &&& b.aoe@ == a.aoe@
}

/// The session fields no stage but the caller changes.
pub open spec fn session_frame(a: State, b: State) -> bool {
    &&& b.run_state == a.run_state
    &&& b.player_entity == a.player_entity
    &&& b.player_data == a.player_data
    &&& b.store.n() == a.store.n()
    &&& stable_columns_eq(a.store, b.store)
}

/// The visibility stage's contract as a two-state relation: dirty
/// viewsheds recomputed against the map, the player's bitmaps rebuilt,
/// everything else untouched.
pub open spec fn vis_rel(a: State, b: State) -> bool {
    &&& session_frame(a, b)
    &&& b.store.positions@ == a.store.positions@
    &&& b.store.combat_stats@ == a.store.combat_stats@
    &&& b.store.wants_melee@ == a.store.wants_melee@
    &&& b.store.suffer_damage@ == a.store.suffer_damage@
    &&& b.store.in_backpack@ == a.store.in_backpack@
    &&& b.store.wants_pickup@ == a.store.wants_pickup@
    &&& b.store.wants_use@ == a.store.wants_use@
    &&& b.store.wants_drop@ == a.store.wants_drop@
    &&& b.store.confusion@ == a.store.confusion@
    &&& b.store.pending_delete@ == a.store.pending_delete@
    &&& b.log == a.log
    &&& b.map.tiles@ == a.map.tiles@
    &&& b.map.rooms@ == a.map.rooms@
    &&& b.map.blocked@ == a.map.blocked@
    &&& b.map.tile_content@ == a.map.tile_content@
    &&& b.map.depth == a.map.depth
    &&& forall|e: int|
        0 <= e < a.store.n() && !vis_processed(a.store, e) ==> (
        #[trigger] b.store.viewsheds@[e]) == a.store.viewsheds@[e]
    &&& forall|e: int|
        0 <= e < a.store.n() && vis_processed(a.store, e) ==> {
            &&& (#[trigger] b.store.viewsheds@[e]) is Some
            &&& b.store.viewsheds@[e].unwrap().range == a.store.viewsheds@[e].unwrap().range
            &&& !b.store.viewsheds@[e].unwrap().dirty
            &&& forall|p: Point|
                b.store.viewsheds@[e].unwrap().visible_tiles@.contains(p) <==> visible_from(
                    a.map.tiles@,
                    (a.store.positions@[e].unwrap().x as int,
                    a.store.positions@[e].unwrap().y as int),
                    (p.x as int, p.y as int),
                    a.store.viewsheds@[e].unwrap().range as int,
                )
        }
    &&& vis_processed(a.store, a.player_entity as int) ==> forall|p: Point|
        in_bounds_pt((p.x as int, p.y as int)) ==> {
            &&& b.map.visible_tiles@[pt_idx((p.x as int, p.y as int))] == visible_from(
                a.map.tiles@,
                (a.store.positions@[a.player_entity as int].unwrap().x as int,
                a.store.positions@[a.player_entity as int].unwrap().y as int),
                (p.x as int, p.y as int),
                a.store.viewsheds@[a.player_entity as int].unwrap().range as int,
            )
            &&& b.map.revealed_tiles@[pt_idx((p.x as int, p.y as int))] == (a.map.revealed_tiles@[pt_idx(
                (p.x as int, p.y as int),
            )] || b.map.visible_tiles@[pt_idx((p.x as int, p.y as int))])
        }
    &&& !vis_processed(a.store, a.player_entity as int) ==> b.map.visible_tiles@
        == a.map.visible_tiles@ && b.map.revealed_tiles@ == a.map.revealed_tiles@
}

/// The monster turn's contract as a relation: the first adjacent
/// attacker queues the one melee intent, reached monsters shake off
/// confusion, reached chasers step once; outside the monster turn the
/// state is untouched.
pub open spec fn ai_rel(a: State, b: State) -> bool {
    &&& session_frame(a, b)
    &&& b.store.combat_stats@ == a.store.combat_stats@
    &&& b.store.suffer_damage@ == a.store.suffer_damage@
    &&& b.store.in_backpack@ == a.store.in_backpack@
    &&& b.store.wants_pickup@ == a.store.wants_pickup@
    &&& b.store.wants_use@ == a.store.wants_use@
    &&& b.store.wants_drop@ == a.store.wants_drop@
    &&& b.store.pending_delete@ == a.store.pending_delete@
    &&& b.log == a.log
    &&& b.map.tiles@ == a.map.tiles@
    &&& b.map.rooms@ == a.map.rooms@
    &&& b.map.tile_content@ == a.map.tile_content@
    &&& b.map.revealed_tiles@ == a.map.revealed_tiles@
    &&& b.map.visible_tiles@ == a.map.visible_tiles@
    &&& b.map.depth == a.map.depth
    &&& a.run_state != crate::state::RunState::MonsterTurn ==> b == a
    &&& a.run_state == crate::state::RunState::MonsterTurn ==> {
        let s0 = a.store;
        let ppos = a.player_data.position;
        let p = a.player_entity as int;
        let n = a.store.n();
        &&& forall|at: int|
            0 <= at < n && #[trigger] attacker_at(s0, ppos, p, at) && no_attacker_before(
                s0,
                ppos,
                p,
                at,
            ) ==> b.store.wants_melee@ == s0.wants_melee@.update(
                at,
                Some(WantsToMelee { target: a.player_entity }),
            )
        &&& (forall|j: int| 0 <= j < n ==> !(#[trigger] attacker_at(s0, ppos, p, j)))
            ==> b.store.wants_melee@ == s0.wants_melee@
        &&& forall|e: int|
            0 <= e < n ==> #[trigger] b.store.confusion@[e] == (if no_attacker_before(
                s0,
                ppos,
                p,
                e,
            ) && monster_acts(s0, e) {
                decremented(s0.confusion@[e])
            } else {
                s0.confusion@[e]
            })
        &&& forall|e: int|
            0 <= e < n && !(no_attacker_before(s0, ppos, p, e) && chase_possible(s0, ppos, e))
                ==> (#[trigger] b.store.positions@[e]) == s0.positions@[e]
                && b.store.viewsheds@[e] == s0.viewsheds@[e]
    }
}

/// The spatial-index stage: the blocked array and the occupant lists
/// rebuilt from scratch, the store untouched.
pub open spec fn idx_rel(a: State, b: State) -> bool {
    &&& b.store == a.store
    &&& b.log == a.log
    &&& b.run_state == a.run_state
    &&& b.player_entity == a.player_entity
    &&& b.player_data == a.player_data
    &&& b.map.tiles@ == a.map.tiles@
    &&& b.map.rooms@ == a.map.rooms@
    &&& b.map.revealed_tiles@ == a.map.revealed_tiles@
    &&& b.map.visible_tiles@ == a.map.visible_tiles@
    &&& b.map.depth == a.map.depth
    &&& forall|t: int|
        0 <= t < 3440 ==> #[trigger] b.map.blocked@[t] == (a.map.tiles@[t] == TileType::Wall
            || tile_entity_blocked(a.store, t, a.store.n()))
    &&& forall|t: int|
        0 <= t < 3440 ==> (#[trigger] b.map.tile_content@[t])@ == occupants_upto(
            a.store,
            t,
            a.store.n(),
        )
}

/// The melee stage: intents folded into pending damage and log lines,
/// then cleared.
pub open spec fn melee_rel(a: State, b: State) -> bool {
    &&& session_frame(a, b)
    &&& no_melee_intents(b.store)
    &&& sd_col(b.store.suffer_damage@) == melee_fold(
        a.store,
        a.store.n(),
        sd_col(a.store.suffer_damage@),
        log_view(a.log.entries@),
    ).0
    &&& log_view(b.log.entries@) == melee_fold(
        a.store,
        a.store.n(),
        sd_col(a.store.suffer_damage@),
        log_view(a.log.entries@),
    ).1
    &&& b.store.positions@ == a.store.positions@
    &&& b.store.viewsheds@ == a.store.viewsheds@
    &&& b.store.combat_stats@ == a.store.combat_stats@
    &&& b.store.in_backpack@ == a.store.in_backpack@
    &&& b.store.wants_pickup@ == a.store.wants_pickup@
    &&& b.store.wants_use@ == a.store.wants_use@
    &&& b.store.wants_drop@ == a.store.wants_drop@
    &&& b.store.confusion@ == a.store.confusion@
    &&& b.store.pending_delete@ == a.store.pending_delete@
    &&& b.map == a.map
}

/// The damage stage: every pending list summed into hit points and
/// cleared.
pub open spec fn dmg_rel(a: State, b: State) -> bool {
    &&& session_frame(a, b)
    &&& forall|e: int|
        0 <= e < a.store.n() ==> #[trigger] b.store.combat_stats@[e] == (if a.store.combat_stats@[e]
            is Some && a.store.suffer_damage@[e] is Some {
            Some(
                CombatStats {
                    max_hp: a.store.combat_stats@[e].unwrap().max_hp,
                    hp: hp_after_damage(
                        a.store.combat_stats@[e].unwrap().hp as int,
                        pending_of(a.store.suffer_damage@, e),
                    ) as i32,
                    defense: a.store.combat_stats@[e].unwrap().defense,
                    power: a.store.combat_stats@[e].unwrap().power,
                },
            )
        } else {
            a.store.combat_stats@[e]
        })
    &&& forall|e: int| 0 <= e < a.store.n() ==> (#[trigger] b.store.suffer_damage@[e]) is None
    &&& b.store.positions@ == a.store.positions@
    &&& b.store.viewsheds@ == a.store.viewsheds@
    &&& b.store.wants_melee@ == a.store.wants_melee@
    &&& b.store.in_backpack@ == a.store.in_backpack@
    &&& b.store.wants_pickup@ == a.store.wants_pickup@
    &&& b.store.wants_use@ == a.store.wants_use@
    &&& b.store.wants_drop@ == a.store.wants_drop@
    &&& b.store.confusion@ == a.store.confusion@
    &&& b.store.pending_delete@ == a.store.pending_delete@
    &&& b.map == a.map
    &&& b.log == a.log
}

/// The pickup stage: intents folded into backpack membership and log
/// lines, then cleared.
pub open spec fn pickup_rel(a: State, b: State) -> bool {
    &&& session_frame(a, b)
    &&& ({
        let r = pickup_fold(
            a.store,
            a.player_entity as int,
            a.store.n(),
            a.store.positions@,
            a.store.in_backpack@,
            log_view(a.log.entries@),
        );
        &&& b.store.positions@ == r.0
        &&& b.store.in_backpack@ == r.1
        &&& log_view(b.log.entries@) == r.2
    })
    &&& forall|e: int| 0 <= e < a.store.n() ==> (#[trigger] b.store.wants_pickup@[e]) is None
    &&& b.store.viewsheds@ == a.store.viewsheds@
    &&& b.store.combat_stats@ == a.store.combat_stats@
    &&& b.store.wants_melee@ == a.store.wants_melee@
    &&& b.store.suffer_damage@ == a.store.suffer_damage@
    &&& b.store.wants_use@ == a.store.wants_use@
    &&& b.store.wants_drop@ == a.store.wants_drop@
    &&& b.store.confusion@ == a.store.confusion@
    &&& b.store.pending_delete@ == a.store.pending_delete@
    &&& b.map == a.map
}

/// The item-use stage: every used consumable queued for deletion, stats
/// keeping their shape, intents cleared; a lone self-use applied
/// exactly.
pub open spec fn use_rel(a: State, b: State) -> bool {
    &&& session_frame(a, b)
    &&& forall|e: int| 0 <= e < a.store.n() ==> (#[trigger] b.store.wants_use@[e]) is None
    &&& forall|e: int|
        0 <= e < a.store.n() && use_applies(a.store, e) && a.store.consumables@[a.store.wants_use@[e].unwrap().item as int]
            ==> #[trigger] EntityStore::doomed(
            b.store.pending_delete@,
            a.store.wants_use@[e].unwrap().item as int,
        )
    &&& a.store.pending_delete@.is_prefix_of(b.store.pending_delete@)
    &&& forall|k: int|
        a.store.pending_delete@.len() <= k < b.store.pending_delete@.len() ==> (
        #[trigger] b.store.pending_delete@[k]) < a.store.n() && a.store.consumables@[b.store.pending_delete@[k] as int]
    &&& forall|e: int|
        0 <= e < a.store.n() ==> {
            &&& (#[trigger] b.store.combat_stats@[e]) is Some == a.store.combat_stats@[e] is Some
            &&& (a.store.combat_stats@[e] is Some ==> {
                &&& b.store.combat_stats@[e].unwrap().max_hp == a.store.combat_stats@[e].unwrap().max_hp
                &&& b.store.combat_stats@[e].unwrap().defense == a.store.combat_stats@[e].unwrap().defense
                &&& b.store.combat_stats@[e].unwrap().power == a.store.combat_stats@[e].unwrap().power
            })
        }
    &&& forall|e: int|
        0 <= e < a.store.n() && #[trigger] crate::system::inventory_system::lone_self_use(
            a.store,
            e,
        ) ==> {
            &&& b.store.combat_stats@ == crate::system::inventory_system::self_use_stats(
                a.store,
                e,
            )
            &&& sd_col(b.store.suffer_damage@) == crate::system::inventory_system::self_use_sd(
                a.store,
                e,
            )
            &&& b.store.confusion@ == crate::system::inventory_system::self_use_confusion(
                a.store,
                e,
            )
        }
    &&& b.store.positions@ == a.store.positions@
    &&& b.store.viewsheds@ == a.store.viewsheds@
    &&& b.store.wants_melee@ == a.store.wants_melee@
    &&& b.store.wants_pickup@ == a.store.wants_pickup@
    &&& b.store.wants_drop@ == a.store.wants_drop@
    &&& b.map == a.map
}

/// The drop stage: intents folded into positions, backpack membership
/// and log lines, then cleared.
pub open spec fn drop_rel(a: State, b: State) -> bool {
    &&& session_frame(a, b)
    &&& ({
        let r = drop_fold(
            a.store,
            a.player_entity as int,
            a.store.n(),
            a.store.positions@,
            a.store.in_backpack@,
            log_view(a.log.entries@),
        );
        &&& b.store.positions@ == r.0
        &&& b.store.in_backpack@ == r.1
        &&& log_view(b.log.entries@) == r.2
    })
    &&& forall|e: int| 0 <= e < a.store.n() ==> (#[trigger] b.store.wants_drop@[e]) is None
    &&& b.store.viewsheds@ == a.store.viewsheds@
    &&& b.store.combat_stats@ == a.store.combat_stats@
    &&& b.store.wants_melee@ == a.store.wants_melee@
    &&& b.store.suffer_damage@ == a.store.suffer_damage@
    &&& b.store.wants_pickup@ == a.store.wants_pickup@
    &&& b.store.wants_use@ == a.store.wants_use@
    &&& b.store.confusion@ == a.store.confusion@
    &&& b.store.pending_delete@ == a.store.pending_delete@
    &&& b.map == a.map
}

/// The commit step: every queued deletion applied, everything else
/// kept row for row.
pub open spec fn commit_rel(a: State, b: State) -> bool {
    &&& b.store.n() == a.store.n()
    &&& b.store.pending_delete@.len() == 0
    &&& forall|j: int|
        0 <= j < a.store.n() && #[trigger] EntityStore::doomed(a.store.pending_delete@, j)
            ==> !b.store.alive@[j] && b.store.row_blank(j)
    &&& forall|j: int|
        0 <= j < a.store.n() && !(#[trigger] EntityStore::doomed(a.store.pending_delete@, j))
            ==> EntityStore::row_eq(a.store, b.store, j)
    &&& b.map == a.map
    &&& b.log == a.log
    &&& b.run_state == a.run_state
    &&& b.player_entity == a.player_entity
    &&& b.player_data == a.player_data
}

/// One run of the full system pipeline in its fixed order, followed by
/// the commit step. The ghost trace names the state after each stage,
/// and each hop satisfies that stage's contract, so the final state is
/// the composition of the stage contracts; every intent queued before
/// the run has been consumed, and every deferred deletion applied.
pub fn run_systems(state: &mut State) -> (trace: Ghost<
    (State, State, State, State, State, State, State, State),
>)
    requires
        old(state).inv(),
        melee_intents_ok(old(state).store),
        old(state).store.pending_delete@.len() == 0,
    ensures
        final(state).inv(),
        vis_rel(*old(state), trace@.0),
        ai_rel(trace@.0, trace@.1),
        idx_rel(trace@.1, trace@.2),
        melee_rel(trace@.2, trace@.3),
        dmg_rel(trace@.3, trace@.4),
        pickup_rel(trace@.4, trace@.5),
        use_rel(trace@.5, trace@.6),
        drop_rel(trace@.6, trace@.7),
        commit_rel(trace@.7, *final(state)),
        no_melee_intents(final(state).store),
        forall|e: int|
            0 <= e < final(state).store.n() ==> (#[trigger] final(state).store.wants_pickup@[e])
                is None,
        forall|e: int|
            0 <= e < final(state).store.n() ==> (#[trigger] final(state).store.wants_use@[e])
                is None,
        forall|e: int|
            0 <= e < final(state).store.n() ==> (#[trigger] final(state).store.wants_drop@[e])
                is None,
        final(state).store.pending_delete@.len() == 0,
        final(state).store.n() == old(state).store.n(),
        final(state).run_state == old(state).run_state,
        final(state).player_entity == old(state).player_entity,
    {
        crate::system::visibility::VisibilitySystem::run(state);
        let ghost s1 = *state;
        proof {
            assert(melee_intents_ok(state.store));
            assert(vis_rel(*old(state), s1));
        }
        crate::system::monster::MonsterAI::run(state);
        let ghost s2 = *state;
        proof {
            assert(ai_rel(s1, s2));
        }
        crate::system::map_indexing::MapIndexingSystem::run(state);
        let ghost s3 = *state;
        proof {
            assert(melee_intents_ok(state.store));
            assert(idx_rel(s2, s3));
        }
        crate::system::melee_combat::MeleeCombatSystem::run(state);
        let ghost s4 = *state;
        proof {
            assert(melee_rel(s3, s4));
        }
        crate::system::damage::DamageSystem::run(state);
        let ghost s5 = *state;
        proof {
            assert(no_melee_intents(state.store));
            assert(dmg_rel(s4, s5));
        }
        crate::system::item_pickup::ItemCollectionSystem::run(state);
        let ghost s6 = *state;
        proof {
            assert(no_melee_intents(state.store));
            assert(pickup_rel(s5, s6));
        }
        crate::system::inventory_system::ItemUseSystem::run(state);
        let ghost s7 = *state;
        proof {
            assert(no_melee_intents(state.store));
            assert(use_rel(s6, s7));
        }
        crate::system::inventory_system::ItemDropSystem::run(state);
        let ghost s8 = *state;
        proof {
            assert(no_melee_intents(state.store));
            assert(drop_rel(s7, s8));
        }
        let ghost pre = state.store;
        state.store.maintain();
        proof {
            let p = state.player_entity as int;
            assert(!EntityStore::doomed(pre.pending_delete@, p));
            assert(EntityStore::row_eq(pre, state.store, p));
            assert(commit_rel(s8, *state));
            assert forall|e: int|
                0 <= e < state.store.n() implies (#[trigger] state.store.wants_melee@[e]) is None
                by {
                if EntityStore::doomed(pre.pending_delete@, e) {
                    assert(!state.store.alive@[e] && state.store.row_blank(e));
                } else {
                    assert(EntityStore::row_eq(pre, state.store, e));
                    assert(pre.wants_melee@[e] is None);
                }
            }
            assert forall|e: int|
                0 <= e < state.store.n() implies (#[trigger] state.store.wants_pickup@[e]) is None
                by {
                if EntityStore::doomed(pre.pending_delete@, e) {
                    assert(!state.store.alive@[e] && state.store.row_blank(e));
                } else {
                    assert(EntityStore::row_eq(pre, state.store, e));
                    assert(pre.wants_pickup@[e] is None);
                }
            }
            assert forall|e: int|
                0 <= e < state.store.n() implies (#[trigger] state.store.wants_use@[e]) is None
                by {
                if EntityStore::doomed(pre.pending_delete@, e) {
                    assert(!state.store.alive@[e] && state.store.row_blank(e));
                } else {
                    assert(EntityStore::row_eq(pre, state.store, e));
                    assert(pre.wants_use@[e] is None);
                }
            }
            assert forall|e: int|
                0 <= e < state.store.n() implies (#[trigger] state.store.wants_drop@[e]) is None
                by {
                if EntityStore::doomed(pre.pending_delete@, e) {
                    assert(!state.store.alive@[e] && state.store.row_blank(e));
                } else {
                    assert(EntityStore::row_eq(pre, state.store, e));
                    assert(pre.wants_drop@[e] is None);
                }
            }
            assert(crate::state::positions_in_bounds(pre));
            assert forall|e: int|
                0 <= e < state.store.n() && (#[trigger] state.store.positions@[e]) is Some
                    implies crate::map::in_bounds_pt(
                (state.store.positions@[e].unwrap().x as int,
                state.store.positions@[e].unwrap().y as int),
            ) by {
                if !EntityStore::doomed(pre.pending_delete@, e) {
                    assert(EntityStore::row_eq(pre, state.store, e));
                    assert(pre.positions@[e] == state.store.positions@[e]);
                } else {
                    assert(state.store.row_blank(e));
                }
            }
            assert forall|e: int|
                0 <= e < state.store.n() && (#[trigger] state.store.combat_stats@[e]) is Some
                    implies state.store.names@[e] is Some by {
                if !EntityStore::doomed(pre.pending_delete@, e) {
                    assert(EntityStore::row_eq(pre, state.store, e));
                } else {
                    assert(state.store.row_blank(e));
                }
            }
            assert forall|e: int|
                0 <= e < state.store.n() && (#[trigger] state.store.in_backpack@[e]) is Some
                    implies state.store.in_backpack@[e].unwrap().owner < state.store.n() by {
                if !EntityStore::doomed(pre.pending_delete@, e) {
                    assert(EntityStore::row_eq(pre, state.store, e));
                } else {
                    assert(state.store.row_blank(e));
                }
            }
            assert forall|e: int|
                0 <= e < state.store.n() && (#[trigger] state.store.players@[e]) implies e
                    == state.player_entity as int by {
                if !EntityStore::doomed(pre.pending_delete@, e) {
                    assert(EntityStore::row_eq(pre, state.store, e));
                } else {
                    assert(state.store.row_blank(e));
                }
            }
        }
        Ghost((s1, s2, s3, s4, s5, s6, s7, s8))
    }

} // verus!
