use vstd::prelude::*;
use crate::components::{Confusion, Point, Viewshed, WantsToMelee};
use crate::fov::{cheb_dist, dist2};
use crate::pathfinding::find_path;
use crate::state::{RunState, State, melee_intents_ok};
use crate::store::EntityStore;

verus! {

/// A monster the turn processes: alive, tagged, named, sighted and
/// placed.
pub open spec fn monster_acts(s: EntityStore, e: int) -> bool {
    &&& s.alive@[e]
    &&& s.monsters@[e]
    &&& s.names@[e] is Some
    &&& s.viewsheds@[e] is Some
    &&& s.positions@[e] is Some
}

/// Monster `e` strikes this turn: unconfused, adjacent to the cached
/// player position (diagonals included), with a player that can be
/// fought.
pub open spec fn attacker_at(s: EntityStore, ppos: Point, player: int, e: int) -> bool {
    &&& monster_acts(s, e)
    &&& s.confusion@[e] is None
    &&& dist2(
        (s.positions@[e].unwrap().x as int, s.positions@[e].unwrap().y as int),
        (ppos.x as int, ppos.y as int),
    ) <= 2
    &&& s.combat_stats@[player] is Some
    &&& s.names@[player] is Some
}

/// No monster before `e` strikes this turn, so the pass reaches `e`.
pub open spec fn no_attacker_before(s: EntityStore, ppos: Point, player: int, e: int) -> bool {
    forall|j: int| 0 <= j < e ==> !(#[trigger] attacker_at(s, ppos, player, j))
}

/// Monster `e` chases this turn: unconfused, not adjacent, and the
/// player's cached position is among its seen tiles.
pub open spec fn chase_possible(s: EntityStore, ppos: Point, e: int) -> bool {
    &&& monster_acts(s, e)
    &&& s.confusion@[e] is None
    &&& dist2(
        (s.positions@[e].unwrap().x as int, s.positions@[e].unwrap().y as int),
        (ppos.x as int, ppos.y as int),
    ) > 2
    &&& s.viewsheds@[e].unwrap().visible_tiles@.contains(ppos)
}

/// One confused turn consumed: the count drops, and the component goes
/// at zero.
pub open spec fn decremented(c: Option<Confusion>) -> Option<Confusion> {
    match c {
        Some(cc) => if cc.turns <= 1 {
            None
        } else {
            Some(Confusion { turns: (cc.turns - 1) as i32 })
        },
        None => None,
    }
}

/// The monster turn: each monster shakes off confusion, strikes an
/// adjacent player, or chases a player it can see. Processing stops at
/// the first striking monster (the single-attacker-per-turn
/// short-circuit, deliberately kept).
pub struct MonsterAI {}

impl MonsterAI {
    /// A no-op outside the monster turn. Within it: exactly the first
    /// striking monster queues a melee intent on the player; every
    /// reached monster consumes a confused turn; a reached chaser takes
    /// at most one king step with its viewshed dirtied; everything else
    /// stays put.
    pub fn run(state: &mut State)
        requires
            old(state).inv(),
            melee_intents_ok(old(state).store),
        ensures
            final(state).inv(),
            melee_intents_ok(final(state).store),
            final(state).store.n() == old(state).store.n(),
            old(state).run_state != RunState::MonsterTurn ==> *final(state) == *old(state),
            old(state).run_state == RunState::MonsterTurn ==> {
                let s0 = old(state).store;
                let ppos = old(state).player_data.position;
                let p = old(state).player_entity as int;
                let n = old(state).store.n();
                &&& forall|a: int|
                    0 <= a < n && #[trigger] attacker_at(s0, ppos, p, a) && no_attacker_before(
                        s0,
                        ppos,
                        p,
                        a,
                    ) ==> final(state).store.wants_melee@ == s0.wants_melee@.update(
                        a,
                        Some(WantsToMelee { target: old(state).player_entity }),
                    )
                &&& (forall|j: int|
                    0 <= j < n ==> !(#[trigger] attacker_at(s0, ppos, p, j))) ==> final(state).store.wants_melee@ == s0.wants_melee@
                &&& forall|e: int|
                    0 <= e < n ==> #[trigger] final(state).store.confusion@[e] == (if
                    no_attacker_before(s0, ppos, p, e) && monster_acts(s0, e) {
                        decremented(s0.confusion@[e])
                    } else {
                        s0.confusion@[e]
                    })
                &&& forall|e: int|
                    0 <= e < n && !(no_attacker_before(s0, ppos, p, e) && chase_possible(
                        s0,
                        ppos,
                        e,
                    )) ==> (#[trigger] final(state).store.positions@[e]) == s0.positions@[e]
                        && final(state).store.viewsheds@[e] == s0.viewsheds@[e]
                &&& forall|e: int|
                    0 <= e < n && no_attacker_before(s0, ppos, p, e) && #[trigger] chase_possible(
                        s0,
                        ppos,
                        e,
                    ) ==> ((final(state).store.positions@[e] == s0.positions@[e] && final(state).store.viewsheds@[e] == s0.viewsheds@[e]) || {
                        &&& final(state).store.positions@[e] is Some
                        &&& cheb_dist(
                            (s0.positions@[e].unwrap().x as int,
                            s0.positions@[e].unwrap().y as int),
                            (final(state).store.positions@[e].unwrap().x as int,
                            final(state).store.positions@[e].unwrap().y as int),
                        ) == 1
                        &&& final(state).store.viewsheds@[e] is Some
                        &&& final(state).store.viewsheds@[e].unwrap().dirty
                        &&& final(state).store.viewsheds@[e].unwrap().range == s0.viewsheds@[
                            e
                        ].unwrap().range
                        &&& final(state).store.viewsheds@[e].unwrap().visible_tiles@
                            == s0.viewsheds@[e].unwrap().visible_tiles@
                    })
            },
            final(state).store.alive@ == old(state).store.alive@,
            final(state).store.renderables@ == old(state).store.renderables@,
            final(state).store.players@ == old(state).store.players@,
            final(state).store.monsters@ == old(state).store.monsters@,
            final(state).store.names@ == old(state).store.names@,
            final(state).store.blocks_tile@ == old(state).store.blocks_tile@,
            final(state).store.combat_stats@ == old(state).store.combat_stats@,
            final(state).store.suffer_damage@ == old(state).store.suffer_damage@,
            final(state).store.items@ == old(state).store.items@,
            final(state).store.provides_healing@ == old(state).store.provides_healing@,
            final(state).store.in_backpack@ == old(state).store.in_backpack@,
            final(state).store.wants_pickup@ == old(state).store.wants_pickup@,
            final(state).store.wants_use@ == old(state).store.wants_use@,
            final(state).store.wants_drop@ == old(state).store.wants_drop@,
            final(state).store.consumables@ == old(state).store.consumables@,
            final(state).store.ranged@ == old(state).store.ranged@,
            final(state).store.inflicts_damage@ == old(state).store.inflicts_damage@,
            final(state).store.aoe@ == old(state).store.aoe@,
            final(state).store.pending_delete@ == old(state).store.pending_delete@,
            final(state).map.tiles@ == old(state).map.tiles@,
            final(state).map.rooms@ == old(state).map.rooms@,
            final(state).map.revealed_tiles@ == old(state).map.revealed_tiles@,
            final(state).map.visible_tiles@ == old(state).map.visible_tiles@,
            final(state).map.tile_content@ == old(state).map.tile_content@,
            final(state).map.depth == old(state).map.depth,
            final(state).map.width == old(state).map.width,
            final(state).map.height == old(state).map.height,
            final(state).log == old(state).log,
            final(state).run_state == old(state).run_state,
            final(state).player_entity == old(state).player_entity,
            final(state).player_data == old(state).player_data,
    {
        if !matches!(state.run_state, RunState::MonsterTurn) {
            return ;
        }
        let n = state.store.alive.len();
        let player = state.player_entity;
        let ppos = state.player_data.position;
        let mut e: usize = 0;
        while e < n
            invariant
                old(state).inv(),
                melee_intents_ok(old(state).store),
                state.store.wf(),
                state.map.wf(),
                n == state.store.n(),
                n == old(state).store.n(),
                0 <= e <= n,
                player == old(state).player_entity,
                ppos == old(state).player_data.position,
                old(state).run_state == RunState::MonsterTurn,
                crate::state::positions_in_bounds(state.store),
                melee_intents_ok(state.store),
                forall|j: int|
                    0 <= j < e ==> !(#[trigger] attacker_at(
                        old(state).store,
                        ppos,
                        player as int,
                        j,
                    )),
                state.store.wants_melee@ == old(state).store.wants_melee@,
                forall|j: int|
                    0 <= j < n ==> #[trigger] state.store.confusion@[j] == (if j < e
                        && monster_acts(old(state).store, j) {
                        decremented(old(state).store.confusion@[j])
                    } else {
                        old(state).store.confusion@[j]
                    }),
                forall|j: int|
                    0 <= j < n && !(j < e && chase_possible(old(state).store, ppos, j)) ==> (
                    #[trigger] state.store.positions@[j]) == old(state).store.positions@[j]
                        && state.store.viewsheds@[j] == old(state).store.viewsheds@[j],
                forall|j: int|
                    0 <= j < n && j < e && #[trigger] chase_possible(old(state).store, ppos, j)
                        ==> ((state.store.positions@[j] == old(state).store.positions@[j]
                        && state.store.viewsheds@[j] == old(state).store.viewsheds@[j]) || {
                        &&& state.store.positions@[j] is Some
                        &&& cheb_dist(
                            (old(state).store.positions@[j].unwrap().x as int,
                            old(state).store.positions@[j].unwrap().y as int),
                            (state.store.positions@[j].unwrap().x as int,
                            state.store.positions@[j].unwrap().y as int),
                        ) == 1
                        &&& state.store.viewsheds@[j] is Some
                        &&& state.store.viewsheds@[j].unwrap().dirty
                        &&& state.store.viewsheds@[j].unwrap().range == old(state).store.viewsheds@[j].unwrap().range
                        &&& state.store.viewsheds@[j].unwrap().visible_tiles@ == old(state).store.viewsheds@[j].unwrap().visible_tiles@
                    }),
                state.store.alive@ == old(state).store.alive@,
                state.store.renderables@ == old(state).store.renderables@,
                state.store.players@ == old(state).store.players@,
                state.store.monsters@ == old(state).store.monsters@,
                state.store.names@ == old(state).store.names@,
                state.store.blocks_tile@ == old(state).store.blocks_tile@,
                state.store.combat_stats@ == old(state).store.combat_stats@,
                state.store.suffer_damage@ == old(state).store.suffer_damage@,
                state.store.items@ == old(state).store.items@,
                state.store.provides_healing@ == old(state).store.provides_healing@,
                state.store.in_backpack@ == old(state).store.in_backpack@,
                state.store.wants_pickup@ == old(state).store.wants_pickup@,
                state.store.wants_use@ == old(state).store.wants_use@,
                state.store.wants_drop@ == old(state).store.wants_drop@,
                state.store.consumables@ == old(state).store.consumables@,
                state.store.ranged@ == old(state).store.ranged@,
                state.store.inflicts_damage@ == old(state).store.inflicts_damage@,
                state.store.aoe@ == old(state).store.aoe@,
                state.store.pending_delete@ == old(state).store.pending_delete@,
                state.map.tiles@ == old(state).map.tiles@,
                state.map.rooms@ == old(state).map.rooms@,
                state.map.revealed_tiles@ == old(state).map.revealed_tiles@,
                state.map.visible_tiles@ == old(state).map.visible_tiles@,
                state.map.tile_content@ == old(state).map.tile_content@,
                state.map.depth == old(state).map.depth,
                state.map.width == old(state).map.width,
                state.map.height == old(state).map.height,
                state.log == old(state).log,
                state.run_state == old(state).run_state,
                state.player_entity == old(state).player_entity,
                state.player_data == old(state).player_data,
            decreases n - e,
        {
            let is_monster = state.store.monsters[e];
            let has_name = state.store.names[e].is_some();
            let has_viewshed = state.store.viewsheds[e].is_some();
            let pos_opt = state.store.positions[e];
            proof {
                assert(state.store.positions@[e as int] == old(state).store.positions@[e as int]);
                assert(state.store.viewsheds@[e as int] == old(state).store.viewsheds@[e as int]);
                assert(state.store.confusion@[e as int] == old(state).store.confusion@[e as int]);
            }
            if state.store.alive[e] && is_monster && has_name && has_viewshed {
                if let Some(position) = pos_opt {
                    let mut can_act = true;
                    let confusion_opt = state.store.confusion[e];
                    if let Some(confused) = confusion_opt {
                        can_act = false;
                        if confused.turns <= 1 {
                            state.store.confusion[e] = None;
                        } else {
                            state.store.confusion[e] = Some(
                                Confusion { turns: confused.turns - 1 },
                            );
                        }
                    }
                    if can_act {
                        let dx: i64 = (position.x as i64) - (ppos.x as i64);
                        let dy: i64 = (position.y as i64) - (ppos.y as i64);
                        proof {
                            assert(0 <= dx * dx <= 6400 && 0 <= dy * dy <= 6400) by (
                            nonlinear_arith)
                                requires
                                    -80 <= dx <= 80 && -80 <= dy <= 80,
                            ;
                        }
                        let d2: i64 = dx * dx + dy * dy;
                        proof {
                            assert(d2 as int == dist2(
                                (position.x as int, position.y as int),
                                (ppos.x as int, ppos.y as int),
                            )) by (nonlinear_arith)
                                requires
                                    d2 as int == (dx as int) * (dx as int) + (dy as int) * (
                                    dy as int),
                                    dx as int == position.x as int - ppos.x as int,
                                    dy as int == position.y as int - ppos.y as int,
                            ;
                        }
                        if d2 <= 2 {
                            let target_ok = state.store.combat_stats[player].is_some()
                                && state.store.names[player].is_some();
                            if target_ok {
                                state.store.wants_melee[e] = Some(
                                    WantsToMelee { target: player },
                                );
                                proof {
                                    let s0 = old(state).store;
                                    let p = player as int;
                                    assert(attacker_at(s0, ppos, p, e as int));
                                    assert forall|a: int|
                                        0 <= a < n && #[trigger] attacker_at(s0, ppos, p, a)
                                            && no_attacker_before(s0, ppos, p, a) implies
                                        state.store.wants_melee@ == s0.wants_melee@.update(
                                        a,
                                        Some(WantsToMelee { target: player }),
                                    ) by {
                                        if a < e {
                                            assert(!attacker_at(s0, ppos, p, a));
                                        } else if a > e {
                                            assert(!attacker_at(s0, ppos, p, e as int));
                                        }
                                    }
                                    assert forall|e2: int|
                                        0 <= e2 < state.store.n() && (
                                        #[trigger] state.store.wants_melee@[e2]) is Some implies {
                                        &&& state.store.wants_melee@[e2].unwrap().target
                                            < state.store.n()
                                        &&& state.store.combat_stats@[state.store.wants_melee@[e2].unwrap().target as int]
                                            is Some
                                        &&& state.store.names@[state.store.wants_melee@[e2].unwrap().target as int]
                                            is Some
                                    } by {
                                        if e2 != e {
                                            assert(state.store.wants_melee@[e2] == old(state).store.wants_melee@[e2]);
                                        }
                                    }
                                }
                                return ;
                            }
                        } else {
                            let sees_player = match &state.store.viewsheds[e] {
                                Some(v) => contains_pt(&v.visible_tiles, ppos),
                                None => false,
                            };
                            if sees_player {
                                let from = state.map.xy_idx(position.x, position.y);
                                let to = state.map.xy_idx(ppos.x, ppos.y);
                                let path = find_path(&state.map, from, to);
                                if let Some(path) = path {
                                    if path.len() > 1 {
                                        let step = path[1];
                                        proof {
                                            assert(crate::pathfinding::step8_ok(
                                                state.map,
                                                crate::pathfinding::coords(path@[0] as int),
                                                crate::pathfinding::coords(path@[1] as int),
                                            ));
                                            crate::pathfinding::lemma_idx_coords(
                                                position.x as int,
                                                position.y as int,
                                            );
                                        }
                                        let (nx, ny) = step_coords(step);
                                        let old_idx = state.map.xy_idx(position.x, position.y);
                                        state.map.blocked[old_idx] = false;
                                        state.store.positions[e] = Some(
                                            crate::components::Position { x: nx, y: ny },
                                        );
                                        let new_idx = state.map.xy_idx(nx, ny);
                                        state.map.blocked[new_idx] = true;
                                        let new_viewshed = match &state.store.viewsheds[e] {
                                            Some(v) => {
                                                let mut c = v.copy();
                                                c.dirty = true;
                                                Some(c)
                                            },
                                            None => None,
                                        };
                                        if let Some(v) = new_viewshed {
                                            state.store.viewsheds[e] = Some(v);
                                        }
                                        proof {
                                            assert(chase_possible(
                                                old(state).store,
                                                ppos,
                                                e as int,
                                            ));
                                        }
                                    }
                                }
                            }
                        }
                    }
                }
            }
            e = e + 1;
        }
    }
}

/// Whether the list of seen tiles holds the given point.
fn contains_pt(tiles: &Vec<Point>, p: Point) -> (r: bool)
    ensures
        r == tiles@.contains(p),
{
    let mut i: usize = 0;
    while i < tiles.len()
        invariant
            0 <= i <= tiles@.len(),
            forall|k: int| 0 <= k < i ==> #[trigger] tiles@[k] != p,
        decreases tiles@.len() - i,
    {
        if tiles[i].x == p.x && tiles[i].y == p.y {
            proof {
                assert(tiles@[i as int] == p);
            }
            return true;
        }
        i = i + 1;
    }
    false
}

/// The coordinates of a path step; steps come from valid paths, whose
/// cells all lie on the map.
fn step_coords(j: usize) -> (r: (i32, i32))
    requires
        j < 3440,
    ensures
        r.0 as int == crate::pathfinding::coords(j as int).0,
        r.1 as int == crate::pathfinding::coords(j as int).1,
        0 <= r.0 < 80,
        0 <= r.1 < 43,
{
    ((j as i32) % 80, (j as i32) / 80)
}

} // verus!
