use vstd::prelude::*;
use crate::components::{CombatStats, Point, Position, WantsToMelee, WantsToPickupItem};
use crate::map::{GameMap, TileType, in_bounds_pt, pt_idx};
use crate::state::{RunState, State, melee_intents_ok};
use crate::store::EntityStore;
use crate::system::damage::sat_i32;
use crate::text::string_of;

verus! {

/// One symbolic command per tick, as the input-mapping collaborator
/// hands it over.
#[derive(PartialEq, Eq, Structural, Clone, Copy, Debug)]
pub enum Command {
    Move { dx: i32, dy: i32 },
    Pickup,
    OpenInventory,
    OpenDropMenu,
    Descend,
    Wait,
    SaveAndExit,
}

/// An entity melee can engage: it has combat stats and a name.
pub open spec fn fightable(s: EntityStore, e: int) -> bool {
    s.combat_stats@[e] is Some && s.names@[e] is Some
}

/// Some occupant of tile `t` can be engaged in melee.
pub open spec fn combat_target_on_tile(s: EntityStore, m: GameMap, t: int) -> bool {
    exists|k: int|
        0 <= k < m.tile_content@[t]@.len() && fightable(s, #[trigger] m.tile_content@[t]@[k] as int)
}

/// What a player move attempt leaves behind: an attack intent on the
/// first engageable occupant of the destination, a step onto an open
/// tile (cached position updated, viewshed dirtied), or no change.
pub open spec fn move_outcome(pre: State, post: State, dx: int, dy: int) -> bool {
    let p = pre.player_entity as int;
    let s = pre.store;
    if s.positions@[p] is Some && s.viewsheds@[p] is Some {
        let dest = (s.positions@[p].unwrap().x + dx, s.positions@[p].unwrap().y + dy);
        if !in_bounds_pt(dest) {
            post.store == s && post.player_data == pre.player_data
        } else if combat_target_on_tile(s, pre.map, pt_idx(dest)) {
            let occ = pre.map.tile_content@[pt_idx(dest)]@;
            &&& exists|k: int|
                {
                    &&& 0 <= k < occ.len()
                    &&& fightable(s, #[trigger] occ[k] as int)
                    &&& (forall|j: int| 0 <= j < k ==> !fightable(s, #[trigger] occ[j] as int))
                    &&& post.store.wants_melee@ == s.wants_melee@.update(
                        p,
                        Some(WantsToMelee { target: occ[k] }),
                    )
                }
            &&& post.store.positions@ == s.positions@
            &&& post.store.viewsheds@ == s.viewsheds@
            &&& post.store.combat_stats@ == s.combat_stats@
            &&& post.player_data == pre.player_data
        } else if !pre.map.blocked@[pt_idx(dest)] {
            &&& post.store.positions@ == s.positions@.update(
                p,
                Some(Position { x: dest.0 as i32, y: dest.1 as i32 }),
            )
            &&& post.player_data.position == (Point { x: dest.0 as i32, y: dest.1 as i32 })
            &&& post.store.viewsheds@[p] is Some
            &&& post.store.viewsheds@[p].unwrap().dirty
            &&& post.store.viewsheds@[p].unwrap().range == s.viewsheds@[p].unwrap().range
            &&& post.store.viewsheds@[p].unwrap().visible_tiles@ == s.viewsheds@[
                p
            ].unwrap().visible_tiles@
            &&& forall|j: int| 0 <= j < s.n() && j != p ==> post.store.viewsheds@[j] == s.viewsheds@[j]
            &&& post.store.wants_melee@ == s.wants_melee@
            &&& post.store.combat_stats@ == s.combat_stats@
        } else {
            post.store == s && post.player_data == pre.player_data
        }
    } else {
        post.store == s && post.player_data == pre.player_data
    }
}

/// Try to move the player by one step: attack whatever engageable
/// stands there, else walk if the tile is open.
pub fn try_move_player(delta_x: i32, delta_y: i32, state: &mut State)
    requires
        old(state).inv(),
        melee_intents_ok(old(state).store),
        -1 <= delta_x <= 1,
        -1 <= delta_y <= 1,
    ensures
        final(state).inv(),
        melee_intents_ok(final(state).store),
        final(state).store.n() == old(state).store.n(),
        final(state).run_state == old(state).run_state,
        final(state).log == old(state).log,
        final(state).player_entity == old(state).player_entity,
        final(state).map == old(state).map,
        move_outcome(*old(state), *final(state), delta_x as int, delta_y as int),
{
    let entity = state.player_entity;
    let has_pos = state.store.positions[entity].is_some();
    let has_viewshed = state.store.viewsheds[entity].is_some();
    if !(has_pos && has_viewshed) {
        return ;
    }
    let pos = state.store.positions[entity].unwrap();
    let dest_x = pos.x + delta_x;
    let dest_y = pos.y + delta_y;
    if dest_x < 0 || dest_x >= 80 || dest_y < 0 || dest_y >= 43 {
        return ;
    }
    let destination_idx = state.map.xy_idx(dest_x, dest_y);

    let count = state.map.tile_content[destination_idx].len();
    let mut k: usize = 0;
    while k < count
        invariant
            old(state).inv(),
            melee_intents_ok(old(state).store),
            *state == *old(state),
            entity == old(state).player_entity,
            old(state).store.positions@[entity as int] is Some,
            old(state).store.viewsheds@[entity as int] is Some,
            pos == old(state).store.positions@[entity as int].unwrap(),
            dest_x == pos.x + delta_x,
            dest_y == pos.y + delta_y,
            0 <= dest_x < 80,
            0 <= dest_y < 43,
            destination_idx == pt_idx((dest_x as int, dest_y as int)),
            destination_idx < 3440,
            count == state.map.tile_content@[destination_idx as int]@.len(),
            0 <= k <= count,
            forall|j: int|
                0 <= j < k ==> !fightable(
                    old(state).store,
                    #[trigger] state.map.tile_content@[destination_idx as int]@[j] as int,
                ),
        decreases count - k,
    {
        let potential_target = state.map.tile_content[destination_idx][k];
        let target_stats = state.store.combat_stats[potential_target];
        if target_stats.is_some() {
            let has_target_name = state.store.names[potential_target].is_some();
            if has_target_name {
                state.store.wants_melee[entity] = Some(
                    WantsToMelee { target: potential_target },
                );
                proof {
                    let occ = state.map.tile_content@[destination_idx as int]@;
                    assert(fightable(old(state).store, occ[k as int] as int));
                    assert(combat_target_on_tile(
                        old(state).store,
                        old(state).map,
                        destination_idx as int,
                    ));
                    assert forall|e2: int|
                        0 <= e2 < state.store.n() && (#[trigger] state.store.wants_melee@[e2])
                            is Some implies {
                        &&& state.store.wants_melee@[e2].unwrap().target < state.store.n()
                        &&& state.store.combat_stats@[state.store.wants_melee@[e2].unwrap().target as int]
                            is Some
                        &&& state.store.names@[state.store.wants_melee@[e2].unwrap().target as int]
                            is Some
                    } by {
                        if e2 != entity {
                            assert(state.store.wants_melee@[e2] == old(
                                state,
                            ).store.wants_melee@[e2]);
                        } else {
                            assert(state.map.tile_content@[destination_idx as int]@[k as int]
                                < state.store.n());
                            assert(state.store.wants_melee@[e2].unwrap().target
                                == potential_target);
                        }
                    }
                }
                return ;
            }
        }
        k = k + 1;
    }

    if state.map.blocked[destination_idx] {
        return ;
    }
    state.store.positions[entity] = Some(Position { x: dest_x, y: dest_y });
    state.player_data = crate::state::PlayerData::new(dest_x, dest_y);
    let new_viewshed = match &state.store.viewsheds[entity] {
        Some(v) => {
            let mut c = v.copy();
            c.dirty = true;
            Some(c)
        },
        None => None,
    };
    if let Some(v) = new_viewshed {
        state.store.viewsheds[entity] = Some(v);
    }
}

/// An alive item lying at `(px, py)`.
pub open spec fn item_here(s: EntityStore, e: int, px: i32, py: i32) -> bool {
    s.alive@[e] && s.items@[e] && s.positions@[e] == Some(Position { x: px, y: py })
}

/// What a pickup attempt leaves behind: an intent on the first item at
/// the player's feet, or the nothing-to-pick-up line.
pub open spec fn pickup_outcome(pre: State, post: State) -> bool {
    let p = pre.player_entity as int;
    let s = pre.store;
    let px = pre.player_data.position.x;
    let py = pre.player_data.position.y;
    if exists|e: int| 0 <= e < s.n() && #[trigger] item_here(s, e, px, py) {
        &&& exists|e: int|
            {
                &&& 0 <= e < s.n()
                &&& #[trigger] item_here(s, e, px, py)
                &&& (forall|j: int| 0 <= j < e ==> !item_here(s, j, px, py))
                &&& post.store.wants_pickup@ == s.wants_pickup@.update(
                    p,
                    Some(WantsToPickupItem { collected_by: pre.player_entity, item: e as usize }),
                )
            }
        &&& post.log == pre.log
    } else {
        &&& post.store == s
        &&& post.log.entries@.len() == pre.log.entries@.len() + 1
        &&& post.log.entries@[pre.log.entries@.len() as int]@
            == "There is nothing here to pickup"@
        &&& forall|j: int|
            0 <= j < pre.log.entries@.len() ==> post.log.entries@[j] == #[trigger] pre.log.entries@[j]
    }
}

/// Queue a pickup of the first item lying at the player's feet, or log
/// that there is nothing to pick up.
pub fn get_item(state: &mut State)
    requires
        old(state).inv(),
        melee_intents_ok(old(state).store),
    ensures
        final(state).inv(),
        melee_intents_ok(final(state).store),
        final(state).store.n() == old(state).store.n(),
        final(state).run_state == old(state).run_state,
        final(state).map == old(state).map,
        final(state).player_entity == old(state).player_entity,
        final(state).player_data == old(state).player_data,
        pickup_outcome(*old(state), *final(state)),
        final(state).store.positions@ == old(state).store.positions@,
        final(state).store.in_backpack@ == old(state).store.in_backpack@,
        final(state).store.combat_stats@ == old(state).store.combat_stats@,
{
    let player_entity = state.player_entity;
    let px = state.player_data.position.x;
    let py = state.player_data.position.y;
    let n = state.store.alive.len();
    let mut target_item: Option<usize> = None;
    let mut e: usize = 0;
    while e < n
        invariant
            old(state).inv(),
            *state == *old(state),
            n == state.store.n(),
            0 <= e <= n,
            px == state.player_data.position.x,
            py == state.player_data.position.y,
            match target_item {
                Some(it) => {
                    &&& it < n
                    &&& item_here(state.store, it as int, px, py)
                    &&& forall|j: int| 0 <= j < it ==> !item_here(state.store, j, px, py)
                },
                None => forall|j: int| 0 <= j < e ==> !item_here(state.store, j, px, py),
            },
        decreases n - e,
    {
        if target_item.is_none() && state.store.alive[e] && state.store.items[e] {
            if let Some(position) = state.store.positions[e] {
                if position.x == px && position.y == py {
                    target_item = Some(e);
                }
            }
        }
        e = e + 1;
    }

    match target_item {
        None => {
            state.log.log(string_of("There is nothing here to pickup"));
        },
        Some(item) => {
            state.store.wants_pickup[player_entity] = Some(
                WantsToPickupItem { collected_by: player_entity, item },
            );
            proof {
                assert(item_here(old(state).store, item as int, px, py));
            }
        },
    }
}

/// Tile `p` holds some monster, by the current occupant index.
pub open spec fn tile_has_monster(s: EntityStore, m: GameMap, p: Point) -> bool {
    &&& in_bounds_pt((p.x as int, p.y as int))
    &&& exists|j: int|
        0 <= j < m.tile_content@[pt_idx((p.x as int, p.y as int))]@.len() && s.monsters@[(
        #[trigger] m.tile_content@[pt_idx((p.x as int, p.y as int))]@[j]) as int]
}

/// Some tile of the given seen set holds a monster.
pub open spec fn monster_seen(s: EntityStore, m: GameMap, vt: Seq<Point>) -> bool {
    exists|k: int| 0 <= k < vt.len() && tile_has_monster(s, m, #[trigger] vt[k])
}

/// What resting leaves behind: one hit point back, capped at the
/// maximum, when no monster stands on a seen tile; nothing otherwise.
pub open spec fn wait_outcome(pre: State, post: State) -> bool {
    let p = pre.player_entity as int;
    let s = pre.store;
    let vt = s.viewsheds@[p].unwrap().visible_tiles@;
    if !monster_seen(s, pre.map, vt) && s.combat_stats@[p] is Some {
        let st = s.combat_stats@[p].unwrap();
        post.store.combat_stats@ == s.combat_stats@.update(
            p,
            Some(
                CombatStats {
                    max_hp: st.max_hp,
                    hp: sat_i32(
                        if st.hp + 1 < st.max_hp {
                            st.hp + 1
                        } else {
                            st.max_hp as int
                        },
                    ) as i32,
                    defense: st.defense,
                    power: st.power,
                },
            ),
        )
    } else {
        post.store.combat_stats@ == s.combat_stats@
    }
}

/// Rest for a turn; heal one hit point if no monster is in sight.
pub fn skip_turn(state: &mut State) -> (r: RunState)
    requires
        old(state).inv(),
        melee_intents_ok(old(state).store),
        old(state).store.viewsheds@[old(state).player_entity as int] is Some,
    ensures
        final(state).inv(),
        melee_intents_ok(final(state).store),
        r == RunState::PlayerTurn,
        final(state).store.n() == old(state).store.n(),
        final(state).run_state == old(state).run_state,
        final(state).map == old(state).map,
        final(state).log == old(state).log,
        final(state).player_entity == old(state).player_entity,
        final(state).player_data == old(state).player_data,
        wait_outcome(*old(state), *final(state)),
        final(state).store.positions@ == old(state).store.positions@,
        final(state).store.viewsheds@ == old(state).store.viewsheds@,
        final(state).store.wants_melee@ == old(state).store.wants_melee@,
        final(state).store.wants_pickup@ == old(state).store.wants_pickup@,
        final(state).store.wants_use@ == old(state).store.wants_use@,
        final(state).store.wants_drop@ == old(state).store.wants_drop@,
        final(state).store.suffer_damage@ == old(state).store.suffer_damage@,
        final(state).store.in_backpack@ == old(state).store.in_backpack@,
        final(state).store.confusion@ == old(state).store.confusion@,
{
    let player_entity = state.player_entity;
    let vt = match &state.store.viewsheds[player_entity] {
        Some(v) => v.visible_tiles.len(),
        None => 0,
    };
    let ghost vts = state.store.viewsheds@[player_entity as int].unwrap().visible_tiles@;
    let mut can_heal = true;
    let mut i: usize = 0;
    while i < vt
        invariant
            old(state).inv(),
            *state == *old(state),
            player_entity == old(state).player_entity,
            state.store.viewsheds@[player_entity as int] is Some,
            vts == state.store.viewsheds@[player_entity as int].unwrap().visible_tiles@,
            vt == vts.len(),
            0 <= i <= vt,
            can_heal == !(exists|k: int|
                0 <= k < i && tile_has_monster(state.store, state.map, #[trigger] vts[k])),
        decreases vt - i,
    {
        let tile = match &state.store.viewsheds[player_entity] {
            Some(v) => v.visible_tiles[i],
            None => Point { x: 0, y: 0 },
        };
        let ghost heal_pre = can_heal;
        if tile.x >= 0 && tile.x < 80 && tile.y >= 0 && tile.y < 43 {
            let idx = state.map.xy_idx(tile.x, tile.y);
            let count = state.map.tile_content[idx].len();
            let mut k: usize = 0;
            while k < count
                invariant
                    old(state).inv(),
                    *state == *old(state),
                    tile == vts[i as int],
                    in_bounds_pt((tile.x as int, tile.y as int)),
                    idx == pt_idx((tile.x as int, tile.y as int)),
                    idx < 3440,
                    count == state.map.tile_content@[idx as int]@.len(),
                    0 <= k <= count,
                    can_heal == (heal_pre && !(exists|j: int|
                        0 <= j < k && state.store.monsters@[(
                        #[trigger] state.map.tile_content@[idx as int]@[j]) as int])),
                decreases count - k,
            {
                let occupant = state.map.tile_content[idx][k];
                if state.store.monsters[occupant] {
                    can_heal = false;
                }
                k = k + 1;
            }
            proof {
                assert(can_heal == (heal_pre && !tile_has_monster(
                    state.store,
                    state.map,
                    vts[i as int],
                )));
            }
        } else {
            proof {
                assert(!tile_has_monster(state.store, state.map, vts[i as int]));
            }
        }
        proof {
            assert forall|k: int|
                0 <= k < i + 1 && tile_has_monster(state.store, state.map, #[trigger] vts[k])
                    implies !can_heal by {}
            if !can_heal {
                if heal_pre {
                    assert(tile_has_monster(state.store, state.map, vts[i as int]));
                }
            }
        }
        i = i + 1;
    }
    proof {
        assert(vts.len() == vt);
    }

    if can_heal {
        let stats_opt = state.store.combat_stats[player_entity];
        if let Some(health) = stats_opt {
            let healed: i64 = (health.hp as i64) + 1;
            let capped: i64 = if healed < health.max_hp as i64 {
                healed
            } else {
                health.max_hp as i64
            };
            let new_hp: i32 = if capped < i32::MIN as i64 {
                i32::MIN
            } else if capped > i32::MAX as i64 {
                i32::MAX
            } else {
                capped as i32
            };
            state.store.combat_stats[player_entity] = Some(
                CombatStats {
                    max_hp: health.max_hp,
                    hp: new_hp,
                    defense: health.defense,
                    power: health.power,
                },
            );
        }
    }
    RunState::PlayerTurn
}

/// Whether the player stands on the stairs; logs the refusal otherwise.
pub fn try_next_level(state: &mut State) -> (r: bool)
    requires
        old(state).inv(),
    ensures
        final(state).inv(),
        r == (old(state).map.tiles@[pt_idx(
            (old(state).player_data.position.x as int, old(state).player_data.position.y as int),
        )] == TileType::DownStairs),
        final(state).store == old(state).store,
        final(state).map == old(state).map,
        final(state).run_state == old(state).run_state,
        final(state).player_entity == old(state).player_entity,
        final(state).player_data == old(state).player_data,
        r ==> final(state).log == old(state).log,
        !r ==> {
            &&& final(state).log.entries@.len() == old(state).log.entries@.len() + 1
            &&& final(state).log.entries@[old(state).log.entries@.len() as int]@
                == "There is no way down from here"@
            &&& forall|j: int|
                0 <= j < old(state).log.entries@.len() ==> final(state).log.entries@[j] == #[trigger] old(
                    state,
                ).log.entries@[j]
        },
{
    let px = state.player_data.position.x;
    let py = state.player_data.position.y;
    let player_idx = state.map.xy_idx(px, py);
    if state.map.tiles[player_idx] == TileType::DownStairs {
        true
    } else {
        state.log.log(string_of("There is no way down from here"));
        false
    }
}

/// Dispatch one symbolic input command, as the awaiting-input phase
/// consumes it, and report the next session phase.
pub fn player_input(state: &mut State, cmd: Command) -> (r: RunState)
    requires
        old(state).inv(),
        melee_intents_ok(old(state).store),
        (cmd matches Command::Move { dx, dy } ==> -1 <= dx <= 1 && -1 <= dy <= 1),
        cmd == Command::Wait ==> old(state).store.viewsheds@[old(state).player_entity as int]
            is Some,
    ensures
        final(state).inv(),
        melee_intents_ok(final(state).store),
        final(state).store.n() == old(state).store.n(),
        final(state).run_state == old(state).run_state,
        final(state).map == old(state).map,
        final(state).player_entity == old(state).player_entity,
        r == (match cmd {
            Command::Move { .. } => RunState::PlayerTurn,
            Command::Pickup => RunState::PlayerTurn,
            Command::OpenInventory => RunState::ShowInventory,
            Command::OpenDropMenu => RunState::ShowDropItem,
            Command::Descend => if old(state).map.tiles@[pt_idx(
                (
                    old(state).player_data.position.x as int,
                    old(state).player_data.position.y as int,
                ),
            )] == TileType::DownStairs {
                RunState::NextLevel
            } else {
                RunState::AwaitingInput
            },
            Command::Wait => RunState::PlayerTurn,
            Command::SaveAndExit => RunState::SaveGame,
        }),
        (match cmd {
            Command::Move { dx, dy } => move_outcome(
                *old(state),
                *final(state),
                dx as int,
                dy as int,
            ),
            Command::Pickup => pickup_outcome(*old(state), *final(state)),
            Command::Wait => wait_outcome(*old(state), *final(state)),
            Command::Descend => final(state).store == old(state).store && (if r
                == RunState::NextLevel {
                final(state).log == old(state).log
            } else {
                &&& final(state).log.entries@.len() == old(state).log.entries@.len() + 1
                &&& final(state).log.entries@[old(state).log.entries@.len() as int]@
                    == "There is no way down from here"@
            }),
            _ => *final(state) == *old(state),
        }),
{
    match cmd {
        Command::Move { dx, dy } => {
            try_move_player(dx, dy, state);
            RunState::PlayerTurn
        },
        Command::Pickup => {
            get_item(state);
            RunState::PlayerTurn
        },
        Command::OpenInventory => RunState::ShowInventory,
        Command::OpenDropMenu => RunState::ShowDropItem,
        Command::Descend => {
            if try_next_level(state) {
                RunState::NextLevel
            } else {
                RunState::AwaitingInput
            }
        },
        Command::Wait => skip_turn(state),
        Command::SaveAndExit => RunState::SaveGame,
    }
}

} // verus!
