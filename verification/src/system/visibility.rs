use vstd::prelude::*;
use crate::components::{Point, Viewshed};
use crate::fov::{field_of_view, visible_from};
use crate::map::{in_bounds_pt, pt_idx};
use crate::state::State;
use crate::store::EntityStore;

verus! {

/// Whether the visibility pass recomputes entity `e` this turn.
pub open spec fn vis_processed(s: EntityStore, e: int) -> bool {
    &&& s.alive@[e]
    &&& s.viewsheds@[e] is Some
    &&& s.positions@[e] is Some
    &&& s.viewsheds@[e].unwrap().dirty
}

proof fn lemma_pt_idx_injective(p: (int, int), q: (int, int))
    requires
        in_bounds_pt(p),
        in_bounds_pt(q),
        pt_idx(p) == pt_idx(q),
    ensures
        p == q,
{
}

/// Recompute every dirty viewshed; when the player's is recomputed, the
/// global visible bitmap is rebuilt from it and every seen tile is
/// permanently revealed.
pub struct VisibilitySystem {}

impl VisibilitySystem {
    pub fn run(state: &mut State)
        requires
            old(state).inv(),
        ensures
            final(state).inv(),
            final(state).store.n() == old(state).store.n(),
            forall|e: int|
                0 <= e < old(state).store.n() && !vis_processed(old(state).store, e) ==> (
                #[trigger] final(state).store.viewsheds@[e]) == old(state).store.viewsheds@[e],
            forall|e: int|
                0 <= e < old(state).store.n() && vis_processed(old(state).store, e) ==> {
                    &&& (#[trigger] final(state).store.viewsheds@[e]) is Some
                    &&& final(state).store.viewsheds@[e].unwrap().range == old(state).store.viewsheds@[e].unwrap().range
                    &&& !final(state).store.viewsheds@[e].unwrap().dirty
                    &&& forall|p: Point|
                        final(state).store.viewsheds@[e].unwrap().visible_tiles@.contains(p)
                            <==> visible_from(
                            old(state).map.tiles@,
                            (old(state).store.positions@[e].unwrap().x as int,
                            old(state).store.positions@[e].unwrap().y as int),
                            (p.x as int, p.y as int),
                            old(state).store.viewsheds@[e].unwrap().range as int,
                        )
                },
            vis_processed(old(state).store, old(state).player_entity as int) ==> forall|p: Point|
                in_bounds_pt((p.x as int, p.y as int)) ==> {
                    &&& final(state).map.visible_tiles@[pt_idx((p.x as int, p.y as int))]
                        == visible_from(
                        old(state).map.tiles@,
                        (old(state).store.positions@[old(state).player_entity as int].unwrap().x as int,
                        old(state).store.positions@[old(state).player_entity as int].unwrap().y as int),
                        (p.x as int, p.y as int),
                        old(state).store.viewsheds@[old(state).player_entity as int].unwrap().range as int,
                    )
                    &&& final(state).map.revealed_tiles@[pt_idx((p.x as int, p.y as int))] == (old(state).map.revealed_tiles@[pt_idx((p.x as int, p.y as int))] || final(state).map.visible_tiles@[pt_idx((p.x as int, p.y as int))])
                },
            !vis_processed(old(state).store, old(state).player_entity as int) ==> final(state).map.visible_tiles@ == old(state).map.visible_tiles@ && final(state).map.revealed_tiles@ == old(state).map.revealed_tiles@,
            final(state).store.alive@ == old(state).store.alive@,
            final(state).store.positions@ == old(state).store.positions@,
            final(state).store.renderables@ == old(state).store.renderables@,
            final(state).store.players@ == old(state).store.players@,
            final(state).store.monsters@ == old(state).store.monsters@,
            final(state).store.names@ == old(state).store.names@,
            final(state).store.blocks_tile@ == old(state).store.blocks_tile@,
            final(state).store.combat_stats@ == old(state).store.combat_stats@,
            final(state).store.wants_melee@ == old(state).store.wants_melee@,
            final(state).store.suffer_damage@ == old(state).store.suffer_damage@,
            final(state).store.items@ == old(state).store.items@,
            final(state).store.provides_healing@ == old(state).store.provides_healing@,
            final(state).store.in_backpack@ == old(state).store.in_backpack@,
            final(state).store.wants_pickup@ == old(state).store.wants_pickup@,
            final(state).store.wants_use@ == old(state).store.wants_use@,
            final(state).store.wants_drop@ == old(state).store.wants_drop@,
            final(state).store.consumables@ == old(state).store.consumables@,
            final(state).store.ranged@ == old(state).store.ranged@,
            final(state).store.inflicts_damage@ == old(state).store.inflicts_damage@,
            final(state).store.aoe@ == old(state).store.aoe@,
            final(state).store.confusion@ == old(state).store.confusion@,
            final(state).store.pending_delete@ == old(state).store.pending_delete@,
            final(state).map.tiles@ == old(state).map.tiles@,
            final(state).map.rooms@ == old(state).map.rooms@,
            final(state).map.blocked@ == old(state).map.blocked@,
            final(state).map.tile_content@ == old(state).map.tile_content@,
            final(state).map.depth == old(state).map.depth,
            final(state).map.width == old(state).map.width,
            final(state).map.height == old(state).map.height,
            final(state).log == old(state).log,
            final(state).run_state == old(state).run_state,
            final(state).player_entity == old(state).player_entity,
            final(state).player_data == old(state).player_data,
    {
        let n = state.store.alive.len();
        let mut e: usize = 0;
        while e < n
            invariant
                old(state).inv(),
                state.store.wf(),
                state.map.wf(),
                n == state.store.n(),
                n == old(state).store.n(),
                0 <= e <= n,
                forall|j: int|
                    0 <= j < n && !vis_processed(old(state).store, j) ==> (
                    #[trigger] state.store.viewsheds@[j]) == old(state).store.viewsheds@[j],
                forall|j: int|
                    0 <= j < e && vis_processed(old(state).store, j) ==> {
                        &&& (#[trigger] state.store.viewsheds@[j]) is Some
                        &&& state.store.viewsheds@[j].unwrap().range == old(state).store.viewsheds@[j].unwrap().range
                        &&& !state.store.viewsheds@[j].unwrap().dirty
                        &&& forall|p: Point|
                            state.store.viewsheds@[j].unwrap().visible_tiles@.contains(p)
                                <==> visible_from(
                                old(state).map.tiles@,
                                (old(state).store.positions@[j].unwrap().x as int,
                                old(state).store.positions@[j].unwrap().y as int),
                                (p.x as int, p.y as int),
                                old(state).store.viewsheds@[j].unwrap().range as int,
                            )
                    },
                forall|j: int|
                    e <= j < n ==> (#[trigger] state.store.viewsheds@[j]) == old(state).store.viewsheds@[j],
                (vis_processed(old(state).store, old(state).player_entity as int) && old(state).player_entity < e) ==> forall|p: Point|
                    in_bounds_pt((p.x as int, p.y as int)) ==> {
                        &&& state.map.visible_tiles@[pt_idx((p.x as int, p.y as int))]
                            == visible_from(
                            old(state).map.tiles@,
                            (old(state).store.positions@[old(state).player_entity as int].unwrap().x as int,
                            old(state).store.positions@[old(state).player_entity as int].unwrap().y as int),
                            (p.x as int, p.y as int),
                            old(state).store.viewsheds@[old(state).player_entity as int].unwrap().range as int,
                        )
                        &&& state.map.revealed_tiles@[pt_idx((p.x as int, p.y as int))] == (old(state).map.revealed_tiles@[pt_idx((p.x as int, p.y as int))]
                            || state.map.visible_tiles@[pt_idx((p.x as int, p.y as int))])
                    },
                (!vis_processed(old(state).store, old(state).player_entity as int) || old(state).player_entity >= e) ==> state.map.visible_tiles@ == old(state).map.visible_tiles@ && state.map.revealed_tiles@ == old(state).map.revealed_tiles@,
                state.store.alive@ == old(state).store.alive@,
                state.store.positions@ == old(state).store.positions@,
                state.store.renderables@ == old(state).store.renderables@,
                state.store.players@ == old(state).store.players@,
                state.store.monsters@ == old(state).store.monsters@,
                state.store.names@ == old(state).store.names@,
                state.store.blocks_tile@ == old(state).store.blocks_tile@,
                state.store.combat_stats@ == old(state).store.combat_stats@,
                state.store.wants_melee@ == old(state).store.wants_melee@,
                state.store.suffer_damage@ == old(state).store.suffer_damage@,
                state.store.items@ == old(state).store.items@,
                state.store.provides_healing@ == old(state).store.provides_healing@,
                state.store.in_backpack@ == old(state).store.in_backpack@,
                state.store.wants_pickup@ == old(state).store.wants_pickup@,
                state.store.wants_use@ == old(state).store.wants_use@,
                state.store.wants_drop@ == old(state).store.wants_drop@,
                state.store.consumables@ == old(state).store.consumables@,
                state.store.ranged@ == old(state).store.ranged@,
                state.store.inflicts_damage@ == old(state).store.inflicts_damage@,
                state.store.aoe@ == old(state).store.aoe@,
                state.store.confusion@ == old(state).store.confusion@,
                state.store.pending_delete@ == old(state).store.pending_delete@,
                state.map.tiles@ == old(state).map.tiles@,
                state.map.rooms@ == old(state).map.rooms@,
                state.map.blocked@ == old(state).map.blocked@,
                state.map.tile_content@ == old(state).map.tile_content@,
                state.map.depth == old(state).map.depth,
                state.map.width == old(state).map.width,
                state.map.height == old(state).map.height,
                state.log == old(state).log,
                state.run_state == old(state).run_state,
                state.player_entity == old(state).player_entity,
                state.player_data == old(state).player_data,
            decreases n - e,
        {
            let is_dirty = match &state.store.viewsheds[e] {
                Some(v) => v.dirty,
                None => false,
            };
            let pos_opt = state.store.positions[e];
            if state.store.alive[e] && is_dirty {
                if let Some(pos) = pos_opt {
                    let range = match &state.store.viewsheds[e] {
                        Some(v) => v.range,
                        None => 0,
                    };
                    let tiles = field_of_view(&state.map, Point { x: pos.x, y: pos.y }, range);
                    state.store.viewsheds[e] = Some(
                        Viewshed { visible_tiles: tiles, range, dirty: false },
                    );
                    proof {
                        let vts = state.store.viewsheds@[e as int].unwrap().visible_tiles@;
                        assert forall|k2: int|
                            0 <= k2 < vts.len() implies in_bounds_pt(
                            ((#[trigger] vts[k2]).x as int, vts[k2].y as int),
                        ) by {
                            assert(vts.contains(vts[k2]));
                        }
                    }
                    if state.store.players[e] {
                        let ghost smid = state.store;
                        let ghost lmid = state.log;
                        let mut j: usize = 0;
                        while j < crate::map::SIZE
                            invariant
                                state.map.wf(),
                                0 <= j <= 3440,
                                forall|k: int|
                                    0 <= k < j ==> !(#[trigger] state.map.visible_tiles@[k]),
                                state.store == smid,
                                state.log == lmid,
                                state.run_state == old(state).run_state,
                                state.player_entity == old(state).player_entity,
                                state.player_data == old(state).player_data,
                                state.map.tiles@ == old(state).map.tiles@,
                                state.map.rooms@ == old(state).map.rooms@,
                                state.map.blocked@ == old(state).map.blocked@,
                                state.map.tile_content@ == old(state).map.tile_content@,
                                state.map.depth == old(state).map.depth,
                                state.map.width == old(state).map.width,
                                state.map.height == old(state).map.height,
                                state.map.revealed_tiles@ == old(state).map.revealed_tiles@,
                            decreases 3440 - j,
                        {
                            state.map.visible_tiles[j] = false;
                            j = j + 1;
                        }
                        let vt = match &state.store.viewsheds[e] {
                            Some(v) => v.visible_tiles.len(),
                            None => 0,
                        };
                        let mut k: usize = 0;
                        while k < vt
                            invariant
                                state.map.wf(),
                                0 <= k <= vt,
                                state.store == smid,
                                state.log == lmid,
                                state.run_state == old(state).run_state,
                                state.player_entity == old(state).player_entity,
                                state.player_data == old(state).player_data,
                                state.store.wf(),
                                e < state.store.n(),
                                state.store.viewsheds@[e as int] is Some,
                                vt == state.store.viewsheds@[e as int].unwrap().visible_tiles@.len(),
                                forall|k2: int|
                                    0 <= k2 < vt ==> in_bounds_pt(
                                        ((#[trigger] state.store.viewsheds@[e as int].unwrap().visible_tiles@[k2]).x as int,
                                        state.store.viewsheds@[e as int].unwrap().visible_tiles@[k2].y as int),
                                    ),
                                forall|p: Point|
                                    in_bounds_pt((p.x as int, p.y as int)) ==> #[trigger] state.map.visible_tiles@[pt_idx(
                                        (p.x as int, p.y as int),
                                    )] == state.store.viewsheds@[e as int].unwrap().visible_tiles@.subrange(
                                        0,
                                        k as int,
                                    ).contains(p),
                                forall|p: Point|
                                    in_bounds_pt((p.x as int, p.y as int)) ==> #[trigger] state.map.revealed_tiles@[pt_idx(
                                        (p.x as int, p.y as int),
                                    )] == (old(state).map.revealed_tiles@[pt_idx(
                                        (p.x as int, p.y as int),
                                    )] || state.store.viewsheds@[e as int].unwrap().visible_tiles@.subrange(
                                        0,
                                        k as int,
                                    ).contains(p)),
                                state.map.tiles@ == old(state).map.tiles@,
                                state.map.rooms@ == old(state).map.rooms@,
                                state.map.blocked@ == old(state).map.blocked@,
                                state.map.tile_content@ == old(state).map.tile_content@,
                                state.map.depth == old(state).map.depth,
                                state.map.width == old(state).map.width,
                                state.map.height == old(state).map.height,
                            decreases vt - k,
                        {
                            let tile = match &state.store.viewsheds[e] {
                                Some(v) => v.visible_tiles[k],
                                None => Point { x: 0, y: 0 },
                            };
                            let ghost vis_pre = state.map.visible_tiles@;
                            let ghost rev_pre = state.map.revealed_tiles@;
                            let idx = state.map.xy_idx(tile.x, tile.y);
                            state.map.revealed_tiles[idx] = true;
                            state.map.visible_tiles[idx] = true;
                            proof {
                                let vts = state.store.viewsheds@[e as int].unwrap().visible_tiles@;
                                assert(vts[k as int] == tile);
                                assert(in_bounds_pt((tile.x as int, tile.y as int)));
                                assert(vts.subrange(0, k as int + 1).drop_last() =~= vts.subrange(
                                    0,
                                    k as int,
                                ));
                                assert(vts.subrange(0, k as int + 1).last() == vts[k as int]);
                                assert forall|p: Point|
                                    in_bounds_pt((p.x as int, p.y as int)) implies
                                    state.map.visible_tiles@[pt_idx((p.x as int, p.y as int))]
                                    == vts.subrange(0, k as int + 1).contains(p) by {
                                    if p == tile {
                                        assert(vts.subrange(0, k as int + 1)[k as int] == p);
                                        assert(vts.subrange(0, k as int + 1).contains(p));
                                    } else {
                                        if pt_idx((p.x as int, p.y as int)) == pt_idx(
                                            (tile.x as int, tile.y as int),
                                        ) {
                                            lemma_pt_idx_injective(
                                                (p.x as int, p.y as int),
                                                (tile.x as int, tile.y as int),
                                            );
                                        }
                                        if vts.subrange(0, k as int + 1).contains(p) {
                                            let k3 = choose|k3: int|
                                                0 <= k3 < k + 1 && (#[trigger] vts.subrange(
                                                    0,
                                                    k as int + 1,
                                                )[k3]) == p;
                                            assert(vts.subrange(0, k as int)[k3] == p);
                                            assert(vts.subrange(0, k as int).contains(p));
                                        } else {
                                            if vts.subrange(0, k as int).contains(p) {
                                                let k3 = choose|k3: int|
                                                    0 <= k3 < k && (#[trigger] vts.subrange(
                                                        0,
                                                        k as int,
                                                    )[k3]) == p;
                                                assert(vts.subrange(0, k as int + 1)[k3] == p);
                                            }
                                        }
                                    }
                                }
                                assert forall|p: Point|
                                    in_bounds_pt((p.x as int, p.y as int)) implies
                                    state.map.revealed_tiles@[pt_idx((p.x as int, p.y as int))]
                                    == (old(state).map.revealed_tiles@[pt_idx(
                                    (p.x as int, p.y as int),
                                )] || vts.subrange(0, k as int + 1).contains(p)) by {
                                    if p == tile {
                                        assert(vts.subrange(0, k as int + 1)[k as int] == p);
                                    } else {
                                        if pt_idx((p.x as int, p.y as int)) == pt_idx(
                                            (tile.x as int, tile.y as int),
                                        ) {
                                            lemma_pt_idx_injective(
                                                (p.x as int, p.y as int),
                                                (tile.x as int, tile.y as int),
                                            );
                                        }
                                        if vts.subrange(0, k as int + 1).contains(p) {
                                            let k3 = choose|k3: int|
                                                0 <= k3 < k + 1 && (#[trigger] vts.subrange(
                                                    0,
                                                    k as int + 1,
                                                )[k3]) == p;
                                            assert(vts.subrange(0, k as int)[k3] == p);
                                            assert(vts.subrange(0, k as int).contains(p));
                                        } else {
                                            if vts.subrange(0, k as int).contains(p) {
                                                let k3 = choose|k3: int|
                                                    0 <= k3 < k && (#[trigger] vts.subrange(
                                                        0,
                                                        k as int,
                                                    )[k3]) == p;
                                                assert(vts.subrange(0, k as int + 1)[k3] == p);
                                            }
                                        }
                                    }
                                }
                            }
                            k = k + 1;
                        }
                        proof {
                            let vts = state.store.viewsheds@[e as int].unwrap().visible_tiles@;
                            assert(vts.subrange(0, vts.len() as int) =~= vts);
                        }
                    }
                }
            }
            e = e + 1;
        }
    }
}

} // verus!
