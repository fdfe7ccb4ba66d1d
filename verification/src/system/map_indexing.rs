use vstd::prelude::*;
use crate::map::{TileType, pt_idx};
use crate::state::State;
use crate::store::EntityStore;

verus! {

/// The occupants of tile `t` after indexing entities `0..upto`: every
/// placed entity, in entity order.
pub open spec fn occupants_upto(s: EntityStore, t: int, upto: int) -> Seq<usize>
    decreases upto,
{
    if upto <= 0 {
        Seq::<usize>::empty()
    } else {
        let prev = occupants_upto(s, t, upto - 1);
        let e = upto - 1;
        if s.alive@[e] && s.positions@[e] is Some && pt_idx(
            (s.positions@[e].unwrap().x as int, s.positions@[e].unwrap().y as int),
        ) == t {
            prev.push(e as usize)
        } else {
            prev
        }
    }
}

/// Whether some blocking entity among `0..upto` stands on tile `t`.
pub open spec fn tile_entity_blocked(s: EntityStore, t: int, upto: int) -> bool {
    exists|e: int|
        0 <= e < upto && #[trigger] s.alive@[e] && s.positions@[e] is Some && pt_idx(
            (s.positions@[e].unwrap().x as int, s.positions@[e].unwrap().y as int),
        ) == t && s.blocks_tile@[e]
}

/// Rebuild the spatial index: the blocked array from terrain plus
/// blocking occupants, and the per-tile occupant lists from scratch.
pub struct MapIndexingSystem;

impl MapIndexingSystem {
    pub fn run(state: &mut State)
        requires
            old(state).inv(),
        ensures
            final(state).inv(),
            final(state).store == old(state).store,
            final(state).log == old(state).log,
            final(state).run_state == old(state).run_state,
            final(state).player_entity == old(state).player_entity,
            final(state).player_data == old(state).player_data,
            final(state).map.tiles@ == old(state).map.tiles@,
            final(state).map.rooms@ == old(state).map.rooms@,
            final(state).map.revealed_tiles@ == old(state).map.revealed_tiles@,
            final(state).map.visible_tiles@ == old(state).map.visible_tiles@,
            final(state).map.depth == old(state).map.depth,
            final(state).map.width == old(state).map.width,
            final(state).map.height == old(state).map.height,
            forall|t: int|
                0 <= t < 3440 ==> #[trigger] final(state).map.blocked@[t] == (old(
                    state,
                ).map.tiles@[t] == TileType::Wall || tile_entity_blocked(
                    old(state).store,
                    t,
                    old(state).store.n(),
                )),
            forall|t: int|
                0 <= t < 3440 ==> (#[trigger] final(state).map.tile_content@[t])@
                    == occupants_upto(old(state).store, t, old(state).store.n()),
    {
        state.map.populate_blocked();
        state.map.clear_content_index();
        let n = state.store.alive.len();
        let mut e: usize = 0;
        while e < n
            invariant
                old(state).inv(),
                state.store == old(state).store,
                state.log == old(state).log,
                state.run_state == old(state).run_state,
                state.player_entity == old(state).player_entity,
                state.player_data == old(state).player_data,
                state.map.wf(),
                n == state.store.n(),
                0 <= e <= n,
                state.map.tiles@ == old(state).map.tiles@,
                state.map.rooms@ == old(state).map.rooms@,
                state.map.revealed_tiles@ == old(state).map.revealed_tiles@,
                state.map.visible_tiles@ == old(state).map.visible_tiles@,
                state.map.depth == old(state).map.depth,
                state.map.width == old(state).map.width,
                state.map.height == old(state).map.height,
                forall|t: int|
                    0 <= t < 3440 ==> #[trigger] state.map.blocked@[t] == (old(
                        state,
                    ).map.tiles@[t] == TileType::Wall || tile_entity_blocked(
                        old(state).store,
                        t,
                        e as int,
                    )),
                forall|t: int|
                    0 <= t < 3440 ==> (#[trigger] state.map.tile_content@[t])@ == occupants_upto(
                        old(state).store,
                        t,
                        e as int,
                    ),
            decreases n - e,
        {
            let pos_opt = state.store.positions[e];
            let ghost blocked_pre = state.map.blocked@;
            let ghost content_pre = state.map.tile_content@;
            if state.store.alive[e] {
                if let Some(position) = pos_opt {
                    let idx = state.map.xy_idx(position.x, position.y);
                    if state.store.blocks_tile[e] {
                        state.map.blocked[idx] = true;
                    }
                    state.map.tile_content[idx].push(e);
                }
            }
            proof {
                assert forall|t: int|
                    0 <= t < 3440 implies state.map.blocked@[t] == (old(state).map.tiles@[t]
                    == TileType::Wall || tile_entity_blocked(old(state).store, t, e as int + 1))
                    by {
                    let s = old(state).store;
                    if s.alive@[e as int] && s.positions@[e as int] is Some && pt_idx(
                        (s.positions@[e as int].unwrap().x as int,
                        s.positions@[e as int].unwrap().y as int),
                    ) == t && s.blocks_tile@[e as int] {
                        assert(tile_entity_blocked(s, t, e as int + 1));
                    } else {
                        assert(tile_entity_blocked(s, t, e as int + 1) == tile_entity_blocked(
                            s,
                            t,
                            e as int,
                        )) by {
                            if tile_entity_blocked(s, t, e as int + 1) {
                                let w = choose|w: int|
                                    0 <= w < e + 1 && #[trigger] s.alive@[w] && s.positions@[w]
                                        is Some && pt_idx(
                                        (s.positions@[w].unwrap().x as int,
                                        s.positions@[w].unwrap().y as int),
                                    ) == t && s.blocks_tile@[w];
                                assert(w < e);
                                assert(tile_entity_blocked(s, t, e as int));
                            }
                        }
                    }
                }
                assert forall|t: int|
                    0 <= t < 3440 implies (state.map.tile_content@[t])@ == occupants_upto(
                    old(state).store,
                    t,
                    e as int + 1,
                ) by {
                    let s = old(state).store;
                    if s.alive@[e as int] && s.positions@[e as int] is Some {
                        let ti = pt_idx(
                            (s.positions@[e as int].unwrap().x as int,
                            s.positions@[e as int].unwrap().y as int),
                        );
                        if t == ti {
                            assert((state.map.tile_content@[t])@ == (content_pre[t])@.push(
                                e,
                            ));
                        } else {
                            assert((state.map.tile_content@[t])@ == (content_pre[t])@);
                        }
                    } else {
                        assert((state.map.tile_content@[t])@ == (content_pre[t])@);
                    }
                }
            }
            e = e + 1;
        }
        proof {
            assert forall|t: int, k: int|
                0 <= t < 3440 && 0 <= k < state.map.tile_content@[t]@.len() implies (
            state.map.tile_content@[t]@[k]) < state.store.n() by {
                lemma_occupants_in_range(
                    old(state).store,
                    t,
                    state.store.n(),
                );
            }
        }
    }
}

proof fn lemma_occupants_in_range(s: EntityStore, t: int, upto: int)
    ensures
        forall|k: int|
            0 <= k < occupants_upto(s, t, upto).len() ==> (#[trigger] occupants_upto(
                s,
                t,
                upto,
            )[k]) < upto,
    decreases upto,
{
    if upto > 0 {
        lemma_occupants_in_range(s, t, upto - 1);
        let prev = occupants_upto(s, t, upto - 1);
        let cur = occupants_upto(s, t, upto);
        assert forall|k: int| 0 <= k < cur.len() implies (#[trigger] cur[k]) < upto by {
            if k < prev.len() {
                assert(cur[k] == prev[k]);
            }
        }
    }
}

} // verus!
