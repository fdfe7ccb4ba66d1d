use vstd::prelude::*;
use crate::components::{Confusion, CombatStats, InBackpack, Position, SufferDamage, pending_of};
use crate::fov::field_of_view;
use crate::map::in_bounds_pt;
use crate::state::{State, melee_intents_ok, no_melee_intents};
use crate::store::EntityStore;
use crate::system::item_pickup::name_text;
use crate::system::melee_combat::{log_view, sd_col};
use crate::text::{confuse_msg, drink_msg, drop_msg, drop_text, inflict_msg};

verus! {

proof fn lemma_doomed_extend(q: Seq<usize>, x: usize, j: int)
    requires
        EntityStore::doomed(q, j),
    ensures
        EntityStore::doomed(q.push(x), j),
{
    let k = choose|k: int| 0 <= k < q.len() && (#[trigger] q[k]) == j;
    assert(q.push(x)[k] == j);
}

/// Whether entity `e` has a use-item intent to resolve.
pub open spec fn use_applies(s: EntityStore, e: int) -> bool {
    &&& s.alive@[e]
    &&& s.wants_use@[e] is Some
    &&& s.wants_use@[e].unwrap().item < s.n()
}


/// Exactly one use intent is queued, by a live entity, aimed at the
/// user itself (no target point).
pub open spec fn lone_self_use(s: EntityStore, e: int) -> bool {
    &&& use_applies(s, e)
    &&& s.wants_use@[e].unwrap().target is None
    &&& forall|j: int|
        0 <= j < s.n() && j != e && (#[trigger] s.wants_use@[j]) is Some ==> !s.alive@[j]
}

/// Hit points after drinking: raised by the heal amount, capped at the
/// maximum, clamped by the machine word.
pub open spec fn healed_hp(stats: CombatStats, amount: int) -> int {
    crate::system::damage::sat_i32(
        if stats.hp + amount < stats.max_hp {
            stats.hp + amount
        } else {
            stats.max_hp as int
        },
    )
}

/// What a lone self-use of `item` by `e` leaves in the combat-stats
/// column: the sole target of an untargeted use is the user, so `e`
/// itself is healed, when the item heals and `e` fights.
pub open spec fn self_use_stats(s: EntityStore, e: int) -> Seq<Option<CombatStats>> {
    let item = s.wants_use@[e].unwrap().item as int;
    if s.provides_healing@[item] is Some && s.combat_stats@[e] is Some {
        let st = s.combat_stats@[e].unwrap();
        let amount = s.provides_healing@[item].unwrap().heal_amount as int;
        s.combat_stats@.update(
            e,
            Some(
                CombatStats {
                    max_hp: st.max_hp,
                    hp: healed_hp(st, amount) as i32,
                    defense: st.defense,
                    power: st.power,
                },
            ),
        )
    } else {
        s.combat_stats@
    }
}

/// What it leaves queued as pending damage: one more hit against the
/// user, when the item inflicts damage.
pub open spec fn self_use_sd(s: EntityStore, e: int) -> Seq<Option<Seq<i32>>> {
    let item = s.wants_use@[e].unwrap().item as int;
    if s.inflicts_damage@[item] is Some {
        sd_col(s.suffer_damage@).update(
            e,
            Some(pending_of(s.suffer_damage@, e).push(s.inflicts_damage@[item].unwrap().damage)),
        )
    } else {
        sd_col(s.suffer_damage@)
    }
}

/// What it leaves in the confusion column: the user confused for the
/// item's turn count, when the item confuses.
pub open spec fn self_use_confusion(s: EntityStore, e: int) -> Seq<Option<Confusion>> {
    let item = s.wants_use@[e].unwrap().item as int;
    if s.confusion@[item] is Some {
        s.confusion@.update(e, Some(Confusion { turns: s.confusion@[item].unwrap().turns }))
    } else {
        s.confusion@
    }
}


/// Healing applied to each listed target in order: hit points rise by
/// the amount, capped at the maximum; unfightable targets are skipped.
pub open spec fn heal_fold(
    stats: Seq<Option<CombatStats>>,
    targets: Seq<usize>,
    upto: int,
    amount: i32,
) -> Seq<Option<CombatStats>>
    decreases upto,
{
    if upto <= 0 {
        stats
    } else {
        let prev = heal_fold(stats, targets, upto - 1, amount);
        let t = targets[upto - 1] as int;
        if prev[t] is Some {
            let st = prev[t].unwrap();
            prev.update(
                t,
                Some(
                    CombatStats {
                        max_hp: st.max_hp,
                        hp: healed_hp(st, amount as int) as i32,
                        defense: st.defense,
                        power: st.power,
                    },
                ),
            )
        } else {
            prev
        }
    }
}

/// One damage entry queued against each listed target in order.
pub open spec fn dmg_fold(
    sd: Seq<Option<Seq<i32>>>,
    targets: Seq<usize>,
    upto: int,
    amount: i32,
) -> Seq<Option<Seq<i32>>>
    decreases upto,
{
    if upto <= 0 {
        sd
    } else {
        let prev = dmg_fold(sd, targets, upto - 1, amount);
        let t = targets[upto - 1] as int;
        prev.update(
            t,
            Some(
                match prev[t] {
                    Some(l) => l.push(amount),
                    None => seq![amount],
                },
            ),
        )
    }
}

/// Confusion attached (or refreshed) on each listed target in order.
pub open spec fn conf_fold(
    conf: Seq<Option<Confusion>>,
    targets: Seq<usize>,
    upto: int,
    turns: i32,
) -> Seq<Option<Confusion>>
    decreases upto,
{
    if upto <= 0 {
        conf
    } else {
        conf_fold(conf, targets, upto - 1, turns).update(
            targets[upto - 1] as int,
            Some(Confusion { turns }),
        )
    }
}

/// Exactly one use intent is queued, by a live entity, aimed at a point
/// with an item that has no area of effect: the targets are the
/// occupants of that one tile.
pub open spec fn lone_targeted_use(s: EntityStore, e: int) -> bool {
    &&& use_applies(s, e)
    &&& s.wants_use@[e].unwrap().target is Some
    &&& s.aoe@[s.wants_use@[e].unwrap().item as int] is None
    &&& forall|j: int|
        0 <= j < s.n() && j != e && (#[trigger] s.wants_use@[j]) is Some ==> !s.alive@[j]
}

/// The occupants of the targeted tile, as the last spatial-index
/// rebuild left them.
pub open spec fn tile_targets(s: EntityStore, m: crate::map::GameMap, e: int) -> Seq<usize> {
    let t = s.wants_use@[e].unwrap().target.unwrap();
    m.tile_content@[crate::map::pt_idx((t.x as int, t.y as int))]@
}

/// What a lone targeted use of `item` by `e` leaves in the combat-stats
/// column: the tile's occupants healed in order, when the item heals.
pub open spec fn targeted_use_stats(s: EntityStore, m: crate::map::GameMap, e: int) -> Seq<
    Option<CombatStats>,
> {
    let item = s.wants_use@[e].unwrap().item as int;
    let targets = tile_targets(s, m, e);
    if s.provides_healing@[item] is Some {
        heal_fold(
            s.combat_stats@,
            targets,
            targets.len() as int,
            s.provides_healing@[item].unwrap().heal_amount,
        )
    } else {
        s.combat_stats@
    }
}

/// What it leaves queued as pending damage: one hit per occupant.
pub open spec fn targeted_use_sd(s: EntityStore, m: crate::map::GameMap, e: int) -> Seq<
    Option<Seq<i32>>,
> {
    let item = s.wants_use@[e].unwrap().item as int;
    let targets = tile_targets(s, m, e);
    if s.inflicts_damage@[item] is Some {
        dmg_fold(
            sd_col(s.suffer_damage@),
            targets,
            targets.len() as int,
            s.inflicts_damage@[item].unwrap().damage,
        )
    } else {
        sd_col(s.suffer_damage@)
    }
}

/// What it leaves in the confusion column: each occupant confused for
/// the item's turn count.
pub open spec fn targeted_use_confusion(s: EntityStore, m: crate::map::GameMap, e: int) -> Seq<
    Option<Confusion>,
> {
    let item = s.wants_use@[e].unwrap().item as int;
    let targets = tile_targets(s, m, e);
    if s.confusion@[item] is Some {
        conf_fold(s.confusion@, targets, targets.len() as int, s.confusion@[item].unwrap().turns)
    } else {
        s.confusion@
    }
}

/// The item-use stage: resolve each intent's target set, apply healing,
/// damage and confusion in that order, and delete used consumables at
/// the next commit point.
pub struct ItemUseSystem;

impl ItemUseSystem {
    /// Every used consumable is queued for deletion, whatever its
    /// effects did; combat stats keep their shape (only hit points
    /// move); nothing else but pending damage, confusion and the log
    /// changes.
    pub fn run(state: &mut State)
        requires
            old(state).inv(),
        ensures
            final(state).inv(),
            final(state).store.n() == old(state).store.n(),
            forall|e: int|
                0 <= e < old(state).store.n() ==> (#[trigger] final(state).store.wants_use@[e])
                    is None,
            forall|e: int|
                0 <= e < old(state).store.n() && use_applies(old(state).store, e) && old(state).store.consumables@[old(state).store.wants_use@[e].unwrap().item as int]
                    ==> #[trigger] EntityStore::doomed(
                    final(state).store.pending_delete@,
                    old(state).store.wants_use@[e].unwrap().item as int,
                ),
            old(state).store.pending_delete@.is_prefix_of(final(state).store.pending_delete@),
            forall|k: int|
                old(state).store.pending_delete@.len() <= k < final(state).store.pending_delete@.len() ==> (#[trigger] final(state).store.pending_delete@[k]) < old(state).store.n() && old(state).store.consumables@[final(state).store.pending_delete@[k] as int],
            forall|e: int|
                0 <= e < old(state).store.n() ==> {
                    &&& (#[trigger] final(state).store.combat_stats@[e]) is Some == old(state).store.combat_stats@[e] is Some
                    &&& (old(state).store.combat_stats@[e] is Some ==> {
                        &&& final(state).store.combat_stats@[e].unwrap().max_hp == old(state).store.combat_stats@[e].unwrap().max_hp
                        &&& final(state).store.combat_stats@[e].unwrap().defense == old(state).store.combat_stats@[e].unwrap().defense
                        &&& final(state).store.combat_stats@[e].unwrap().power == old(state).store.combat_stats@[e].unwrap().power
                    })
                },
            forall|e: int|
                0 <= e < old(state).store.n() && #[trigger] lone_self_use(old(state).store, e)
                    ==> {
                    &&& final(state).store.combat_stats@ == self_use_stats(old(state).store, e)
                    &&& sd_col(final(state).store.suffer_damage@) == self_use_sd(old(state).store, e)
                    &&& final(state).store.confusion@ == self_use_confusion(old(state).store, e)
                },
            forall|e: int|
                0 <= e < old(state).store.n() && #[trigger] lone_targeted_use(old(state).store, e)
                    ==> {
                    &&& final(state).store.combat_stats@ == targeted_use_stats(
                        old(state).store,
                        old(state).map,
                        e,
                    )
                    &&& sd_col(final(state).store.suffer_damage@) == targeted_use_sd(
                        old(state).store,
                        old(state).map,
                        e,
                    )
                    &&& final(state).store.confusion@ == targeted_use_confusion(
                        old(state).store,
                        old(state).map,
                        e,
                    )
                },
            melee_intents_ok(old(state).store) ==> melee_intents_ok(final(state).store),
            no_melee_intents(old(state).store) ==> no_melee_intents(final(state).store),
            final(state).store.alive@ == old(state).store.alive@,
            final(state).store.positions@ == old(state).store.positions@,
            final(state).store.renderables@ == old(state).store.renderables@,
            final(state).store.players@ == old(state).store.players@,
            final(state).store.viewsheds@ == old(state).store.viewsheds@,
            final(state).store.monsters@ == old(state).store.monsters@,
            final(state).store.names@ == old(state).store.names@,
            final(state).store.blocks_tile@ == old(state).store.blocks_tile@,
            final(state).store.wants_melee@ == old(state).store.wants_melee@,
            final(state).store.wants_pickup@ == old(state).store.wants_pickup@,
            final(state).store.wants_drop@ == old(state).store.wants_drop@,
            final(state).store.items@ == old(state).store.items@,
            final(state).store.provides_healing@ == old(state).store.provides_healing@,
            final(state).store.in_backpack@ == old(state).store.in_backpack@,
            final(state).store.consumables@ == old(state).store.consumables@,
            final(state).store.ranged@ == old(state).store.ranged@,
            final(state).store.inflicts_damage@ == old(state).store.inflicts_damage@,
            final(state).store.aoe@ == old(state).store.aoe@,
            final(state).map == old(state).map,
            final(state).run_state == old(state).run_state,
            final(state).player_entity == old(state).player_entity,
            final(state).player_data == old(state).player_data,
    {
        let n = state.store.alive.len();
        let player = state.player_entity;
        let mut e: usize = 0;
        while e < n
            invariant
                old(state).inv(),
                state.store.wf(),
                n == state.store.n(),
                n == old(state).store.n(),
                0 <= e <= n,
                player == old(state).player_entity,
                forall|e2: int|
                    0 <= e2 < n && #[trigger] lone_self_use(old(state).store, e2) ==> (if e
                        <= e2 {
                        &&& state.store.combat_stats@ == old(state).store.combat_stats@
                        &&& sd_col(state.store.suffer_damage@) == sd_col(
                            old(state).store.suffer_damage@,
                        )
                        &&& state.store.confusion@ == old(state).store.confusion@
                    } else {
                        &&& state.store.combat_stats@ == self_use_stats(old(state).store, e2)
                        &&& sd_col(state.store.suffer_damage@) == self_use_sd(old(state).store, e2)
                        &&& state.store.confusion@ == self_use_confusion(old(state).store, e2)
                    }),
                forall|e2: int|
                    0 <= e2 < n && #[trigger] lone_targeted_use(old(state).store, e2) ==> (if e
                        <= e2 {
                        &&& state.store.combat_stats@ == old(state).store.combat_stats@
                        &&& sd_col(state.store.suffer_damage@) == sd_col(
                            old(state).store.suffer_damage@,
                        )
                        &&& state.store.confusion@ == old(state).store.confusion@
                    } else {
                        &&& state.store.combat_stats@ == targeted_use_stats(
                            old(state).store,
                            old(state).map,
                            e2,
                        )
                        &&& sd_col(state.store.suffer_damage@) == targeted_use_sd(
                            old(state).store,
                            old(state).map,
                            e2,
                        )
                        &&& state.store.confusion@ == targeted_use_confusion(
                            old(state).store,
                            old(state).map,
                            e2,
                        )
                    }),
                forall|j: int|
                    0 <= j < e && use_applies(old(state).store, j) && old(state).store.consumables@[old(state).store.wants_use@[j].unwrap().item as int]
                        ==> #[trigger] EntityStore::doomed(
                        state.store.pending_delete@,
                        old(state).store.wants_use@[j].unwrap().item as int,
                    ),
                old(state).store.pending_delete@.is_prefix_of(state.store.pending_delete@),
                forall|k2: int|
                    old(state).store.pending_delete@.len() <= k2
                        < state.store.pending_delete@.len() ==> (
                    #[trigger] state.store.pending_delete@[k2]) < old(state).store.n() && old(state).store.consumables@[state.store.pending_delete@[k2] as int],
                forall|j: int|
                    0 <= j < n ==> {
                        &&& (#[trigger] state.store.combat_stats@[j]) is Some == old(state).store.combat_stats@[j] is Some
                        &&& (old(state).store.combat_stats@[j] is Some ==> {
                            &&& state.store.combat_stats@[j].unwrap().max_hp == old(state).store.combat_stats@[j].unwrap().max_hp
                            &&& state.store.combat_stats@[j].unwrap().defense == old(state).store.combat_stats@[j].unwrap().defense
                            &&& state.store.combat_stats@[j].unwrap().power == old(state).store.combat_stats@[j].unwrap().power
                        })
                    },
                state.store.alive@ == old(state).store.alive@,
                state.store.positions@ == old(state).store.positions@,
                state.store.renderables@ == old(state).store.renderables@,
                state.store.players@ == old(state).store.players@,
                state.store.viewsheds@ == old(state).store.viewsheds@,
                state.store.monsters@ == old(state).store.monsters@,
                state.store.names@ == old(state).store.names@,
                state.store.blocks_tile@ == old(state).store.blocks_tile@,
                state.store.wants_melee@ == old(state).store.wants_melee@,
                state.store.wants_pickup@ == old(state).store.wants_pickup@,
                state.store.wants_use@ == old(state).store.wants_use@,
                state.store.wants_drop@ == old(state).store.wants_drop@,
                state.store.items@ == old(state).store.items@,
                state.store.provides_healing@ == old(state).store.provides_healing@,
                state.store.in_backpack@ == old(state).store.in_backpack@,
                state.store.consumables@ == old(state).store.consumables@,
                state.store.ranged@ == old(state).store.ranged@,
                state.store.inflicts_damage@ == old(state).store.inflicts_damage@,
                state.store.aoe@ == old(state).store.aoe@,
                state.map == old(state).map,
                state.run_state == old(state).run_state,
                state.player_entity == old(state).player_entity,
                state.player_data == old(state).player_data,
            decreases n - e,
        {
            let intent = state.store.wants_use[e];
            if state.store.alive[e] {
                if let Some(use_item) = intent {
                    let item = use_item.item;
                    proof {
                        assert(state.store.wants_use@[e as int] is Some);
                    }

                    let mut targets: Vec<usize> = Vec::new();
                    match use_item.target {
                        None => {
                            targets.push(e);
                        },
                        Some(target) => {
                            let aoe_opt = state.store.aoe[item];
                            match aoe_opt {
                                None => {
                                    let idx = state.map.xy_idx(target.x, target.y);
                                    let count = state.map.tile_content[idx].len();
                                    let mut m: usize = 0;
                                    while m < count
                                        invariant
                                            old(state).inv(),
                                            state.map == old(state).map,
                                            state.store.n() == old(state).store.n(),
                                            idx < 3440,
                                            idx == crate::map::pt_idx(
                                                (target.x as int, target.y as int),
                                            ),
                                            count == state.map.tile_content@[idx as int]@.len(),
                                            0 <= m <= count,
                                            targets@ == state.map.tile_content@[idx as int]@.subrange(
                                                0,
                                                m as int,
                                            ),
                                            forall|k: int|
                                                0 <= k < targets@.len() ==> (#[trigger] targets@[k])
                                                    < state.store.n(),
                                        decreases count - m,
                                    {
                                        let mob = state.map.tile_content[idx][m];
                                        targets.push(mob);
                                        m = m + 1;
                                    }
                                    proof {
                                        assert(targets@ =~= state.map.tile_content@[idx as int]@);
                                    }
                                },
                                Some(area) => {
                                    let blast = field_of_view(&state.map, target, area.radius);
                                    proof {
                                        assert forall|k: int|
                                            0 <= k < blast@.len() implies in_bounds_pt(
                                            ((#[trigger] blast@[k]).x as int, blast@[k].y as int),
                                        ) by {
                                            assert(blast@.contains(blast@[k]));
                                        }
                                    }
                                    let mut b: usize = 0;
                                    while b < blast.len()
                                        invariant
                                            old(state).inv(),
                                            state.map == old(state).map,
                                            state.store.n() == old(state).store.n(),
                                            0 <= b <= blast@.len(),
                                            forall|k: int|
                                                0 <= k < blast@.len() ==> in_bounds_pt(
                                                    ((#[trigger] blast@[k]).x as int,
                                                    blast@[k].y as int),
                                                ),
                                            forall|k: int|
                                                0 <= k < targets@.len() ==> (#[trigger] targets@[k])
                                                    < state.store.n(),
                                        decreases blast@.len() - b,
                                    {
                                        let tile = blast[b];
                                        if tile.x > 0 && tile.x < state.map.width - 1 && tile.y > 0
                                            && tile.y < state.map.height - 1 {
                                            let idx = state.map.xy_idx(tile.x, tile.y);
                                            let count = state.map.tile_content[idx].len();
                                            let mut m: usize = 0;
                                            while m < count
                                                invariant
                                                    old(state).inv(),
                                                    state.map == old(state).map,
                                                    state.store.n() == old(state).store.n(),
                                                    idx < 3440,
                                                    count == state.map.tile_content@[idx as int]@.len(),
                                                    0 <= m <= count,
                                                    forall|k: int|
                                                        0 <= k < targets@.len() ==> (
                                                        #[trigger] targets@[k]) < state.store.n(),
                                                decreases count - m,
                                            {
                                                let mob = state.map.tile_content[idx][m];
                                                targets.push(mob);
                                                m = m + 1;
                                            }
                                        }
                                        b = b + 1;
                                    }
                                },
                            }
                        },
                    }

                    let ghost targets_snap = targets@;
                    let healing_opt = state.store.provides_healing[item];
                    let ghost stats_pre = state.store.combat_stats@;
                    let ghost sd_pre = sd_col(state.store.suffer_damage@);
                    let ghost conf_pre = state.store.confusion@;
                    if let Some(healing) = healing_opt {
                        let mut ti: usize = 0;
                        while ti < targets.len()
                            invariant
                                old(state).inv(),
                                state.store.wf(),
                                n == state.store.n(),
                                n == old(state).store.n(),
                                e < n,
                                item < n,
                                player == old(state).player_entity,
                                targets@ == targets_snap,
                                sd_col(state.store.suffer_damage@) == sd_pre,
                                state.store.confusion@ == conf_pre,
                                state.store.combat_stats@ == heal_fold(
                                    stats_pre,
                                    targets_snap,
                                    ti as int,
                                    healing.heal_amount,
                                ),
                                0 <= ti <= targets@.len(),
                                forall|k: int|
                                    0 <= k < targets@.len() ==> (#[trigger] targets@[k])
                                        < state.store.n(),
                                forall|j: int|
                                    0 <= j < n ==> {
                                        &&& (#[trigger] state.store.combat_stats@[j]) is Some
                                            == old(state).store.combat_stats@[j] is Some
                                        &&& (old(state).store.combat_stats@[j] is Some ==> {
                                            &&& state.store.combat_stats@[j].unwrap().max_hp
                                                == old(state).store.combat_stats@[j].unwrap().max_hp
                                            &&& state.store.combat_stats@[j].unwrap().defense
                                                == old(state).store.combat_stats@[j].unwrap().defense
                                            &&& state.store.combat_stats@[j].unwrap().power == old(state).store.combat_stats@[j].unwrap().power
                                        })
                                    },
                                forall|j: int|
                                    0 <= j < e && use_applies(old(state).store, j) && old(state).store.consumables@[old(state).store.wants_use@[j].unwrap().item as int]
                                        ==> #[trigger] EntityStore::doomed(
                                        state.store.pending_delete@,
                                        old(state).store.wants_use@[j].unwrap().item as int,
                                    ),
                                old(state).store.pending_delete@.is_prefix_of(
                                    state.store.pending_delete@,
                                ),
                                forall|k2: int|
                                    old(state).store.pending_delete@.len() <= k2
                                        < state.store.pending_delete@.len() ==> (
                                    #[trigger] state.store.pending_delete@[k2]) < old(state).store.n() && old(state).store.consumables@[state.store.pending_delete@[k2] as int],
                                state.store.alive@ == old(state).store.alive@,
                                state.store.positions@ == old(state).store.positions@,
                                state.store.renderables@ == old(state).store.renderables@,
                                state.store.players@ == old(state).store.players@,
                                state.store.viewsheds@ == old(state).store.viewsheds@,
                                state.store.monsters@ == old(state).store.monsters@,
                                state.store.names@ == old(state).store.names@,
                                state.store.blocks_tile@ == old(state).store.blocks_tile@,
                                state.store.wants_melee@ == old(state).store.wants_melee@,
                                state.store.wants_pickup@ == old(state).store.wants_pickup@,
                                state.store.wants_use@ == old(state).store.wants_use@,
                                state.store.wants_drop@ == old(state).store.wants_drop@,
                                state.store.items@ == old(state).store.items@,
                                state.store.provides_healing@ == old(state).store.provides_healing@,
                                state.store.in_backpack@ == old(state).store.in_backpack@,
                                state.store.consumables@ == old(state).store.consumables@,
                                state.store.ranged@ == old(state).store.ranged@,
                                state.store.inflicts_damage@ == old(state).store.inflicts_damage@,
                                state.store.aoe@ == old(state).store.aoe@,
                                state.map == old(state).map,
                                state.run_state == old(state).run_state,
                                state.player_entity == old(state).player_entity,
                                state.player_data == old(state).player_data,
                            decreases targets@.len() - ti,
                        {
                            let t = targets[ti];
                            let stats_opt = state.store.combat_stats[t];
                            if let Some(stats) = stats_opt {
                                let healed: i64 = (stats.hp as i64) + (healing.heal_amount as i64);
                                let capped: i64 = if healed < stats.max_hp as i64 {
                                    healed
                                } else {
                                    stats.max_hp as i64
                                };
                                let new_hp: i32 = if capped < i32::MIN as i64 {
                                    i32::MIN
                                } else if capped > i32::MAX as i64 {
                                    i32::MAX
                                } else {
                                    capped as i32
                                };
                                state.store.combat_stats[t] = Some(
                                    CombatStats {
                                        max_hp: stats.max_hp,
                                        hp: new_hp,
                                        defense: stats.defense,
                                        power: stats.power,
                                    },
                                );
                                if e == player {
                                    let msg = drink_msg(
                                        match &state.store.names[item] {
                                            Some(nm) => nm.name.as_str(),
                                            None => "???",
                                        },
                                        healing.heal_amount,
                                    );
                                    state.log.log(msg);
                                }
                            }
                            ti = ti + 1;
                        }
                    }

                    let ghost stats_after_heal = state.store.combat_stats@;
                    let ghost sd_after_heal = sd_col(state.store.suffer_damage@);
                    let damage_opt = state.store.inflicts_damage[item];
                    if let Some(damage) = damage_opt {
                        let mut ti: usize = 0;
                        while ti < targets.len()
                            invariant
                                old(state).inv(),
                                state.store.wf(),
                                n == state.store.n(),
                                n == old(state).store.n(),
                                e < n,
                                item < n,
                                player == old(state).player_entity,
                                targets@ == targets_snap,
                                state.store.combat_stats@ == stats_after_heal,
                                state.store.confusion@ == conf_pre,
                                sd_col(state.store.suffer_damage@) == dmg_fold(
                                    sd_after_heal,
                                    targets_snap,
                                    ti as int,
                                    damage.damage,
                                ),
                                0 <= ti <= targets@.len(),
                                forall|k: int|
                                    0 <= k < targets@.len() ==> (#[trigger] targets@[k])
                                        < state.store.n(),
                                forall|j: int|
                                    0 <= j < n ==> {
                                        &&& (#[trigger] state.store.combat_stats@[j]) is Some
                                            == old(state).store.combat_stats@[j] is Some
                                        &&& (old(state).store.combat_stats@[j] is Some ==> {
                                            &&& state.store.combat_stats@[j].unwrap().max_hp
                                                == old(state).store.combat_stats@[j].unwrap().max_hp
                                            &&& state.store.combat_stats@[j].unwrap().defense
                                                == old(state).store.combat_stats@[j].unwrap().defense
                                            &&& state.store.combat_stats@[j].unwrap().power == old(state).store.combat_stats@[j].unwrap().power
                                        })
                                    },
                                forall|j: int|
                                    0 <= j < e && use_applies(old(state).store, j) && old(state).store.consumables@[old(state).store.wants_use@[j].unwrap().item as int]
                                        ==> #[trigger] EntityStore::doomed(
                                        state.store.pending_delete@,
                                        old(state).store.wants_use@[j].unwrap().item as int,
                                    ),
                                old(state).store.pending_delete@.is_prefix_of(
                                    state.store.pending_delete@,
                                ),
                                forall|k2: int|
                                    old(state).store.pending_delete@.len() <= k2
                                        < state.store.pending_delete@.len() ==> (
                                    #[trigger] state.store.pending_delete@[k2]) < old(state).store.n() && old(state).store.consumables@[state.store.pending_delete@[k2] as int],
                                state.store.alive@ == old(state).store.alive@,
                                state.store.positions@ == old(state).store.positions@,
                                state.store.renderables@ == old(state).store.renderables@,
                                state.store.players@ == old(state).store.players@,
                                state.store.viewsheds@ == old(state).store.viewsheds@,
                                state.store.monsters@ == old(state).store.monsters@,
                                state.store.names@ == old(state).store.names@,
                                state.store.blocks_tile@ == old(state).store.blocks_tile@,
                                state.store.wants_melee@ == old(state).store.wants_melee@,
                                state.store.wants_pickup@ == old(state).store.wants_pickup@,
                                state.store.wants_use@ == old(state).store.wants_use@,
                                state.store.wants_drop@ == old(state).store.wants_drop@,
                                state.store.items@ == old(state).store.items@,
                                state.store.provides_healing@ == old(state).store.provides_healing@,
                                state.store.in_backpack@ == old(state).store.in_backpack@,
                                state.store.consumables@ == old(state).store.consumables@,
                                state.store.ranged@ == old(state).store.ranged@,
                                state.store.inflicts_damage@ == old(state).store.inflicts_damage@,
                                state.store.aoe@ == old(state).store.aoe@,
                                state.map == old(state).map,
                                state.run_state == old(state).run_state,
                                state.player_entity == old(state).player_entity,
                                state.player_data == old(state).player_data,
                            decreases targets@.len() - ti,
                        {
                            let t = targets[ti];
                            let ghost sd_iter_pre = sd_col(state.store.suffer_damage@);
                            SufferDamage::new_damage(&mut state.store.suffer_damage, t, damage.damage);
                            proof {
                                assert(sd_col(state.store.suffer_damage@) =~= sd_iter_pre.update(
                                    t as int,
                                    Some(
                                        match sd_iter_pre[t as int] {
                                            Some(l) => l.push(damage.damage),
                                            None => seq![damage.damage],
                                        },
                                    ),
                                ));
                            }
                            if e == player {
                                let msg = inflict_msg(
                                    match &state.store.names[item] {
                                        Some(nm) => nm.name.as_str(),
                                        None => "???",
                                    },
                                    match &state.store.names[t] {
                                        Some(nm) => nm.name.as_str(),
                                        None => "???",
                                    },
                                    damage.damage,
                                );
                                state.log.log(msg);
                            }
                            ti = ti + 1;
                        }
                    }

                    let ghost sd_after_dmg = sd_col(state.store.suffer_damage@);
                    let confusion_opt = state.store.confusion[item];
                    if let Some(confusion) = confusion_opt {
                        let mut ti: usize = 0;
                        while ti < targets.len()
                            invariant
                                old(state).inv(),
                                state.store.wf(),
                                n == state.store.n(),
                                n == old(state).store.n(),
                                e < n,
                                item < n,
                                player == old(state).player_entity,
                                targets@ == targets_snap,
                                state.store.combat_stats@ == stats_after_heal,
                                sd_col(state.store.suffer_damage@) == sd_after_dmg,
                                state.store.confusion@ == conf_fold(
                                    conf_pre,
                                    targets_snap,
                                    ti as int,
                                    confusion.turns,
                                ),
                                0 <= ti <= targets@.len(),
                                forall|k: int|
                                    0 <= k < targets@.len() ==> (#[trigger] targets@[k])
                                        < state.store.n(),
                                forall|j: int|
                                    0 <= j < n ==> {
                                        &&& (#[trigger] state.store.combat_stats@[j]) is Some
                                            == old(state).store.combat_stats@[j] is Some
                                        &&& (old(state).store.combat_stats@[j] is Some ==> {
                                            &&& state.store.combat_stats@[j].unwrap().max_hp
                                                == old(state).store.combat_stats@[j].unwrap().max_hp
                                            &&& state.store.combat_stats@[j].unwrap().defense
                                                == old(state).store.combat_stats@[j].unwrap().defense
                                            &&& state.store.combat_stats@[j].unwrap().power == old(state).store.combat_stats@[j].unwrap().power
                                        })
                                    },
                                forall|j: int|
                                    0 <= j < e && use_applies(old(state).store, j) && old(state).store.consumables@[old(state).store.wants_use@[j].unwrap().item as int]
                                        ==> #[trigger] EntityStore::doomed(
                                        state.store.pending_delete@,
                                        old(state).store.wants_use@[j].unwrap().item as int,
                                    ),
                                old(state).store.pending_delete@.is_prefix_of(
                                    state.store.pending_delete@,
                                ),
                                forall|k2: int|
                                    old(state).store.pending_delete@.len() <= k2
                                        < state.store.pending_delete@.len() ==> (
                                    #[trigger] state.store.pending_delete@[k2]) < old(state).store.n() && old(state).store.consumables@[state.store.pending_delete@[k2] as int],
                                state.store.alive@ == old(state).store.alive@,
                                state.store.positions@ == old(state).store.positions@,
                                state.store.renderables@ == old(state).store.renderables@,
                                state.store.players@ == old(state).store.players@,
                                state.store.viewsheds@ == old(state).store.viewsheds@,
                                state.store.monsters@ == old(state).store.monsters@,
                                state.store.names@ == old(state).store.names@,
                                state.store.blocks_tile@ == old(state).store.blocks_tile@,
                                state.store.wants_melee@ == old(state).store.wants_melee@,
                                state.store.wants_pickup@ == old(state).store.wants_pickup@,
                                state.store.wants_use@ == old(state).store.wants_use@,
                                state.store.wants_drop@ == old(state).store.wants_drop@,
                                state.store.items@ == old(state).store.items@,
                                state.store.provides_healing@ == old(state).store.provides_healing@,
                                state.store.in_backpack@ == old(state).store.in_backpack@,
                                state.store.consumables@ == old(state).store.consumables@,
                                state.store.ranged@ == old(state).store.ranged@,
                                state.store.inflicts_damage@ == old(state).store.inflicts_damage@,
                                state.store.aoe@ == old(state).store.aoe@,
                                state.map == old(state).map,
                                state.run_state == old(state).run_state,
                                state.player_entity == old(state).player_entity,
                                state.player_data == old(state).player_data,
                            decreases targets@.len() - ti,
                        {
                            let t = targets[ti];
                            if e == player {
                                let msg = confuse_msg(
                                    match &state.store.names[item] {
                                        Some(nm) => nm.name.as_str(),
                                        None => "???",
                                    },
                                    match &state.store.names[t] {
                                        Some(nm) => nm.name.as_str(),
                                        None => "???",
                                    },
                                );
                                state.log.log(msg);
                            }
                            state.store.confusion[t] = Some(Confusion { turns: confusion.turns });
                            ti = ti + 1;
                        }
                    }

                    if state.store.consumables[item] {
                        let ghost pending_pre = state.store.pending_delete@;
                        state.store.schedule_delete(item);
                        proof {
                            assert(state.store.pending_delete@[state.store.pending_delete@.len()
                                - 1] == item);
                            assert(EntityStore::doomed(state.store.pending_delete@, item as int));
                            assert forall|j: int|
                                0 <= j < e && use_applies(old(state).store, j) && old(state).store.consumables@[old(state).store.wants_use@[j].unwrap().item as int] implies
                                EntityStore::doomed(
                                state.store.pending_delete@,
                                old(state).store.wants_use@[j].unwrap().item as int,
                            ) by {
                                lemma_doomed_extend(
                                    pending_pre,
                                    item,
                                    old(state).store.wants_use@[j].unwrap().item as int,
                                );
                            }
                        }
                    }
                    proof {
                        if use_applies(old(state).store, e as int) && old(state).store.consumables@[old(state).store.wants_use@[e as int].unwrap().item as int] {
                            assert(EntityStore::doomed(
                                state.store.pending_delete@,
                                old(state).store.wants_use@[e as int].unwrap().item as int,
                            ));
                        }
                        let s0 = old(state).store;
                        if lone_self_use(s0, e as int) {
                            assert(targets_snap =~= seq![e]);
                            assert(stats_pre == s0.combat_stats@);
                            assert(sd_pre == sd_col(s0.suffer_damage@));
                            assert(conf_pre == s0.confusion@);
                            assert(targets_snap.len() == 1 && targets_snap[0] == e);
                            if s0.provides_healing@[item as int] is Some {
                                let amt = s0.provides_healing@[item as int].unwrap().heal_amount;
                                assert(state.store.combat_stats@ == heal_fold(
                                    stats_pre,
                                    targets_snap,
                                    1,
                                    amt,
                                ));
                                assert(heal_fold(stats_pre, targets_snap, 0, amt) == stats_pre);
                            }
                            if s0.inflicts_damage@[item as int] is Some {
                                let dmg0 = s0.inflicts_damage@[item as int].unwrap().damage;
                                assert(sd_col(state.store.suffer_damage@) == dmg_fold(
                                    sd_pre,
                                    targets_snap,
                                    1,
                                    dmg0,
                                ));
                                assert(dmg_fold(sd_pre, targets_snap, 0, dmg0) == sd_pre);
                                assert(pending_of(s0.suffer_damage@, e as int).push(dmg0) =~= (
                                match sd_pre[e as int] {
                                    Some(l) => l.push(dmg0),
                                    None => seq![dmg0],
                                }));
                            }
                            if s0.confusion@[item as int] is Some {
                                let turns0 = s0.confusion@[item as int].unwrap().turns;
                                assert(state.store.confusion@ == conf_fold(
                                    conf_pre,
                                    targets_snap,
                                    1,
                                    turns0,
                                ));
                                assert(conf_fold(conf_pre, targets_snap, 0, turns0) == conf_pre);
                            }
                            assert(state.store.combat_stats@ == self_use_stats(s0, e as int));
                            assert(sd_col(state.store.suffer_damage@) == self_use_sd(
                                s0,
                                e as int,
                            ));
                            assert(state.store.confusion@ == self_use_confusion(s0, e as int));
                        }
                        if lone_targeted_use(s0, e as int) {
                            assert(targets_snap =~= tile_targets(s0, old(state).map, e as int));
                            assert(stats_pre == s0.combat_stats@);
                            assert(sd_pre == sd_col(s0.suffer_damage@));
                            assert(conf_pre == s0.confusion@);
                            assert(state.store.combat_stats@ == targeted_use_stats(
                                s0,
                                old(state).map,
                                e as int,
                            ));
                            assert(sd_col(state.store.suffer_damage@) == targeted_use_sd(
                                s0,
                                old(state).map,
                                e as int,
                            ));
                            assert(state.store.confusion@ == targeted_use_confusion(
                                s0,
                                old(state).map,
                                e as int,
                            ));
                        }
                    }
                }
            }
            e = e + 1;
        }

        let mut k: usize = 0;
        while k < n
            invariant
                old(state).inv(),
                state.store.wf(),
                n == state.store.n(),
                n == old(state).store.n(),
                0 <= k <= n,
                forall|j: int| 0 <= j < k ==> (#[trigger] state.store.wants_use@[j]) is None,
                forall|e2: int|
                    0 <= e2 < n && #[trigger] lone_self_use(old(state).store, e2) ==> {
                        &&& state.store.combat_stats@ == self_use_stats(old(state).store, e2)
                        &&& sd_col(state.store.suffer_damage@) == self_use_sd(old(state).store, e2)
                        &&& state.store.confusion@ == self_use_confusion(old(state).store, e2)
                    },
                forall|e2: int|
                    0 <= e2 < n && #[trigger] lone_targeted_use(old(state).store, e2) ==> {
                        &&& state.store.combat_stats@ == targeted_use_stats(
                            old(state).store,
                            old(state).map,
                            e2,
                        )
                        &&& sd_col(state.store.suffer_damage@) == targeted_use_sd(
                            old(state).store,
                            old(state).map,
                            e2,
                        )
                        &&& state.store.confusion@ == targeted_use_confusion(
                            old(state).store,
                            old(state).map,
                            e2,
                        )
                    },
                forall|j: int|
                    0 <= j < n && use_applies(old(state).store, j) && old(state).store.consumables@[old(state).store.wants_use@[j].unwrap().item as int]
                        ==> #[trigger] EntityStore::doomed(
                        state.store.pending_delete@,
                        old(state).store.wants_use@[j].unwrap().item as int,
                    ),
                old(state).store.pending_delete@.is_prefix_of(state.store.pending_delete@),
                forall|k2: int|
                    old(state).store.pending_delete@.len() <= k2
                        < state.store.pending_delete@.len() ==> (
                    #[trigger] state.store.pending_delete@[k2]) < old(state).store.n() && old(state).store.consumables@[state.store.pending_delete@[k2] as int],
                forall|j: int|
                    0 <= j < n ==> {
                        &&& (#[trigger] state.store.combat_stats@[j]) is Some == old(state).store.combat_stats@[j] is Some
                        &&& (old(state).store.combat_stats@[j] is Some ==> {
                            &&& state.store.combat_stats@[j].unwrap().max_hp == old(state).store.combat_stats@[j].unwrap().max_hp
                            &&& state.store.combat_stats@[j].unwrap().defense == old(state).store.combat_stats@[j].unwrap().defense
                            &&& state.store.combat_stats@[j].unwrap().power == old(state).store.combat_stats@[j].unwrap().power
                        })
                    },
                state.store.alive@ == old(state).store.alive@,
                state.store.positions@ == old(state).store.positions@,
                state.store.renderables@ == old(state).store.renderables@,
                state.store.players@ == old(state).store.players@,
                state.store.viewsheds@ == old(state).store.viewsheds@,
                state.store.monsters@ == old(state).store.monsters@,
                state.store.names@ == old(state).store.names@,
                state.store.blocks_tile@ == old(state).store.blocks_tile@,
                state.store.wants_melee@ == old(state).store.wants_melee@,
                state.store.wants_pickup@ == old(state).store.wants_pickup@,
                state.store.wants_drop@ == old(state).store.wants_drop@,
                state.store.items@ == old(state).store.items@,
                state.store.provides_healing@ == old(state).store.provides_healing@,
                state.store.in_backpack@ == old(state).store.in_backpack@,
                state.store.consumables@ == old(state).store.consumables@,
                state.store.ranged@ == old(state).store.ranged@,
                state.store.inflicts_damage@ == old(state).store.inflicts_damage@,
                state.store.aoe@ == old(state).store.aoe@,
                state.map == old(state).map,
                state.run_state == old(state).run_state,
                state.player_entity == old(state).player_entity,
                state.player_data == old(state).player_data,
            decreases n - k,
        {
            state.store.wants_use[k] = None;
            k = k + 1;
        }
    }
}

/// Whether entity `e` has a drop intent to perform.
pub open spec fn drop_applies(s: EntityStore, e: int) -> bool {
    &&& s.alive@[e]
    &&& s.wants_drop@[e] is Some
    &&& s.wants_drop@[e].unwrap().item < s.n()
}

/// One drop: the item leaves the backpack and lands at the dropper's
/// feet (or the map origin if the dropper stands nowhere); the player's
/// own drops are logged. `pos` is the evolving position column.
pub open spec fn drop_step(
    s: EntityStore,
    player: int,
    e: int,
    pos: Seq<Option<Position>>,
    bp: Seq<Option<InBackpack>>,
    log: Seq<Seq<char>>,
) -> (Seq<Option<Position>>, Seq<Option<InBackpack>>, Seq<Seq<char>>) {
    if drop_applies(s, e) {
        let item = s.wants_drop@[e].unwrap().item as int;
        let dp = match pos[e] {
            Some(p) => p,
            None => Position { x: 0, y: 0 },
        };
        let pos2 = pos.update(item, Some(dp));
        let bp2 = bp.update(item, None);
        if e == player {
            (pos2, bp2, log.push(drop_text(name_text(s, item))))
        } else {
            (pos2, bp2, log)
        }
    } else {
        (pos, bp, log)
    }
}

/// The whole drop pass, droppers processed in entity order.
pub open spec fn drop_fold(
    s: EntityStore,
    player: int,
    upto: int,
    pos: Seq<Option<Position>>,
    bp: Seq<Option<InBackpack>>,
    log: Seq<Seq<char>>,
) -> (Seq<Option<Position>>, Seq<Option<InBackpack>>, Seq<Seq<char>>)
    decreases upto,
{
    if upto <= 0 {
        (pos, bp, log)
    } else {
        let rec = drop_fold(s, player, upto - 1, pos, bp, log);
        drop_step(s, player, upto - 1, rec.0, rec.1, rec.2)
    }
}

/// The drop stage: items leave backpacks and land at the dropper's
/// feet; intents are cleared.
pub struct ItemDropSystem;

impl ItemDropSystem {
    pub fn run(state: &mut State)
        requires
            old(state).inv(),
        ensures
            final(state).inv(),
            final(state).store.n() == old(state).store.n(),
            ({
                let r = drop_fold(
                    old(state).store,
                    old(state).player_entity as int,
                    old(state).store.n(),
                    old(state).store.positions@,
                    old(state).store.in_backpack@,
                    log_view(old(state).log.entries@),
                );
                &&& final(state).store.positions@ == r.0
                &&& final(state).store.in_backpack@ == r.1
                &&& log_view(final(state).log.entries@) == r.2
            }),
            forall|e: int|
                0 <= e < old(state).store.n() ==> (#[trigger] final(state).store.wants_drop@[e])
                    is None,
            melee_intents_ok(old(state).store) ==> melee_intents_ok(final(state).store),
            no_melee_intents(old(state).store) ==> no_melee_intents(final(state).store),
            final(state).store.alive@ == old(state).store.alive@,
            final(state).store.renderables@ == old(state).store.renderables@,
            final(state).store.players@ == old(state).store.players@,
            final(state).store.viewsheds@ == old(state).store.viewsheds@,
            final(state).store.monsters@ == old(state).store.monsters@,
            final(state).store.names@ == old(state).store.names@,
            final(state).store.blocks_tile@ == old(state).store.blocks_tile@,
            final(state).store.combat_stats@ == old(state).store.combat_stats@,
            final(state).store.wants_melee@ == old(state).store.wants_melee@,
            final(state).store.suffer_damage@ == old(state).store.suffer_damage@,
            final(state).store.items@ == old(state).store.items@,
            final(state).store.provides_healing@ == old(state).store.provides_healing@,
            final(state).store.wants_pickup@ == old(state).store.wants_pickup@,
            final(state).store.wants_use@ == old(state).store.wants_use@,
            final(state).store.consumables@ == old(state).store.consumables@,
            final(state).store.ranged@ == old(state).store.ranged@,
            final(state).store.inflicts_damage@ == old(state).store.inflicts_damage@,
            final(state).store.aoe@ == old(state).store.aoe@,
            final(state).store.confusion@ == old(state).store.confusion@,
            final(state).store.pending_delete@ == old(state).store.pending_delete@,
            final(state).map == old(state).map,
            final(state).run_state == old(state).run_state,
            final(state).player_entity == old(state).player_entity,
            final(state).player_data == old(state).player_data,
    {
        let n = state.store.alive.len();
        let player = state.player_entity;
        let ghost s_init = old(state).store;
        let ghost pos0 = old(state).store.positions@;
        let ghost bp0 = old(state).store.in_backpack@;
        let ghost log0 = log_view(old(state).log.entries@);
        let mut e: usize = 0;
        while e < n
            invariant
                old(state).inv(),
                state.store.wf(),
                n == state.store.n(),
                n == old(state).store.n(),
                0 <= e <= n,
                player == old(state).player_entity,
                s_init == old(state).store,
                pos0 == old(state).store.positions@,
                bp0 == old(state).store.in_backpack@,
                log0 == log_view(old(state).log.entries@),
                ({
                    let r = drop_fold(s_init, player as int, e as int, pos0, bp0, log0);
                    &&& state.store.positions@ == r.0
                    &&& state.store.in_backpack@ == r.1
                    &&& log_view(state.log.entries@) == r.2
                }),
                crate::state::positions_in_bounds(state.store),
                forall|j: int|
                    0 <= j < state.store.n() && (#[trigger] state.store.in_backpack@[j]) is Some
                        ==> state.store.in_backpack@[j].unwrap().owner < state.store.n(),
                state.store.alive@ == old(state).store.alive@,
                state.store.renderables@ == old(state).store.renderables@,
                state.store.players@ == old(state).store.players@,
                state.store.viewsheds@ == old(state).store.viewsheds@,
                state.store.monsters@ == old(state).store.monsters@,
                state.store.names@ == old(state).store.names@,
                state.store.blocks_tile@ == old(state).store.blocks_tile@,
                state.store.combat_stats@ == old(state).store.combat_stats@,
                state.store.wants_melee@ == old(state).store.wants_melee@,
                state.store.suffer_damage@ == old(state).store.suffer_damage@,
                state.store.items@ == old(state).store.items@,
                state.store.provides_healing@ == old(state).store.provides_healing@,
                state.store.wants_pickup@ == old(state).store.wants_pickup@,
                state.store.wants_use@ == old(state).store.wants_use@,
                state.store.wants_drop@ == old(state).store.wants_drop@,
                state.store.consumables@ == old(state).store.consumables@,
                state.store.ranged@ == old(state).store.ranged@,
                state.store.inflicts_damage@ == old(state).store.inflicts_damage@,
                state.store.aoe@ == old(state).store.aoe@,
                state.store.confusion@ == old(state).store.confusion@,
                state.store.pending_delete@ == old(state).store.pending_delete@,
                state.map == old(state).map,
                state.run_state == old(state).run_state,
                state.player_entity == old(state).player_entity,
                state.player_data == old(state).player_data,
            decreases n - e,
        {
            let ghost pos_pre = state.store.positions@;
            let ghost bp_pre = state.store.in_backpack@;
            let ghost log_pre = log_view(state.log.entries@);
            let intent = state.store.wants_drop[e];
            if state.store.alive[e] {
                if let Some(to_drop) = intent {
                    let dropper_position = match state.store.positions[e] {
                        Some(position) => position,
                        None => Position { x: 0, y: 0 },
                    };
                    state.store.positions[to_drop.item] = Some(dropper_position);
                    state.store.in_backpack[to_drop.item] = None;
                    if e == player {
                        let msg = drop_msg(
                            match &state.store.names[to_drop.item] {
                                Some(nm) => nm.name.as_str(),
                                None => "???",
                            },
                        );
                        state.log.log(msg);
                        proof {
                            assert(log_view(state.log.entries@) =~= log_pre.push(
                                drop_text(name_text(s_init, to_drop.item as int)),
                            ));
                        }
                    }
                }
            }
            proof {
                assert(drop_fold(s_init, player as int, e as int + 1, pos0, bp0, log0)
                    == drop_step(s_init, player as int, e as int, pos_pre, bp_pre, log_pre));
                if !drop_applies(s_init, e as int) {
                    assert(state.store.positions@ =~= pos_pre);
                    assert(state.store.in_backpack@ =~= bp_pre);
                    assert(log_view(state.log.entries@) =~= log_pre);
                }
            }
            e = e + 1;
        }

        let mut k: usize = 0;
        while k < n
            invariant
                old(state).inv(),
                state.store.wf(),
                n == state.store.n(),
                n == old(state).store.n(),
                0 <= k <= n,
                s_init == old(state).store,
                ({
                    let r = drop_fold(
                        s_init,
                        old(state).player_entity as int,
                        n as int,
                        old(state).store.positions@,
                        old(state).store.in_backpack@,
                        log_view(old(state).log.entries@),
                    );
                    &&& state.store.positions@ == r.0
                    &&& state.store.in_backpack@ == r.1
                    &&& log_view(state.log.entries@) == r.2
                }),
                crate::state::positions_in_bounds(state.store),
                forall|j: int|
                    0 <= j < state.store.n() && (#[trigger] state.store.in_backpack@[j]) is Some
                        ==> state.store.in_backpack@[j].unwrap().owner < state.store.n(),
                forall|j: int| 0 <= j < k ==> (#[trigger] state.store.wants_drop@[j]) is None,
                state.store.alive@ == old(state).store.alive@,
                state.store.renderables@ == old(state).store.renderables@,
                state.store.players@ == old(state).store.players@,
                state.store.viewsheds@ == old(state).store.viewsheds@,
                state.store.monsters@ == old(state).store.monsters@,
                state.store.names@ == old(state).store.names@,
                state.store.blocks_tile@ == old(state).store.blocks_tile@,
                state.store.combat_stats@ == old(state).store.combat_stats@,
                state.store.wants_melee@ == old(state).store.wants_melee@,
                state.store.suffer_damage@ == old(state).store.suffer_damage@,
                state.store.items@ == old(state).store.items@,
                state.store.provides_healing@ == old(state).store.provides_healing@,
                state.store.wants_pickup@ == old(state).store.wants_pickup@,
                state.store.wants_use@ == old(state).store.wants_use@,
                state.store.consumables@ == old(state).store.consumables@,
                state.store.ranged@ == old(state).store.ranged@,
                state.store.inflicts_damage@ == old(state).store.inflicts_damage@,
                state.store.aoe@ == old(state).store.aoe@,
                state.store.confusion@ == old(state).store.confusion@,
                state.store.pending_delete@ == old(state).store.pending_delete@,
                state.map == old(state).map,
                state.run_state == old(state).run_state,
                state.player_entity == old(state).player_entity,
                state.player_data == old(state).player_data,
            decreases n - k,
        {
            state.store.wants_drop[k] = None;
            k = k + 1;
        }
    }
}



} // verus!
