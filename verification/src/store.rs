use vstd::prelude::*;
use crate::components::{
    AreaOfEffect, CombatStats, Confusion, Entity, InBackpack, InflictsDamage, Name, Position,
    ProvidesHealing, Ranged, Renderable, SufferDamage, Viewshed, WantsToDropItem, WantsToMelee,
    WantsToPickupItem, WantsToUseItem,
};

verus! {

/// The entity/component store: an arena of integer entity ids with one
/// densely indexed column per component type. Every column has one slot
/// per entity ever created; ids are never reused, and deleting an entity
/// clears its row. Tag components are membership bitmaps. Structural
/// deletions requested mid-turn are queued in `pending_delete` and
/// applied by `maintain` once the turn's systems have run.
pub struct EntityStore {
    pub alive: Vec<bool>,
    pub positions: Vec<Option<Position>>,
    pub renderables: Vec<Option<Renderable>>,
    pub players: Vec<bool>,
    pub viewsheds: Vec<Option<Viewshed>>,
    pub monsters: Vec<bool>,
    pub names: Vec<Option<Name>>,
    pub blocks_tile: Vec<bool>,
    pub combat_stats: Vec<Option<CombatStats>>,
    pub wants_melee: Vec<Option<WantsToMelee>>,
    pub suffer_damage: Vec<Option<SufferDamage>>,
    pub items: Vec<bool>,
    pub provides_healing: Vec<Option<ProvidesHealing>>,
    pub in_backpack: Vec<Option<InBackpack>>,
    pub wants_pickup: Vec<Option<WantsToPickupItem>>,
    pub wants_use: Vec<Option<WantsToUseItem>>,
    pub wants_drop: Vec<Option<WantsToDropItem>>,
    pub consumables: Vec<bool>,
    pub ranged: Vec<Option<Ranged>>,
    pub inflicts_damage: Vec<Option<InflictsDamage>>,
    pub aoe: Vec<Option<AreaOfEffect>>,
    pub confusion: Vec<Option<Confusion>>,
    pub pending_delete: Vec<usize>,
}

impl EntityStore {
    /// Number of entity slots ever created.
    pub open spec fn n(self) -> int {
        self.alive@.len() as int
    }

    /// Every column is as long as the arena, and every queued deletion
    /// names an existing slot.
    pub open spec fn wf(self) -> bool {
        &&& self.positions@.len() == self.n()
        &&& self.renderables@.len() == self.n()
        &&& self.players@.len() == self.n()
        &&& self.viewsheds@.len() == self.n()
        &&& self.monsters@.len() == self.n()
        &&& self.names@.len() == self.n()
        &&& self.blocks_tile@.len() == self.n()
        &&& self.combat_stats@.len() == self.n()
        &&& self.wants_melee@.len() == self.n()
        &&& self.suffer_damage@.len() == self.n()
        &&& self.items@.len() == self.n()
        &&& self.provides_healing@.len() == self.n()
        &&& self.in_backpack@.len() == self.n()
        &&& self.wants_pickup@.len() == self.n()
        &&& self.wants_use@.len() == self.n()
        &&& self.wants_drop@.len() == self.n()
        &&& self.consumables@.len() == self.n()
        &&& self.ranged@.len() == self.n()
        &&& self.inflicts_damage@.len() == self.n()
        &&& self.aoe@.len() == self.n()
        &&& self.confusion@.len() == self.n()
        &&& forall|k: int|
            0 <= k < self.pending_delete@.len() ==> (#[trigger] self.pending_delete@[k]) < self.n()
    }

    /// Entity `j`'s row holds no component at all.
    pub open spec fn row_blank(self, j: int) -> bool {
        &&& self.positions@[j] is None
        &&& self.renderables@[j] is None
        &&& !self.players@[j]
        &&& self.viewsheds@[j] is None
        &&& !self.monsters@[j]
        &&& self.names@[j] is None
        &&& !self.blocks_tile@[j]
        &&& self.combat_stats@[j] is None
        &&& self.wants_melee@[j] is None
        &&& self.suffer_damage@[j] is None
        &&& !self.items@[j]
        &&& self.provides_healing@[j] is None
        &&& self.in_backpack@[j] is None
        &&& self.wants_pickup@[j] is None
        &&& self.wants_use@[j] is None
        &&& self.wants_drop@[j] is None
        &&& !self.consumables@[j]
        &&& self.ranged@[j] is None
        &&& self.inflicts_damage@[j] is None
        &&& self.aoe@[j] is None
        &&& self.confusion@[j] is None
    }

    /// Entity `j`'s row (aliveness included) is the same in both stores.
    pub open spec fn row_eq(s1: EntityStore, s2: EntityStore, j: int) -> bool {
        &&& s1.alive@[j] == s2.alive@[j]
        &&& s1.positions@[j] == s2.positions@[j]
        &&& s1.renderables@[j] == s2.renderables@[j]
        &&& s1.players@[j] == s2.players@[j]
        &&& s1.viewsheds@[j] == s2.viewsheds@[j]
        &&& s1.monsters@[j] == s2.monsters@[j]
        &&& s1.names@[j] == s2.names@[j]
        &&& s1.blocks_tile@[j] == s2.blocks_tile@[j]
        &&& s1.combat_stats@[j] == s2.combat_stats@[j]
        &&& s1.wants_melee@[j] == s2.wants_melee@[j]
        &&& s1.suffer_damage@[j] == s2.suffer_damage@[j]
        &&& s1.items@[j] == s2.items@[j]
        &&& s1.provides_healing@[j] == s2.provides_healing@[j]
        &&& s1.in_backpack@[j] == s2.in_backpack@[j]
        &&& s1.wants_pickup@[j] == s2.wants_pickup@[j]
        &&& s1.wants_use@[j] == s2.wants_use@[j]
        &&& s1.wants_drop@[j] == s2.wants_drop@[j]
        &&& s1.consumables@[j] == s2.consumables@[j]
        &&& s1.ranged@[j] == s2.ranged@[j]
        &&& s1.inflicts_damage@[j] == s2.inflicts_damage@[j]
        &&& s1.aoe@[j] == s2.aoe@[j]
        &&& s1.confusion@[j] == s2.confusion@[j]
    }

    /// Entity `j` appears in the deletion queue `q`.
    pub open spec fn doomed(q: Seq<usize>, j: int) -> bool {
        exists|k: int| 0 <= k < q.len() && q[k] == j
    }

    pub fn new() -> (s: EntityStore)
        ensures
            s.wf(),
            s.n() == 0,
            s.pending_delete@.len() == 0,
    {
        EntityStore {
            alive: Vec::new(),
            positions: Vec::new(),
            renderables: Vec::new(),
            players: Vec::new(),
            viewsheds: Vec::new(),
            monsters: Vec::new(),
            names: Vec::new(),
            blocks_tile: Vec::new(),
            combat_stats: Vec::new(),
            wants_melee: Vec::new(),
            suffer_damage: Vec::new(),
            items: Vec::new(),
            provides_healing: Vec::new(),
            in_backpack: Vec::new(),
            wants_pickup: Vec::new(),
            wants_use: Vec::new(),
            wants_drop: Vec::new(),
            consumables: Vec::new(),
            ranged: Vec::new(),
            inflicts_damage: Vec::new(),
            aoe: Vec::new(),
            confusion: Vec::new(),
            pending_delete: Vec::new(),
        }
    }

    /// Allocate a fresh entity with an empty row; its id is the next
    /// free slot.
    pub fn create_entity(&mut self) -> (e: Entity)
        requires
            old(self).wf(),
        ensures
            final(self).wf(),
            e == old(self).n(),
            final(self).n() == old(self).n() + 1,
            final(self).alive@ == old(self).alive@.push(true),
            final(self).positions@ == old(self).positions@.push(None),
            final(self).renderables@ == old(self).renderables@.push(None),
            final(self).players@ == old(self).players@.push(false),
            final(self).viewsheds@ == old(self).viewsheds@.push(None),
            final(self).monsters@ == old(self).monsters@.push(false),
            final(self).names@ == old(self).names@.push(None),
            final(self).blocks_tile@ == old(self).blocks_tile@.push(false),
            final(self).combat_stats@ == old(self).combat_stats@.push(None),
            final(self).wants_melee@ == old(self).wants_melee@.push(None),
            final(self).suffer_damage@ == old(self).suffer_damage@.push(None),
            final(self).items@ == old(self).items@.push(false),
            final(self).provides_healing@ == old(self).provides_healing@.push(None),
            final(self).in_backpack@ == old(self).in_backpack@.push(None),
            final(self).wants_pickup@ == old(self).wants_pickup@.push(None),
            final(self).wants_use@ == old(self).wants_use@.push(None),
            final(self).wants_drop@ == old(self).wants_drop@.push(None),
            final(self).consumables@ == old(self).consumables@.push(false),
            final(self).ranged@ == old(self).ranged@.push(None),
            final(self).inflicts_damage@ == old(self).inflicts_damage@.push(None),
            final(self).aoe@ == old(self).aoe@.push(None),
            final(self).confusion@ == old(self).confusion@.push(None),
            final(self).pending_delete@ == old(self).pending_delete@,
    {
        let e = self.alive.len();
        self.alive.push(true);
        self.positions.push(None);
        self.renderables.push(None);
        self.players.push(false);
        self.viewsheds.push(None);
        self.monsters.push(false);
        self.names.push(None);
        self.blocks_tile.push(false);
        self.combat_stats.push(None);
        self.wants_melee.push(None);
        self.suffer_damage.push(None);
        self.items.push(false);
        self.provides_healing.push(None);
        self.in_backpack.push(None);
        self.wants_pickup.push(None);
        self.wants_use.push(None);
        self.wants_drop.push(None);
        self.consumables.push(false);
        self.ranged.push(None);
        self.inflicts_damage.push(None);
        self.aoe.push(None);
        self.confusion.push(None);
        e
    }

    /// Delete an entity immediately: mark it dead and clear its row.
    pub fn delete_now(&mut self, e: Entity)
        requires
            old(self).wf(),
            e < old(self).n(),
        ensures
            final(self).wf(),
            final(self).n() == old(self).n(),
            !final(self).alive@[e as int],
            final(self).row_blank(e as int),
            forall|j: int|
                0 <= j < old(self).n() && j != e ==> EntityStore::row_eq(
                    *old(self),
                    *final(self),
                    j,
                ),
            final(self).pending_delete@ == old(self).pending_delete@,
    {
        self.alive[e] = false;
        self.positions[e] = None;
        self.renderables[e] = None;
        self.players[e] = false;
        self.viewsheds[e] = None;
        self.monsters[e] = false;
        self.names[e] = None;
        self.blocks_tile[e] = false;
        self.combat_stats[e] = None;
        self.wants_melee[e] = None;
        self.suffer_damage[e] = None;
        self.items[e] = false;
        self.provides_healing[e] = None;
        self.in_backpack[e] = None;
        self.wants_pickup[e] = None;
        self.wants_use[e] = None;
        self.wants_drop[e] = None;
        self.consumables[e] = false;
        self.ranged[e] = None;
        self.inflicts_damage[e] = None;
        self.aoe[e] = None;
        self.confusion[e] = None;
    }

    /// Queue an entity for deletion at the next commit point.
    pub fn schedule_delete(&mut self, e: Entity)
        requires
            old(self).wf(),
            e < old(self).n(),
        ensures
            final(self).wf(),
            final(self).pending_delete@ == old(self).pending_delete@.push(e),
            final(self).n() == old(self).n(),
            forall|j: int| 0 <= j < old(self).n() ==> EntityStore::row_eq(*old(self), *final(self), j),
            final(self).alive@ == old(self).alive@,
            final(self).positions@ == old(self).positions@,
            final(self).renderables@ == old(self).renderables@,
            final(self).players@ == old(self).players@,
            final(self).viewsheds@ == old(self).viewsheds@,
            final(self).monsters@ == old(self).monsters@,
            final(self).names@ == old(self).names@,
            final(self).blocks_tile@ == old(self).blocks_tile@,
            final(self).combat_stats@ == old(self).combat_stats@,
            final(self).wants_melee@ == old(self).wants_melee@,
            final(self).suffer_damage@ == old(self).suffer_damage@,
            final(self).items@ == old(self).items@,
            final(self).provides_healing@ == old(self).provides_healing@,
            final(self).in_backpack@ == old(self).in_backpack@,
            final(self).wants_pickup@ == old(self).wants_pickup@,
            final(self).wants_use@ == old(self).wants_use@,
            final(self).wants_drop@ == old(self).wants_drop@,
            final(self).consumables@ == old(self).consumables@,
            final(self).ranged@ == old(self).ranged@,
            final(self).inflicts_damage@ == old(self).inflicts_damage@,
            final(self).aoe@ == old(self).aoe@,
            final(self).confusion@ == old(self).confusion@,
    {
        self.pending_delete.push(e);
    }

    /// The commit point: apply every queued deletion and empty the queue.
    #[verifier::loop_isolation(false)]
    pub fn maintain(&mut self)
        requires
            old(self).wf(),
        ensures
            final(self).wf(),
            final(self).n() == old(self).n(),
            final(self).pending_delete@.len() == 0,
            forall|j: int|
                0 <= j < old(self).n() && #[trigger] EntityStore::doomed(
                    old(self).pending_delete@,
                    j,
                ) ==> !final(self).alive@[j] && final(self).row_blank(j),
            forall|j: int|
                0 <= j < old(self).n() && !(#[trigger] EntityStore::doomed(
                    old(self).pending_delete@,
                    j,
                )) ==> EntityStore::row_eq(*old(self), *final(self), j),
    {
        let ghost q = self.pending_delete@;
        let mut i: usize = 0;
        while i < self.pending_delete.len()
            invariant
                old(self).wf(),
                self.wf(),
                0 <= i <= q.len(),
                self.pending_delete@ == q,
                self.n() == old(self).n(),
                forall|j: int|
                    0 <= j < old(self).n() && #[trigger] EntityStore::doomed(
                        q.subrange(0, i as int),
                        j,
                    ) ==> !self.alive@[j] && self.row_blank(j),
                forall|j: int|
                    0 <= j < old(self).n() && !(#[trigger] EntityStore::doomed(
                        q.subrange(0, i as int),
                        j,
                    )) ==> EntityStore::row_eq(*old(self), *self, j),
            decreases q.len() - i,
        {
            let e = self.pending_delete[i];
            let ghost pre = *self;
            proof {
                assert forall|j: int|
                    0 <= j < old(self).n() && EntityStore::doomed(q.subrange(0, i as int), j)
                        implies !pre.alive@[j] && pre.row_blank(j) by {
                    assert(EntityStore::doomed(q.subrange(0, i as int), j));
                }
                assert forall|j: int|
                    0 <= j < old(self).n() && !EntityStore::doomed(q.subrange(0, i as int), j)
                        implies EntityStore::row_eq(*old(self), pre, j) by {
                    assert(!EntityStore::doomed(q.subrange(0, i as int), j));
                }
            }
            self.delete_now(e);
            proof {
                let qa = q.subrange(0, i as int);
                let qb = q.subrange(0, i as int + 1);
                assert(qb[i as int] == q[i as int]);
                assert(EntityStore::doomed(qb, e as int));
                assert forall|j: int|
                    0 <= j < old(self).n() && EntityStore::doomed(qb, j) implies !self.alive@[j]
                    && self.row_blank(j) by {
                    if j == e {
                    } else {
                        let k = choose|k: int| 0 <= k < qb.len() && (#[trigger] qb[k]) == j;
                        assert(k < i);
                        assert(qa[k] == qb[k]);
                        assert(EntityStore::doomed(qa, j));
                        assert(!pre.alive@[j] && pre.row_blank(j));
                        assert(EntityStore::row_eq(pre, *self, j));
                    }
                }
                assert forall|j: int|
                    0 <= j < old(self).n() && !EntityStore::doomed(qb, j) implies
                    EntityStore::row_eq(*old(self), *self, j) by {
                    assert(j != e);
                    assert(forall|k: int| 0 <= k < i ==> qa[k] == #[trigger] qb[k]);
                    assert(!EntityStore::doomed(qa, j));
                    assert(EntityStore::row_eq(*old(self), pre, j));
                    assert(EntityStore::row_eq(pre, *self, j));
                }
            }
            i = i + 1;
        }
        proof {
            assert(q.subrange(0, q.len() as int) =~= q);
        }
        self.pending_delete.clear();
    }

    /// Delete every entity named in `list`, immediately.
    pub fn delete_list(&mut self, list: &Vec<usize>)
        requires
            old(self).wf(),
            forall|k: int| 0 <= k < list@.len() ==> (#[trigger] list@[k]) < old(self).n(),
        ensures
            final(self).wf(),
            final(self).n() == old(self).n(),
            final(self).pending_delete@ == old(self).pending_delete@,
            forall|j: int|
                0 <= j < old(self).n() && #[trigger] EntityStore::doomed(list@, j) ==> !final(self).alive@[j] && final(self).row_blank(j),
            forall|j: int|
                0 <= j < old(self).n() && !(#[trigger] EntityStore::doomed(list@, j))
                    ==> EntityStore::row_eq(*old(self), *final(self), j),
    {
        let ghost q = list@;
        let mut i: usize = 0;
        while i < list.len()
            invariant
                old(self).wf(),
                self.wf(),
                0 <= i <= q.len(),
                list@ == q,
                forall|k: int| 0 <= k < q.len() ==> (#[trigger] q[k]) < old(self).n(),
                self.n() == old(self).n(),
                self.pending_delete@ == old(self).pending_delete@,
                forall|j: int|
                    0 <= j < old(self).n() && #[trigger] EntityStore::doomed(
                        q.subrange(0, i as int),
                        j,
                    ) ==> !self.alive@[j] && self.row_blank(j),
                forall|j: int|
                    0 <= j < old(self).n() && !(#[trigger] EntityStore::doomed(
                        q.subrange(0, i as int),
                        j,
                    )) ==> EntityStore::row_eq(*old(self), *self, j),
            decreases q.len() - i,
        {
            let e = list[i];
            let ghost pre = *self;
            proof {
                assert forall|j: int|
                    0 <= j < old(self).n() && EntityStore::doomed(q.subrange(0, i as int), j)
                        implies !pre.alive@[j] && pre.row_blank(j) by {
                    assert(EntityStore::doomed(q.subrange(0, i as int), j));
                }
                assert forall|j: int|
                    0 <= j < old(self).n() && !EntityStore::doomed(q.subrange(0, i as int), j)
                        implies EntityStore::row_eq(*old(self), pre, j) by {
                    assert(!EntityStore::doomed(q.subrange(0, i as int), j));
                }
            }
            self.delete_now(e);
            proof {
                let qa = q.subrange(0, i as int);
                let qb = q.subrange(0, i as int + 1);
                assert(qb[i as int] == q[i as int]);
                assert(EntityStore::doomed(qb, e as int));
                assert forall|j: int|
                    0 <= j < old(self).n() && EntityStore::doomed(qb, j) implies !self.alive@[j]
                    && self.row_blank(j) by {
                    if j == e {
                    } else {
                        let k = choose|k: int| 0 <= k < qb.len() && (#[trigger] qb[k]) == j;
                        assert(k < i);
                        assert(qa[k] == qb[k]);
                        assert(EntityStore::doomed(qa, j));
                        assert(!pre.alive@[j] && pre.row_blank(j));
                        assert(EntityStore::row_eq(pre, *self, j));
                    }
                }
                assert forall|j: int|
                    0 <= j < old(self).n() && !EntityStore::doomed(qb, j) implies
                    EntityStore::row_eq(*old(self), *self, j) by {
                    assert(j != e);
                    assert(forall|k: int| 0 <= k < i ==> qa[k] == #[trigger] qb[k]);
                    assert(!EntityStore::doomed(qa, j));
                    assert(EntityStore::row_eq(*old(self), pre, j));
                    assert(EntityStore::row_eq(pre, *self, j));
                }
            }
            i = i + 1;
        }
        proof {
            assert(q.subrange(0, q.len() as int) =~= q);
        }
    }

    /// Wipe the arena completely.
    pub fn delete_all(&mut self)
        ensures
            final(self).wf(),
            final(self).n() == 0,
            final(self).pending_delete@.len() == 0,
    {
        *self = EntityStore::new();
    }
}

} // verus!
