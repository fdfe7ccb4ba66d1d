use vstd::prelude::*;
use crate::components::{CombatStats, Entity, Point, Position};
use crate::gamelog::GameLog;
use crate::map::{GameMap, MAX_DEPTH, generate_map, in_bounds_pt, max_i};
use crate::spawner::{spawn_rooms, spawned_row_ok};
use crate::templates::{create_player, player_row};
use crate::text::string_of;
use crate::menu::MainMenuSelection;
use crate::rng::GameRng;
use crate::store::EntityStore;

verus! {

/// The cached copy of the player's position, kept for systems that need
/// it without walking the store.
pub struct PlayerData {
    pub position: Point,
}

impl PlayerData {
    pub fn new(x: i32, y: i32) -> (r: PlayerData)
        ensures
            r.position == (Point { x, y }),
    {
        PlayerData { position: Point { x, y } }
    }
}

/// The canonical player entity id.
pub struct PlayerEntity(pub Entity);

/// The explicit control state of the session.
#[derive(PartialEq, Eq, Structural, Clone, Copy, Debug)]
pub enum RunState {
    AwaitingInput,
    PreRun,
    PlayerTurn,
    MonsterTurn,
    ShowInventory,
    ShowDropItem,
    ShowTargeting { range: i32, item: Entity },
    MainMenu { menu_selection: MainMenuSelection },
    SaveGame,
    NextLevel,
}

/// The state a fresh or reset session starts in.
pub open spec fn default_run_state() -> RunState {
    RunState::MainMenu { menu_selection: MainMenuSelection::NewGame }
}

impl Default for RunState {
    fn default() -> (r: Self)
        ensures
            r == default_run_state(),
    {
        RunState::MainMenu { menu_selection: MainMenuSelection::NewGame }
    }
}

/// Every entity that stands somewhere stands inside the map.
pub open spec fn positions_in_bounds(s: EntityStore) -> bool {
    forall|e: int|
        0 <= e < s.n() && (#[trigger] s.positions@[e]) is Some ==> in_bounds_pt(
            (s.positions@[e].unwrap().x as int, s.positions@[e].unwrap().y as int),
        )
}

/// Every combatant has a name (the combat log prints it).
pub open spec fn stats_have_names(s: EntityStore) -> bool {
    forall|e: int|
        0 <= e < s.n() && (#[trigger] s.combat_stats@[e]) is Some ==> s.names@[e] is Some
}

/// Every entity reference held inside a component names an existing
/// slot, and every targeted point lies on the map. Slots are never
/// reused, so these bounds survive deletions.
pub open spec fn refs_in_range(s: EntityStore) -> bool {
    &&& forall|e: int|
        0 <= e < s.n() && (#[trigger] s.wants_melee@[e]) is Some ==> s.wants_melee@[e].unwrap().target
            < s.n()
    &&& forall|e: int|
        0 <= e < s.n() && (#[trigger] s.wants_pickup@[e]) is Some ==> s.wants_pickup@[e].unwrap().item
            < s.n() && s.wants_pickup@[e].unwrap().collected_by < s.n()
    &&& forall|e: int|
        0 <= e < s.n() && (#[trigger] s.wants_use@[e]) is Some ==> s.wants_use@[e].unwrap().item
            < s.n() && (s.wants_use@[e].unwrap().target is Some
            ==> in_bounds_pt(
            (
                s.wants_use@[e].unwrap().target.unwrap().x as int,
                s.wants_use@[e].unwrap().target.unwrap().y as int,
            ),
        ))
    &&& forall|e: int|
        0 <= e < s.n() && (#[trigger] s.wants_drop@[e]) is Some ==> s.wants_drop@[e].unwrap().item
            < s.n()
    &&& forall|e: int|
        0 <= e < s.n() && (#[trigger] s.in_backpack@[e]) is Some ==> s.in_backpack@[e].unwrap().owner
            < s.n()
}

/// Every entity listed in the per-tile occupant index exists.
pub open spec fn tile_content_in_range(m: GameMap, n: int) -> bool {
    forall|t: int, k: int|
        0 <= t < 3440 && 0 <= k < m.tile_content@[t]@.len() ==> #[trigger] (
        m.tile_content@[t]@[k]) < n
}

/// Every queued melee intent points at a target that can actually be
/// fought: it has combat stats and a name. This holds while intents are
/// in flight (between their insertion and the melee stage) and is
/// trivially true once the pipeline has cleared them.
pub open spec fn melee_intents_ok(s: EntityStore) -> bool {
    forall|e: int|
        0 <= e < s.n() && (#[trigger] s.wants_melee@[e]) is Some ==> {
            &&& s.wants_melee@[e].unwrap().target < s.n()
            &&& s.combat_stats@[s.wants_melee@[e].unwrap().target as int] is Some
            &&& s.names@[s.wants_melee@[e].unwrap().target as int] is Some
        }
}

/// No melee intent is queued.
pub open spec fn no_melee_intents(s: EntityStore) -> bool {
    forall|e: int| 0 <= e < s.n() ==> (#[trigger] s.wants_melee@[e]) is None
}

/// The whole simulation: the component store, the current level, the
/// message log, the session phase, the player references, and the
/// random source.
pub struct State {
    pub store: EntityStore,
    pub map: GameMap,
    pub log: GameLog,
    pub run_state: RunState,
    pub player_entity: Entity,
    pub player_data: PlayerData,
    pub rng: GameRng,
}

impl State {
    /// The invariant every system preserves: well-formed store and map,
    /// a live player entity with the components the systems read, all
    /// stored references in range, and all stored positions on the map.
    pub open spec fn inv(self) -> bool {
        &&& self.store.wf()
        &&& self.map.wf()
        &&& self.player_entity < self.store.n()
        &&& self.store.alive@[self.player_entity as int]
        &&& self.store.players@[self.player_entity as int]
        &&& !self.store.consumables@[self.player_entity as int]
        &&& forall|e: int|
            0 <= e < self.store.n() && (#[trigger] self.store.players@[e]) ==> e
                == self.player_entity
        &&& positions_in_bounds(self.store)
        &&& stats_have_names(self.store)
        &&& refs_in_range(self.store)
        &&& tile_content_in_range(self.map, self.store.n())
        &&& in_bounds_pt((self.player_data.position.x as int, self.player_data.position.y as int))
    }

    /// A fresh session: an empty store, a generated first level, the
    /// greeting in the log, and the main menu as the current phase.
    pub fn new() -> (s: State)
        ensures
            s.store.wf(),
            s.store.n() == 0,
            s.store.pending_delete@.len() == 0,
            s.map.wf(),
            s.map.depth == 1,
            s.map.stairs_ok(),
            forall|j: int| 0 <= j < 3440 ==> (#[trigger] s.map.tile_content@[j])@.len() == 0,
            s.run_state == default_run_state(),
            s.player_data.position == (Point { x: 0, y: 0 }),
    {
        State {
            store: EntityStore::new(),
            map: generate_map(1),
            log: GameLog::new(),
            run_state: RunState::MainMenu { menu_selection: MainMenuSelection::NewGame },
            player_entity: 0,
            player_data: PlayerData::new(0, 0),
            rng: GameRng::new(),
        }
    }

    /// Populate the level: spawn monsters and items into every room but
    /// the first, then create the player at the first room's center.
    pub fn setup(&mut self)
        requires
            old(self).store.wf(),
            old(self).store.n() == 0,
            old(self).store.pending_delete@.len() == 0,
            old(self).map.wf(),
            forall|j: int|
                0 <= j < 3440 ==> (#[trigger] old(self).map.tile_content@[j])@.len() == 0,
            in_bounds_pt(
                (old(self).player_data.position.x as int, old(self).player_data.position.y as int),
            ),
        ensures
            final(self).inv(),
            final(self).map == old(self).map,
            final(self).run_state == old(self).run_state,
            final(self).player_data == old(self).player_data,
            final(self).log == old(self).log,
            player_row(
                final(self).store,
                final(self).player_entity as int,
                old(self).map.spec_first_center().0 as i32,
                old(self).map.spec_first_center().1 as i32,
            ),
            no_melee_intents(final(self).store),
    {
        let depth = self.map.depth;
        spawn_rooms(&mut self.store, &mut self.rng, &self.map.rooms, depth);
        let first = self.map.rooms[0];
        let (player_x, player_y) = first.center();
        proof {
            first.lemma_center_in_interior();
        }
        let ghost mid = self.store;
        let player = create_player(&mut self.store, player_x, player_y);
        self.player_entity = player;
        proof {
            assert forall|e: int|
                0 <= e < self.store.n() && (#[trigger] self.store.positions@[e]) is Some
                    implies in_bounds_pt(
                (self.store.positions@[e].unwrap().x as int,
                self.store.positions@[e].unwrap().y as int),
            ) by {
                if e < mid.n() {
                    assert(spawned_row_ok(mid, e));
                    assert(EntityStore::row_eq(mid, self.store, e));
                }
            }
            assert forall|e: int|
                0 <= e < self.store.n() && (#[trigger] self.store.combat_stats@[e]) is Some
                    implies self.store.names@[e] is Some by {
                if e < mid.n() {
                    assert(spawned_row_ok(mid, e));
                    assert(EntityStore::row_eq(mid, self.store, e));
                }
            }
            assert forall|e: int|
                0 <= e < self.store.n() implies (#[trigger] self.store.wants_melee@[e]) is None
                by {
                if e < mid.n() {
                    assert(spawned_row_ok(mid, e));
                    assert(EntityStore::row_eq(mid, self.store, e));
                }
            }
            assert forall|e: int|
                0 <= e < self.store.n() implies (#[trigger] self.store.wants_pickup@[e]) is None
                by {
                if e < mid.n() {
                    assert(spawned_row_ok(mid, e));
                    assert(EntityStore::row_eq(mid, self.store, e));
                }
            }
            assert forall|e: int|
                0 <= e < self.store.n() implies (#[trigger] self.store.wants_use@[e]) is None by {
                if e < mid.n() {
                    assert(spawned_row_ok(mid, e));
                    assert(EntityStore::row_eq(mid, self.store, e));
                }
            }
            assert forall|e: int|
                0 <= e < self.store.n() implies (#[trigger] self.store.wants_drop@[e]) is None
                by {
                if e < mid.n() {
                    assert(spawned_row_ok(mid, e));
                    assert(EntityStore::row_eq(mid, self.store, e));
                }
            }
            assert forall|e: int|
                0 <= e < self.store.n() implies (#[trigger] self.store.in_backpack@[e]) is None
                by {
                if e < mid.n() {
                    assert(spawned_row_ok(mid, e));
                    assert(EntityStore::row_eq(mid, self.store, e));
                }
            }
            assert forall|t: int, k: int|
                0 <= t < 3440 && 0 <= k < self.map.tile_content@[t]@.len() implies (
            self.map.tile_content@[t]@[k]) < self.store.n() by {
                assert(self.map.tile_content@[t]@.len() == 0);
            }
            assert forall|e: int|
                0 <= e < self.store.n() && (#[trigger] self.store.players@[e]) implies e
                    == self.player_entity as int by {
                if e < mid.n() {
                    assert(spawned_row_ok(mid, e));
                    assert(EntityStore::row_eq(mid, self.store, e));
                }
            }
        }
    }
}

/// Entity `j` survives a level transition: it is the player, or an item
/// in the player's backpack.
pub open spec fn survives_level_change(s: EntityStore, player: int, j: int) -> bool {
    s.players@[j] || (s.in_backpack@[j] is Some && s.in_backpack@[j].unwrap().owner == player)
}

/// Integer halving that truncates toward zero, as the machine's signed
/// division does.
pub open spec fn half_toward_zero(x: int) -> int {
    if x >= 0 {
        x / 2
    } else {
        -((-x) / 2)
    }
}

impl State {
    /// The entities that a descent leaves behind: everything alive that
    /// is neither the player nor in the player's backpack.
    fn entities_to_remove_on_level_change(&self) -> (r: Vec<Entity>)
        requires
            self.store.wf(),
        ensures
            forall|k: int| 0 <= k < r@.len() ==> (#[trigger] r@[k]) < self.store.n(),
            forall|j: int|
                0 <= j < self.store.n() ==> (#[trigger] EntityStore::doomed(r@, j) <==> (
                self.store.alive@[j] && !survives_level_change(
                    self.store,
                    self.player_entity as int,
                    j,
                ))),
    {
        let player_entity = self.player_entity;
        let mut to_delete: Vec<Entity> = Vec::new();
        let n = self.store.alive.len();
        let mut e: usize = 0;
        while e < n
            invariant
                self.store.wf(),
                n == self.store.n(),
                0 <= e <= n,
                player_entity == self.player_entity,
                forall|k: int| 0 <= k < to_delete@.len() ==> (#[trigger] to_delete@[k]) < e,
                forall|j: int|
                    0 <= j < e ==> (#[trigger] EntityStore::doomed(to_delete@, j) <==> (
                    self.store.alive@[j] && !survives_level_change(
                        self.store,
                        self.player_entity as int,
                        j,
                    ))),
            decreases n - e,
        {
            let ghost prev = to_delete@;
            if self.store.alive[e] {
                let mut should_delete = true;
                if self.store.players[e] {
                    should_delete = false;
                }
                if let Some(bp) = self.store.in_backpack[e] {
                    should_delete = should_delete && bp.owner != player_entity;
                }
                if should_delete {
                    to_delete.push(e);
                    proof {
                        assert(to_delete@[to_delete@.len() - 1] == e);
                    }
                }
            }
            proof {
                assert forall|j: int|
                    0 <= j < e + 1 implies (EntityStore::doomed(to_delete@, j) <==> (
                    self.store.alive@[j] && !survives_level_change(
                        self.store,
                        self.player_entity as int,
                        j,
                    ))) by {
                    if to_delete@ == prev {
                        assert(EntityStore::doomed(to_delete@, j) == EntityStore::doomed(prev, j));
                        if j == e {
                            assert(!EntityStore::doomed(prev, j));
                        }
                    } else {
                        assert(to_delete@ == prev.push(e));
                        if EntityStore::doomed(to_delete@, j) {
                            let k = choose|k: int|
                                0 <= k < to_delete@.len() && (#[trigger] to_delete@[k]) == j;
                            if k < prev.len() {
                                assert(prev[k] == to_delete@[k]);
                                assert(EntityStore::doomed(prev, j));
                            } else {
                                assert(j == e);
                            }
                        }
                        if j < e {
                            if EntityStore::doomed(prev, j) {
                                let k = choose|k: int|
                                    0 <= k < prev.len() && (#[trigger] prev[k]) == j;
                                assert(to_delete@[k] == j);
                                assert(EntityStore::doomed(to_delete@, j));
                            }
                        } else {
                            assert(to_delete@[to_delete@.len() - 1] == e);
                            assert(EntityStore::doomed(to_delete@, j));
                        }
                    }
                }
            }
            e = e + 1;
        }
        to_delete
    }

    /// Descend one level: delete everything that stays behind, generate
    /// a deeper map, repopulate it, move the player to the new first
    /// room, and heal the player to at least half of maximum.
    pub fn goto_next_level(&mut self)
        requires
            old(self).inv(),
            old(self).map.depth < MAX_DEPTH,
        ensures
            final(self).inv(),
            final(self).map.wf(),
            final(self).map.depth == old(self).map.depth + 1,
            final(self).map.stairs_ok(),
            final(self).player_entity == old(self).player_entity,
            final(self).store.n() >= old(self).store.n(),
            final(self).store.alive@[old(self).player_entity as int],
            final(self).store.players@[old(self).player_entity as int],
            old(self).store.positions@[old(self).player_entity as int] is Some ==> final(self).store.positions@[old(self).player_entity as int] == Some(
                Position {
                    x: final(self).map.spec_first_center().0 as i32,
                    y: final(self).map.spec_first_center().1 as i32,
                },
            ),
            final(self).player_data.position == (Point {
                x: final(self).map.spec_first_center().0 as i32,
                y: final(self).map.spec_first_center().1 as i32,
            }),
            old(self).store.viewsheds@[old(self).player_entity as int] is Some ==> {
                &&& final(self).store.viewsheds@[old(self).player_entity as int] is Some
                &&& final(self).store.viewsheds@[old(self).player_entity as int].unwrap().dirty
                &&& final(self).store.viewsheds@[old(self).player_entity as int].unwrap().range
                    == old(self).store.viewsheds@[old(self).player_entity as int].unwrap().range
            },
            final(self).log.entries@.len() == old(self).log.entries@.len() + 1,
            final(self).log.entries@[old(self).log.entries@.len() as int]@
                == "You descend to the next level, and take a moment to heal."@,
            forall|j: int|
                0 <= j < old(self).log.entries@.len() ==> final(self).log.entries@[j]
                    == #[trigger] old(self).log.entries@[j],
            ({
                let p = old(self).player_entity as int;
                let os = old(self).store.combat_stats@[p].unwrap();
                old(self).store.combat_stats@[p] is Some ==> final(self).store.combat_stats@[p]
                    == Some(
                    CombatStats {
                        max_hp: os.max_hp,
                        hp: max_i(os.hp as int, half_toward_zero(os.max_hp as int)) as i32,
                        defense: os.defense,
                        power: os.power,
                    },
                )
            }),
            forall|j: int|
                0 <= j < old(self).store.n() && j != old(self).player_entity
                    && old(self).store.alive@[j] && survives_level_change(
                    old(self).store,
                    old(self).player_entity as int,
                    j,
                ) ==> EntityStore::row_eq(old(self).store, final(self).store, j),
            forall|j: int|
                0 <= j < old(self).store.n() && !survives_level_change(
                    old(self).store,
                    old(self).player_entity as int,
                    j,
                ) ==> !final(self).store.alive@[j],
            forall|e: int|
                old(self).store.n() <= e < final(self).store.n() ==> spawned_row_ok(
                    final(self).store,
                    e,
                ),
    {
        let player_entity = self.player_entity;
        let to_delete = self.entities_to_remove_on_level_change();
        let ghost s0 = self.store;
        self.store.delete_list(&to_delete);
        let ghost s1 = self.store;

        let current_depth = self.map.depth;
        self.map = generate_map(current_depth + 1);

        let depth = self.map.depth;
        spawn_rooms(&mut self.store, &mut self.rng, &self.map.rooms, depth);
        let ghost s2 = self.store;

        let first = self.map.rooms[0];
        let (player_x, player_y) = first.center();
        proof {
            first.lemma_center_in_interior();
            assert(EntityStore::row_eq(s1, s2, player_entity as int));
        }
        self.player_data = PlayerData::new(player_x, player_y);
        if self.store.positions[player_entity].is_some() {
            self.store.positions[player_entity] = Some(Position { x: player_x, y: player_y });
        }

        let new_viewshed = match &self.store.viewsheds[player_entity] {
            Some(v) => {
                let mut c = v.copy();
                c.dirty = true;
                Some(c)
            },
            None => None,
        };
        if let Some(v) = new_viewshed {
            self.store.viewsheds[player_entity] = Some(v);
        }

        self.log.log(
            string_of("You descend to the next level, and take a moment to heal."),
        );

        let stats = self.store.combat_stats[player_entity];
        if let Some(stats) = stats {
            let half: i32 = if stats.max_hp >= 0 {
                stats.max_hp / 2
            } else {
                let m: i64 = -(stats.max_hp as i64);
                (-(m / 2)) as i32
            };
            let new_hp = if stats.hp >= half {
                stats.hp
            } else {
                half
            };
            self.store.combat_stats[player_entity] = Some(
                CombatStats {
                    max_hp: stats.max_hp,
                    hp: new_hp,
                    defense: stats.defense,
                    power: stats.power,
                },
            );
        }

        proof {
            let p = player_entity as int;
            assert(EntityStore::doomed(to_delete@, p) == false);
            assert(EntityStore::row_eq(s0, s1, p));
            assert forall|j: int|
                0 <= j < s0.n() && j != p && s0.alive@[j] && survives_level_change(s0, p, j)
                    implies EntityStore::row_eq(s0, self.store, j) by {
                assert(!EntityStore::doomed(to_delete@, j));
                assert(EntityStore::row_eq(s0, s1, j));
                assert(EntityStore::row_eq(s1, s2, j));
            }
            assert forall|j: int|
                0 <= j < s0.n() && !survives_level_change(s0, p, j) implies !self.store.alive@[j]
                by {
                if s0.alive@[j] {
                    assert(EntityStore::doomed(to_delete@, j));
                    assert(!s1.alive@[j] && s1.row_blank(j));
                    assert(EntityStore::row_eq(s1, s2, j));
                    assert(j != p);
                } else {
                    assert(!EntityStore::doomed(to_delete@, j));
                    assert(EntityStore::row_eq(s0, s1, j));
                    assert(EntityStore::row_eq(s1, s2, j));
                    assert(j != p);
                }
            }
            assert forall|e: int|
                0 <= e < self.store.n() && (#[trigger] self.store.positions@[e]) is Some
                    implies in_bounds_pt(
                (self.store.positions@[e].unwrap().x as int,
                self.store.positions@[e].unwrap().y as int),
            ) by {
                if e != p && e < s0.n() {
                    assert(EntityStore::row_eq(s1, s2, e));
                    if EntityStore::doomed(to_delete@, e) {
                        assert(s1.row_blank(e));
                    } else {
                        assert(EntityStore::row_eq(s0, s1, e));
                    }
                } else if e >= s0.n() {
                    assert(spawned_row_ok(s2, e));
                    assert(EntityStore::row_eq(s2, self.store, e));
                }
            }
            assert forall|e: int|
                0 <= e < self.store.n() && (#[trigger] self.store.combat_stats@[e]) is Some
                    implies self.store.names@[e] is Some by {
                if e == p {
                } else if e < s0.n() {
                    assert(EntityStore::row_eq(s1, s2, e));
                    if EntityStore::doomed(to_delete@, e) {
                        assert(s1.row_blank(e));
                    } else {
                        assert(EntityStore::row_eq(s0, s1, e));
                    }
                } else {
                    assert(spawned_row_ok(s2, e));
                    assert(EntityStore::row_eq(s2, self.store, e));
                }
            }
            assert forall|e: int|
                0 <= e < self.store.n() implies ((#[trigger] self.store.wants_melee@[e]) is Some ==> self.store.wants_melee@[e].unwrap().target < self.store.n()) by {
                if e == p {
                } else if e < s0.n() {
                    assert(EntityStore::row_eq(s1, s2, e));
                    if EntityStore::doomed(to_delete@, e) {
                        assert(s1.row_blank(e));
                    } else {
                        assert(EntityStore::row_eq(s0, s1, e));
                    }
                } else {
                    assert(spawned_row_ok(s2, e));
                    assert(EntityStore::row_eq(s2, self.store, e));
                }
            }
            assert forall|e: int|
                0 <= e < self.store.n() implies ((#[trigger] self.store.wants_pickup@[e]) is Some ==> self.store.wants_pickup@[e].unwrap().item < self.store.n() && self.store.wants_pickup@[e].unwrap().collected_by < self.store.n()) by {
                if e == p {
                } else if e < s0.n() {
                    assert(EntityStore::row_eq(s1, s2, e));
                    if EntityStore::doomed(to_delete@, e) {
                        assert(s1.row_blank(e));
                    } else {
                        assert(EntityStore::row_eq(s0, s1, e));
                    }
                } else {
                    assert(spawned_row_ok(s2, e));
                    assert(EntityStore::row_eq(s2, self.store, e));
                }
            }
            assert forall|e: int|
                0 <= e < self.store.n() implies ((#[trigger] self.store.wants_use@[e]) is Some ==> self.store.wants_use@[e].unwrap().item < self.store.n() && (self.store.wants_use@[e].unwrap().target is Some ==> in_bounds_pt((self.store.wants_use@[e].unwrap().target.unwrap().x as int, self.store.wants_use@[e].unwrap().target.unwrap().y as int)))) by {
                if e == p {
                } else if e < s0.n() {
                    assert(EntityStore::row_eq(s1, s2, e));
                    if EntityStore::doomed(to_delete@, e) {
                        assert(s1.row_blank(e));
                    } else {
                        assert(EntityStore::row_eq(s0, s1, e));
                    }
                } else {
                    assert(spawned_row_ok(s2, e));
                    assert(EntityStore::row_eq(s2, self.store, e));
                }
            }
            assert forall|e: int|
                0 <= e < self.store.n() implies ((#[trigger] self.store.wants_drop@[e]) is Some ==> self.store.wants_drop@[e].unwrap().item < self.store.n()) by {
                if e == p {
                } else if e < s0.n() {
                    assert(EntityStore::row_eq(s1, s2, e));
                    if EntityStore::doomed(to_delete@, e) {
                        assert(s1.row_blank(e));
                    } else {
                        assert(EntityStore::row_eq(s0, s1, e));
                    }
                } else {
                    assert(spawned_row_ok(s2, e));
                    assert(EntityStore::row_eq(s2, self.store, e));
                }
            }
            assert forall|e: int|
                0 <= e < self.store.n() implies ((#[trigger] self.store.in_backpack@[e]) is Some ==> self.store.in_backpack@[e].unwrap().owner < self.store.n()) by {
                if e == p {
                } else if e < s0.n() {
                    assert(EntityStore::row_eq(s1, s2, e));
                    if EntityStore::doomed(to_delete@, e) {
                        assert(s1.row_blank(e));
                    } else {
                        assert(EntityStore::row_eq(s0, s1, e));
                    }
                } else {
                    assert(spawned_row_ok(s2, e));
                    assert(EntityStore::row_eq(s2, self.store, e));
                }
            }
            assert forall|t: int, k: int|
                0 <= t < 3440 && 0 <= k < self.map.tile_content@[t]@.len() implies (
            self.map.tile_content@[t]@[k]) < self.store.n() by {
                assert(self.map.tile_content@[t]@.len() == 0);
            }
            assert forall|e: int|
                s0.n() <= e < self.store.n() implies spawned_row_ok(self.store, e) by {
                assert(spawned_row_ok(s2, e));
                assert(EntityStore::row_eq(s2, self.store, e));
            }
            assert forall|e: int|
                0 <= e < self.store.n() && (#[trigger] self.store.players@[e]) implies e == p by {
                if e < s0.n() {
                    assert(EntityStore::row_eq(s1, s2, e));
                    if EntityStore::doomed(to_delete@, e) {
                        assert(s1.row_blank(e));
                    } else {
                        assert(EntityStore::row_eq(s0, s1, e));
                    }
                } else {
                    assert(spawned_row_ok(s2, e));
                    assert(EntityStore::row_eq(s2, self.store, e));
                }
            }
        }
    }
}


/// The phase a completed tick hands back: the fixed advance per phase,
/// then the player-death override, which wipes to the default main
/// menu whatever transition was otherwise computed.
pub fn tick_transition(cur: RunState, computed: RunState, player_died: bool) -> (r: RunState)
    ensures
        r == (if player_died {
            default_run_state()
        } else {
            match cur {
                RunState::PreRun => RunState::AwaitingInput,
                RunState::PlayerTurn => RunState::MonsterTurn,
                RunState::MonsterTurn => RunState::AwaitingInput,
                RunState::SaveGame => (RunState::MainMenu {
                    menu_selection: MainMenuSelection::LoadGame,
                }),
                RunState::NextLevel => RunState::PreRun,
                _ => computed,
            }
        }),
{
    if player_died {
        return RunState::MainMenu { menu_selection: MainMenuSelection::NewGame };
    }
    match cur {
        RunState::PreRun => RunState::AwaitingInput,
        RunState::PlayerTurn => RunState::MonsterTurn,
        RunState::MonsterTurn => RunState::AwaitingInput,
        RunState::SaveGame => RunState::MainMenu { menu_selection: MainMenuSelection::LoadGame },
        RunState::NextLevel => RunState::PreRun,
        _ => computed,
    }
}

} // verus!
