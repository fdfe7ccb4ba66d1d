use vstd::prelude::*;
use crate::components::{
    AreaOfEffect, CombatStats, Confusion, InBackpack, InflictsDamage, Name, Point, Position,
    ProvidesHealing, Ranged, Renderable, SufferDamage, Viewshed, WantsToDropItem, WantsToMelee,
    WantsToPickupItem, WantsToUseItem,
};
use crate::map::{GameMap, MAX_DEPTH, SIZE, filled_contents, in_bounds_pt};
use crate::state::{State, melee_intents_ok};

verus! {

/// Marks an entity as part of the persisted population. Every gameplay
/// entity carries it; it exists so the save schema can name it.
#[derive(Clone, Copy, PartialEq, Eq, Structural, Debug)]
pub struct SerializeMe;

/// The synthetic record that carries a full copy of the current map
/// inside the save artifact.
pub struct SerializationHelper {
    pub map: GameMap,
}

/// The save artifact's contents: every entity row of the store, column
/// by column, plus the helper record holding the map. The per-tile
/// occupant index is not persisted.
pub struct SaveData {
    pub alive: Vec<bool>,
    pub positions: Vec<Option<Position>>,
    pub renderables: Vec<Option<Renderable>>,
    pub players: Vec<bool>,
    pub viewsheds: Vec<Option<Viewshed>>,
    pub monsters: Vec<bool>,
    pub names: Vec<Option<Name>>,
    pub blocks_tile: Vec<bool>,
    pub combat_stats: Vec<Option<CombatStats>>,
    pub wants_melee: Vec<Option<WantsToMelee>>,
    pub suffer_damage: Vec<Option<SufferDamage>>,
    pub items: Vec<bool>,
    pub provides_healing: Vec<Option<ProvidesHealing>>,
    pub in_backpack: Vec<Option<InBackpack>>,
    pub wants_pickup: Vec<Option<WantsToPickupItem>>,
    pub wants_use: Vec<Option<WantsToUseItem>>,
    pub wants_drop: Vec<Option<WantsToDropItem>>,
    pub consumables: Vec<bool>,
    pub ranged: Vec<Option<Ranged>>,
    pub inflicts_damage: Vec<Option<InflictsDamage>>,
    pub aoe: Vec<Option<AreaOfEffect>>,
    pub confusion: Vec<Option<Confusion>>,
    pub helper: SerializationHelper,
}

/// Two optional names hold the same text.
pub open spec fn names_match(a: Seq<Option<Name>>, b: Seq<Option<Name>>) -> bool {
    &&& a.len() == b.len()
    &&& forall|j: int|
        0 <= j < a.len() ==> ((#[trigger] a[j]) is Some == (#[trigger] b[j]) is Some && (a[j]
            is Some ==> a[j].unwrap().name@ == b[j].unwrap().name@))
}

/// Two optional viewsheds hold the same tiles, range and flag.
pub open spec fn viewsheds_match(a: Seq<Option<Viewshed>>, b: Seq<Option<Viewshed>>) -> bool {
    &&& a.len() == b.len()
    &&& forall|j: int|
        0 <= j < a.len() ==> ((#[trigger] a[j]) is Some == (#[trigger] b[j]) is Some && (a[j]
            is Some ==> a[j].unwrap().visible_tiles@ == b[j].unwrap().visible_tiles@ && a[
            j
        ].unwrap().range == b[j].unwrap().range && a[j].unwrap().dirty == b[j].unwrap().dirty))
}

/// Two optional pending-damage lists hold the same amounts.
pub open spec fn suffer_match(a: Seq<Option<SufferDamage>>, b: Seq<Option<SufferDamage>>) -> bool {
    &&& a.len() == b.len()
    &&& forall|j: int|
        0 <= j < a.len() ==> ((#[trigger] a[j]) is Some == (#[trigger] b[j]) is Some && (a[j]
            is Some ==> a[j].unwrap().amount@ == b[j].unwrap().amount@))
}

/// The artifact `d` is a faithful snapshot of the simulation `s`: every
/// component column matches, and the helper carries the map (its
/// occupant index excepted).
pub open spec fn snapshot_of(d: SaveData, s: State) -> bool {
    &&& d.alive@ == s.store.alive@
    &&& d.positions@ == s.store.positions@
    &&& d.renderables@ == s.store.renderables@
    &&& d.players@ == s.store.players@
    &&& viewsheds_match(d.viewsheds@, s.store.viewsheds@)
    &&& d.monsters@ == s.store.monsters@
    &&& names_match(d.names@, s.store.names@)
    &&& d.blocks_tile@ == s.store.blocks_tile@
    &&& d.combat_stats@ == s.store.combat_stats@
    &&& d.wants_melee@ == s.store.wants_melee@
    &&& suffer_match(d.suffer_damage@, s.store.suffer_damage@)
    &&& d.items@ == s.store.items@
    &&& d.provides_healing@ == s.store.provides_healing@
    &&& d.in_backpack@ == s.store.in_backpack@
    &&& d.wants_pickup@ == s.store.wants_pickup@
    &&& d.wants_use@ == s.store.wants_use@
    &&& d.wants_drop@ == s.store.wants_drop@
    &&& d.consumables@ == s.store.consumables@
    &&& d.ranged@ == s.store.ranged@
    &&& d.inflicts_damage@ == s.store.inflicts_damage@
    &&& d.confusion@ == s.store.confusion@
    &&& d.aoe@ == s.store.aoe@
    &&& d.helper.map.tiles@ == s.map.tiles@
    &&& d.helper.map.rooms@ == s.map.rooms@
    &&& d.helper.map.width == s.map.width
    &&& d.helper.map.height == s.map.height
    &&& d.helper.map.revealed_tiles@ == s.map.revealed_tiles@
    &&& d.helper.map.visible_tiles@ == s.map.visible_tiles@
    &&& d.helper.map.blocked@ == s.map.blocked@
    &&& d.helper.map.depth == s.map.depth
}

fn copy_vec<T: Copy>(v: &Vec<T>) -> (r: Vec<T>)
    ensures
        r@ == v@,
{
    let mut out: Vec<T> = Vec::new();
    let mut i: usize = 0;
    while i < v.len()
        invariant
            0 <= i <= v@.len(),
            out@ == v@.subrange(0, i as int),
        decreases v@.len() - i,
    {
        out.push(v[i]);
        i = i + 1;
    }
    proof {
        assert(out@ =~= v@);
    }
    out
}

fn copy_names(v: &Vec<Option<Name>>) -> (r: Vec<Option<Name>>)
    ensures
        names_match(r@, v@),
{
    let mut out: Vec<Option<Name>> = Vec::new();
    let mut i: usize = 0;
    while i < v.len()
        invariant
            0 <= i <= v@.len(),
            out@.len() == i,
            forall|j: int|
                0 <= j < i ==> ((#[trigger] out@[j]) is Some == (#[trigger] v@[j]) is Some && (
                out@[j] is Some ==> out@[j].unwrap().name@ == v@[j].unwrap().name@)),
        decreases v@.len() - i,
    {
        let c = match &v[i] {
            Some(n) => Some(n.copy()),
            None => None,
        };
        out.push(c);
        i = i + 1;
    }
    out
}

fn copy_viewsheds(v: &Vec<Option<Viewshed>>) -> (r: Vec<Option<Viewshed>>)
    ensures
        viewsheds_match(r@, v@),
{
    let mut out: Vec<Option<Viewshed>> = Vec::new();
    let mut i: usize = 0;
    while i < v.len()
        invariant
            0 <= i <= v@.len(),
            out@.len() == i,
            forall|j: int|
                0 <= j < i ==> ((#[trigger] out@[j]) is Some == (#[trigger] v@[j]) is Some && (
                out@[j] is Some ==> out@[j].unwrap().visible_tiles@ == v@[
                    j
                ].unwrap().visible_tiles@ && out@[j].unwrap().range == v@[j].unwrap().range
                    && out@[j].unwrap().dirty == v@[j].unwrap().dirty)),
        decreases v@.len() - i,
    {
        let c = match &v[i] {
            Some(n) => Some(n.copy()),
            None => None,
        };
        out.push(c);
        i = i + 1;
    }
    out
}

fn copy_suffer(v: &Vec<Option<SufferDamage>>) -> (r: Vec<Option<SufferDamage>>)
    ensures
        suffer_match(r@, v@),
{
    let mut out: Vec<Option<SufferDamage>> = Vec::new();
    let mut i: usize = 0;
    while i < v.len()
        invariant
            0 <= i <= v@.len(),
            out@.len() == i,
            forall|j: int|
                0 <= j < i ==> ((#[trigger] out@[j]) is Some == (#[trigger] v@[j]) is Some && (
                out@[j] is Some ==> out@[j].unwrap().amount@ == v@[j].unwrap().amount@)),
        decreases v@.len() - i,
    {
        let c = match &v[i] {
            Some(n) => Some(n.copy()),
            None => None,
        };
        out.push(c);
        i = i + 1;
    }
    out
}

impl GameMap {
    /// A copy of the level with a fresh, empty occupant index (the
    /// index is rebuilt every turn and never persisted).
    pub fn copy_for_save(&self) -> (r: GameMap)
        ensures
            r.tiles@ == self.tiles@,
            r.rooms@ == self.rooms@,
            r.width == self.width,
            r.height == self.height,
            r.revealed_tiles@ == self.revealed_tiles@,
            r.visible_tiles@ == self.visible_tiles@,
            r.blocked@ == self.blocked@,
            r.depth == self.depth,
            r.tile_content@.len() == 3440,
            forall|j: int| 0 <= j < 3440 ==> (#[trigger] r.tile_content@[j])@.len() == 0,
    {
        GameMap {
            tiles: copy_vec(&self.tiles),
            rooms: copy_vec(&self.rooms),
            width: self.width,
            height: self.height,
            revealed_tiles: copy_vec(&self.revealed_tiles),
            visible_tiles: copy_vec(&self.visible_tiles),
            blocked: copy_vec(&self.blocked),
            depth: self.depth,
            tile_content: filled_contents(SIZE),
        }
    }
}

/// Snapshot the whole entity population and the current map into a save
/// artifact. The simulation itself is untouched.
pub fn save_store(state: &State) -> (r: SaveData)
    ensures
        snapshot_of(r, *state),
        (state.inv() && melee_intents_ok(state.store) && state.store.positions@[state.player_entity as int] is Some) ==> valid_save_data(r),
{
    let data = SaveData {
        alive: copy_vec(&state.store.alive),
        positions: copy_vec(&state.store.positions),
        renderables: copy_vec(&state.store.renderables),
        players: copy_vec(&state.store.players),
        viewsheds: copy_viewsheds(&state.store.viewsheds),
        monsters: copy_vec(&state.store.monsters),
        names: copy_names(&state.store.names),
        blocks_tile: copy_vec(&state.store.blocks_tile),
        combat_stats: copy_vec(&state.store.combat_stats),
        wants_melee: copy_vec(&state.store.wants_melee),
        suffer_damage: copy_suffer(&state.store.suffer_damage),
        items: copy_vec(&state.store.items),
        provides_healing: copy_vec(&state.store.provides_healing),
        in_backpack: copy_vec(&state.store.in_backpack),
        wants_pickup: copy_vec(&state.store.wants_pickup),
        wants_use: copy_vec(&state.store.wants_use),
        wants_drop: copy_vec(&state.store.wants_drop),
        consumables: copy_vec(&state.store.consumables),
        ranged: copy_vec(&state.store.ranged),
        inflicts_damage: copy_vec(&state.store.inflicts_damage),
        aoe: copy_vec(&state.store.aoe),
        confusion: copy_vec(&state.store.confusion),
        helper: (SerializationHelper { map: state.map.copy_for_save() }),
    };
    proof {
        if state.inv() && melee_intents_ok(state.store) && state.store.positions@[state.player_entity as int] is Some {
            lemma_snapshot_valid(*state, data);
        }
    }
    data
}


/// The column lengths of the artifact agree.
pub open spec fn lens_ok(d: SaveData) -> bool {
    let n = d.alive@.len() as int;
    &&& d.positions@.len() == n
    &&& d.renderables@.len() == n
    &&& d.players@.len() == n
    &&& d.viewsheds@.len() == n
    &&& d.monsters@.len() == n
    &&& d.names@.len() == n
    &&& d.blocks_tile@.len() == n
    &&& d.combat_stats@.len() == n
    &&& d.wants_melee@.len() == n
    &&& d.suffer_damage@.len() == n
    &&& d.items@.len() == n
    &&& d.provides_healing@.len() == n
    &&& d.in_backpack@.len() == n
    &&& d.wants_pickup@.len() == n
    &&& d.wants_use@.len() == n
    &&& d.wants_drop@.len() == n
    &&& d.consumables@.len() == n
    &&& d.ranged@.len() == n
    &&& d.inflicts_damage@.len() == n
    &&& d.aoe@.len() == n
    &&& d.confusion@.len() == n
}

/// Row `j` of the artifact is internally consistent: positions on the
/// map, references into the population, fightable melee targets, named
/// combatants.
pub open spec fn row_ok(d: SaveData, j: int) -> bool {
    let n = d.alive@.len() as int;
    &&& (d.positions@[j] is Some ==> in_bounds_pt(
        (d.positions@[j].unwrap().x as int, d.positions@[j].unwrap().y as int),
    ))
    &&& (d.combat_stats@[j] is Some ==> d.names@[j] is Some)
    &&& (d.wants_melee@[j] is Some ==> {
        &&& d.wants_melee@[j].unwrap().target < n
        &&& d.combat_stats@[d.wants_melee@[j].unwrap().target as int] is Some
        &&& d.names@[d.wants_melee@[j].unwrap().target as int] is Some
    })
    &&& (d.wants_pickup@[j] is Some ==> d.wants_pickup@[j].unwrap().item < n
        && d.wants_pickup@[j].unwrap().collected_by < n)
    &&& (d.wants_use@[j] is Some ==> d.wants_use@[j].unwrap().item < n && (d.wants_use@[
        j
    ].unwrap().target is Some ==> in_bounds_pt(
        (
            d.wants_use@[j].unwrap().target.unwrap().x as int,
            d.wants_use@[j].unwrap().target.unwrap().y as int,
        ),
    )))
    &&& (d.wants_drop@[j] is Some ==> d.wants_drop@[j].unwrap().item < n)
    &&& (d.in_backpack@[j] is Some ==> d.in_backpack@[j].unwrap().owner < n)
}

pub open spec fn rows_ok(d: SaveData) -> bool {
    forall|j: int| 0 <= j < d.alive@.len() ==> #[trigger] row_ok(d, j)
}

/// Entity `p` is the artifact's one player: alive, placed, and not a
/// consumable; nothing else carries the player tag.
pub open spec fn player_ok_at(d: SaveData, p: int) -> bool {
    &&& 0 <= p < d.alive@.len()
    &&& d.players@[p]
    &&& d.alive@[p]
    &&& d.positions@[p] is Some
    &&& !d.consumables@[p]
    &&& forall|j: int| 0 <= j < d.alive@.len() && (#[trigger] d.players@[j]) ==> j == p
}

pub open spec fn player_ok(d: SaveData) -> bool {
    exists|p: int| #[trigger] player_ok_at(d, p)
}

/// The helper's map is a well-formed level.
pub open spec fn map_ok(m: GameMap) -> bool {
    &&& m.width == 80
    &&& m.height == 43
    &&& m.tiles@.len() == 3440
    &&& m.revealed_tiles@.len() == 3440
    &&& m.visible_tiles@.len() == 3440
    &&& m.blocked@.len() == 3440
    &&& m.rooms@.len() >= 1
    &&& forall|i: int| 0 <= i < m.rooms@.len() ==> (#[trigger] m.rooms@[i]).wf_room()
    &&& 1 <= m.depth <= MAX_DEPTH
}

/// A loadable artifact: consistent lengths, consistent rows, one
/// player, a well-formed map.
pub open spec fn valid_save_data(d: SaveData) -> bool {
    &&& lens_ok(d)
    &&& rows_ok(d)
    &&& player_ok(d)
    &&& map_ok(d.helper.map)
}

fn check_lens(d: &SaveData) -> (r: bool)
    ensures
        r == lens_ok(*d),
{
    let n = d.alive.len();
    d.positions.len() == n && d.renderables.len() == n && d.players.len() == n
        && d.viewsheds.len() == n && d.monsters.len() == n && d.names.len() == n
        && d.blocks_tile.len() == n && d.combat_stats.len() == n && d.wants_melee.len() == n
        && d.suffer_damage.len() == n && d.items.len() == n && d.provides_healing.len() == n
        && d.in_backpack.len() == n && d.wants_pickup.len() == n && d.wants_use.len() == n
        && d.wants_drop.len() == n && d.consumables.len() == n && d.ranged.len() == n
        && d.inflicts_damage.len() == n && d.aoe.len() == n && d.confusion.len() == n
}

#[verifier::rlimit(100)]
fn check_rows(d: &SaveData) -> (r: bool)
    requires
        lens_ok(*d),
    ensures
        r == rows_ok(*d),
{
    let n = d.alive.len();
    let mut j: usize = 0;
    while j < n
        invariant
            lens_ok(*d),
            n == d.alive@.len(),
            0 <= j <= n,
            forall|k: int| 0 <= k < j ==> #[trigger] row_ok(*d, k),
        decreases n - j,
    {
        if let Some(p) = d.positions[j] {
            if p.x < 0 || p.x >= 80 || p.y < 0 || p.y >= 43 {
                proof {
                    assert(!row_ok(*d, j as int));
                }
                return false;
            }
        }
        if d.combat_stats[j].is_some() && d.names[j].is_none() {
            proof {
                    assert(!row_ok(*d, j as int));
                }
                return false;
        }
        if let Some(wm) = d.wants_melee[j] {
            if wm.target >= n {
                proof {
                    assert(!row_ok(*d, j as int));
                }
                return false;
            }
            if d.combat_stats[wm.target].is_none() || d.names[wm.target].is_none() {
                proof {
                    assert(!row_ok(*d, j as int));
                }
                return false;
            }
        }
        if let Some(wp) = d.wants_pickup[j] {
            if wp.item >= n || wp.collected_by >= n {
                proof {
                    assert(!row_ok(*d, j as int));
                }
                return false;
            }
        }
        if let Some(wu) = d.wants_use[j] {
            if wu.item >= n {
                proof {
                    assert(!row_ok(*d, j as int));
                }
                return false;
            }
            if let Some(t) = wu.target {
                if t.x < 0 || t.x >= 80 || t.y < 0 || t.y >= 43 {
                    proof {
                    assert(!row_ok(*d, j as int));
                }
                return false;
                }
            }
        }
        if let Some(wd) = d.wants_drop[j] {
            if wd.item >= n {
                proof {
                    assert(!row_ok(*d, j as int));
                }
                return false;
            }
        }
        if let Some(bp) = d.in_backpack[j] {
            if bp.owner >= n {
                proof {
                    assert(!row_ok(*d, j as int));
                }
                return false;
            }
        }
        proof {
            assert(row_ok(*d, j as int));
        }
        j = j + 1;
    }
    true
}

fn find_unique_player(d: &SaveData) -> (r: Option<usize>)
    requires
        lens_ok(*d),
    ensures
        r is Some ==> player_ok_at(*d, r.unwrap() as int),
        r is None ==> !player_ok(*d),
{
    let n = d.alive.len();
    let mut found: Option<usize> = None;
    let mut j: usize = 0;
    while j < n
        invariant
            lens_ok(*d),
            n == d.alive@.len(),
            0 <= j <= n,
            match found {
                Some(p) => {
                    &&& p < n
                    &&& (p as int) < j as int
                    &&& d.players@[p as int]
                    &&& d.alive@[p as int]
                    &&& d.positions@[p as int] is Some
                    &&& !d.consumables@[p as int]
                    &&& forall|k: int| 0 <= k < j && (#[trigger] d.players@[k]) ==> k == p
                },
                None => forall|k: int| 0 <= k < j ==> !(#[trigger] d.players@[k]),
            },
        decreases n - j,
    {
        if d.players[j] {
            if found.is_some() {
                proof {
                    let p0 = found.unwrap() as int;
                    assert forall|p: int| !player_ok_at(*d, p) by {
                        if player_ok_at(*d, p) {
                            assert(d.players@[p0]);
                            assert(d.players@[j as int]);
                        }
                    }
                }
                return None;
            }
            if !(d.alive[j] && d.positions[j].is_some() && !d.consumables[j]) {
                proof {
                    assert forall|p: int| !player_ok_at(*d, p) by {
                        if player_ok_at(*d, p) {
                            assert(d.players@[j as int]);
                            assert(p == j as int);
                            assert(d.alive@[p] && d.positions@[p] is Some && !d.consumables@[p]);
                            assert(false);
                        }
                    }
                }
                return None;
            }
            found = Some(j);
        }
        j = j + 1;
    }
    match found {
        Some(p) => {
            proof {
                assert(player_ok_at(*d, p as int));
            }
            Some(p)
        },
        None => {
            proof {
                assert forall|p: int| !player_ok_at(*d, p) by {
                    if player_ok_at(*d, p) {
                        assert(d.players@[p]);
                    }
                }
            }
            None
        },
    }
}

fn check_map(m: &GameMap) -> (r: bool)
    ensures
        r == map_ok(*m),
{
    if !(m.width == 80 && m.height == 43 && m.tiles.len() == SIZE && m.revealed_tiles.len()
        == SIZE && m.visible_tiles.len() == SIZE && m.blocked.len() == SIZE && m.rooms.len()
        >= 1 && m.depth >= 1 && m.depth <= MAX_DEPTH) {
        return false;
    }
    let mut i: usize = 0;
    while i < m.rooms.len()
        invariant
            0 <= i <= m.rooms@.len(),
            forall|k: int| 0 <= k < i ==> (#[trigger] m.rooms@[k]).wf_room(),
        decreases m.rooms@.len() - i,
    {
        let room = m.rooms[i];
        if !(room.x1 >= 0 && (room.x1 as i64) + 2 <= room.x2 as i64 && room.x2 <= 78
            && room.y1 >= 0 && (room.y1 as i64) + 2 <= room.y2 as i64 && room.y2 <= 41) {
            return false;
        }
        i = i + 1;
    }
    true
}

/// The simulation `s2` holds exactly what the artifact `d` describes:
/// the store columns verbatim, the helper's map with a freshly emptied
/// occupant index, and the artifact's player as the player reference.
pub open spec fn restored_from(s2: State, d: SaveData) -> bool {
    &&& s2.store.alive@ == d.alive@
    &&& s2.store.positions@ == d.positions@
    &&& s2.store.renderables@ == d.renderables@
    &&& s2.store.players@ == d.players@
    &&& s2.store.viewsheds@ == d.viewsheds@
    &&& s2.store.monsters@ == d.monsters@
    &&& s2.store.names@ == d.names@
    &&& s2.store.blocks_tile@ == d.blocks_tile@
    &&& s2.store.combat_stats@ == d.combat_stats@
    &&& s2.store.wants_melee@ == d.wants_melee@
    &&& s2.store.suffer_damage@ == d.suffer_damage@
    &&& s2.store.items@ == d.items@
    &&& s2.store.provides_healing@ == d.provides_healing@
    &&& s2.store.in_backpack@ == d.in_backpack@
    &&& s2.store.wants_pickup@ == d.wants_pickup@
    &&& s2.store.wants_use@ == d.wants_use@
    &&& s2.store.wants_drop@ == d.wants_drop@
    &&& s2.store.consumables@ == d.consumables@
    &&& s2.store.ranged@ == d.ranged@
    &&& s2.store.inflicts_damage@ == d.inflicts_damage@
    &&& s2.store.aoe@ == d.aoe@
    &&& s2.store.confusion@ == d.confusion@
    &&& s2.store.pending_delete@.len() == 0
    &&& s2.map.tiles@ == d.helper.map.tiles@
    &&& s2.map.rooms@ == d.helper.map.rooms@
    &&& s2.map.width == d.helper.map.width
    &&& s2.map.height == d.helper.map.height
    &&& s2.map.revealed_tiles@ == d.helper.map.revealed_tiles@
    &&& s2.map.visible_tiles@ == d.helper.map.visible_tiles@
    &&& s2.map.blocked@ == d.helper.map.blocked@
    &&& s2.map.depth == d.helper.map.depth
    &&& forall|j: int| 0 <= j < 3440 ==> (#[trigger] s2.map.tile_content@[j])@.len() == 0
    &&& player_ok_at(d, s2.player_entity as int)
    &&& s2.player_data.position == (Point {
        x: d.positions@[s2.player_entity as int].unwrap().x,
        y: d.positions@[s2.player_entity as int].unwrap().y,
    })
}

/// Restore the whole population and map from a save artifact. A
/// malformed artifact is rejected whole: the simulation is untouched
/// and `false` comes back — the caller treats that as an unrecoverable
/// load failure.
pub fn load_store(state: &mut State, data: SaveData) -> (r: bool)
    ensures
        r == valid_save_data(data),
        r ==> final(state).inv() && melee_intents_ok(final(state).store) && restored_from(
            *final(state),
            data,
        ) && final(state).run_state == old(state).run_state && final(state).log == old(
            state,
        ).log,
        !r ==> *final(state) == *old(state),
{
    if !check_lens(&data) {
        return false;
    }
    if !check_rows(&data) {
        return false;
    }
    let player = match find_unique_player(&data) {
        Some(p) => p,
        None => {
            return false;
        },
    };
    if !check_map(&data.helper.map) {
        return false;
    }

    let ppos = data.positions[player].unwrap();
    state.store = crate::store::EntityStore {
        alive: data.alive,
        positions: data.positions,
        renderables: data.renderables,
        players: data.players,
        viewsheds: data.viewsheds,
        monsters: data.monsters,
        names: data.names,
        blocks_tile: data.blocks_tile,
        combat_stats: data.combat_stats,
        wants_melee: data.wants_melee,
        suffer_damage: data.suffer_damage,
        items: data.items,
        provides_healing: data.provides_healing,
        in_backpack: data.in_backpack,
        wants_pickup: data.wants_pickup,
        wants_use: data.wants_use,
        wants_drop: data.wants_drop,
        consumables: data.consumables,
        ranged: data.ranged,
        inflicts_damage: data.inflicts_damage,
        aoe: data.aoe,
        confusion: data.confusion,
        pending_delete: Vec::new(),
    };
    state.map = GameMap {
        tiles: data.helper.map.tiles,
        rooms: data.helper.map.rooms,
        width: data.helper.map.width,
        height: data.helper.map.height,
        revealed_tiles: data.helper.map.revealed_tiles,
        visible_tiles: data.helper.map.visible_tiles,
        blocked: data.helper.map.blocked,
        depth: data.helper.map.depth,
        tile_content: filled_contents(SIZE),
    };
    state.player_entity = player;
    state.player_data = crate::state::PlayerData::new(ppos.x, ppos.y);
    proof {
        assert(player_ok_at(data, player as int));
        assert(row_ok(data, player as int));
        assert forall|e: int|
            0 <= e < state.store.n() && (#[trigger] state.store.positions@[e]) is Some implies
            in_bounds_pt(
            (state.store.positions@[e].unwrap().x as int,
            state.store.positions@[e].unwrap().y as int),
        ) by {
            assert(row_ok(data, e));
        }
        assert forall|e: int|
            0 <= e < state.store.n() && (#[trigger] state.store.combat_stats@[e]) is Some implies
            state.store.names@[e] is Some by {
            assert(row_ok(data, e));
        }
        assert forall|e: int|
            0 <= e < state.store.n() && (#[trigger] state.store.wants_melee@[e]) is Some implies {
            &&& state.store.wants_melee@[e].unwrap().target < state.store.n()
            &&& state.store.combat_stats@[state.store.wants_melee@[e].unwrap().target as int]
                is Some
            &&& state.store.names@[state.store.wants_melee@[e].unwrap().target as int] is Some
        } by {
            assert(row_ok(data, e));
        }
        assert forall|e: int|
            0 <= e < state.store.n() && (#[trigger] state.store.wants_pickup@[e]) is Some implies
            state.store.wants_pickup@[e].unwrap().item < state.store.n()
            && state.store.wants_pickup@[e].unwrap().collected_by < state.store.n() by {
            assert(row_ok(data, e));
        }
        assert forall|e: int|
            0 <= e < state.store.n() && (#[trigger] state.store.wants_use@[e]) is Some implies
            state.store.wants_use@[e].unwrap().item < state.store.n() && (
        state.store.wants_use@[e].unwrap().target is Some ==> in_bounds_pt(
            (state.store.wants_use@[e].unwrap().target.unwrap().x as int,
            state.store.wants_use@[e].unwrap().target.unwrap().y as int),
        )) by {
            assert(row_ok(data, e));
        }
        assert forall|e: int|
            0 <= e < state.store.n() && (#[trigger] state.store.wants_drop@[e]) is Some implies
            state.store.wants_drop@[e].unwrap().item < state.store.n() by {
            assert(row_ok(data, e));
        }
        assert forall|e: int|
            0 <= e < state.store.n() && (#[trigger] state.store.in_backpack@[e]) is Some implies
            state.store.in_backpack@[e].unwrap().owner < state.store.n() by {
            assert(row_ok(data, e));
        }
        assert forall|t: int, k: int|
            0 <= t < 3440 && 0 <= k < state.map.tile_content@[t]@.len() implies (
        state.map.tile_content@[t]@[k]) < state.store.n() by {
            assert(state.map.tile_content@[t]@.len() == 0);
        }
    }
    true
}

/// Loading a faithful snapshot restores the simulation it was taken
/// from: the same entities with the same component values, the same
/// map (its never-persisted occupant index aside), and the same player
/// reference.
pub proof fn lemma_save_load_round_trip(s: State, d: SaveData, s2: State)
    requires
        s.inv(),
        snapshot_of(d, s),
        restored_from(s2, d),
    ensures
        s2.store.alive@ == s.store.alive@,
        s2.store.positions@ == s.store.positions@,
        s2.store.renderables@ == s.store.renderables@,
        s2.store.players@ == s.store.players@,
        viewsheds_match(s2.store.viewsheds@, s.store.viewsheds@),
        s2.store.monsters@ == s.store.monsters@,
        names_match(s2.store.names@, s.store.names@),
        s2.store.blocks_tile@ == s.store.blocks_tile@,
        s2.store.combat_stats@ == s.store.combat_stats@,
        s2.store.wants_melee@ == s.store.wants_melee@,
        suffer_match(s2.store.suffer_damage@, s.store.suffer_damage@),
        s2.store.items@ == s.store.items@,
        s2.store.provides_healing@ == s.store.provides_healing@,
        s2.store.in_backpack@ == s.store.in_backpack@,
        s2.store.wants_pickup@ == s.store.wants_pickup@,
        s2.store.wants_use@ == s.store.wants_use@,
        s2.store.wants_drop@ == s.store.wants_drop@,
        s2.store.consumables@ == s.store.consumables@,
        s2.store.ranged@ == s.store.ranged@,
        s2.store.inflicts_damage@ == s.store.inflicts_damage@,
        s2.store.aoe@ == s.store.aoe@,
        s2.store.confusion@ == s.store.confusion@,
        s2.map.tiles@ == s.map.tiles@,
        s2.map.rooms@ == s.map.rooms@,
        s2.map.revealed_tiles@ == s.map.revealed_tiles@,
        s2.map.visible_tiles@ == s.map.visible_tiles@,
        s2.map.blocked@ == s.map.blocked@,
        s2.map.depth == s.map.depth,
        s2.player_entity == s.player_entity,
{
    assert(player_ok_at(d, s2.player_entity as int));
    assert(d.players@[s2.player_entity as int]);
    assert(s.store.players@[s2.player_entity as int]);
}


/// A snapshot taken of a live session always passes load validation:
/// the session's invariants are exactly what the loader checks. With
/// `lemma_save_load_round_trip`, this closes the save/load round trip
/// without assumption.
pub proof fn lemma_snapshot_valid(s: State, d: SaveData)
    requires
        s.inv(),
        melee_intents_ok(s.store),
        s.store.positions@[s.player_entity as int] is Some,
        snapshot_of(d, s),
    ensures
        valid_save_data(d),
{
    let n = d.alive@.len() as int;
    assert(n == s.store.n());
    assert(lens_ok(d));
    assert forall|j: int| 0 <= j < n implies #[trigger] row_ok(d, j) by {
        assert(d.positions@[j] == s.store.positions@[j]);
        assert(d.combat_stats@[j] == s.store.combat_stats@[j]);
        assert(d.names@[j] is Some == s.store.names@[j] is Some);
        assert(d.wants_melee@[j] == s.store.wants_melee@[j]);
        assert(d.wants_pickup@[j] == s.store.wants_pickup@[j]);
        assert(d.wants_use@[j] == s.store.wants_use@[j]);
        assert(d.wants_drop@[j] == s.store.wants_drop@[j]);
        assert(d.in_backpack@[j] == s.store.in_backpack@[j]);
        if d.wants_melee@[j] is Some {
            let t = s.store.wants_melee@[j].unwrap().target as int;
            assert(s.store.combat_stats@[t] is Some);
            assert(s.store.names@[t] is Some);
            assert(d.names@[t] is Some == s.store.names@[t] is Some);
        }
    }
    let p = s.player_entity as int;
    assert(player_ok_at(d, p)) by {
        assert(d.players@[p] == s.store.players@[p]);
        assert(d.alive@[p] == s.store.alive@[p]);
        assert(d.positions@[p] == s.store.positions@[p]);
        assert(d.consumables@[p] == s.store.consumables@[p]);
        assert forall|j: int| 0 <= j < n && (#[trigger] d.players@[j]) implies j == p by {
            assert(s.store.players@[j]);
        }
    }
    assert(player_ok(d));
    assert(map_ok(d.helper.map));
}

/// Relies on std::path::Path::exists: reports whether the save artifact
/// is present on disk. The answer depends on the file system, so
/// nothing further is assumed of it.
#[verifier::external_body]
pub fn has_save_game() -> (r: bool) {
    std::path::Path::new("./savegame.json").exists()
}

} // verus!
