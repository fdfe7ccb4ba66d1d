use vstd::prelude::*;
use crate::map::{MAX_DEPTH, in_bounds_pt};
use crate::random_table::{RandomTable, SpawnKind};
use crate::rect::Rect;
use crate::rng::GameRng;
use crate::components::Position;
use crate::store::EntityStore;
use crate::templates;

verus! {

pub const MAX_SPAWNS: i32 = 4;

/// Entity `e` was placed by the room spawner: alive, standing on the
/// map, not the player, carrying nothing and wanting nothing.
pub open spec fn spawned_row_ok(s: EntityStore, e: int) -> bool {
    &&& s.alive@[e]
    &&& !s.players@[e]
    &&& s.in_backpack@[e] is None
    &&& s.wants_melee@[e] is None
    &&& s.wants_pickup@[e] is None
    &&& s.wants_use@[e] is None
    &&& s.wants_drop@[e] is None
    &&& s.positions@[e] is Some
    &&& in_bounds_pt((s.positions@[e].unwrap().x as int, s.positions@[e].unwrap().y as int))
    &&& (s.combat_stats@[e] is Some ==> s.names@[e] is Some)
}

/// What a spawning pass guarantees: existing rows untouched, new rows
/// all spawner-placed.
pub open spec fn spawn_bulk_frame(s1: EntityStore, s2: EntityStore) -> bool {
    &&& s2.wf()
    &&& s2.n() >= s1.n()
    &&& forall|j: int| 0 <= j < s1.n() ==> EntityStore::row_eq(s1, s2, j)
    &&& s2.pending_delete@ == s1.pending_delete@
    &&& forall|e: int| s1.n() <= e < s2.n() ==> spawned_row_ok(s2, e)
}


/// Entity `e` is exactly one of the six spawnable rows, standing at
/// `(x, y)`.
pub open spec fn spawned_is_template(s: EntityStore, e: int, x: i32, y: i32) -> bool {
    ||| crate::templates::monster_row(s, e, x, y, 103, "Goblin"@)
    ||| crate::templates::monster_row(s, e, x, y, 111, "Orc"@)
    ||| crate::templates::health_potion_row(s, e, x, y)
    ||| crate::templates::magic_missile_scroll_row(s, e, x, y)
    ||| crate::templates::fireball_scroll_row(s, e, x, y)
    ||| crate::templates::confusion_scroll_row(s, e, x, y)
}

/// Entity `e` is a spawnable row placed strictly inside `room`.
pub open spec fn spawned_in_room(s: EntityStore, e: int, room: Rect) -> bool {
    exists|x: i32, y: i32|
        {
            &&& room.x1 < x <= room.x2
            &&& room.y1 < y <= room.y2
            &&& #[trigger] spawned_is_template(s, e, x, y)
        }
}

/// The level's spawn table: monsters get more likely with depth.
fn room_table(depth: i32) -> (t: RandomTable)
    requires
        1 <= depth <= MAX_DEPTH,
    ensures
        t.wf_table(),
        t.total_weight == 26 + 2 * depth,
        t.entries@.len() == 6,
{
    RandomTable::new().add(SpawnKind::Goblin, 10 + depth).add(SpawnKind::Orc, 1 + depth).add(
        SpawnKind::HealthPotion,
        7,
    ).add(SpawnKind::FireballScroll, 2).add(SpawnKind::ConfusionScroll, 2).add(
        SpawnKind::MagicMissileScroll,
        4,
    )
}

fn contains_point(points: &Vec<(usize, usize)>, x: usize, y: usize) -> (r: bool)
    ensures
        r == exists|k: int| 0 <= k < points@.len() && points@[k] == (x, y),
{
    let mut i: usize = 0;
    while i < points.len()
        invariant
            0 <= i <= points@.len(),
            forall|k: int| 0 <= k < i ==> #[trigger] points@[k] != (x, y),
        decreases points@.len() - i,
    {
        let p = points[i];
        if p.0 == x && p.1 == y {
            assert(points@[i as int] == (x, y));
            return true;
        }
        i = i + 1;
    }
    false
}

/// Pick `amount` distinct cells inside the room's interior, by
/// rejection sampling. Each cell gets a bounded number of redraws so
/// the selection always terminates; a room too crowded to place every
/// cell yields fewer, which the spawner treats as a sparse, non-error
/// outcome. The first cell always lands.
fn select_points(amount: i32, rng: &mut GameRng, room: &Rect) -> (r: Vec<(usize, usize)>)
    requires
        room.wf_room(),
    ensures
        forall|k: int|
            0 <= k < r@.len() ==> {
                &&& room.x1 < (#[trigger] r@[k]).0 <= room.x2
                &&& room.y1 < r@[k].1 <= room.y2
            },
        forall|k1: int, k2: int| 0 <= k1 < k2 < r@.len() ==> (#[trigger] r@[k1]) != (#[trigger] r@[k2]),
        amount >= 1 ==> r@.len() >= 1,
{
    let mut points: Vec<(usize, usize)> = Vec::new();
    let mut i: i32 = 0;
    while i < amount
        invariant
            room.wf_room(),
            forall|k: int|
                0 <= k < points@.len() ==> {
                    &&& room.x1 < (#[trigger] points@[k]).0 <= room.x2
                    &&& room.y1 < points@[k].1 <= room.y2
                },
            forall|k1: int, k2: int|
                0 <= k1 < k2 < points@.len() ==> (#[trigger] points@[k1]) != (#[trigger] points@[k2]),
            i >= 1 ==> points@.len() >= 1,
            i <= amount || amount < 1,
        decreases amount - i,
    {
        let ghost pre_len = points@.len();
        let mut added = false;
        let mut tries: i32 = 0;
        while !added && tries < 100
            invariant
                room.wf_room(),
                0 <= tries <= 100,
                forall|k: int|
                    0 <= k < points@.len() ==> {
                        &&& room.x1 < (#[trigger] points@[k]).0 <= room.x2
                        &&& room.y1 < points@[k].1 <= room.y2
                    },
                forall|k1: int, k2: int|
                    0 <= k1 < k2 < points@.len() ==> (#[trigger] points@[k1]) != (#[trigger] points@[k2]),
                !added ==> points@.len() == pre_len,
                added ==> points@.len() == pre_len + 1,
                (pre_len == 0 && tries >= 1) ==> added,
            decreases 100 - tries,
        {
            tries = tries + 1;
            let x = (room.x1 + rng.roll_dice(1, room.x2 - room.x1)) as usize;
            let y = (room.y1 + rng.roll_dice(1, room.y2 - room.y1)) as usize;
            if !contains_point(&points, x, y) {
                let ghost p_pre = points@;
                points.push((x, y));
                proof {
                    assert forall|k1: int, k2: int|
                        0 <= k1 < k2 < points@.len() implies (#[trigger] points@[k1]) != (#[trigger] points@[k2])
                        by {
                        if k2 == points@.len() - 1 {
                            assert(!p_pre.contains((x, y)));
                            assert(points@[k1] == p_pre[k1]);
                        }
                    }
                }
                added = true;
            }
        }
        i = i + 1;
    }
    points
}


proof fn lemma_template_transfer(s1: EntityStore, s2: EntityStore, e: int, x: i32, y: i32)
    requires
        spawned_is_template(s1, e, x, y),
        EntityStore::row_eq(s1, s2, e),
    ensures
        spawned_is_template(s2, e, x, y),
{
    if crate::templates::monster_row(s1, e, x, y, 103, "Goblin"@) {
        assert(crate::templates::monster_row(s2, e, x, y, 103, "Goblin"@));
    } else if crate::templates::monster_row(s1, e, x, y, 111, "Orc"@) {
        assert(crate::templates::monster_row(s2, e, x, y, 111, "Orc"@));
    } else if crate::templates::health_potion_row(s1, e, x, y) {
        assert(crate::templates::health_potion_row(s2, e, x, y));
    } else if crate::templates::magic_missile_scroll_row(s1, e, x, y) {
        assert(crate::templates::magic_missile_scroll_row(s2, e, x, y));
    } else if crate::templates::fireball_scroll_row(s1, e, x, y) {
        assert(crate::templates::fireball_scroll_row(s2, e, x, y));
    } else {
        assert(crate::templates::confusion_scroll_row(s2, e, x, y));
    }
}


proof fn lemma_template_position(s: EntityStore, e: int, x: i32, y: i32)
    requires
        spawned_is_template(s, e, x, y),
    ensures
        s.positions@[e] == Some(Position { x, y }),
{
}

/// Populate one room: pick a depth-scaled number of cells and roll the
/// spawn table for each. Whatever the random source returns, existing
/// entities are untouched and every new entity is a well-placed monster
/// or item.
pub fn spawn_room(ecs: &mut EntityStore, rng: &mut GameRng, room: &Rect, depth: i32)
    requires
        old(ecs).wf(),
        room.wf_room(),
        1 <= depth <= MAX_DEPTH,
    ensures
        spawn_bulk_frame(*old(ecs), *final(ecs)),
        final(ecs).n() > old(ecs).n(),
        forall|e: int|
            old(ecs).n() <= e < final(ecs).n() ==> #[trigger] spawned_in_room(
                *final(ecs),
                e,
                *room,
            ),
        forall|e1: int, e2: int|
            old(ecs).n() <= e1 < e2 < final(ecs).n() ==> (#[trigger] final(ecs).positions@[e1])
                != (#[trigger] final(ecs).positions@[e2]),
{
    let spawn_table = room_table(depth);
    let amount = rng.roll_dice(1, MAX_SPAWNS) + depth;
    let points = select_points(amount, rng, room);

    let mut i: usize = 0;
    while i < points.len()
        invariant
            room.wf_room(),
            1 <= depth <= MAX_DEPTH,
            spawn_table.wf_table(),
            spawn_table.total_weight == 26 + 2 * depth,
            spawn_table.entries@.len() == 6,
            forall|k: int|
                0 <= k < points@.len() ==> {
                    &&& room.x1 < (#[trigger] points@[k]).0 <= room.x2
                    &&& room.y1 < points@[k].1 <= room.y2
                },
            forall|k1: int, k2: int|
                0 <= k1 < k2 < points@.len() ==> (#[trigger] points@[k1]) != (
                #[trigger] points@[k2]),
            spawn_bulk_frame(*old(ecs), *ecs),
            0 <= i <= points@.len(),
            ecs.n() == old(ecs).n() + i,
            forall|j: int|
                0 <= j < i ==> #[trigger] spawned_is_template(
                    *ecs,
                    old(ecs).n() + j,
                    points@[j].0 as i32,
                    points@[j].1 as i32,
                ),
            forall|j: int|
                0 <= j < i ==> (#[trigger] ecs.positions@[old(ecs).n() + j]) == Some(
                    Position { x: points@[j].0 as i32, y: points@[j].1 as i32 },
                ),
        decreases points@.len() - i,
    {
        let point = points[i];
        let x = point.0 as i32;
        let y = point.1 as i32;
        let ghost mid = *ecs;
        let entry = spawn_table.roll(rng);
        if let Some(entry) = entry {
            match entry.kind {
                SpawnKind::Goblin => {
                    templates::goblin(ecs, x, y);
                },
                SpawnKind::Orc => {
                    templates::orc(ecs, x, y);
                },
                SpawnKind::HealthPotion => {
                    templates::health_potion(ecs, x, y);
                },
                SpawnKind::FireballScroll => {
                    templates::fireball_scroll(ecs, x, y);
                },
                SpawnKind::ConfusionScroll => {
                    templates::confusion_scroll(ecs, x, y);
                },
                SpawnKind::MagicMissileScroll => {
                    templates::magic_missile_scroll(ecs, x, y);
                },
            }
            proof {
                assert forall|j: int| 0 <= j < old(ecs).n() implies EntityStore::row_eq(
                    *old(ecs),
                    *ecs,
                    j,
                ) by {
                    assert(EntityStore::row_eq(*old(ecs), mid, j));
                    assert(EntityStore::row_eq(mid, *ecs, j));
                }
                assert forall|e: int| old(ecs).n() <= e < ecs.n() implies spawned_row_ok(
                    *ecs,
                    e,
                ) by {
                    if e < mid.n() {
                        assert(spawned_row_ok(mid, e));
                        assert(EntityStore::row_eq(mid, *ecs, e));
                    }
                }
                assert(spawned_is_template(*ecs, mid.n() as int, x, y));
                assert forall|j: int| 0 <= j < i + 1 implies #[trigger] spawned_is_template(
                    *ecs,
                    old(ecs).n() + j,
                    points@[j].0 as i32,
                    points@[j].1 as i32,
                ) by {
                    if j < i {
                        assert(spawned_is_template(
                            mid,
                            old(ecs).n() + j,
                            points@[j].0 as i32,
                            points@[j].1 as i32,
                        ));
                        assert(EntityStore::row_eq(mid, *ecs, old(ecs).n() + j));
                        lemma_template_transfer(
                            mid,
                            *ecs,
                            old(ecs).n() + j,
                            points@[j].0 as i32,
                            points@[j].1 as i32,
                        );
                    }
                }
                assert forall|j: int|
                    0 <= j < i + 1 implies (#[trigger] ecs.positions@[old(ecs).n() + j]) == Some(
                    Position { x: points@[j].0 as i32, y: points@[j].1 as i32 },
                ) by {
                    assert(spawned_is_template(
                        *ecs,
                        old(ecs).n() + j,
                        points@[j].0 as i32,
                        points@[j].1 as i32,
                    ));
                    lemma_template_position(
                        *ecs,
                        old(ecs).n() + j,
                        points@[j].0 as i32,
                        points@[j].1 as i32,
                    );
                }
            }
        }
        i = i + 1;
    }
    proof {
        assert(points@.len() >= 1);
        assert forall|e: int|
            old(ecs).n() <= e < ecs.n() implies #[trigger] spawned_in_room(*ecs, e, *room) by {
            let j = e - old(ecs).n();
            assert(0 <= j < points@.len());
            assert(spawned_is_template(
                *ecs,
                old(ecs).n() + j,
                points@[j].0 as i32,
                points@[j].1 as i32,
            ));
            assert(old(ecs).n() + j == e);
            assert(room.x1 < points@[j].0 <= room.x2);
            assert(room.y1 < points@[j].1 <= room.y2);
            assert(room.x1 < (points@[j].0 as i32) <= room.x2);
            assert(room.y1 < (points@[j].1 as i32) <= room.y2);
        }
        assert forall|e1: int, e2: int|
            old(ecs).n() <= e1 < e2 < ecs.n() implies (#[trigger] ecs.positions@[e1]) != (
        #[trigger] ecs.positions@[e2]) by {
            let j1 = e1 - old(ecs).n();
            let j2 = e2 - old(ecs).n();
            assert(points@[j1] != points@[j2]);
            assert(ecs.positions@[old(ecs).n() + j1] == Some(
                Position { x: points@[j1].0 as i32, y: points@[j1].1 as i32 },
            ));
            assert(ecs.positions@[old(ecs).n() + j2] == Some(
                Position { x: points@[j2].0 as i32, y: points@[j2].1 as i32 },
            ));
            assert(points@[j1].0 as i32 != points@[j2].0 as i32 || points@[j1].1 as i32
                != points@[j2].1 as i32);
        }
    }
}



/// Entity `e` is a spawnable row placed inside one of the rooms beyond
/// the first.
pub open spec fn spawned_in_some_room(s: EntityStore, e: int, rooms: Seq<Rect>) -> bool {
    exists|ri: int| 1 <= ri < rooms.len() && #[trigger] spawned_in_room(s, e, rooms[ri])
}

proof fn lemma_in_room_transfer(s1: EntityStore, s2: EntityStore, e: int, room: Rect)
    requires
        spawned_in_room(s1, e, room),
        EntityStore::row_eq(s1, s2, e),
    ensures
        spawned_in_room(s2, e, room),
{
    let (x, y) = choose|x: i32, y: i32|
        {
            &&& room.x1 < x <= room.x2
            &&& room.y1 < y <= room.y2
            &&& #[trigger] spawned_is_template(s1, e, x, y)
        };
    lemma_template_transfer(s1, s2, e, x, y);
    assert(spawned_is_template(s2, e, x, y));
}

/// Populate every room but the first (the player's starting room).
pub fn spawn_rooms(ecs: &mut EntityStore, rng: &mut GameRng, rooms: &Vec<Rect>, depth: i32)
    requires
        old(ecs).wf(),
        forall|i: int| 0 <= i < rooms@.len() ==> (#[trigger] rooms@[i]).wf_room(),
        1 <= depth <= MAX_DEPTH,
    ensures
        spawn_bulk_frame(*old(ecs), *final(ecs)),
        rooms@.len() >= 1 ==> final(ecs).n() >= old(ecs).n() + rooms@.len() - 1,
        forall|e: int|
            old(ecs).n() <= e < final(ecs).n() ==> #[trigger] spawned_in_some_room(
                *final(ecs),
                e,
                rooms@,
            ),
{
    let mut i: usize = 1;
    while i < rooms.len()
        invariant
            1 <= depth <= MAX_DEPTH,
            forall|k: int| 0 <= k < rooms@.len() ==> (#[trigger] rooms@[k]).wf_room(),
            spawn_bulk_frame(*old(ecs), *ecs),
            1 <= i,
            i <= rooms@.len() || rooms@.len() <= 1,
            ecs.n() >= old(ecs).n() + i - 1,
            forall|e: int|
                old(ecs).n() <= e < ecs.n() ==> #[trigger] spawned_in_some_room(*ecs, e, rooms@),
        decreases rooms@.len() - i,
    {
        let room = rooms[i];
        let ghost mid = *ecs;
        spawn_room(ecs, rng, &room, depth);
        proof {
            assert forall|j: int| 0 <= j < old(ecs).n() implies EntityStore::row_eq(
                *old(ecs),
                *ecs,
                j,
            ) by {
                assert(EntityStore::row_eq(*old(ecs), mid, j));
                assert(EntityStore::row_eq(mid, *ecs, j));
            }
            assert forall|e: int| old(ecs).n() <= e < ecs.n() implies spawned_row_ok(
                *ecs,
                e,
            ) by {
                if e < mid.n() {
                    assert(spawned_row_ok(mid, e));
                    assert(EntityStore::row_eq(mid, *ecs, e));
                }
            }
            assert forall|e: int|
                old(ecs).n() <= e < ecs.n() implies #[trigger] spawned_in_some_room(
                *ecs,
                e,
                rooms@,
            ) by {
                if e < mid.n() {
                    assert(spawned_in_some_room(mid, e, rooms@));
                    let ri0 = choose|ri: int|
                        1 <= ri < rooms@.len() && #[trigger] spawned_in_room(mid, e, rooms@[ri]);
                    assert(EntityStore::row_eq(mid, *ecs, e));
                    lemma_in_room_transfer(mid, *ecs, e, rooms@[ri0]);
                    assert(spawned_in_room(*ecs, e, rooms@[ri0]));
                } else {
                    assert(spawned_in_room(*ecs, e, rooms@[i as int]));
                }
            }
        }
        i = i + 1;
    }
}

} // verus!
