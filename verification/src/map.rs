use vstd::prelude::*;
use crate::rect::Rect;
use crate::rng::GameRng;

verus! {

pub const WIDTH: i32 = 80;

pub const HEIGHT: i32 = 43;

pub const SIZE: usize = 3440;

/// The deepest level the simulation will generate; keeps depth-derived
/// arithmetic (spawn weights, level counters) far from `i32` limits.
pub const MAX_DEPTH: i32 = 8000000;

/// The three kinds of tile a dungeon map is made of.
#[derive(PartialEq, Eq, Clone, Copy, Structural, Debug)]
pub enum TileType {
    Wall,
    Floor,
    DownStairs,
}

/// Flat index of the grid cell `(x, y)`: row-major over an 80-wide grid.
pub open spec fn idx2(x: int, y: int) -> int {
    y * 80 + x
}

pub open spec fn pt_idx(pt: (int, int)) -> int {
    idx2(pt.0, pt.1)
}

pub open spec fn in_bounds_pt(pt: (int, int)) -> bool {
    0 <= pt.0 < 80 && 0 <= pt.1 < 43
}

/// A tile an entity could stand on: in bounds and not a wall.
pub open spec fn walkable_pt(tiles: Seq<TileType>, pt: (int, int)) -> bool {
    &&& tiles.len() == 3440
    &&& in_bounds_pt(pt)
    &&& tiles[pt_idx(pt)] != TileType::Wall
}

/// Two cells that share an edge.
pub open spec fn adj4(a: (int, int), b: (int, int)) -> bool {
    ||| (a.0 == b.0 && (b.1 == a.1 + 1 || b.1 == a.1 - 1))
    ||| (a.1 == b.1 && (b.0 == a.0 + 1 || b.0 == a.0 - 1))
}

/// A sequence of cells that an entity could walk along: nonempty, every
/// cell walkable, consecutive cells edge-adjacent.
pub open spec fn walk_path_ok(tiles: Seq<TileType>, p: Seq<(int, int)>) -> bool {
    &&& p.len() >= 1
    &&& forall|k: int| 0 <= k < p.len() ==> walkable_pt(tiles, #[trigger] p[k])
    &&& forall|k: int| 0 <= k < p.len() - 1 ==> adj4(#[trigger] p[k], p[k + 1])
}

/// Cell `b` can be walked to from cell `a` over the given tiles.
pub open spec fn reachable(tiles: Seq<TileType>, a: (int, int), b: (int, int)) -> bool {
    exists|p: Seq<(int, int)>|
        walk_path_ok(tiles, p) && p[0] == a && p[p.len() - 1] == b
}

proof fn lemma_reach_refl(tiles: Seq<TileType>, a: (int, int))
    requires
        walkable_pt(tiles, a),
    ensures
        reachable(tiles, a, a),
{
    let p = seq![a];
    assert(walk_path_ok(tiles, p));
    assert(p[0] == a && p[p.len() - 1] == a);
}

proof fn lemma_reach_step(tiles: Seq<TileType>, a: (int, int), b: (int, int))
    requires
        walkable_pt(tiles, a),
        walkable_pt(tiles, b),
        adj4(a, b),
    ensures
        reachable(tiles, a, b),
        reachable(tiles, b, a),
{
    let p = seq![a, b];
    assert(walk_path_ok(tiles, p));
    let q = seq![b, a];
    assert(walk_path_ok(tiles, q));
}

proof fn lemma_reach_endpoints(tiles: Seq<TileType>, a: (int, int), b: (int, int))
    requires
        reachable(tiles, a, b),
    ensures
        walkable_pt(tiles, a),
        walkable_pt(tiles, b),
{
    let p = choose|p: Seq<(int, int)>|
        walk_path_ok(tiles, p) && p[0] == a && p[p.len() - 1] == b;
    assert(walkable_pt(tiles, p[0]));
    assert(walkable_pt(tiles, p[p.len() - 1]));
}

proof fn lemma_reach_trans(tiles: Seq<TileType>, a: (int, int), b: (int, int), c: (int, int))
    requires
        reachable(tiles, a, b),
        reachable(tiles, b, c),
    ensures
        reachable(tiles, a, c),
{
    let p1 = choose|p: Seq<(int, int)>|
        walk_path_ok(tiles, p) && p[0] == a && p[p.len() - 1] == b;
    let p2 = choose|p: Seq<(int, int)>|
        walk_path_ok(tiles, p) && p[0] == b && p[p.len() - 1] == c;
    if p2.len() == 1 {
        assert(b == c);
    } else {
        let q = p1 + p2.subrange(1, p2.len() as int);
        let l1 = p1.len() as int;
        assert forall|k: int| 0 <= k < q.len() implies walkable_pt(tiles, #[trigger] q[k]) by {
            if k < l1 {
                assert(q[k] == p1[k]);
            } else {
                assert(q[k] == p2[k - l1 + 1]);
            }
        }
        assert forall|k: int| 0 <= k < q.len() - 1 implies adj4(#[trigger] q[k], q[k + 1]) by {
            if k < l1 - 1 {
                assert(q[k] == p1[k] && q[k + 1] == p1[k + 1]);
            } else if k == l1 - 1 {
                assert(q[k] == p1[l1 - 1]);
                assert(q[k + 1] == p2[1]);
                assert(adj4(p2[0], p2[1]));
            } else {
                assert(q[k] == p2[k - l1 + 1] && q[k + 1] == p2[k - l1 + 2]);
                assert(adj4(p2[k - l1 + 1], p2[k - l1 + 2]));
            }
        }
        assert(walk_path_ok(tiles, q) && q[0] == a && q[q.len() - 1] == c);
    }
}

/// Carving only ever makes tiles easier to walk on, so anything
/// reachable stays reachable.
proof fn lemma_reach_mono(t1: Seq<TileType>, t2: Seq<TileType>, a: (int, int), b: (int, int))
    requires
        reachable(t1, a, b),
        t2.len() == t1.len(),
        forall|j: int| 0 <= j < t1.len() && t1[j] != TileType::Wall ==> #[trigger] t2[j]
            != TileType::Wall,
    ensures
        reachable(t2, a, b),
{
    let p = choose|p: Seq<(int, int)>|
        walk_path_ok(t1, p) && p[0] == a && p[p.len() - 1] == b;
    assert forall|k: int| 0 <= k < p.len() implies walkable_pt(t2, #[trigger] p[k]) by {
        assert(walkable_pt(t1, p[k]));
        assert(t1[pt_idx(p[k])] != TileType::Wall);
    }
    assert(walk_path_ok(t2, p));
}

/// A fully walkable horizontal run of cells is traversable both ways.
proof fn lemma_h_line_reach(tiles: Seq<TileType>, x1: int, x2: int, y: int)
    requires
        x1 <= x2,
        forall|x: int| x1 <= x <= x2 ==> walkable_pt(tiles, (x, y)),
    ensures
        reachable(tiles, (x1, y), (x2, y)),
        reachable(tiles, (x2, y), (x1, y)),
    decreases x2 - x1,
{
    if x1 == x2 {
        assert(walkable_pt(tiles, (x1, y)));
        lemma_reach_refl(tiles, (x1, y));
    } else {
        lemma_h_line_reach(tiles, x1, x2 - 1, y);
        assert(walkable_pt(tiles, ((x2 - 1) as int, y)));
        assert(walkable_pt(tiles, (x2, y)));
        lemma_reach_step(tiles, ((x2 - 1) as int, y), (x2, y));
        lemma_reach_trans(tiles, (x1, y), ((x2 - 1) as int, y), (x2, y));
        lemma_reach_trans(tiles, (x2, y), ((x2 - 1) as int, y), (x1, y));
    }
}

/// A fully walkable vertical run of cells is traversable both ways.
proof fn lemma_v_line_reach(tiles: Seq<TileType>, y1: int, y2: int, x: int)
    requires
        y1 <= y2,
        forall|y: int| y1 <= y <= y2 ==> walkable_pt(tiles, (x, y)),
    ensures
        reachable(tiles, (x, y1), (x, y2)),
        reachable(tiles, (x, y2), (x, y1)),
    decreases y2 - y1,
{
    if y1 == y2 {
        assert(walkable_pt(tiles, (x, y1)));
        lemma_reach_refl(tiles, (x, y1));
    } else {
        lemma_v_line_reach(tiles, y1, y2 - 1, x);
        assert(walkable_pt(tiles, (x, (y2 - 1) as int)));
        assert(walkable_pt(tiles, (x, y2)));
        lemma_reach_step(tiles, (x, (y2 - 1) as int), (x, y2));
        lemma_reach_trans(tiles, (x, y1), (x, (y2 - 1) as int), (x, y2));
        lemma_reach_trans(tiles, (x, y2), (x, (y2 - 1) as int), (x, y1));
    }
}

/// The dungeon level: a flat tile grid with parallel bookkeeping arrays,
/// the list of generated rooms, and the per-tile occupant index that the
/// spatial-index system rebuilds every turn.
pub struct GameMap {
    pub tiles: Vec<TileType>,
    pub rooms: Vec<Rect>,
    pub width: i32,
    pub height: i32,
    pub revealed_tiles: Vec<bool>,
    pub visible_tiles: Vec<bool>,
    pub blocked: Vec<bool>,
    pub depth: i32,
    pub tile_content: Vec<Vec<usize>>,
}

impl GameMap {
    /// Fixed dimensions, parallel arrays of matching length, at least one
    /// room, every room inside the outer wall, and a sane depth.
    pub open spec fn wf(self) -> bool {
        &&& self.width == 80
        &&& self.height == 43
        &&& self.tiles@.len() == 3440
        &&& self.revealed_tiles@.len() == 3440
        &&& self.visible_tiles@.len() == 3440
        &&& self.blocked@.len() == 3440
        &&& self.tile_content@.len() == 3440
        &&& self.rooms@.len() >= 1
        &&& forall|i: int| 0 <= i < self.rooms@.len() ==> (#[trigger] self.rooms@[i]).wf_room()
        &&& 1 <= self.depth <= MAX_DEPTH
    }

    /// Center of the first room, where the player starts.
    pub open spec fn spec_first_center(self) -> (int, int) {
        self.rooms@[0].spec_center()
    }

    /// Center of the last room, where the stairs down are placed.
    pub open spec fn spec_last_center(self) -> (int, int) {
        self.rooms@[self.rooms@.len() - 1].spec_center()
    }

    /// Exactly one DownStairs tile, sitting at the last room's center.
    pub open spec fn stairs_ok(self) -> bool {
        &&& self.tiles@[pt_idx(self.spec_last_center())] == TileType::DownStairs
        &&& forall|j: int|
            0 <= j < 3440 && j != pt_idx(self.spec_last_center()) ==> #[trigger] self.tiles@[j]
                != TileType::DownStairs
    }

    fn new(depth: i32) -> (m: GameMap)
        ensures
            m.width == 80,
            m.height == 43,
            m.depth == depth,
            m.tiles@.len() == 3440,
            m.revealed_tiles@.len() == 3440,
            m.visible_tiles@.len() == 3440,
            m.blocked@.len() == 3440,
            m.tile_content@.len() == 3440,
            m.rooms@.len() == 0,
            forall|j: int| 0 <= j < 3440 ==> #[trigger] m.tiles@[j] == TileType::Wall,
            forall|j: int| 0 <= j < 3440 ==> !(#[trigger] m.revealed_tiles@[j]),
            forall|j: int| 0 <= j < 3440 ==> !(#[trigger] m.visible_tiles@[j]),
            forall|j: int| 0 <= j < 3440 ==> !(#[trigger] m.blocked@[j]),
            forall|j: int| 0 <= j < 3440 ==> (#[trigger] m.tile_content@[j])@.len() == 0,
    {
        GameMap {
            tiles: filled_tiles(SIZE),
            rooms: Vec::new(),
            width: WIDTH,
            height: HEIGHT,
            revealed_tiles: filled_false(SIZE),
            visible_tiles: filled_false(SIZE),
            blocked: filled_false(SIZE),
            depth,
            tile_content: filled_contents(SIZE),
        }
    }

    /// Flat index of `(x, y)` as every parallel array is addressed.
    pub fn xy_idx(&self, x: i32, y: i32) -> (r: usize)
        requires
            self.width == 80,
            0 <= x < 80,
            0 <= y < 43,
        ensures
            r == idx2(x as int, y as int),
            r < 3440,
    {
        (y * self.width) as usize + x as usize
    }

    /// Carve the interior of a room to floor.
    fn add_room(&mut self, room: &Rect)
        requires
            room.wf_room(),
            old(self).tiles@.len() == 3440,
            old(self).width == 80,
            old(self).height == 43,
        ensures
            final(self).tiles@.len() == 3440,
            forall|j: int|
                0 <= j < 3440 ==> #[trigger] final(self).tiles@[j] == TileType::Floor || final(self).tiles@[j] == old(self).tiles@[j],
            forall|xx: int, yy: int|
                room.x1 + 1 <= xx <= room.x2 && room.y1 + 1 <= yy <= room.y2 ==> final(self).tiles@[idx2(xx, yy)] == TileType::Floor,
            final(self).rooms@ == old(self).rooms@,
            final(self).width == old(self).width,
            final(self).height == old(self).height,
            final(self).depth == old(self).depth,
            final(self).revealed_tiles@ == old(self).revealed_tiles@,
            final(self).visible_tiles@ == old(self).visible_tiles@,
            final(self).blocked@ == old(self).blocked@,
            final(self).tile_content@ == old(self).tile_content@,
    {
        let ghost t0 = self.tiles@;
        let mut y = room.y1 + 1;
        while y <= room.y2
            invariant
                room.wf_room(),
                room.y1 + 1 <= y <= room.y2 + 1,
                self.tiles@.len() == 3440,
                forall|j: int|
                    0 <= j < 3440 ==> #[trigger] self.tiles@[j] == TileType::Floor
                        || self.tiles@[j] == t0[j],
                forall|xx: int, yy: int|
                    room.x1 + 1 <= xx <= room.x2 && room.y1 + 1 <= yy < y ==> self.tiles@[idx2(
                        xx,
                        yy,
                    )] == TileType::Floor,
                self.rooms@ == old(self).rooms@,
                self.width == 80,
                self.height == 43,
                self.depth == old(self).depth,
                self.revealed_tiles@ == old(self).revealed_tiles@,
                self.visible_tiles@ == old(self).visible_tiles@,
                self.blocked@ == old(self).blocked@,
                self.tile_content@ == old(self).tile_content@,
                t0 == old(self).tiles@,
            decreases room.y2 + 1 - y,
        {
            let mut x = room.x1 + 1;
            while x <= room.x2
                invariant
                    room.wf_room(),
                    room.y1 + 1 <= y <= room.y2,
                    room.x1 + 1 <= x <= room.x2 + 1,
                    self.tiles@.len() == 3440,
                    forall|j: int|
                        0 <= j < 3440 ==> #[trigger] self.tiles@[j] == TileType::Floor
                            || self.tiles@[j] == t0[j],
                    forall|xx: int, yy: int|
                        room.x1 + 1 <= xx <= room.x2 && room.y1 + 1 <= yy < y ==> self.tiles@[idx2(
                            xx,
                            yy,
                        )] == TileType::Floor,
                    forall|xx: int|
                        room.x1 + 1 <= xx < x ==> self.tiles@[idx2(xx, y as int)]
                            == TileType::Floor,
                    self.rooms@ == old(self).rooms@,
                    self.width == 80,
                    self.height == 43,
                    self.depth == old(self).depth,
                    self.revealed_tiles@ == old(self).revealed_tiles@,
                    self.visible_tiles@ == old(self).visible_tiles@,
                    self.blocked@ == old(self).blocked@,
                    self.tile_content@ == old(self).tile_content@,
                    t0 == old(self).tiles@,
                decreases room.x2 + 1 - x,
            {
                let idx = self.xy_idx(x, y);
                self.tiles[idx] = TileType::Floor;
                x = x + 1;
            }
            y = y + 1;
        }
    }

    /// Carve a horizontal corridor segment to floor.
    fn add_horizontal_tunnel(&mut self, x1: i32, x2: i32, y: i32)
        requires
            old(self).tiles@.len() == 3440,
            old(self).width == 80,
            old(self).height == 43,
            1 <= y < 43,
            0 <= x1 < 80,
            0 <= x2 < 80,
        ensures
            final(self).tiles@.len() == 3440,
            forall|j: int|
                0 <= j < 3440 ==> #[trigger] final(self).tiles@[j] == TileType::Floor || final(self).tiles@[j] == old(self).tiles@[j],
            forall|xx: int|
                min_i(x1 as int, x2 as int) <= xx <= max_i(x1 as int, x2 as int) ==> final(self).tiles@[idx2(xx, y as int)] == TileType::Floor,
            final(self).rooms@ == old(self).rooms@,
            final(self).width == old(self).width,
            final(self).height == old(self).height,
            final(self).depth == old(self).depth,
            final(self).revealed_tiles@ == old(self).revealed_tiles@,
            final(self).visible_tiles@ == old(self).visible_tiles@,
            final(self).blocked@ == old(self).blocked@,
            final(self).tile_content@ == old(self).tile_content@,
    {
        let ghost t0 = self.tiles@;
        let lo = if x1 < x2 {
            x1
        } else {
            x2
        };
        let hi = if x1 < x2 {
            x2
        } else {
            x1
        };
        let mut x = lo;
        while x <= hi
            invariant
                lo <= x <= hi + 1,
                lo == min_i(x1 as int, x2 as int),
                hi == max_i(x1 as int, x2 as int),
                0 <= lo,
                hi < 80,
                1 <= y < 43,
                self.width == 80,
                self.height == 43,
                self.tiles@.len() == 3440,
                forall|j: int|
                    0 <= j < 3440 ==> #[trigger] self.tiles@[j] == TileType::Floor
                        || self.tiles@[j] == t0[j],
                forall|xx: int|
                    lo <= xx < x ==> self.tiles@[idx2(xx, y as int)] == TileType::Floor,
                self.rooms@ == old(self).rooms@,
                self.depth == old(self).depth,
                self.revealed_tiles@ == old(self).revealed_tiles@,
                self.visible_tiles@ == old(self).visible_tiles@,
                self.blocked@ == old(self).blocked@,
                self.tile_content@ == old(self).tile_content@,
                t0 == old(self).tiles@,
            decreases hi + 1 - x,
        {
            let idx = self.xy_idx(x, y);
            if idx > 0 && idx < SIZE {
                self.tiles[idx] = TileType::Floor;
            }
            x = x + 1;
        }
    }

    /// Carve a vertical corridor segment to floor.
    fn add_vertical_tunnel(&mut self, y1: i32, y2: i32, x: i32)
        requires
            old(self).tiles@.len() == 3440,
            old(self).width == 80,
            old(self).height == 43,
            1 <= x < 80,
            0 <= y1 < 43,
            0 <= y2 < 43,
        ensures
            final(self).tiles@.len() == 3440,
            forall|j: int|
                0 <= j < 3440 ==> #[trigger] final(self).tiles@[j] == TileType::Floor || final(self).tiles@[j] == old(self).tiles@[j],
            forall|yy: int|
                min_i(y1 as int, y2 as int) <= yy <= max_i(y1 as int, y2 as int) ==> final(self).tiles@[idx2(x as int, yy)] == TileType::Floor,
            final(self).rooms@ == old(self).rooms@,
            final(self).width == old(self).width,
            final(self).height == old(self).height,
            final(self).depth == old(self).depth,
            final(self).revealed_tiles@ == old(self).revealed_tiles@,
            final(self).visible_tiles@ == old(self).visible_tiles@,
            final(self).blocked@ == old(self).blocked@,
            final(self).tile_content@ == old(self).tile_content@,
    {
        let ghost t0 = self.tiles@;
        let lo = if y1 < y2 {
            y1
        } else {
            y2
        };
        let hi = if y1 < y2 {
            y2
        } else {
            y1
        };
        let mut y = lo;
        while y <= hi
            invariant
                lo <= y <= hi + 1,
                lo == min_i(y1 as int, y2 as int),
                hi == max_i(y1 as int, y2 as int),
                0 <= lo,
                hi < 43,
                1 <= x < 80,
                self.width == 80,
                self.height == 43,
                self.tiles@.len() == 3440,
                forall|j: int|
                    0 <= j < 3440 ==> #[trigger] self.tiles@[j] == TileType::Floor
                        || self.tiles@[j] == t0[j],
                forall|yy: int|
                    lo <= yy < y ==> self.tiles@[idx2(x as int, yy)] == TileType::Floor,
                self.rooms@ == old(self).rooms@,
                self.depth == old(self).depth,
                self.revealed_tiles@ == old(self).revealed_tiles@,
                self.visible_tiles@ == old(self).visible_tiles@,
                self.blocked@ == old(self).blocked@,
                self.tile_content@ == old(self).tile_content@,
                t0 == old(self).tiles@,
            decreases hi + 1 - y,
        {
            let idx = self.xy_idx(x, y);
            if idx > 0 && idx < SIZE {
                self.tiles[idx] = TileType::Floor;
            }
            y = y + 1;
        }
    }

    /// Recompute the blocked array from terrain alone: walls block.
    pub fn populate_blocked(&mut self)
        requires
            old(self).wf(),
        ensures
            final(self).wf(),
            forall|j: int|
                0 <= j < 3440 ==> #[trigger] final(self).blocked@[j] == (old(self).tiles@[j]
                    == TileType::Wall),
            final(self).tiles@ == old(self).tiles@,
            final(self).rooms@ == old(self).rooms@,
            final(self).width == old(self).width,
            final(self).height == old(self).height,
            final(self).depth == old(self).depth,
            final(self).revealed_tiles@ == old(self).revealed_tiles@,
            final(self).visible_tiles@ == old(self).visible_tiles@,
            final(self).tile_content@ == old(self).tile_content@,
    {
        let mut i: usize = 0;
        while i < SIZE
            invariant
                0 <= i <= 3440,
                old(self).wf(),
                self.tiles@ == old(self).tiles@,
                self.rooms@ == old(self).rooms@,
                self.width == 80,
                self.height == 43,
                self.depth == old(self).depth,
                self.revealed_tiles@ == old(self).revealed_tiles@,
                self.visible_tiles@ == old(self).visible_tiles@,
                self.tile_content@ == old(self).tile_content@,
                self.blocked@.len() == 3440,
                forall|j: int|
                    0 <= j < i ==> #[trigger] self.blocked@[j] == (old(self).tiles@[j]
                        == TileType::Wall),
            decreases SIZE - i,
        {
            let b = self.tiles[i] == TileType::Wall;
            self.blocked[i] = b;
            i = i + 1;
        }
    }

    /// Empty every per-tile occupant list; the spatial index system
    /// rebuilds them from scratch each turn.
    pub fn clear_content_index(&mut self)
        requires
            old(self).wf(),
        ensures
            final(self).wf(),
            forall|j: int| 0 <= j < 3440 ==> (#[trigger] final(self).tile_content@[j])@.len() == 0,
            final(self).tiles@ == old(self).tiles@,
            final(self).rooms@ == old(self).rooms@,
            final(self).width == old(self).width,
            final(self).height == old(self).height,
            final(self).depth == old(self).depth,
            final(self).revealed_tiles@ == old(self).revealed_tiles@,
            final(self).visible_tiles@ == old(self).visible_tiles@,
            final(self).blocked@ == old(self).blocked@,
    {
        let mut i: usize = 0;
        while i < SIZE
            invariant
                0 <= i <= 3440,
                old(self).wf(),
                self.tiles@ == old(self).tiles@,
                self.rooms@ == old(self).rooms@,
                self.width == 80,
                self.height == 43,
                self.depth == old(self).depth,
                self.revealed_tiles@ == old(self).revealed_tiles@,
                self.visible_tiles@ == old(self).visible_tiles@,
                self.blocked@ == old(self).blocked@,
                self.tile_content@.len() == 3440,
                forall|j: int| 0 <= j < i ==> (#[trigger] self.tile_content@[j])@.len() == 0,
            decreases SIZE - i,
        {
            self.tile_content[i].clear();
            i = i + 1;
        }
    }
}

pub open spec fn min_i(a: int, b: int) -> int {
    if a < b {
        a
    } else {
        b
    }
}

pub open spec fn max_i(a: int, b: int) -> int {
    if a < b {
        b
    } else {
        a
    }
}

fn filled_tiles(n: usize) -> (v: Vec<TileType>)
    ensures
        v@.len() == n,
        forall|j: int| 0 <= j < n ==> #[trigger] v@[j] == TileType::Wall,
{
    let mut v: Vec<TileType> = Vec::new();
    let mut i: usize = 0;
    while i < n
        invariant
            0 <= i <= n,
            v@.len() == i,
            forall|j: int| 0 <= j < i ==> #[trigger] v@[j] == TileType::Wall,
        decreases n - i,
    {
        v.push(TileType::Wall);
        i = i + 1;
    }
    v
}

pub(crate) fn filled_false(n: usize) -> (v: Vec<bool>)
    ensures
        v@.len() == n,
        forall|j: int| 0 <= j < n ==> !(#[trigger] v@[j]),
{
    let mut v: Vec<bool> = Vec::new();
    let mut i: usize = 0;
    while i < n
        invariant
            0 <= i <= n,
            v@.len() == i,
            forall|j: int| 0 <= j < i ==> !(#[trigger] v@[j]),
        decreases n - i,
    {
        v.push(false);
        i = i + 1;
    }
    v
}

pub(crate) fn filled_contents(n: usize) -> (v: Vec<Vec<usize>>)
    ensures
        v@.len() == n,
        forall|j: int| 0 <= j < n ==> (#[trigger] v@[j])@.len() == 0,
{
    let mut v: Vec<Vec<usize>> = Vec::new();
    let mut i: usize = 0;
    while i < n
        invariant
            0 <= i <= n,
            v@.len() == i,
            forall|j: int| 0 <= j < i ==> (#[trigger] v@[j])@.len() == 0,
        decreases n - i,
    {
        v.push(Vec::new());
        i = i + 1;
    }
    v
}

/// Build a level: up to 30 candidate rooms are proposed at random, kept
/// when they overlap nothing, and each kept room is joined to the
/// previous one by an L-shaped corridor. The stairs down sit at the last
/// room's center, and are reachable on foot from the first room's
/// center, whatever the random source returned.
pub fn generate_map_with(depth: i32, rng: &mut GameRng) -> (m: GameMap)
    requires
        1 <= depth <= MAX_DEPTH,
    ensures
        m.wf(),
        m.depth == depth,
        m.stairs_ok(),
        reachable(m.tiles@, m.spec_first_center(), m.spec_last_center()),
        m.rooms@.len() <= 30,
        forall|i: int, j: int|
            0 <= i < j < m.rooms@.len() ==> !(#[trigger] m.rooms@[i].spec_intersect(
                m.rooms@[j],
            )),
        forall|j: int| 0 <= j < 3440 ==> !(#[trigger] m.revealed_tiles@[j]),
        forall|j: int| 0 <= j < 3440 ==> !(#[trigger] m.visible_tiles@[j]),
        forall|j: int| 0 <= j < 3440 ==> !(#[trigger] m.blocked@[j]),
        forall|j: int| 0 <= j < 3440 ==> (#[trigger] m.tile_content@[j])@.len() == 0,
{
    let mut map = GameMap::new(depth);
    let mut attempt: i32 = 0;
    while attempt < 30
        invariant
            0 <= attempt <= 30,
            map.width == 80,
            map.height == 43,
            map.depth == depth,
            map.tiles@.len() == 3440,
            map.revealed_tiles@.len() == 3440,
            map.visible_tiles@.len() == 3440,
            map.blocked@.len() == 3440,
            map.tile_content@.len() == 3440,
            forall|j: int| 0 <= j < 3440 ==> !(#[trigger] map.revealed_tiles@[j]),
            forall|j: int| 0 <= j < 3440 ==> !(#[trigger] map.visible_tiles@[j]),
            forall|j: int| 0 <= j < 3440 ==> !(#[trigger] map.blocked@[j]),
            forall|j: int| 0 <= j < 3440 ==> (#[trigger] map.tile_content@[j])@.len() == 0,
            forall|j: int| 0 <= j < 3440 ==> #[trigger] map.tiles@[j] != TileType::DownStairs,
            forall|i: int| 0 <= i < map.rooms@.len() ==> (#[trigger] map.rooms@[i]).wf_room(),
            attempt >= 1 ==> map.rooms@.len() >= 1,
            map.rooms@.len() <= attempt,
            forall|i2: int, j2: int|
                0 <= i2 < j2 < map.rooms@.len() ==> !(#[trigger] map.rooms@[i2].spec_intersect(
                    map.rooms@[j2],
                )),
            forall|k: int|
                0 <= k < map.rooms@.len() ==> reachable(
                    map.tiles@,
                    map.rooms@[0].spec_center(),
                    (#[trigger] map.rooms@[k]).spec_center(),
                ),
        decreases 30 - attempt,
    {
        let w = rng.range(6, 10);
        let h = rng.range(6, 10);
        let x = rng.roll_dice(1, WIDTH - w - 1) - 1;
        let y = rng.roll_dice(1, HEIGHT - h - 1) - 1;
        let new_room = Rect::new(x, y, w, h);
        assert(new_room.wf_room());

        let mut intersects = false;
        let mut k: usize = 0;
        while k < map.rooms.len()
            invariant
                0 <= k <= map.rooms@.len(),
                map.rooms@.len() == 0 ==> !intersects,
                !intersects ==> forall|j2: int|
                    0 <= j2 < k ==> !(#[trigger] map.rooms@[j2].spec_intersect(new_room)),
            decreases map.rooms@.len() - k,
        {
            if map.rooms[k].intersect(&new_room) {
                intersects = true;
            }
            k = k + 1;
        }

        if !intersects {
            let ghost t0 = map.tiles@;
            map.add_room(&new_room);
            let ghost t1 = map.tiles@;
            let (new_x, new_y) = new_room.center();
            proof {
                new_room.lemma_center_in_interior();
                assert(map.tiles@[idx2(new_x as int, new_y as int)] == TileType::Floor);
            }

            if map.rooms.len() > 0 {
                let prev = map.rooms[map.rooms.len() - 1];
                let (prev_x, prev_y) = prev.center();
                proof {
                    prev.lemma_center_in_interior();
                }
                let coin = rng.range(0, 2);
                if coin == 1 {
                    map.add_horizontal_tunnel(prev_x, new_x, prev_y);
                    let ghost t2 = map.tiles@;
                    map.add_vertical_tunnel(prev_y, new_y, new_x);
                    let ghost t3 = map.tiles@;
                    proof {
                        // the horizontal run at prev_y survives the vertical carve
                        assert forall|xx: int|
                            min_i(prev_x as int, new_x as int) <= xx <= max_i(
                                prev_x as int,
                                new_x as int,
                            ) implies walkable_pt(t3, (xx, prev_y as int)) by {
                            assert(t2[idx2(xx, prev_y as int)] == TileType::Floor);
                            assert(t3[idx2(xx, prev_y as int)] == TileType::Floor || t3[idx2(
                                xx,
                                prev_y as int,
                            )] == t2[idx2(xx, prev_y as int)]);
                        }
                        assert forall|yy: int|
                            min_i(prev_y as int, new_y as int) <= yy <= max_i(
                                prev_y as int,
                                new_y as int,
                            ) implies walkable_pt(t3, (new_x as int, yy)) by {
                            assert(t3[idx2(new_x as int, yy)] == TileType::Floor);
                        }
                        lemma_h_line_reach(
                            t3,
                            min_i(prev_x as int, new_x as int),
                            max_i(prev_x as int, new_x as int),
                            prev_y as int,
                        );
                        lemma_v_line_reach(
                            t3,
                            min_i(prev_y as int, new_y as int),
                            max_i(prev_y as int, new_y as int),
                            new_x as int,
                        );
                        lemma_reach_trans(
                            t3,
                            (prev_x as int, prev_y as int),
                            (new_x as int, prev_y as int),
                            (new_x as int, new_y as int),
                        );
                    }
                } else {
                    map.add_horizontal_tunnel(prev_x, new_x, new_y);
                    let ghost t2 = map.tiles@;
                    map.add_vertical_tunnel(prev_y, new_y, prev_x);
                    let ghost t3 = map.tiles@;
                    proof {
                        assert forall|xx: int|
                            min_i(prev_x as int, new_x as int) <= xx <= max_i(
                                prev_x as int,
                                new_x as int,
                            ) implies walkable_pt(t3, (xx, new_y as int)) by {
                            assert(t2[idx2(xx, new_y as int)] == TileType::Floor);
                            assert(t3[idx2(xx, new_y as int)] == TileType::Floor || t3[idx2(
                                xx,
                                new_y as int,
                            )] == t2[idx2(xx, new_y as int)]);
                        }
                        assert forall|yy: int|
                            min_i(prev_y as int, new_y as int) <= yy <= max_i(
                                prev_y as int,
                                new_y as int,
                            ) implies walkable_pt(t3, (prev_x as int, yy)) by {
                            assert(t3[idx2(prev_x as int, yy)] == TileType::Floor);
                        }
                        lemma_v_line_reach(
                            t3,
                            min_i(prev_y as int, new_y as int),
                            max_i(prev_y as int, new_y as int),
                            prev_x as int,
                        );
                        lemma_h_line_reach(
                            t3,
                            min_i(prev_x as int, new_x as int),
                            max_i(prev_x as int, new_x as int),
                            new_y as int,
                        );
                        lemma_reach_trans(
                            t3,
                            (prev_x as int, prev_y as int),
                            (prev_x as int, new_y as int),
                            (new_x as int, new_y as int),
                        );
                    }
                }
                proof {
                    // every established center connection survives the carves
                    assert forall|k2: int|
                        0 <= k2 < map.rooms@.len() implies reachable(
                        map.tiles@,
                        map.rooms@[0].spec_center(),
                        (#[trigger] map.rooms@[k2]).spec_center(),
                    ) by {
                        lemma_reach_mono(
                            t0,
                            map.tiles@,
                            map.rooms@[0].spec_center(),
                            map.rooms@[k2].spec_center(),
                        );
                    }
                    lemma_reach_trans(
                        map.tiles@,
                        map.rooms@[0].spec_center(),
                        prev.spec_center(),
                        new_room.spec_center(),
                    );
                }
            } else {
                proof {
                    lemma_reach_refl(map.tiles@, new_room.spec_center());
                }
            }
            map.rooms.push(new_room);
        }
        attempt = attempt + 1;
    }

    let last = map.rooms[map.rooms.len() - 1];
    let (cx, cy) = last.center();
    proof {
        last.lemma_center_in_interior();
    }
    let stairs_idx = map.xy_idx(cx, cy);
    let ghost t_before = map.tiles@;
    map.tiles[stairs_idx] = TileType::DownStairs;
    proof {
        lemma_reach_mono(
            t_before,
            map.tiles@,
            map.rooms@[0].spec_center(),
            map.spec_last_center(),
        );
    }
    map
}

/// Build a level from a freshly seeded random source.
pub fn generate_map(depth: i32) -> (m: GameMap)
    requires
        1 <= depth <= MAX_DEPTH,
    ensures
        m.wf(),
        m.depth == depth,
        m.stairs_ok(),
        reachable(m.tiles@, m.spec_first_center(), m.spec_last_center()),
        m.rooms@.len() <= 30,
        forall|i: int, j: int|
            0 <= i < j < m.rooms@.len() ==> !(#[trigger] m.rooms@[i].spec_intersect(
                m.rooms@[j],
            )),
        forall|j: int| 0 <= j < 3440 ==> !(#[trigger] m.revealed_tiles@[j]),
        forall|j: int| 0 <= j < 3440 ==> !(#[trigger] m.visible_tiles@[j]),
        forall|j: int| 0 <= j < 3440 ==> !(#[trigger] m.blocked@[j]),
        forall|j: int| 0 <= j < 3440 ==> (#[trigger] m.tile_content@[j])@.len() == 0,
{
    let mut rng = GameRng::new();
    generate_map_with(depth, &mut rng)
}

} // verus!
