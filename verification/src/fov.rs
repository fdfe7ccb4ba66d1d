use vstd::prelude::*;
use crate::components::Point;
use crate::map::{GameMap, HEIGHT, TileType, WIDTH, in_bounds_pt, max_i, pt_idx};

verus! {

pub open spec fn abs_i(x: int) -> int {
    if x >= 0 {
        x
    } else {
        -x
    }
}

pub open spec fn sign_i(x: int) -> int {
    if x > 0 {
        1
    } else if x < 0 {
        -1
    } else {
        0
    }
}

/// Chebyshev distance: the number of king moves between two cells.
pub open spec fn cheb_dist(a: (int, int), b: (int, int)) -> int {
    max_i(abs_i(b.0 - a.0), abs_i(b.1 - a.1))
}

/// Squared Euclidean distance between two cells.
pub open spec fn dist2(a: (int, int), b: (int, int)) -> int {
    (b.0 - a.0) * (b.0 - a.0) + (b.1 - a.1) * (b.1 - a.1)
}

/// The next cell of the direct sight line: one king move toward the
/// target, diagonal while both coordinates differ.
pub open spec fn step_toward(a: (int, int), b: (int, int)) -> (int, int) {
    (a.0 + sign_i(b.0 - a.0), a.1 + sign_i(b.1 - a.1))
}

/// Line of sight along the direct walk from `a` to `b`: every cell
/// strictly between the endpoints must not be a wall. The walk runs
/// from `a`, so on walled maps sight need not be mutual; on maps with
/// no walls it always is (`lemma_visibility_symmetric_empty`).
pub open spec fn sight_clear(tiles: Seq<TileType>, a: (int, int), b: (int, int)) -> bool
    decreases cheb_dist(a, b),
{
    if a == b || cheb_dist(a, b) < 0 {
        true
    } else {
        let nxt = step_toward(a, b);
        (nxt == b || !(0 <= pt_idx(nxt) < tiles.len() && tiles[pt_idx(nxt)] == TileType::Wall))
            && sight_clear(tiles, nxt, b)
    }
}

/// Cell `p` is visible from `c` at sight radius `r`: on the map, within
/// Euclidean range, with a clear line of sight.
pub open spec fn visible_from(tiles: Seq<TileType>, c: (int, int), p: (int, int), r: int) -> bool {
    &&& in_bounds_pt(p)
    &&& dist2(c, p) <= r * r
    &&& sight_clear(tiles, c, p)
}

/// On a map with no walls at all, every line of sight is clear — so
/// visibility degenerates to the (symmetric) range check.
pub proof fn lemma_sight_clear_no_walls(tiles: Seq<TileType>, a: (int, int), b: (int, int))
    requires
        forall|j: int| 0 <= j < tiles.len() ==> #[trigger] tiles[j] != TileType::Wall,
    ensures
        sight_clear(tiles, a, b),
    decreases cheb_dist(a, b),
{
    if a == b || cheb_dist(a, b) < 0 {
    } else {
        let nxt = step_toward(a, b);
        lemma_sight_clear_no_walls(tiles, nxt, b);
    }
}

/// Mutual line of sight on an empty map: if `b` is visible from `a` at
/// range `r`, then `a` is visible from `b` at the same range.
pub proof fn lemma_visibility_symmetric_empty(
    tiles: Seq<TileType>,
    a: (int, int),
    b: (int, int),
    r: int,
)
    requires
        forall|j: int| 0 <= j < tiles.len() ==> #[trigger] tiles[j] != TileType::Wall,
        in_bounds_pt(a),
        visible_from(tiles, a, b, r),
    ensures
        visible_from(tiles, b, a, r),
{
    lemma_sight_clear_no_walls(tiles, b, a);
    assert(dist2(b, a) == dist2(a, b)) by (nonlinear_arith);
}

/// One step of the line-of-sight walk, executable.
fn los_step(ax: i32, ay: i32, bx: i32, by: i32) -> (r: (i32, i32))
    requires
        in_bounds_pt((ax as int, ay as int)),
        in_bounds_pt((bx as int, by as int)),
    ensures
        (r.0 as int, r.1 as int) == step_toward((ax as int, ay as int), (bx as int, by as int)),
        in_bounds_pt((r.0 as int, r.1 as int)),
{
    let sx: i32 = if bx > ax {
        1
    } else if bx < ax {
        -1
    } else {
        0
    };
    let sy: i32 = if by > ay {
        1
    } else if by < ay {
        -1
    } else {
        0
    };
    (ax + sx, ay + sy)
}

/// Walk the direct line from `(ax, ay)` to `(bx, by)` and report
/// whether every cell strictly between is free of walls.
fn los_exec(map: &GameMap, ax: i32, ay: i32, bx: i32, by: i32) -> (r: bool)
    requires
        map.wf(),
        in_bounds_pt((ax as int, ay as int)),
        in_bounds_pt((bx as int, by as int)),
    ensures
        r == sight_clear(map.tiles@, (ax as int, ay as int), (bx as int, by as int)),
    decreases cheb_dist((ax as int, ay as int), (bx as int, by as int)),
{
    if ax == bx && ay == by {
        return true;
    }
    let (nx, ny) = los_step(ax, ay, bx, by);
    if !(nx == bx && ny == by) {
        let idx = map.xy_idx(nx, ny);
        if map.tiles[idx] == TileType::Wall {
            return false;
        }
    }
    los_exec(map, nx, ny, bx, by)
}

/// Compute a field of view: every cell of the map that is visible from
/// `center` at sight radius `range`.
pub fn field_of_view(map: &GameMap, center: Point, range: i32) -> (r: Vec<Point>)
    requires
        map.wf(),
        in_bounds_pt((center.x as int, center.y as int)),
    ensures
        forall|p: Point|
            r@.contains(p) <==> visible_from(
                map.tiles@,
                (center.x as int, center.y as int),
                (p.x as int, p.y as int),
                range as int,
            ),
{
    let mut out: Vec<Point> = Vec::new();
    let r64: i64 = range as i64;
    proof {
        assert(r64 * r64 <= i64::MAX && r64 * r64 >= 0) by (nonlinear_arith)
            requires
                -0x8000_0000 <= r64 <= 0x8000_0000,
        ;
    }
    let rr: i64 = r64 * r64;
    let mut y: i32 = 0;
    while y < HEIGHT
        invariant
            map.wf(),
            in_bounds_pt((center.x as int, center.y as int)),
            0 <= y <= 43,
            rr == (range as int) * (range as int),
            forall|p: Point|
                out@.contains(p) <==> (visible_from(
                    map.tiles@,
                    (center.x as int, center.y as int),
                    (p.x as int, p.y as int),
                    range as int,
                ) && p.y < y),
        decreases 43 - y,
    {
        let mut x: i32 = 0;
        while x < WIDTH
            invariant
                map.wf(),
                in_bounds_pt((center.x as int, center.y as int)),
                0 <= y < 43,
                0 <= x <= 80,
                rr == (range as int) * (range as int),
                forall|p: Point|
                    out@.contains(p) <==> (visible_from(
                        map.tiles@,
                        (center.x as int, center.y as int),
                        (p.x as int, p.y as int),
                        range as int,
                    ) && (p.y < y || (p.y == y && p.x < x))),
            decreases 80 - x,
        {
            let dx: i64 = (x as i64) - (center.x as i64);
            let dy: i64 = (y as i64) - (center.y as i64);
            proof {
                assert(0 <= dx * dx <= 6400 && 0 <= dy * dy <= 6400) by (nonlinear_arith)
                    requires
                        -80 <= dx <= 80 && -80 <= dy <= 80,
                ;
            }
            let d2: i64 = dx * dx + dy * dy;
            let ghost out_pre = out@;
            if d2 <= rr {
                if los_exec(map, center.x, center.y, x, y) {
                    out.push(Point { x, y });
                }
            }
            proof {
                assert forall|p: Point|
                    out@.contains(p) <==> (visible_from(
                        map.tiles@,
                        (center.x as int, center.y as int),
                        (p.x as int, p.y as int),
                        range as int,
                    ) && (p.y < y || (p.y == y && p.x < x + 1))) by {
                    if out@ == out_pre {
                        assert(out@.contains(p) == out_pre.contains(p));
                    } else {
                        assert(out@ == out_pre.push(Point { x, y }));
                        if out_pre.contains(p) {
                            let k = choose|k: int| 0 <= k < out_pre.len() && out_pre[k] == p;
                            assert(out@[k] == p);
                            assert(out@.contains(p));
                        }
                        if out@.contains(p) && p != (Point { x, y }) {
                            let k = choose|k: int| 0 <= k < out@.len() && out@[k] == p;
                            assert(k < out_pre.len());
                            assert(out_pre.contains(p));
                        }
                        assert(out@[out@.len() - 1] == (Point { x, y }));
                    }
                }
            }
            x = x + 1;
        }
        y = y + 1;
    }
    out
}

} // verus!
