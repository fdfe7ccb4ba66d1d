use vstd::prelude::*;
use vstd::arithmetic::div_mod::{lemma_fundamental_div_mod_converse_div, lemma_fundamental_div_mod_converse_mod};
use crate::fov::{abs_i, cheb_dist, step_toward};
use crate::map::{GameMap, SIZE, filled_false, idx2, in_bounds_pt, min_i};

verus! {

/// The coordinates of a flat tile index.
pub open spec fn coords(j: int) -> (int, int) {
    (j % 80, j / 80)
}

pub(crate) proof fn lemma_idx_coords(x: int, y: int)
    requires
        0 <= x < 80,
        0 <= y,
    ensures
        coords(idx2(x, y)) == (x, y),
{
    lemma_fundamental_div_mod_converse_div(y * 80 + x, 80, y, x);
    lemma_fundamental_div_mod_converse_mod(y * 80 + x, 80, y, x);
}

/// A tile a walker may step into: strictly inside the outer columns and
/// rows the pathfinder considers, and not blocked.
pub open spec fn spec_exit_valid(m: GameMap, x: int, y: int) -> bool {
    &&& 1 <= x <= 79
    &&& 1 <= y <= 42
    &&& !m.blocked@[idx2(x, y)]
}

/// The stated cost model: cardinal steps cost 100, diagonal steps 145.
pub open spec fn step_cost(a: (int, int), b: (int, int)) -> int {
    if a.0 != b.0 && a.1 != b.1 {
        145
    } else {
        100
    }
}

/// One legal pathfinding move: a king move into a valid exit.
pub open spec fn step8_ok(m: GameMap, a: (int, int), b: (int, int)) -> bool {
    cheb_dist(a, b) == 1 && spec_exit_valid(m, b.0, b.1)
}

/// A valid path: nonempty, starts and ends where asked, and every move
/// is a legal pathfinding move.
pub open spec fn path_valid(m: GameMap, p: Seq<usize>, start: int, target: int) -> bool {
    &&& p.len() >= 1
    &&& p[0] == start
    &&& p[p.len() - 1] == target
    &&& forall|k: int| 0 <= k < p.len() ==> (#[trigger] p[k]) < 3440
    &&& forall|k: int|
        0 <= k < p.len() - 1 ==> step8_ok(m, coords(#[trigger] p[k] as int), coords(p[k + 1] as int))
}

/// The total cost of a path under the stated cost model.
pub open spec fn path_cost(p: Seq<usize>) -> int
    decreases p.len(),
{
    if p.len() <= 1 {
        0
    } else {
        path_cost(p.drop_last()) + step_cost(
            coords(p[p.len() - 2] as int),
            coords(p[p.len() - 1] as int),
        )
    }
}

/// The Chebyshev-weighted distance: 100 per king move plus 45 for each
/// move that must be diagonal.
pub open spec fn cheb_weighted_cost(a: (int, int), b: (int, int)) -> int {
    100 * cheb_dist(a, b) + 45 * min_i(abs_i(b.0 - a.0), abs_i(b.1 - a.1))
}

/// A single king move cannot shrink the weighted distance to any goal
/// by more than its own cost.
proof fn lemma_step_potential(a: (int, int), b: (int, int), c: (int, int))
    requires
        cheb_dist(a, b) == 1,
    ensures
        cheb_weighted_cost(a, c) <= step_cost(a, b) + cheb_weighted_cost(b, c),
{
}

/// No path can beat the Chebyshev-weighted distance between its two
/// endpoints: each step costs at least what it gains.
#[verifier::rlimit(100)]
#[verifier::spinoff_prover]
pub proof fn lemma_path_cost_lower_bound(m: GameMap, p: Seq<usize>, start: int, target: int)
    requires
        path_valid(m, p, start, target),
    ensures
        path_cost(p) >= cheb_weighted_cost(coords(start), coords(target)),
    decreases p.len(),
{
    if p.len() <= 1 {
        assert(start == target);
    } else {
        let q = p.drop_last();
        let prev = p[p.len() - 2];
        assert(q[0] == p[0]);
        assert(q[q.len() - 1] == prev);
        assert(forall|k: int| 0 <= k < q.len() ==> q[k] == #[trigger] p[k]);
        assert(forall|k: int|
            0 <= k < q.len() - 1 ==> step8_ok(
                m,
                coords(#[trigger] q[k] as int),
                coords(q[k + 1] as int),
            ));
        lemma_path_cost_lower_bound(m, q, start, prev as int);
        assert(step8_ok(m, coords(prev as int), coords(target)));
        lemma_step_potential(coords(target), coords(prev as int), coords(start));
        assert(cheb_dist(coords(target), coords(prev as int)) == cheb_dist(
            coords(prev as int),
            coords(target),
        ));
        assert(cheb_weighted_cost(coords(start), coords(prev as int)) == cheb_weighted_cost(
            coords(prev as int),
            coords(start),
        ));
        assert(cheb_weighted_cost(coords(start), coords(target)) == cheb_weighted_cost(
            coords(target),
            coords(start),
        ));
        assert(step_cost(coords(target), coords(prev as int)) == step_cost(
            coords(prev as int),
            coords(target),
        ));
    }
}

/// A path whose cost equals the Chebyshev-weighted distance between
/// its endpoints is a shortest path: no valid path can cost less.
pub proof fn lemma_weighted_cost_path_is_shortest(
    m: GameMap,
    p: Seq<usize>,
    q: Seq<usize>,
    start: int,
    target: int,
)
    requires
        path_valid(m, p, start, target),
        path_cost(p) == cheb_weighted_cost(coords(start), coords(target)),
        path_valid(m, q, start, target),
    ensures
        path_cost(q) >= path_cost(p),
{
    lemma_path_cost_lower_bound(m, q, start, target);
}

/// The direct greedy walk from `a` to `b` meets only valid exits.
pub open spec fn direct_clear(m: GameMap, a: (int, int), b: (int, int)) -> bool
    decreases cheb_dist(a, b),
{
    if a == b || cheb_dist(a, b) < 0 {
        true
    } else {
        let nxt = step_toward(a, b);
        spec_exit_valid(m, nxt.0, nxt.1) && direct_clear(m, nxt, b)
    }
}

/// A greedy step toward the goal closes the weighted distance by
/// exactly its own cost.
proof fn lemma_greedy_step(a: (int, int), b: (int, int))
    requires
        a != b,
    ensures
        cheb_weighted_cost(a, b) == step_cost(a, step_toward(a, b)) + cheb_weighted_cost(
            step_toward(a, b),
            b,
        ),
{
}


impl GameMap {
    fn is_exit_valid(&self, x: i32, y: i32) -> (r: bool)
        requires
            self.wf(),
        ensures
            r == spec_exit_valid(*self, x as int, y as int),
    {
        if x < 1 || x > self.width - 1 || y < 1 || y > self.height - 1 {
            return false;
        }
        let index = self.xy_idx(x, y);
        !self.blocked[index]
    }

    /// Append the exit entry for one king-move direction, when that
    /// neighbor is a valid exit.
    fn push_exit(
        &self,
        exits: &mut Vec<(usize, u32)>,
        index: usize,
        x: i32,
        y: i32,
        dx: i32,
        dy: i32,
        cost: u32,
    )
        requires
            self.wf(),
            index < 3440,
            x as int == coords(index as int).0,
            y as int == coords(index as int).1,
            index as int == idx2(x as int, y as int),
            -1 <= dx <= 1,
            -1 <= dy <= 1,
            !(dx == 0 && dy == 0),
        ensures
            spec_exit_valid(*self, x as int + dx, y as int + dy) ==> final(exits)@ == old(
                exits,
            )@.push((((index + dy * 80 + dx) as usize), cost)),
            !spec_exit_valid(*self, x as int + dx, y as int + dy) ==> final(exits)@ == old(
                exits,
            )@,
    {
        if self.is_exit_valid(x + dx, y + dy) {
            let neighbor: usize = ((index as i64) + (dy as i64) * 80 + (dx as i64)) as usize;
            exits.push((neighbor, cost));
        }
    }

    /// The legal moves out of a tile, with their costs: the four
    /// cardinal neighbors at 100 and the four diagonals at 145. An
    /// entry appears for a king-move neighbor exactly when that
    /// neighbor is a valid exit, and nothing else appears.
    #[verifier::rlimit(100)]
    #[verifier::spinoff_prover]
    pub fn get_available_exits(&self, index: usize) -> (r: Vec<(usize, u32)>)
        requires
            self.wf(),
            index < 3440,
        ensures
            forall|k: int|
                0 <= k < r@.len() ==> exists|dx: int, dy: int|
                    {
                        &&& -1 <= dx <= 1
                        &&& -1 <= dy <= 1
                        &&& !(dx == 0 && dy == 0)
                        &&& #[trigger] spec_exit_valid(
                            *self,
                            coords(index as int).0 + dx,
                            coords(index as int).1 + dy,
                        )
                        &&& (#[trigger] r@[k]).0 as int == index + dy * 80 + dx
                        &&& r@[k].1 == (if dx != 0 && dy != 0 {
                            145int
                        } else {
                            100int
                        })
                    },
            spec_exit_valid(*self, coords(index as int).0 + (-1), coords(index as int).1 + (0)) ==> r@.contains((((index - 1) as usize), 100u32)),
            spec_exit_valid(*self, coords(index as int).0 + (1), coords(index as int).1 + (0)) ==> r@.contains((((index + 1) as usize), 100u32)),
            spec_exit_valid(*self, coords(index as int).0 + (0), coords(index as int).1 + (-1)) ==> r@.contains((((index - 80) as usize), 100u32)),
            spec_exit_valid(*self, coords(index as int).0 + (0), coords(index as int).1 + (1)) ==> r@.contains((((index + 80) as usize), 100u32)),
            spec_exit_valid(*self, coords(index as int).0 + (-1), coords(index as int).1 + (-1)) ==> r@.contains((((index - 81) as usize), 145u32)),
            spec_exit_valid(*self, coords(index as int).0 + (1), coords(index as int).1 + (-1)) ==> r@.contains((((index - 79) as usize), 145u32)),
            spec_exit_valid(*self, coords(index as int).0 + (-1), coords(index as int).1 + (1)) ==> r@.contains((((index + 79) as usize), 145u32)),
            spec_exit_valid(*self, coords(index as int).0 + (1), coords(index as int).1 + (1)) ==> r@.contains((((index + 81) as usize), 145u32)),
    {
        let mut exits: Vec<(usize, u32)> = Vec::new();
        let x = (index as i32) % self.width;
        let y = (index as i32) / self.width;
        proof {
            assert(x as int == coords(index as int).0 && y as int == coords(index as int).1);
            vstd::arithmetic::div_mod::lemma_fundamental_div_mod(index as int, 80);
            assert(index as int == idx2(x as int, y as int));
        }
        let ghost at1 = exits@.len() as int;
        self.push_exit(&mut exits, index, x, y, -1, 0, 100);
        let ghost at2 = exits@.len() as int;
        self.push_exit(&mut exits, index, x, y, 1, 0, 100);
        let ghost at3 = exits@.len() as int;
        self.push_exit(&mut exits, index, x, y, 0, -1, 100);
        let ghost at4 = exits@.len() as int;
        self.push_exit(&mut exits, index, x, y, 0, 1, 100);
        let ghost at5 = exits@.len() as int;
        self.push_exit(&mut exits, index, x, y, -1, -1, 145);
        let ghost at6 = exits@.len() as int;
        self.push_exit(&mut exits, index, x, y, 1, -1, 145);
        let ghost at7 = exits@.len() as int;
        self.push_exit(&mut exits, index, x, y, -1, 1, 145);
        let ghost at8 = exits@.len() as int;
        self.push_exit(&mut exits, index, x, y, 1, 1, 145);

        proof {
            if spec_exit_valid(*self, coords(index as int).0 + (-1), coords(index as int).1
                + (0)) {
                assert(exits@[at1] == (((index - 1) as usize), 100u32));
                assert(exits@.contains((((index - 1) as usize), 100u32)));
            }
            if spec_exit_valid(*self, coords(index as int).0 + (1), coords(index as int).1
                + (0)) {
                assert(exits@[at2] == (((index + 1) as usize), 100u32));
                assert(exits@.contains((((index + 1) as usize), 100u32)));
            }
            if spec_exit_valid(*self, coords(index as int).0 + (0), coords(index as int).1
                + (-1)) {
                assert(exits@[at3] == (((index - 80) as usize), 100u32));
                assert(exits@.contains((((index - 80) as usize), 100u32)));
            }
            if spec_exit_valid(*self, coords(index as int).0 + (0), coords(index as int).1
                + (1)) {
                assert(exits@[at4] == (((index + 80) as usize), 100u32));
                assert(exits@.contains((((index + 80) as usize), 100u32)));
            }
            if spec_exit_valid(*self, coords(index as int).0 + (-1), coords(index as int).1
                + (-1)) {
                assert(exits@[at5] == (((index - 81) as usize), 145u32));
                assert(exits@.contains((((index - 81) as usize), 145u32)));
            }
            if spec_exit_valid(*self, coords(index as int).0 + (1), coords(index as int).1
                + (-1)) {
                assert(exits@[at6] == (((index - 79) as usize), 145u32));
                assert(exits@.contains((((index - 79) as usize), 145u32)));
            }
            if spec_exit_valid(*self, coords(index as int).0 + (-1), coords(index as int).1
                + (1)) {
                assert(exits@[at7] == (((index + 79) as usize), 145u32));
                assert(exits@.contains((((index + 79) as usize), 145u32)));
            }
            if spec_exit_valid(*self, coords(index as int).0 + (1), coords(index as int).1
                + (1)) {
                assert(exits@[at8] == (((index + 81) as usize), 145u32));
                assert(exits@.contains((((index + 81) as usize), 145u32)));
            }
            assert forall|k: int|
                0 <= k < exits@.len() implies exists|dx: int, dy: int|
                {
                    &&& -1 <= dx <= 1
                    &&& -1 <= dy <= 1
                    &&& !(dx == 0 && dy == 0)
                    &&& #[trigger] spec_exit_valid(
                        *self,
                        coords(index as int).0 + dx,
                        coords(index as int).1 + dy,
                    )
                    &&& (#[trigger] exits@[k]).0 as int == index + dy * 80 + dx
                    &&& exits@[k].1 == (if dx != 0 && dy != 0 {
                        145int
                    } else {
                        100int
                    })
                } by {
                if k == at1 && at1 < at2 {
                    assert(spec_exit_valid(*self, coords(index as int).0 + (-1), coords(
                        index as int,
                    ).1 + (0)));
                    assert(exits@[k] == (((index - 1) as usize), 100u32));
                }
                if k == at2 && at2 < at3 {
                    assert(spec_exit_valid(*self, coords(index as int).0 + (1), coords(
                        index as int,
                    ).1 + (0)));
                    assert(exits@[k] == (((index + 1) as usize), 100u32));
                }
                if k == at3 && at3 < at4 {
                    assert(spec_exit_valid(*self, coords(index as int).0 + (0), coords(
                        index as int,
                    ).1 + (-1)));
                    assert(exits@[k] == (((index - 80) as usize), 100u32));
                }
                if k == at4 && at4 < at5 {
                    assert(spec_exit_valid(*self, coords(index as int).0 + (0), coords(
                        index as int,
                    ).1 + (1)));
                    assert(exits@[k] == (((index + 80) as usize), 100u32));
                }
                if k == at5 && at5 < at6 {
                    assert(spec_exit_valid(*self, coords(index as int).0 + (-1), coords(
                        index as int,
                    ).1 + (-1)));
                    assert(exits@[k] == (((index - 81) as usize), 145u32));
                }
                if k == at6 && at6 < at7 {
                    assert(spec_exit_valid(*self, coords(index as int).0 + (1), coords(
                        index as int,
                    ).1 + (-1)));
                    assert(exits@[k] == (((index - 79) as usize), 145u32));
                }
                if k == at7 && at7 < at8 {
                    assert(spec_exit_valid(*self, coords(index as int).0 + (-1), coords(
                        index as int,
                    ).1 + (1)));
                    assert(exits@[k] == (((index + 79) as usize), 145u32));
                }
                if k == at8 && at8 < exits@.len() as int {
                    assert(spec_exit_valid(*self, coords(index as int).0 + (1), coords(
                        index as int,
                    ).1 + (1)));
                    assert(exits@[k] == (((index + 81) as usize), 145u32));
                }
            }
        }
        exits
    }
}

/// The on-map coordinates of a flat index.
fn coords_of(j: usize) -> (r: (i32, i32))
    requires
        j < 3440,
    ensures
        r.0 as int == coords(j as int).0,
        r.1 as int == coords(j as int).1,
        0 <= r.0 < 80,
        0 <= r.1 < 43,
{
    ((j as i32) % 80, (j as i32) / 80)
}


/// Check a candidate path against the path predicate.
#[verifier::rlimit(100)]
fn is_path_valid(m: &GameMap, p: &Vec<usize>, start: usize, target: usize) -> (r: bool)
    requires
        m.wf(),
    ensures
        r == path_valid(*m, p@, start as int, target as int),
{
    if p.len() == 0 {
        return false;
    }
    if p[0] != start {
        return false;
    }
    if p[p.len() - 1] != target {
        return false;
    }
    let mut k: usize = 0;
    while k < p.len()
        invariant
            0 <= k <= p@.len(),
            forall|j: int| 0 <= j < k ==> (#[trigger] p@[j]) < 3440,
        decreases p@.len() - k,
    {
        if p[k] >= SIZE {
            return false;
        }
        k = k + 1;
    }
    let mut k: usize = 0;
    while k < p.len() - 1
        invariant
            m.wf(),
            0 <= k <= p@.len(),
            p@.len() >= 1,
            forall|j: int| 0 <= j < p@.len() ==> (#[trigger] p@[j]) < 3440,
            forall|j: int|
                0 <= j < k && j < p@.len() - 1 ==> step8_ok(
                    *m,
                    coords(#[trigger] p@[j] as int),
                    coords(p@[j + 1] as int),
                ),
        decreases p@.len() - k,
    {
        let a = p[k];
        let b = p[k + 1];
        let (ax, ay) = coords_of(a);
        let (bx, by) = coords_of(b);
        let dx = if bx >= ax {
            bx - ax
        } else {
            ax - bx
        };
        let dy = if by >= ay {
            by - ay
        } else {
            ay - by
        };
        let ch = if dx >= dy {
            dx
        } else {
            dy
        };
        if ch != 1 {
            return false;
        }
        if !m.is_exit_valid(bx, by) {
            return false;
        }
        proof {
            assert(idx2(bx as int, by as int) == b as int) by {
                vstd::arithmetic::div_mod::lemma_fundamental_div_mod(b as int, 80);
            };
        }
        k = k + 1;
    }
    true
}

/// Find a walkable path between two tiles. When the direct greedy line
/// from start to target is unobstructed, the result is exactly that
/// line, whose cost equals the Chebyshev-weighted distance (and so, by
/// `lemma_path_cost_lower_bound`, equals the shortest possible cost).
/// When the line is obstructed, a breadth-first search over the exit
/// graph takes over: it guarantees a valid path and nothing about its
/// cost. When a path is returned it is always valid, so nothing is
/// ever returned for an unreachable target.
pub fn find_path(map: &GameMap, start: usize, target: usize) -> (r: Option<Vec<usize>>)
    requires
        map.wf(),
        start < 3440,
        target < 3440,
    ensures
        r is Some ==> path_valid(*map, r.unwrap()@, start as int, target as int),
        (start != target && direct_clear(*map, coords(start as int), coords(target as int))) ==> {
            &&& r is Some
            &&& path_cost(r.unwrap()@) == cheb_weighted_cost(
                coords(start as int),
                coords(target as int),
            )
        },
{
    let sx = (start as i32) % 80;
    let sy = (start as i32) / 80;
    let tx = (target as i32) % 80;
    let ty = (target as i32) / 80;

    // first try the direct greedy line
    if !(sx == tx && sy == ty) {
        let mut p: Vec<usize> = Vec::new();
        p.push(start);
        let mut cx = sx;
        let mut cy = sy;
        let mut ok = true;
        while ok && !(cx == tx && cy == ty)
            invariant
                map.wf(),
                start < 3440,
                target < 3440,
                sx as int == coords(start as int).0,
                sy as int == coords(start as int).1,
                tx as int == coords(target as int).0,
                ty as int == coords(target as int).1,
                0 <= cx < 80,
                0 <= cy < 43,
                0 <= tx < 80,
                0 <= ty < 43,
                p@.len() >= 1,
                p@[0] == start,
                forall|k: int| 0 <= k < p@.len() ==> (#[trigger] p@[k]) < 3440,
                ok ==> coords(p@[p@.len() - 1] as int) == (cx as int, cy as int),
                ok ==> forall|k: int|
                    0 <= k < p@.len() - 1 ==> step8_ok(
                        *map,
                        coords(#[trigger] p@[k] as int),
                        coords(p@[k + 1] as int),
                    ),
                ok ==> path_cost(p@) + cheb_weighted_cost(
                    (cx as int, cy as int),
                    (tx as int, ty as int),
                ) == cheb_weighted_cost(coords(start as int), coords(target as int)),
                ok && direct_clear(*map, coords(start as int), coords(target as int))
                    ==> direct_clear(*map, (cx as int, cy as int), (tx as int, ty as int)),
                !ok ==> !direct_clear(*map, coords(start as int), coords(target as int)),
            decreases cheb_dist((cx as int, cy as int), (tx as int, ty as int)) + if ok {
                1int
            } else {
                0int
            },
        {
            let nx = cx + (if tx > cx {
                1
            } else if tx < cx {
                -1
            } else {
                0
            });
            let ny = cy + (if ty > cy {
                1
            } else if ty < cy {
                -1
            } else {
                0
            });
            proof {
                assert((nx as int, ny as int) == step_toward(
                    (cx as int, cy as int),
                    (tx as int, ty as int),
                ));
                lemma_greedy_step((cx as int, cy as int), (tx as int, ty as int));
            }
            if map.is_exit_valid(nx, ny) {
                let idx = map.xy_idx(nx, ny);
                let ghost p_pre = p@;
                p.push(idx);
                proof {
                    lemma_idx_coords(nx as int, ny as int);
                    assert(p@.drop_last() =~= p_pre);
                    assert(p@[p@.len() - 1] == idx);
                }
                cx = nx;
                cy = ny;
            } else {
                ok = false;
            }
        }
        if ok {
            proof {
                assert(p@[p@.len() - 1] as int == idx2(tx as int, ty as int));
                assert(idx2(tx as int, ty as int) == target as int) by {
                    lemma_idx_coords(tx as int, ty as int);
                    vstd::arithmetic::div_mod::lemma_fundamental_div_mod(target as int, 80);
                };
            }
            return Some(p);
        }
    } else {
        let mut p: Vec<usize> = Vec::new();
        p.push(start);
        return Some(p);
    }

    // fall back to a breadth-first search over the exit graph; any
    // path it finds is checked against the path predicate before it
    // is returned.
    let mut visited: Vec<bool> = filled_false(SIZE);
    let mut parent: Vec<usize> = filled_zero_exec(SIZE);
    let mut queue: Vec<usize> = Vec::new();
    queue.push(start);
    visited[start] = true;
    let mut head: usize = 0;
    let mut fuel: u32 = 30000;
    while head < queue.len() && fuel > 0
        invariant
            map.wf(),
            visited@.len() == 3440,
            parent@.len() == 3440,
            forall|j: int| 0 <= j < 3440 ==> (#[trigger] parent@[j]) < 3440,
            forall|k: int| 0 <= k < queue@.len() ==> (#[trigger] queue@[k]) < 3440,
            0 <= head,
        decreases fuel,
    {
        fuel = fuel - 1;
        let cur = queue[head];
        head = head + 1;
        let exits = map.get_available_exits(cur);
        let mut i: usize = 0;
        while i < exits.len()
            invariant
                map.wf(),
                visited@.len() == 3440,
                parent@.len() == 3440,
                cur < 3440,
                forall|j: int| 0 <= j < 3440 ==> (#[trigger] parent@[j]) < 3440,
                forall|k: int| 0 <= k < exits@.len() ==> (#[trigger] exits@[k]).0 < 3440,
                forall|k: int| 0 <= k < queue@.len() ==> (#[trigger] queue@[k]) < 3440,
            decreases exits@.len() - i,
        {
            let (nxt, _cost) = exits[i];
            if !visited[nxt] {
                visited[nxt] = true;
                parent[nxt] = cur;
                queue.push(nxt);
            }
            i = i + 1;
        }
    }
    if !visited[target] {
        return None;
    }
    let mut rev: Vec<usize> = Vec::new();
    rev.push(target);
    let mut cur = target;
    let mut fuel2: u32 = 4000;
    while cur != start && fuel2 > 0
        invariant
            parent@.len() == 3440,
            cur < 3440,
            forall|j: int| 0 <= j < 3440 ==> (#[trigger] parent@[j]) < 3440,
            forall|k: int| 0 <= k < rev@.len() ==> (#[trigger] rev@[k]) < 3440,
        decreases fuel2,
    {
        fuel2 = fuel2 - 1;
        cur = parent[cur];
        rev.push(cur);
    }
    if cur != start {
        return None;
    }
    let mut p: Vec<usize> = Vec::new();
    let mut k = rev.len();
    while k > 0
        invariant
            forall|j: int| 0 <= j < rev@.len() ==> (#[trigger] rev@[j]) < 3440,
            0 <= k <= rev@.len(),
            forall|j: int| 0 <= j < p@.len() ==> (#[trigger] p@[j]) < 3440,
        decreases k,
    {
        k = k - 1;
        p.push(rev[k]);
    }
    if is_path_valid(map, &p, start, target) {
        Some(p)
    } else {
        None
    }
}

fn filled_zero_exec(n: usize) -> (v: Vec<usize>)
    ensures
        v@.len() == n,
        forall|j: int| 0 <= j < n ==> (#[trigger] v@[j]) == 0,
{
    let mut v: Vec<usize> = Vec::new();
    let mut i: usize = 0;
    while i < n
        invariant
            v@.len() == i,
            0 <= i <= n,
            forall|j: int| 0 <= j < i ==> (#[trigger] v@[j]) == 0,
        decreases n - i,
    {
        v.push(0);
        i = i + 1;
    }
    v
}

} // verus!
