use vstd::prelude::*;

verus! {

/// An axis-aligned rectangle, the footprint of a generated room.
/// `x1..=x2` and `y1..=y2` are inclusive; the carved interior is
/// `x1+1..=x2` by `y1+1..=y2`.
#[derive(Clone, Copy, PartialEq, Eq, Structural, Debug)]
pub struct Rect {
    pub x1: i32,
    pub y1: i32,
    pub x2: i32,
    pub y2: i32,
}

impl Rect {
    pub fn new(x: i32, y: i32, w: i32, h: i32) -> (r: Rect)
        requires
            i32::MIN <= x + w <= i32::MAX,
            i32::MIN <= y + h <= i32::MAX,
        ensures
            r == (Rect { x1: x, y1: y, x2: (x + w) as i32, y2: (y + h) as i32 }),
    {
        Rect { x1: x, y1: y, x2: x + w, y2: y + h }
    }

    /// Whether two rectangles touch or overlap (used for room rejection
    /// sampling; touching counts as an intersection).
    pub open spec fn spec_intersect(self, other: Rect) -> bool {
        self.x1 <= other.x2 && self.x2 >= other.x1 && self.y1 <= other.y2 && self.y2 >= other.y1
    }

    pub fn intersect(&self, other: &Rect) -> (r: bool)
        ensures
            r == self.spec_intersect(*other),
    {
        self.x1 <= other.x2 && self.x2 >= other.x1 && self.y1 <= other.y2 && self.y2 >= other.y1
    }

    pub open spec fn spec_center(self) -> (int, int) {
        (((self.x1 + self.x2) as int) / 2, ((self.y1 + self.y2) as int) / 2)
    }

    pub fn center(&self) -> (r: (i32, i32))
        requires
            i32::MIN <= self.x1 + self.x2 <= i32::MAX,
            i32::MIN <= self.y1 + self.y2 <= i32::MAX,
            self.x1 + self.x2 >= 0,
            self.y1 + self.y2 >= 0,
        ensures
            r.0 == self.spec_center().0,
            r.1 == self.spec_center().1,
    {
        ((self.x1 + self.x2) / 2, (self.y1 + self.y2) / 2)
    }

    /// A room whose interior is at least two tiles on a side, lying in the
    /// interior of an `80 x 43` grid: the carved region and the center stay
    /// strictly inside the outer wall.
    pub open spec fn wf_room(self) -> bool {
        &&& 0 <= self.x1
        &&& self.x1 + 2 <= self.x2
        &&& self.x2 <= 78
        &&& 0 <= self.y1
        &&& self.y1 + 2 <= self.y2
        &&& self.y2 <= 41
    }

    pub proof fn lemma_center_in_interior(self)
        requires
            self.wf_room(),
        ensures
            self.x1 + 1 <= self.spec_center().0 <= self.x2,
            self.y1 + 1 <= self.spec_center().1 <= self.y2,
    {
    }
}

} // verus!
