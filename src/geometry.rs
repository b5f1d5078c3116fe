use vstd::prelude::*;

verus! {

/// One pixel, in the micro-pixel unit that every position and size uses.
pub const PIXEL: i64 = 1_000_000;

/// Length of a unit direction vector, in thousandths.
pub const DIR_ONE: i64 = 1000;

/// Each component of a diagonal unit direction (1000 / sqrt 2, rounded).
pub const DIR_DIAGONAL: i64 = 707;

/// Largest arena side that the simulation accepts (one million pixels).
pub const ARENA_LIMIT: i64 = 1_000_000 * PIXEL;

/// Bound on the magnitude of every stored position component.
pub const POS_LIMIT: i64 = 4 * ARENA_LIMIT;

/// A point or a direction in the plane.
#[derive(Clone, Copy, Debug, PartialEq, Eq, Structural)]
pub struct Vec2 {
    pub x: i64,
    pub y: i64,
}

impl Vec2 {
    pub fn new(x: i64, y: i64) -> (r: Vec2)
        ensures
            r.x == x,
            r.y == y,
    {
        Vec2 { x, y }
    }

    pub open spec fn is_zero(self) -> bool {
        self.x == 0 && self.y == 0
    }

    pub open spec fn within(self, limit: int) -> bool {
        -limit <= self.x <= limit && -limit <= self.y <= limit
    }
}

/// Squared length of a direction, in millionths of the unit.
pub open spec fn norm_sq(d: Vec2) -> int {
    d.x * d.x + d.y * d.y
}

/// A direction of (rounded) unit length: its squared length lies within
/// one part in a thousand of `DIR_ONE` squared.
pub open spec fn is_unit(d: Vec2) -> bool {
    -DIR_ONE <= d.x <= DIR_ONE && -DIR_ONE <= d.y <= DIR_ONE && 999_000 <= norm_sq(d) <= 1_000_000
}

/// Squares of the component values that a key direction can have.
pub proof fn lemma_component_square(a: int)
    requires
        a == 0 || a == 707 || a == -707 || a == 1000 || a == -1000,
    ensures
        a == 0 ==> a * a == 0,
        (a == 707 || a == -707) ==> a * a == 499_849,
        (a == 1000 || a == -1000) ==> a * a == 1_000_000,
{
    if a == 707 {
        assert(a * a == 499_849);
    } else if a == -707 {
        assert(a * a == 499_849);
    } else if a == 1000 {
        assert(a * a == 1_000_000);
    } else if a == -1000 {
        assert(a * a == 1_000_000);
    }
}

/// Squared Euclidean distance between two points.
pub open spec fn dist_sq(a: Vec2, b: Vec2) -> int {
    (a.x - b.x) * (a.x - b.x) + (a.y - b.y) * (a.y - b.y)
}

/// Two circles overlap when the distance of their centres is strictly less
/// than the sum of their radii; touching circles do not overlap.
pub open spec fn overlaps(a: Vec2, ra: int, b: Vec2, rb: int) -> bool {
    dist_sq(a, b) < (ra + rb) * (ra + rb)
}

/// The playing field, `[0, width] x [0, height]`.
#[derive(Clone, Copy, Debug, PartialEq, Eq, Structural)]
pub struct Arena {
    pub width: i64,
    pub height: i64,
}

/// Largest radius of any entity kind.
pub const MAX_RADIUS: i64 = 32 * PIXEL;

impl Arena {
    /// Sides must hold the largest entity and stay below `ARENA_LIMIT`.
    pub open spec fn wf(self) -> bool {
        2 * MAX_RADIUS <= self.width <= ARENA_LIMIT && 2 * MAX_RADIUS <= self.height <= ARENA_LIMIT
    }

    /// Validates an arena size given in micro-pixels.
    pub fn new(width: i64, height: i64) -> (r: Option<Arena>)
        ensures
            r.is_some() <==> (Arena { width, height }).wf(),
            r.is_some() ==> r.unwrap() == (Arena { width, height }),
    {
        if 2 * MAX_RADIUS <= width && width <= ARENA_LIMIT && 2 * MAX_RADIUS <= height && height
            <= ARENA_LIMIT {
            Some(Arena { width, height })
        } else {
            None
        }
    }

    /// Validates an arena size given in whole pixels.
    pub fn from_pixels(width: u32, height: u32) -> (r: Option<Arena>)
        ensures
            r.is_some() <==> (2 * MAX_RADIUS <= width * PIXEL <= ARENA_LIMIT && 2 * MAX_RADIUS
                <= height * PIXEL <= ARENA_LIMIT),
            r.is_some() ==> r.unwrap().wf() && r.unwrap().width == width * PIXEL
                && r.unwrap().height == height * PIXEL,
    {
        Arena::new(width as i64 * PIXEL, height as i64 * PIXEL)
    }

    /// The centre of the arena.
    pub fn center(&self) -> (r: Vec2)
        requires
            self.wf(),
        ensures
            r.x == self.width / 2,
            r.y == self.height / 2,
    {
        Vec2 { x: self.width / 2, y: self.height / 2 }
    }

    /// A circle of radius `r` lies inside the arena.
    pub open spec fn holds(self, p: Vec2, r: int) -> bool {
        r <= p.x <= self.width - r && r <= p.y <= self.height - r
    }
}

/// Whether two circles overlap, decided on exact integers.
pub fn circles_overlap(a: Vec2, ra: i64, b: Vec2, rb: i64) -> (r: bool)
    requires
        a.within(POS_LIMIT as int),
        b.within(POS_LIMIT as int),
        0 <= ra <= MAX_RADIUS,
        0 <= rb <= MAX_RADIUS,
    ensures
        r == overlaps(a, ra as int, b, rb as int),
{
    let dx = (a.x as i128) - (b.x as i128);
    let dy = (a.y as i128) - (b.y as i128);
    let sum = (ra as i128) + (rb as i128);
    assert(0 <= dx * dx <= 64_000_000_000_000_000_000_000_000) by (nonlinear_arith)
        requires
            -8_000_000_000_000 <= dx <= 8_000_000_000_000,
    ;
    assert(0 <= dy * dy <= 64_000_000_000_000_000_000_000_000) by (nonlinear_arith)
        requires
            -8_000_000_000_000 <= dy <= 8_000_000_000_000,
    ;
    assert(0 <= sum * sum <= 4_096_000_000_000_000) by (nonlinear_arith)
        requires
            0 <= sum <= 64_000_000,
    ;
    let dx2 = dx * dx;
    let dy2 = dy * dy;
    dx2 + dy2 < sum * sum
}

} // verus!
