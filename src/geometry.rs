use vstd::prelude::*;

verus! {

/// One drawing unit, in the sub-units that coordinates are counted in.
pub const UNIT: i64 = 1000;

/// Largest magnitude of a rectangle edge coordinate.
pub const COORD_LIMIT: i64 = 1_000_000_000_000_000;

/// Inset of a window's close control from its top-left corner.
pub const CLOSE_MARGIN: i64 = 20 * UNIT;

/// A point of the drawing surface; `y` grows upwards.
#[derive(Clone, Copy, Debug, PartialEq, Eq, Structural)]
pub struct Point {
    pub x: i64,
    pub y: i64,
}

/// Squared Euclidean distance between two points.
pub open spec fn dist_sq(a: Point, b: Point) -> int {
    (a.x - b.x) * (a.x - b.x) + (a.y - b.y) * (a.y - b.y)
}

pub open spec fn abs(v: int) -> int {
    if v < 0 {
        -v
    } else {
        v
    }
}

fn abs_diff(a: i64, b: i64) -> (r: u64)
    ensures
        r == abs(a - b),
{
    let d: i128 = a as i128 - b as i128;
    if d < 0 {
        (-d) as u64
    } else {
        d as u64
    }
}

pub proof fn lemma_square_of_abs(v: int)
    ensures
        abs(v) * abs(v) == v * v,
{
    assert((-v) * (-v) == v * v) by (nonlinear_arith);
}

/// Whether the squared distance between `a` and `b` is at most `limit_sq`.
pub fn dist_sq_at_most(a: Point, b: Point, limit_sq: u64) -> (r: bool)
    ensures
        r == (dist_sq(a, b) <= limit_sq),
{
    let dx = abs_diff(a.x, b.x) as u128;
    let dy = abs_diff(a.y, b.y) as u128;
    proof {
        lemma_square_of_abs(a.x - b.x);
        lemma_square_of_abs(a.y - b.y);
        assert(dx * dx <= 0xffff_ffff_ffff_ffff * 0xffff_ffff_ffff_ffff) by (nonlinear_arith)
            requires
                dx <= 0xffff_ffff_ffff_ffff,
        ;
        assert(dy * dy <= 0xffff_ffff_ffff_ffff * 0xffff_ffff_ffff_ffff) by (nonlinear_arith)
            requires
                dy <= 0xffff_ffff_ffff_ffff,
        ;
        assert(dy * dy >= 0) by (nonlinear_arith);
        assert(dx * dx >= 0) by (nonlinear_arith);
    }
    let sx = dx * dx;
    let sy = dy * dy;
    if sx > limit_sq as u128 || sy > limit_sq as u128 {
        false
    } else {
        sx + sy <= limit_sq as u128
    }
}

/// An axis-aligned rectangle given by its four edges.
#[derive(Clone, Copy, Debug, PartialEq, Eq, Structural)]
pub struct Rect {
    pub left: i64,
    pub right: i64,
    pub bottom: i64,
    pub top: i64,
}

impl Rect {
    /// Edges in order and within `COORD_LIMIT`.
    pub open spec fn wf(self) -> bool {
        &&& -COORD_LIMIT <= self.left <= self.right <= COORD_LIMIT
        &&& -COORD_LIMIT <= self.bottom <= self.top <= COORD_LIMIT
    }

    pub open spec fn spec_width(self) -> int {
        self.right - self.left
    }

    pub open spec fn spec_height(self) -> int {
        self.top - self.bottom
    }

    /// `self` lies inside `outer`, edges included.
    pub open spec fn within(self, outer: Rect) -> bool {
        &&& outer.left <= self.left
        &&& self.right <= outer.right
        &&& outer.bottom <= self.bottom
        &&& self.top <= outer.top
    }

    pub open spec fn spec_padded(self, m: int) -> Rect {
        Rect {
            left: (self.left + m) as i64,
            right: (self.right - m) as i64,
            bottom: (self.bottom + m) as i64,
            top: (self.top - m) as i64,
        }
    }

    /// The rectangle spanning the given ranges of `x` and `y`.
    pub fn new(left: i64, right: i64, bottom: i64, top: i64) -> (r: Rect)
        ensures
            r == (Rect { left, right, bottom, top }),
    {
        Rect { left, right, bottom, top }
    }

    pub fn width(&self) -> (r: i64)
        requires
            self.wf(),
        ensures
            r == self.spec_width(),
    {
        self.right - self.left
    }

    pub fn height(&self) -> (r: i64)
        requires
            self.wf(),
        ensures
            r == self.spec_height(),
    {
        self.top - self.bottom
    }

    /// The rectangle shrunk by `m` on every side.
    pub fn padded(&self, m: i64) -> (r: Rect)
        requires
            self.wf(),
            0 <= m,
            2 * m <= self.spec_width(),
            2 * m <= self.spec_height(),
        ensures
            r == self.spec_padded(m as int),
            r.wf(),
            r.within(*self),
    {
        Rect {
            left: self.left + m,
            right: self.right - m,
            bottom: self.bottom + m,
            top: self.top - m,
        }
    }

    pub fn top_left(&self) -> (r: Point)
        ensures
            r == (Point { x: self.left, y: self.top }),
    {
        Point { x: self.left, y: self.top }
    }
}

/// Where the close control of a window with the given bounds sits: the
/// top-left corner of the bounds moved inwards by `CLOSE_MARGIN`.
pub open spec fn close_point(bounds: Rect) -> Point {
    Point { x: (bounds.left + CLOSE_MARGIN) as i64, y: (bounds.top - CLOSE_MARGIN) as i64 }
}

pub fn close_button_pos(window: &Rect) -> (r: Point)
    requires
        window.wf(),
    ensures
        r == close_point(*window),
        r.x == window.left + CLOSE_MARGIN,
        r.y == window.top - CLOSE_MARGIN,
{
    Point { x: window.left + CLOSE_MARGIN, y: window.top - CLOSE_MARGIN }
}

} // verus!
