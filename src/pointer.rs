use vstd::prelude::*;
use crate::easing::{ease, ease_spec, lemma_ease_range, lemma_ease_ends_and_monotonic, EASE_SCALE};
use crate::geometry::{abs, dist_sq, dist_sq_at_most, lemma_square_of_abs, Point, UNIT};

verus! {

/// Progress added to a transit on each update, in thousandths.
pub const PROGRESS_STEP: u32 = 25;

/// Progress from which a transit counts as arrived, in thousandths.
pub const ARRIVAL_PROGRESS: u32 = 990;

/// A new target at most this far from the current one keeps the transit going.
pub const RETARGET_TOLERANCE: i64 = UNIT;

/// The animated cursor: at rest, or in transit from one point to another with
/// progress `t` in thousandths.
#[derive(Clone, Copy, Debug, PartialEq, Eq, Structural)]
pub enum Pointer {
    Idle(Point),
    Moving { from: Point, to: Point, t: u32 },
}

/// `d` scaled by the fraction `e / EASE_SCALE`, rounded towards zero.
pub open spec fn scaled(d: int, e: int) -> int {
    if d >= 0 {
        d * e / (EASE_SCALE as int)
    } else {
        -((-d) * e / (EASE_SCALE as int))
    }
}

/// The coordinate that lies the fraction `e / EASE_SCALE` of the way from `a` to `b`.
pub open spec fn lerp(a: int, b: int, e: int) -> int {
    a + scaled(b - a, e)
}

proof fn lemma_fraction_bounds(m: int, e: int)
    requires
        0 <= m,
        0 <= e <= EASE_SCALE,
    ensures
        0 <= m * e / (EASE_SCALE as int) <= m,
{
    assert(0 <= m * e <= m * (EASE_SCALE as int)) by (nonlinear_arith)
        requires
            0 <= m,
            0 <= e <= EASE_SCALE,
    ;
    vstd::arithmetic::div_mod::lemma_div_is_ordered(0, m * e, EASE_SCALE as int);
    vstd::arithmetic::div_mod::lemma_div_is_ordered(m * e, m * (EASE_SCALE as int), EASE_SCALE as int);
    vstd::arithmetic::div_mod::lemma_div_multiples_vanish(m, EASE_SCALE as int);
}

proof fn lemma_fraction_monotonic(m: int, e1: int, e2: int)
    requires
        0 <= m,
        0 <= e1 <= e2,
    ensures
        m * e1 / (EASE_SCALE as int) <= m * e2 / (EASE_SCALE as int),
{
    assert(m * e1 <= m * e2) by (nonlinear_arith)
        requires
            0 <= m,
            0 <= e1 <= e2,
    ;
    vstd::arithmetic::div_mod::lemma_div_is_ordered(m * e1, m * e2, EASE_SCALE as int);
}

/// An interpolated coordinate stays between the two ends.
proof fn lemma_lerp_between(a: int, b: int, e: int)
    requires
        0 <= e <= EASE_SCALE,
    ensures
        a <= b ==> a <= lerp(a, b, e) <= b,
        b < a ==> b <= lerp(a, b, e) <= a,
{
    if b - a >= 0 {
        lemma_fraction_bounds(b - a, e);
    } else {
        lemma_fraction_bounds(a - b, e);
    }
}

fn lerp_exec(a: i64, b: i64, e: u64) -> (r: i64)
    requires
        e <= EASE_SCALE,
    ensures
        r == lerp(a as int, b as int, e as int),
{
    proof {
        lemma_lerp_between(a as int, b as int, e as int);
    }
    let d: i128 = b as i128 - a as i128;
    let m: u128 = if d >= 0 {
        d as u128
    } else {
        (-d) as u128
    };
    proof {
        assert(m * e <= 0x1_0000_0000_0000_0000 * 1_000_000_000_000) by (nonlinear_arith)
            requires
                m <= 0x1_0000_0000_0000_0000,
                e <= 1_000_000_000_000,
        ;
        lemma_fraction_bounds(m as int, e as int);
    }
    let q: u128 = m * (e as u128) / (EASE_SCALE as u128);
    if d >= 0 {
        (a as i128 + q as i128) as i64
    } else {
        (a as i128 - q as i128) as i64
    }
}

impl Pointer {
    /// Where the pointer is drawn.
    pub open spec fn spec_position(self) -> Point {
        match self {
            Pointer::Idle(pos) => pos,
            Pointer::Moving { from, to, t } => {
                let e = ease_spec(t as int);
                Point {
                    x: lerp(from.x as int, to.x as int, e) as i64,
                    y: lerp(from.y as int, to.y as int, e) as i64,
                }
            },
        }
    }

    /// The transit has come far enough to count as arrived.
    pub open spec fn spec_arrived(self) -> bool {
        match self {
            Pointer::Idle(_) => true,
            Pointer::Moving { t, .. } => t >= ARRIVAL_PROGRESS,
        }
    }

    /// The state after one update towards `target`.
    pub open spec fn spec_update(self, target: Option<Point>) -> Pointer {
        match target {
            None => Pointer::Idle(self.spec_position()),
            Some(tgt) => match self {
                Pointer::Idle(pos) => Pointer::Moving { from: pos, to: tgt, t: 0 },
                Pointer::Moving { from, to, t } => {
                    if dist_sq(tgt, to) <= RETARGET_TOLERANCE * RETARGET_TOLERANCE {
                        if t >= ARRIVAL_PROGRESS {
                            Pointer::Idle(to)
                        } else {
                            Pointer::Moving { from, to, t: (t + PROGRESS_STEP) as u32 }
                        }
                    } else {
                        Pointer::Moving { from: self.spec_position(), to: tgt, t: 0 }
                    }
                },
            },
        }
    }

    /// Where the pointer is drawn: its resting point, or the eased
    /// interpolation from `from` to `to` at its progress.
    pub fn position(self) -> (r: Point)
        ensures
            r == self.spec_position(),
    {
        match self {
            Pointer::Idle(pos) => pos,
            Pointer::Moving { from, to, t } => {
                let e = ease(t);
                proof {
                    lemma_lerp_between(from.x as int, to.x as int, e as int);
                    lemma_lerp_between(from.y as int, to.y as int, e as int);
                }
                Point { x: lerp_exec(from.x, to.x, e), y: lerp_exec(from.y, to.y, e) }
            },
        }
    }

    /// One step of the pointer towards `target_option`. Without a target the
    /// pointer comes to rest where it is drawn. At rest, it sets off towards
    /// the target. In transit towards a point within `RETARGET_TOLERANCE` of
    /// the target it advances by `PROGRESS_STEP`, or comes to rest on its
    /// destination once arrived; a target farther away restarts the transit
    /// from where the pointer is drawn.
    pub fn update(self, target_option: Option<Point>) -> (r: Pointer)
        ensures
            r == self.spec_update(target_option),
    {
        if let Some(target) = target_option {
            match self {
                Pointer::Idle(pos) => Pointer::Moving { from: pos, to: target, t: 0 },
                Pointer::Moving { from: _, to, t: _ } => {
                    let near = dist_sq_at_most(
                        target,
                        to,
                        (RETARGET_TOLERANCE * RETARGET_TOLERANCE) as u64,
                    );
                    if near {
                        if self.arrived() {
                            Pointer::Idle(to)
                        } else {
                            self.advance(PROGRESS_STEP)
                        }
                    } else {
                        Pointer::Moving { from: self.position(), to: target, t: 0 }
                    }
                },
            }
        } else {
            Pointer::Idle(self.position())
        }
    }

    fn advance(self, delta: u32) -> (r: Pointer)
        requires
            self is Moving ==> self->t + delta <= u32::MAX,
        ensures
            r == (match self {
                Pointer::Idle(_) => self,
                Pointer::Moving { from, to, t } => Pointer::Moving {
                    from,
                    to,
                    t: (t + delta) as u32,
                },
            }),
    {
        match self {
            Pointer::Idle(_) => self,
            Pointer::Moving { to, from, t } => Pointer::Moving { from, to, t: t + delta },
        }
    }

    fn arrived(self) -> (r: bool)
        ensures
            r == self.spec_arrived(),
    {
        match self {
            Pointer::Idle(_) => true,
            Pointer::Moving { to: _, from: _, t } => t >= ARRIVAL_PROGRESS,
        }
    }
}

/// Distance from `b` of the coordinate interpolated from `a` at `e`.
proof fn lemma_coord_gap(a: int, b: int, e: int)
    requires
        0 <= e <= EASE_SCALE,
    ensures
        abs(b - lerp(a, b, e)) == abs(b - a) - abs(b - a) * e / (EASE_SCALE as int),
{
    lemma_fraction_bounds(abs(b - a), e);
}

proof fn lemma_square_monotonic(u: int, v: int)
    requires
        0 <= u <= v,
    ensures
        u * u <= v * v,
{
    assert(u * u <= v * v) by (nonlinear_arith)
        requires
            0 <= u <= v,
    ;
}

proof fn lemma_coord_converges(a: i64, b: i64, e1: int, e2: int)
    requires
        0 <= e1 <= e2 <= EASE_SCALE,
    ensures
        ({
            let g1 = (lerp(a as int, b as int, e1) as i64) - b;
            let g2 = (lerp(a as int, b as int, e2) as i64) - b;
            g2 * g2 <= g1 * g1
        }),
{
    let m = abs(b - a);
    lemma_lerp_between(a as int, b as int, e1);
    lemma_lerp_between(a as int, b as int, e2);
    lemma_coord_gap(a as int, b as int, e1);
    lemma_coord_gap(a as int, b as int, e2);
    lemma_fraction_monotonic(m, e1, e2);
    let g1 = lerp(a as int, b as int, e1) - b;
    let g2 = lerp(a as int, b as int, e2) - b;
    lemma_square_monotonic(abs(g2), abs(g1));
    lemma_square_of_abs(g1);
    lemma_square_of_abs(g2);
}

/// Within one transit between fixed ends, more progress never leaves the
/// pointer farther from its destination.
pub proof fn lemma_transit_converges(from: Point, to: Point, t1: u32, t2: u32)
    requires
        t1 < t2,
    ensures
        ({
            let near = Pointer::Moving { from, to, t: t2 };
            let far = Pointer::Moving { from, to, t: t1 };
            dist_sq(near.spec_position(), to) <= dist_sq(far.spec_position(), to)
        }),
{
    lemma_ease_ends_and_monotonic(t1 as int, t2 as int);
    lemma_ease_range(t1 as int);
    lemma_ease_range(t2 as int);
    let e1 = ease_spec(t1 as int);
    let e2 = ease_spec(t2 as int);
    lemma_coord_converges(from.x, to.x, e1, e2);
    lemma_coord_converges(from.y, to.y, e1, e2);
    let near = Pointer::Moving { from, to, t: t2 };
    let far = Pointer::Moving { from, to, t: t1 };
    assert(near.spec_position().x == lerp(from.x as int, to.x as int, e2) as i64);
    assert(far.spec_position().x == lerp(from.x as int, to.x as int, e1) as i64);
}

/// A pointer at rest sets off from its resting point towards a new target,
/// with no progress yet.
pub proof fn lemma_idle_sets_off(p: Point, q: Point)
    ensures
        Pointer::Idle(p).spec_update(Some(q)) == (Pointer::Moving { from: p, to: q, t: 0 }),
{
}

/// A transit that has reached the arrival progress, with a target within
/// `RETARGET_TOLERANCE` of its destination, comes to rest on the destination.
pub proof fn lemma_arrival_rests(from: Point, to: Point, t: u32, target: Point)
    requires
        t >= ARRIVAL_PROGRESS,
        dist_sq(target, to) <= RETARGET_TOLERANCE * RETARGET_TOLERANCE,
    ensures
        ({
            let p = Pointer::Moving { from, to, t };
            p.spec_update(Some(target)) == Pointer::Idle(to)
        }),
{
}

/// A target farther than `RETARGET_TOLERANCE` from the destination restarts
/// the transit, with no progress, from where the pointer was drawn.
pub proof fn lemma_far_target_restarts(from: Point, to: Point, t: u32, target: Point)
    requires
        dist_sq(target, to) > RETARGET_TOLERANCE * RETARGET_TOLERANCE,
    ensures
        ({
            let p = Pointer::Moving { from, to, t };
            p.spec_update(Some(target)) == (Pointer::Moving {
                from: p.spec_position(),
                to: target,
                t: 0,
            })
        }),
{
}

} // verus!
