use vstd::prelude::*;

verus! {

/// Progress of a complete transit, in thousandths.
pub const PROGRESS_FULL: u32 = 1000;

/// Progress at which the easing curve turns from speeding up to slowing down.
pub const PROGRESS_HALF: u32 = 500;

/// The eased value of a complete transit: eased values are fractions over this.
pub const EASE_SCALE: u64 = 1_000_000_000_000;

pub open spec fn pow4(x: int) -> int {
    x * x * x * x
}

/// Quartic in-out easing of progress `t` (thousandths), as a fraction over
/// `EASE_SCALE`: `8 t^4` below one half, `1 - 8 (1 - t)^4` from there on.
/// Progress past a full transit is eased as a full transit.
pub open spec fn ease_spec(t: int) -> int {
    if t >= PROGRESS_FULL {
        EASE_SCALE as int
    } else if t < PROGRESS_HALF {
        8 * pow4(t)
    } else {
        EASE_SCALE - 8 * pow4(PROGRESS_FULL - t)
    }
}

proof fn lemma_pow4_monotonic(a: int, b: int)
    requires
        0 <= a <= b,
    ensures
        0 <= pow4(a) <= pow4(b),
{
    assert(0 <= a * a <= b * b) by (nonlinear_arith)
        requires
            0 <= a <= b,
    ;
    assert(0 <= (a * a) * (a * a) <= (b * b) * (b * b)) by (nonlinear_arith)
        requires
            0 <= a * a <= b * b,
    ;
    assert(pow4(a) == (a * a) * (a * a)) by (nonlinear_arith);
    assert(pow4(b) == (b * b) * (b * b)) by (nonlinear_arith);
}

fn quartic(x: u64) -> (r: u64)
    requires
        x <= PROGRESS_HALF,
    ensures
        r == 8 * pow4(x as int),
        r <= EASE_SCALE / 2,
{
    proof {
        assert(x * x <= 250_000) by (nonlinear_arith)
            requires
                x <= 500,
        ;
        assert(x * x * x <= 125_000_000) by (nonlinear_arith)
            requires
                x <= 500,
        ;
        lemma_pow4_monotonic(x as int, 500);
    }
    8 * (x * x * x * x)
}

/// The eased value of progress `t`.
pub fn ease(t: u32) -> (r: u64)
    ensures
        r == ease_spec(t as int),
        r <= EASE_SCALE,
{
    if t >= PROGRESS_FULL {
        EASE_SCALE
    } else if t < PROGRESS_HALF {
        quartic(t as u64)
    } else {
        EASE_SCALE - quartic((PROGRESS_FULL - t) as u64)
    }
}

/// Every eased value lies between nothing and a full transit.
pub proof fn lemma_ease_range(t: int)
    requires
        0 <= t,
    ensures
        0 <= ease_spec(t) <= EASE_SCALE,
{
    if t < PROGRESS_FULL {
        if t < PROGRESS_HALF {
            lemma_pow4_monotonic(t, 500);
        } else {
            lemma_pow4_monotonic(PROGRESS_FULL - t, 500);
        }
    }
}

/// Easing maps no progress to nothing and full progress to a full transit
/// exactly, and never decreases as progress grows.
pub proof fn lemma_ease_ends_and_monotonic(t1: int, t2: int)
    requires
        0 <= t1 <= t2,
    ensures
        ease_spec(0) == 0,
        ease_spec(PROGRESS_FULL as int) == EASE_SCALE,
        ease_spec(t1) <= ease_spec(t2),
{
    lemma_ease_range(t1);
    lemma_ease_range(t2);
    if t2 < PROGRESS_FULL {
        if t2 < PROGRESS_HALF {
            lemma_pow4_monotonic(t1, t2);
        } else if t1 >= PROGRESS_HALF {
            lemma_pow4_monotonic(PROGRESS_FULL - t2, PROGRESS_FULL - t1);
        } else {
            lemma_pow4_monotonic(t1, 500);
            lemma_pow4_monotonic(PROGRESS_FULL - t2, 500);
        }
    }
}

} // verus!
