use vstd::prelude::*;
use crate::geometry::{close_button_pos, close_point, Point, Rect, CLOSE_MARGIN, UNIT};

verus! {

/// Number of dots that make up a close control.
pub const DOT_COUNT: usize = 3;

/// Horizontal distance between two neighbouring dots of a close control.
pub const DOT_SPACING: i64 = 20 * UNIT;

/// Offset of the pointer arrow's tail from its head, on each axis.
pub const ARROW_TAIL_DX: i64 = 15 * UNIT;

pub const ARROW_TAIL_DY: i64 = -25 * UNIT;

/// Height of a label's anchor above the centre of its window.
pub const LABEL_RISE: i64 = 10 * UNIT;

/// The centres of the dots of a window's close control: the first on the
/// close control itself, the others `DOT_SPACING` apart to its right.
pub fn close_dots(window: &Rect) -> (r: Vec<Point>)
    requires
        window.wf(),
    ensures
        r@.len() == DOT_COUNT,
        forall|i: int|
            0 <= i < DOT_COUNT ==> #[trigger] r@[i] == (Point {
                x: (close_point(*window).x + i * DOT_SPACING) as i64,
                y: close_point(*window).y,
            }),
{
    let first = close_button_pos(window);
    let mut r: Vec<Point> = Vec::new();
    let mut i: usize = 0;
    while i < DOT_COUNT
        invariant
            i <= DOT_COUNT,
            first == close_point(*window),
            window.wf(),
            first.x == window.left + CLOSE_MARGIN,
            r@.len() == i,
            forall|j: int|
                0 <= j < i ==> #[trigger] r@[j] == (Point {
                    x: (first.x + j * DOT_SPACING) as i64,
                    y: first.y,
                }),
        decreases DOT_COUNT - i,
    {
        r.push(Point { x: first.x + (i as i64) * DOT_SPACING, y: first.y });
        i = i + 1;
    }
    r
}

/// Where the tail of the pointer arrow is drawn for a head at `head`.
pub fn arrow_tail(head: Point) -> (r: Point)
    requires
        head.x <= i64::MAX - ARROW_TAIL_DX,
        head.y >= i64::MIN - ARROW_TAIL_DY,
    ensures
        r == (Point { x: (head.x + ARROW_TAIL_DX) as i64, y: (head.y + ARROW_TAIL_DY) as i64 }),
{
    Point { x: head.x + ARROW_TAIL_DX, y: head.y + ARROW_TAIL_DY }
}

/// Where a window's label is anchored: `LABEL_RISE` above its centre, whose
/// coordinates are rounded down.
pub fn label_anchor(window: &Rect) -> (r: Point)
    requires
        window.wf(),
    ensures
        r.x == window.left + window.spec_width() / 2,
        r.y == window.bottom + window.spec_height() / 2 + LABEL_RISE,
{
    Point {
        x: window.left + window.width() / 2,
        y: window.bottom + window.height() / 2 + LABEL_RISE,
    }
}

} // verus!
