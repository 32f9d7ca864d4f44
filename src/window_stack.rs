use vstd::prelude::*;
use crate::chance::random_range;
use crate::geometry::{close_button_pos, close_point, dist_sq, dist_sq_at_most, Point, Rect, UNIT};
use crate::metronome::Metronome;
use crate::pointer::Pointer;

verus! {

/// A pointer at rest closer than this (a tenth of a `UNIT`) to the top
/// window's close control closes it.
pub const ARRIVAL_TOLERANCE: i64 = 100;

/// Inset of the area that spawned windows stay in from the edges of the frame.
pub const FRAME_MARGIN: i64 = 50 * UNIT;

/// One window: where it is and what it says.
pub struct WindowEntry {
    pub bounds: Rect,
    pub label: String,
}

impl View for WindowEntry {
    type V = (Rect, Seq<char>);

    open spec fn view(&self) -> (Rect, Seq<char>) {
        (self.bounds, self.label@)
    }
}

/// The windows in spawn order; the last one is drawn on top and is the only
/// one that can be closed.
pub struct WindowStack {
    pub entries: Vec<WindowEntry>,
}

impl View for WindowStack {
    type V = Seq<(Rect, Seq<char>)>;

    open spec fn view(&self) -> Seq<(Rect, Seq<char>)> {
        self.entries@.map_values(|e: WindowEntry| e@)
    }
}

/// The point the pointer homes in on: the close control of the top window.
pub open spec fn target_of(s: Seq<(Rect, Seq<char>)>) -> Option<Point> {
    if s.len() > 0 {
        Some(close_point(s.last().0))
    } else {
        None
    }
}

/// The pointer rests closer than `ARRIVAL_TOLERANCE` to the top window's close control.
pub open spec fn arrived_at_top(p: Pointer, s: Seq<(Rect, Seq<char>)>) -> bool {
    match p {
        Pointer::Idle(pos) => s.len() > 0 && dist_sq(pos, close_point(s.last().0))
            < ARRIVAL_TOLERANCE * ARRIVAL_TOLERANCE,
        Pointer::Moving { .. } => false,
    }
}

/// Smallest side of a window spawned in `frame`: a quarter of its height.
pub open spec fn min_size(frame: Rect) -> int {
    frame.spec_height() / 4
}

/// Bound on the sides of a window spawned in `frame`: nine tenths of its height.
pub open spec fn max_size(frame: Rect) -> int {
    frame.spec_height() * 9 / 10
}

/// Where windows spawned in `frame` stay.
pub open spec fn spawn_area(frame: Rect) -> Rect {
    frame.spec_padded(FRAME_MARGIN as int)
}

/// A window of every size in the spawn range fits in the spawn area of `frame`.
pub open spec fn spawn_fits(frame: Rect) -> bool {
    &&& frame.wf()
    &&& 2 * FRAME_MARGIN <= frame.spec_width()
    &&& 2 * FRAME_MARGIN <= frame.spec_height()
    &&& min_size(frame) <= max_size(frame)
    &&& max_size(frame) <= spawn_area(frame).spec_width()
    &&& max_size(frame) <= spawn_area(frame).spec_height()
}

/// `b` is a rectangle that a spawn in `frame` can produce.
pub open spec fn spawn_sample(frame: Rect, b: Rect) -> bool {
    &&& b.wf()
    &&& b.within(spawn_area(frame))
    &&& min_size(frame) <= b.spec_width() <= max_size(frame)
    &&& min_size(frame) <= b.spec_height() <= max_size(frame)
}

/// A random point of `contained_in`, edges included.
pub fn random_point(contained_in: Rect) -> (r: Point)
    requires
        contained_in.wf(),
    ensures
        contained_in.left <= r.x <= contained_in.right,
        contained_in.bottom <= r.y <= contained_in.top,
{
    Point {
        x: random_range(contained_in.left, contained_in.right + 1),
        y: random_range(contained_in.bottom, contained_in.top + 1),
    }
}

/// The rectangle of width `w` and height `h` whose bottom-left corner is `corner`.
pub fn rect_at(corner: Point, w: i64, h: i64) -> (r: Rect)
    requires
        i64::MIN <= corner.x + w <= i64::MAX,
        i64::MIN <= corner.y + h <= i64::MAX,
    ensures
        r == (Rect {
            left: corner.x,
            right: (corner.x + w) as i64,
            bottom: corner.y,
            top: (corner.y + h) as i64,
        }),
{
    Rect { left: corner.x, right: corner.x + w, bottom: corner.y, top: corner.y + h }
}

/// A random rectangle inside `contained_in`, with width in `[min_w, max_w]`
/// and height in `[min_h, max_h]`: the sides are drawn first, then the
/// bottom-left corner from the area where a rectangle of those sides still
/// fits, which places its centre anywhere in `contained_in` shrunk by the
/// rectangle's own half-sides.
pub fn random_rect(min_w: i64, min_h: i64, max_w: i64, max_h: i64, contained_in: Rect) -> (r: Rect)
    requires
        contained_in.wf(),
        0 <= min_w <= max_w <= contained_in.spec_width(),
        0 <= min_h <= max_h <= contained_in.spec_height(),
    ensures
        r.wf(),
        r.within(contained_in),
        min_w <= r.spec_width() <= max_w,
        min_h <= r.spec_height() <= max_h,
{
    let w = random_range(min_w, max_w + 1);
    let h = random_range(min_h, max_h + 1);
    let corners = Rect {
        left: contained_in.left,
        right: contained_in.right - w,
        bottom: contained_in.bottom,
        top: contained_in.top - h,
    };
    let corner = random_point(corners);
    rect_at(corner, w, h)
}

/// A random place for a window spawned in `frame`: sides between a quarter
/// and nine tenths of the frame's height, inside the frame shrunk by
/// `FRAME_MARGIN`.
pub fn random_spawn_rect(frame: Rect) -> (r: Rect)
    requires
        spawn_fits(frame),
    ensures
        spawn_sample(frame, r),
{
    let h = frame.height();
    let min = h / 4;
    let max = h / 10 * 9 + h % 10 * 9 / 10;
    assert(max == h * 9 / 10);
    let area = frame.padded(FRAME_MARGIN);
    random_rect(min, min, max, max, area)
}

impl WindowStack {
    /// Every window has well-formed bounds.
    pub open spec fn wf(&self) -> bool {
        forall|i: int| 0 <= i < self@.len() ==> (#[trigger] self@[i]).0.wf()
    }

    pub fn new() -> (r: WindowStack)
        ensures
            r@ == Seq::<(Rect, Seq<char>)>::empty(),
            r.wf(),
    {
        let r = WindowStack { entries: Vec::new() };
        assert(r@ =~= Seq::<(Rect, Seq<char>)>::empty());
        r
    }

    pub fn len(&self) -> (r: usize)
        ensures
            r == self@.len(),
    {
        self.entries.len()
    }

    /// The window on top, if any.
    pub fn top(&self) -> (r: Option<&WindowEntry>)
        ensures
            r is None <==> self@.len() == 0,
            r matches Some(e) ==> e@ == self@.last(),
    {
        let n = self.entries.len();
        if n > 0 {
            Some(&self.entries[n - 1])
        } else {
            None
        }
    }

    /// The close control of the window on top, if any.
    pub fn target(&self) -> (r: Option<Point>)
        requires
            self.wf(),
        ensures
            r == target_of(self@),
    {
        match self.top() {
            Some(e) => {
                assert(self@[self@.len() - 1].0.wf());
                Some(close_button_pos(&e.bounds))
            },
            None => None,
        }
    }

    /// Puts a window on top.
    pub fn push(&mut self, bounds: Rect, label: String)
        requires
            old(self).wf(),
            bounds.wf(),
        ensures
            final(self)@ == old(self)@.push((bounds, label@)),
            final(self).wf(),
    {
        let ghost l = label@;
        self.entries.push(WindowEntry { bounds, label });
        assert(self@ =~= old(self)@.push((bounds, l)));
    }

    /// Ticks `metro`; when it fires and `coin` is up, puts a window labelled
    /// `label` on top, of random sides in the spawn range of `frame` and at a
    /// random place in the spawn area of `frame`. Returns whether it did.
    pub fn maybe_spawn(&mut self, frame: Rect, metro: &mut Metronome, coin: bool, label: String) -> (spawned: bool)
        requires
            old(self).wf(),
            old(metro).wf(),
            spawn_fits(frame),
        ensures
            *final(metro) == old(metro).spec_ticked(),
            spawned == (final(metro).spec_fires() && coin),
            spawned ==> {
                &&& final(self)@.len() == old(self)@.len() + 1
                &&& final(self)@.drop_last() == old(self)@
                &&& spawn_sample(frame, final(self)@.last().0)
                &&& final(self)@.last().1 == label@
            },
            !spawned ==> final(self)@ == old(self)@,
            final(self).wf(),
    {
        let fires = metro.tick();
        if fires && coin {
            let bounds = random_spawn_rect(frame);
            self.push(bounds, label);
            assert(self@.drop_last() =~= old(self)@);
            true
        } else {
            false
        }
    }

    /// Closes the window on top when `pointer` rests closer than
    /// `ARRIVAL_TOLERANCE` to its close control; otherwise changes nothing.
    pub fn pop_if_pointer_arrived(&mut self, pointer: Pointer)
        requires
            old(self).wf(),
        ensures
            final(self)@ == if arrived_at_top(pointer, old(self)@) {
                old(self)@.drop_last()
            } else {
                old(self)@
            },
            final(self).wf(),
    {
        if let Pointer::Idle(pos) = pointer {
            let n = self.entries.len();
            if n > 0 {
                assert(self@[n - 1].0.wf());
                let close = close_button_pos(&self.entries[n - 1].bounds);
                let limit = (ARRIVAL_TOLERANCE * ARRIVAL_TOLERANCE - 1) as u64;
                if dist_sq_at_most(pos, close, limit) {
                    self.entries.pop();
                    assert(self@ =~= old(self)@.drop_last());
                }
            }
        }
    }
}

} // verus!
