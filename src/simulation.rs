use vstd::prelude::*;
use crate::chance::random_coin;
use crate::geometry::{Point, Rect, UNIT};
use crate::metronome::Metronome;
use crate::phrase::{standard_words, PhraseCycle};
use crate::pointer::Pointer;
use crate::window_stack::{
    arrived_at_top, random_spawn_rect, spawn_fits, spawn_sample, target_of, WindowStack,
};

verus! {

/// Side of the square pane that the animation runs in.
pub const PANE_SIZE: i64 = 1280 * UNIT;

/// Ticks between two chances of a spawn.
pub const SPAWN_EVERY: u64 = 30;

/// Where the pointer rests at the start, on both axes.
pub const START_OFFSET: i64 = 50 * UNIT;

/// The whole animation state: the frame that windows spawn in, the windows,
/// the pointer that chases them, the spawn metronome and the label cycle.
pub struct Simulation {
    pub frame: Rect,
    pub windows: WindowStack,
    pub pointer: Pointer,
    pub metro: Metronome,
    pub phrase: PhraseCycle,
}

/// The pane centred on the origin.
pub open spec fn pane() -> Rect {
    Rect { left: -640_000i64, right: 640_000, bottom: -640_000i64, top: 640_000 }
}

/// The pane centred on the origin, `PANE_SIZE` on each side.
pub fn pane_frame() -> (r: Rect)
    ensures
        r == pane(),
        r.spec_width() == PANE_SIZE,
        r.spec_height() == PANE_SIZE,
        spawn_fits(r),
{
    Rect::new(-PANE_SIZE / 2, PANE_SIZE / 2, -PANE_SIZE / 2, PANE_SIZE / 2)
}

impl Simulation {
    pub open spec fn wf(&self) -> bool {
        &&& spawn_fits(self.frame)
        &&& self.windows.wf()
        &&& self.metro.wf()
        &&& self.phrase.wf()
    }

    /// The metronome fires on the coming tick and `coin` allows a spawn.
    pub open spec fn spec_spawns(&self, coin: bool) -> bool {
        self.metro.spec_ticked().spec_fires() && coin
    }

    /// `next` is `self` after one update in which the spawn coin showed
    /// `coin` and a spawned window would get the bounds `bounds`: the
    /// metronome ticks; on a spawn the window goes on top with the next word
    /// of the phrase; the pointer updates towards the close control of the top
    /// window; and the top window closes if the pointer now rests on it.
    pub open spec fn spec_step(&self, next: &Simulation, coin: bool, bounds: Rect) -> bool {
        let spawned = self.spec_spawns(coin);
        let grown = if spawned {
            self.windows@.push((bounds, self.phrase.spec_current()))
        } else {
            self.windows@
        };
        let pointer = self.pointer.spec_update(target_of(grown));
        &&& next.frame == self.frame
        &&& next.metro == self.metro.spec_ticked()
        &&& next.phrase.words == self.phrase.words
        &&& next.phrase.cursor == if spawned {
            self.phrase.spec_next_cursor()
        } else {
            self.phrase.cursor
        }
        &&& next.pointer == pointer
        &&& next.windows@ == if arrived_at_top(pointer, grown) {
            grown.drop_last()
        } else {
            grown
        }
    }

    /// A fresh animation in `frame`: no windows, the pointer at rest at
    /// `START_OFFSET` on both axes, a metronome of `SPAWN_EVERY` ticks and the
    /// standard phrase from its first word.
    pub fn new(frame: Rect) -> (r: Simulation)
        requires
            spawn_fits(frame),
        ensures
            r.frame == frame,
            r.windows@.len() == 0,
            r.pointer == Pointer::Idle(Point { x: START_OFFSET, y: START_OFFSET }),
            r.metro == (Metronome { count: 0, every: SPAWN_EVERY }),
            r.phrase.spec_words() == standard_words(),
            r.phrase.cursor == 0,
            r.wf(),
    {
        Simulation {
            frame,
            windows: WindowStack::new(),
            pointer: Pointer::Idle(Point { x: START_OFFSET, y: START_OFFSET }),
            metro: Metronome::new(SPAWN_EVERY),
            phrase: PhraseCycle::standard(),
        }
    }

    /// The pointer takes one step towards the top window and closes it on arrival.
    fn chase(&mut self)
        requires
            old(self).wf(),
        ensures
            final(self).pointer == old(self).pointer.spec_update(target_of(old(self).windows@)),
            final(self).windows@ == if arrived_at_top(final(self).pointer, old(self).windows@) {
                old(self).windows@.drop_last()
            } else {
                old(self).windows@
            },
            final(self).frame == old(self).frame,
            final(self).metro == old(self).metro,
            final(self).phrase == old(self).phrase,
            final(self).wf(),
    {
        let target = self.windows.target();
        self.pointer = self.pointer.update(target);
        self.windows.pop_if_pointer_arrived(self.pointer);
    }

    /// One update with the spawn coin given as `coin` and `bounds` as the
    /// place of a window that spawns.
    pub fn update_with(&mut self, coin: bool, bounds: Rect)
        requires
            old(self).wf(),
            bounds.wf(),
        ensures
            old(self).spec_step(final(self), coin, bounds),
            final(self).wf(),
    {
        let fires = self.metro.tick();
        if fires && coin {
            let label = self.phrase.next();
            self.windows.push(bounds, label);
        }
        self.chase();
    }

    /// One update, with the spawn coin and the place of a spawned window
    /// drawn at random: the place lies in the spawn area of the frame, with
    /// sides in the spawn range.
    pub fn update(&mut self)
        requires
            old(self).wf(),
        ensures
            exists|coin: bool, bounds: Rect|
                {
                    &&& spawn_sample(old(self).frame, bounds)
                    &&& #[trigger] old(self).spec_step(final(self), coin, bounds)
                },
            final(self).wf(),
    {
        let coin = random_coin();
        let bounds = random_spawn_rect(self.frame);
        self.update_with(coin, bounds);
    }
}

} // verus!
