use vstd::prelude::*;

verus! {

/// Counts update ticks and fires on every `every`-th one.
#[derive(Clone, Copy, Debug, PartialEq, Eq, Structural)]
pub struct Metronome {
    pub count: u64,
    pub every: u64,
}

impl Metronome {
    pub open spec fn wf(self) -> bool {
        self.every > 0
    }

    /// The metronome one tick later; the count wraps at the integer limit.
    pub open spec fn spec_ticked(self) -> Metronome {
        Metronome {
            count: if self.count == u64::MAX {
                0
            } else {
                (self.count + 1) as u64
            },
            every: self.every,
        }
    }

    /// The count is a multiple of `every`.
    pub open spec fn spec_fires(self) -> bool {
        self.count % self.every == 0
    }

    pub fn new(every: u64) -> (r: Metronome)
        requires
            every > 0,
        ensures
            r == (Metronome { count: 0, every }),
            r.wf(),
    {
        Metronome { count: 0, every }
    }

    /// Counts one tick and reports whether the new count is a multiple of `every`.
    pub fn tick(&mut self) -> (r: bool)
        requires
            old(self).wf(),
        ensures
            *final(self) == old(self).spec_ticked(),
            r == final(self).spec_fires(),
            final(self).wf(),
    {
        self.count = if self.count == u64::MAX {
            0
        } else {
            self.count + 1
        };
        self.count % self.every == 0
    }
}

} // verus!
