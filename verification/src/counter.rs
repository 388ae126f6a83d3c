//! A general frame counter: it moves by its step every frame of game time
//! (and stands still while the game is paused).
use vstd::prelude::*;

verus! {

#[derive(Clone, Copy, Debug, PartialEq, Eq, Structural)]
pub struct Counter {
    pub count: i32,
    pub delta: i32,
}

impl Default for Counter {
    /// Counting up from zero.
    fn default() -> (r: Counter)
        ensures
            r.count == 0,
            r.delta == 1,
    {
        Counter { count: 0, delta: 1 }
    }
}

impl Counter {
    /// Counting up from `count`.
    pub fn up(count: i32) -> (r: Counter)
        ensures
            r.count == count,
            r.delta == 1,
    {
        Counter { count, delta: 1 }
    }

    /// Counting down from `count`.
    pub fn down(count: i32) -> (r: Counter)
        ensures
            r.count == count,
            r.delta == -1,
    {
        Counter { count, delta: -1 }
    }

    /// One frame: the count moves by the step.
    pub fn count(&mut self)
        requires
            i32::MIN <= old(self).count + old(self).delta <= i32::MAX,
        ensures
            final(self).count == old(self).count + old(self).delta,
            final(self).delta == old(self).delta,
    {
        self.count = self.count + self.delta;
    }
}

} // verus!
