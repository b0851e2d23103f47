//! The latest reading of the tool's binary sensor ("is an item held").

use vstd::prelude::*;

verus! {

/// Holds the most recent sensor value; each write replaces the last one and
/// nothing else is kept.
pub struct SensorCache {
    held: bool,
}

impl View for SensorCache {
    type V = bool;

    closed spec fn view(&self) -> bool {
        self.held
    }
}

/// The cached value after a write of `value`.
pub open spec fn after_update(cached: bool, value: bool) -> bool {
    value
}

impl SensorCache {
    /// A cache that has seen no message yet reads `false`.
    pub fn new() -> (r: Self)
        ensures
            r@ == false,
    {
        SensorCache { held: false }
    }

    pub fn update(&mut self, value: bool)
        ensures
            final(self)@ == after_update(old(self)@, value),
    {
        self.held = value;
    }

    pub fn read(&self) -> (r: bool)
        ensures
            r == self@,
    {
        self.held
    }
}

/// The cache keeps no history: after two writes a read gives the second.
pub proof fn last_write_wins(cached: bool, first: bool, second: bool)
    ensures
        after_update(after_update(cached, first), second) == second,
{
}

} // verus!
