//! Generations: how the workstation tells a current answer from a stale one.

use vstd::prelude::*;

verus! {

/// One reading of a generation clock.
#[derive(Clone, Copy, Debug, PartialEq, Eq, Structural)]
pub struct Generation {
    pub value: u64,
}

/// The reading after `generation`. The clock comes round after its last one.
pub open spec fn next_generation(generation: Generation) -> Generation {
    if generation.value == u64::MAX {
        Generation { value: 0 }
    } else {
        Generation { value: (generation.value + 1) as u64 }
    }
}

/// A clock that moves on each time what it stands for changes.
#[derive(Clone, Copy, Debug, PartialEq, Eq, Structural)]
pub struct GenerationClock {
    pub current: Generation,
}

impl GenerationClock {
    /// A clock at its first reading.
    pub fn new() -> (clock: Self)
        ensures
            clock.current == (Generation { value: 0 }),
    {
        GenerationClock { current: Generation { value: 0 } }
    }

    /// The clock's reading.
    pub fn current(&self) -> (generation: Generation)
        ensures
            generation == self.current,
    {
        self.current
    }

    /// Moves the clock on and gives the new reading.
    pub fn bump(&mut self) -> (generation: Generation)
        ensures
            generation == next_generation(old(self).current),
            final(self).current == generation,
    {
        self.current = Generation { value: self.current.value.wrapping_add(1) };
        self.current
    }
}

/// A clock that moves on never reads as it did.
pub proof fn law_a_bump_changes_the_reading(generation: Generation)
    ensures
        next_generation(generation) != generation,
{
}

/// What a picture of one pane was made from. Two pictures with the same stamp
/// are pictures of the same data under the same settings and camera.
#[derive(Clone, Copy, Debug, PartialEq, Eq, Structural)]
pub struct RenderStamp {
    pub pane_id: usize,
    pub session: Generation,
    pub frame: Generation,
    pub pane: Generation,
    pub view: Generation,
    pub palette: Generation,
    pub sweep: Generation,
}

} // verus!
