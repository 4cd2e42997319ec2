//! Signals the simulation emits for its collaborators.

use vstd::prelude::*;

verus! {

/// A one-shot signal that the run has ended, carrying the score held at the
/// moment of the fatal collision. Produced by the collision resolver and
/// drained once per tick by the phase-transition handler.
#[derive(Clone, Copy, PartialEq, Eq, Structural, Debug)]
pub struct GameOver {
    pub score: u32,
}

} // verus!
