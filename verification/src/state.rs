//! The two layers of the state machine that gate the per-frame systems.

use vstd::prelude::*;

verus! {

/// The outer application phase.
#[derive(Clone, Copy, PartialEq, Eq, Structural, Debug)]
pub enum AppState {
    MainMenu,
    Game,
    GameOver,
}

/// The inner sub-state, meaningful only while the phase is `Game`: the
/// per-frame systems run only while `Running`.
#[derive(Clone, Copy, PartialEq, Eq, Structural, Debug)]
pub enum SimulationState {
    Running,
    Paused,
}

/// The logical actions the host reports as held or just pressed this frame.
#[derive(Clone, Copy, PartialEq, Eq, Structural, Debug)]
pub struct FrameInput {
    pub up: bool,
    pub down: bool,
    pub left: bool,
    pub right: bool,
    pub pause_pressed: bool,
    pub start_pressed: bool,
    pub menu_pressed: bool,
}

impl FrameInput {
    /// A frame with no action held or pressed.
    pub fn none() -> (r: FrameInput)
        ensures
            r == (FrameInput {
                up: false,
                down: false,
                left: false,
                right: false,
                pause_pressed: false,
                start_pressed: false,
                menu_pressed: false,
            }),
    {
        FrameInput {
            up: false,
            down: false,
            left: false,
            right: false,
            pause_pressed: false,
            start_pressed: false,
            menu_pressed: false,
        }
    }
}

/// Forces the sub-state to `Paused`; run on Game-phase entry.
pub fn pause_simulation(state: &mut SimulationState)
    ensures
        *final(state) == SimulationState::Paused,
{
    *state = SimulationState::Paused;
}

/// Forces the sub-state to `Running`; run on Game-phase exit.
pub fn resume_simulation(state: &mut SimulationState)
    ensures
        *final(state) == SimulationState::Running,
{
    *state = SimulationState::Running;
}

} // verus!
