//! Rhythm-game sequencer core: a scripted, loopable sequence of timed notes is
//! advanced against a running clock, and live player-control state is judged
//! against the expected note of the current step.
//!
//! The host (engine integration, rendering, audio, raw input) is expected to
//! drive this core with plain values: a delta time per fixed simulation step,
//! a snapshot of control-activity state, and discrete note-check triggers.
//! All time quantities are integer time units (the host picks the unit, e.g.
//! milliseconds); a tempo is the number of time units per musical beat.

use vstd::prelude::*;

pub mod input;
pub mod judge;
pub mod led;
pub mod menu;
pub mod osc;
pub mod pot;
pub mod track;

verus! {

/// Top-level screen/state of the application, as the host state machine sees it.
#[derive(Debug, Clone, Copy, PartialEq, Eq, Hash, Structural)]
pub enum ApplicationState {
    Loading,
    Menu,
    InGame,
    Exit,
    Freeform,
}

/// Which play mode the application is in.
#[derive(Debug, Default, Clone, Copy, PartialEq, Eq, Hash, Structural)]
pub enum ModeState {
    #[default]
    NotInGame,
    Singleplayer,
    Freeform,
}

/// Whether the simulation loop is currently paused.
#[derive(Debug, Default, Clone, Copy, PartialEq, Eq, Hash, Structural)]
pub enum PauseState {
    #[default]
    Unpaused,
    Paused,
}

/// Count of successful judgments for the current playthrough, plus a dirty
/// flag telling the display layer that the value changed since the last draw.
#[derive(Debug, Clone, Copy, PartialEq, Eq, Structural)]
pub struct Score {
    pub value: u64,
    pub updated: bool,
}

impl Score {
    /// A fresh score: zero hits, flagged dirty so the first draw happens.
    pub fn new() -> (r: Score)
        ensures
            r.value == 0,
            r.updated,
    {
        Score { value: 0, updated: true }
    }

    /// The display layer acknowledges a redraw: the dirty flag is cleared,
    /// the value is untouched.
    pub fn mark_clean(&mut self)
        ensures
            final(self).value == old(self).value,
            !final(self).updated,
    {
        self.updated = false;
    }
}

/// Display-layer decision: the score readout is redrawn when the score is
/// dirty, or whenever the application is in any mode but free play.
pub fn should_redraw(score: &Score, mode: ModeState) -> (r: bool)
    ensures
        r == (score.updated || mode != ModeState::Freeform),
{
    score.updated || mode != ModeState::Freeform
}

} // verus!
