//! Decisions the input layer hands to the host state machine, and the
//! control-activity snapshot the judgment engine reads.
//!
//! The host translates raw key events into calls on these items; the core
//! only sees which control is meant and whether it is pressed or released.

use vstd::prelude::*;
use crate::osc::{OscState, OscType};
use crate::pot::{PotState, PotType};
use crate::{ApplicationState, PauseState};

verus! {

/// Next pause state when the pause key is pressed: pausing toggles.
pub fn pause(state: PauseState) -> (r: PauseState)
    ensures
        state == PauseState::Unpaused ==> r == PauseState::Paused,
        state == PauseState::Paused ==> r == PauseState::Unpaused,
{
    match state {
        PauseState::Unpaused => PauseState::Paused,
        PauseState::Paused => PauseState::Unpaused,
    }
}

/// Next application state when the menu key is pressed: the menu toggles
/// against gameplay — from the menu into the game, from anywhere else back
/// to the menu.
pub fn menu(state: ApplicationState) -> (r: ApplicationState)
    ensures
        state == ApplicationState::Menu ==> r == ApplicationState::InGame,
        state != ApplicationState::Menu ==> r == ApplicationState::Menu,
{
    match state {
        ApplicationState::Menu => ApplicationState::InGame,
        _ => ApplicationState::Menu,
    }
}

/// Snapshot of the activity state of every player control: four oscillator
/// controls and five potentiometer controls, each independently Active or
/// Inactive. Owned by the input layer; the judgment engine only reads it.
#[derive(Debug, Clone, Copy, PartialEq, Eq, Structural)]
pub struct Controls {
    pub sine: OscState,
    pub triangle: OscState,
    pub square: OscState,
    pub sawtooth: OscState,
    pub pot_j: PotState,
    pub pot_i: PotState,
    pub pot_k: PotState,
    pub pot_o: PotState,
    pub pot_l: PotState,
}

impl Controls {
    /// The activity state recorded for one oscillator control.
    pub open spec fn osc_state(self, osc: OscType) -> OscState {
        match osc {
            OscType::Sine => self.sine,
            OscType::Triangle => self.triangle,
            OscType::Square => self.square,
            OscType::Sawtooth => self.sawtooth,
        }
    }

    /// The activity state recorded for one potentiometer control.
    pub open spec fn pot_state(self, pot: PotType) -> PotState {
        match pot {
            PotType::PotJ => self.pot_j,
            PotType::PotI => self.pot_i,
            PotType::PotK => self.pot_k,
            PotType::PotO => self.pot_o,
            PotType::PotL => self.pot_l,
        }
    }

    pub open spec fn osc_active(self, osc: OscType) -> bool {
        self.osc_state(osc) == OscState::Active
    }

    pub open spec fn pot_active(self, pot: PotType) -> bool {
        self.pot_state(pot) == PotState::Active
    }

    /// A fresh snapshot: every control starts out inactive.
    pub fn new() -> (r: Controls)
        ensures
            forall|osc: OscType| !r.osc_active(osc),
            forall|pot: PotType| !r.pot_active(pot),
    {
        Controls {
            sine: OscState::Inactive,
            triangle: OscState::Inactive,
            square: OscState::Inactive,
            sawtooth: OscState::Inactive,
            pot_j: PotState::Inactive,
            pot_i: PotState::Inactive,
            pot_k: PotState::Inactive,
            pot_o: PotState::Inactive,
            pot_l: PotState::Inactive,
        }
    }

    /// Record the state the input layer reports for one oscillator control;
    /// every other control keeps its state.
    pub fn set_osc(&mut self, osc: OscType, state: OscState)
        ensures
            final(self).osc_state(osc) == state,
            forall|o: OscType| o != osc ==> final(self).osc_state(o) == old(self).osc_state(o),
            forall|p: PotType| final(self).pot_state(p) == old(self).pot_state(p),
    {
        match osc {
            OscType::Sine => self.sine = state,
            OscType::Triangle => self.triangle = state,
            OscType::Square => self.square = state,
            OscType::Sawtooth => self.sawtooth = state,
        }
    }

    /// Record the state the input layer reports for one potentiometer
    /// control; every other control keeps its state.
    pub fn set_pot(&mut self, pot: PotType, state: PotState)
        ensures
            final(self).pot_state(pot) == state,
            forall|p: PotType| p != pot ==> final(self).pot_state(p) == old(self).pot_state(p),
            forall|o: OscType| final(self).osc_state(o) == old(self).osc_state(o),
    {
        match pot {
            PotType::PotJ => self.pot_j = state,
            PotType::PotI => self.pot_i = state,
            PotType::PotK => self.pot_k = state,
            PotType::PotO => self.pot_o = state,
            PotType::PotL => self.pot_l = state,
        }
    }

    /// Whether one oscillator control is currently active.
    pub fn osc_is_active(&self, osc: OscType) -> (r: bool)
        ensures
            r == self.osc_active(osc),
    {
        let s = match osc {
            OscType::Sine => self.sine,
            OscType::Triangle => self.triangle,
            OscType::Square => self.square,
            OscType::Sawtooth => self.sawtooth,
        };
        s == OscState::Active
    }

    /// Whether one potentiometer control is currently active.
    pub fn pot_is_active(&self, pot: PotType) -> (r: bool)
        ensures
            r == self.pot_active(pot),
    {
        let s = match pot {
            PotType::PotJ => self.pot_j,
            PotType::PotI => self.pot_i,
            PotType::PotK => self.pot_k,
            PotType::PotO => self.pot_o,
            PotType::PotL => self.pot_l,
        };
        s == PotState::Active
    }
}

} // verus!
