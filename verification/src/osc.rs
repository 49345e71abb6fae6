//! Oscillator controls: the waveform-selection family of player inputs.

use vstd::prelude::*;

verus! {

/// Identity of one oscillator control.
#[derive(Debug, Clone, Copy, PartialEq, Eq, Hash, Structural)]
pub enum OscType {
    Sine,
    Triangle,
    Square,
    Sawtooth,
}

/// Live activity state of an oscillator control, driven by the input layer.
#[derive(Debug, Clone, Copy, PartialEq, Eq, Structural)]
pub enum OscState {
    Active,
    Inactive,
}

} // verus!
