//! The beat-indicator LED ring: eight positions, one lit at a time, stepping
//! around the ring on a fixed repeating period driven by the same host loop.

use vstd::prelude::*;
use crate::track::sat_add;

verus! {

/// Milliseconds between two steps of the LED ring, as authored.
pub const LED_TICK_MILLIS: u64 = 333;

/// One of the eight LED positions, in ring order.
#[derive(Debug, Clone, Copy, PartialEq, Eq, Structural)]
pub enum LedPos {
    A,
    B,
    C,
    D,
    E,
    F,
    G,
    H,
}

/// Whether one LED is lit.
#[derive(Debug, Clone, Copy, PartialEq, Eq, Structural)]
pub enum LedState {
    On,
    Off,
}

/// The ring successor of an LED position; the last position wraps to the
/// first.
pub open spec fn next_led_spec(pos: LedPos) -> LedPos {
    match pos {
        LedPos::A => LedPos::B,
        LedPos::B => LedPos::C,
        LedPos::C => LedPos::D,
        LedPos::D => LedPos::E,
        LedPos::E => LedPos::F,
        LedPos::F => LedPos::G,
        LedPos::G => LedPos::H,
        LedPos::H => LedPos::A,
    }
}

pub fn next_led(pos: LedPos) -> (r: LedPos)
    ensures
        r == next_led_spec(pos),
{
    match pos {
        LedPos::A => LedPos::B,
        LedPos::B => LedPos::C,
        LedPos::C => LedPos::D,
        LedPos::D => LedPos::E,
        LedPos::E => LedPos::F,
        LedPos::F => LedPos::G,
        LedPos::G => LedPos::H,
        LedPos::H => LedPos::A,
    }
}

/// After a ring step that lights `lit`, each LED is on exactly when it sits
/// at the lit position.
pub fn led_target_state(pos: LedPos, lit: LedPos) -> (r: LedState)
    ensures
        r == LedState::On <==> pos == lit,
{
    if pos == lit {
        LedState::On
    } else {
        LedState::Off
    }
}

/// A repeating countdown: it accumulates delta time and fires whenever a
/// full period has passed, carrying the remainder into the next period.
#[derive(Debug, Clone, Copy, PartialEq, Eq, Structural)]
pub struct RepeatingTimer {
    pub elapsed: u64,
    pub period: u64,
}

impl RepeatingTimer {
    pub open spec fn wf(self) -> bool {
        self.period > 0
    }

    pub fn new(period: u64) -> (r: RepeatingTimer)
        requires
            period > 0,
        ensures
            r.wf(),
            r.elapsed == 0,
            r.period == period,
    {
        RepeatingTimer { elapsed: 0, period }
    }

    /// Accumulate one frame's delta. Fires when the accumulated time
    /// reaches the period; the accumulator then keeps only the remainder
    /// past the last whole period.
    pub fn tick(&mut self, delta: u64) -> (fired: bool)
        requires
            old(self).wf(),
        ensures
            final(self).wf(),
            final(self).period == old(self).period,
            fired == (sat_add(old(self).elapsed, delta) >= old(self).period),
            fired ==> final(self).elapsed == sat_add(old(self).elapsed, delta) as int
                % old(self).period as int,
            !fired ==> final(self).elapsed == sat_add(old(self).elapsed, delta),
    {
        let grown: u64 = if delta > u64::MAX - self.elapsed {
            u64::MAX
        } else {
            self.elapsed + delta
        };
        if grown >= self.period {
            self.elapsed = grown % self.period;
            true
        } else {
            self.elapsed = grown;
            false
        }
    }
}

/// Driver of the LED ring: a repeating timer plus the position to light on
/// the next firing.
#[derive(Debug, Clone, Copy, PartialEq, Eq, Structural)]
pub struct LedTicker {
    pub timer: RepeatingTimer,
    pub next_led: LedPos,
}

impl LedTicker {
    pub open spec fn wf(self) -> bool {
        self.timer.wf()
    }

    /// A fresh ticker that will light the first position when its period
    /// first elapses.
    pub fn new(period: u64) -> (r: LedTicker)
        requires
            period > 0,
        ensures
            r.wf(),
            r.timer.elapsed == 0,
            r.timer.period == period,
            r.next_led == LedPos::A,
    {
        LedTicker { timer: RepeatingTimer::new(period), next_led: LedPos::A }
    }

    /// One frame of the ring: when the timer fires, the pending position is
    /// lit (returned for the display layer) and the pending position moves
    /// one step around the ring; otherwise nothing changes but the timer.
    pub fn tick(&mut self, delta: u64) -> (lit: Option<LedPos>)
        requires
            old(self).wf(),
        ensures
            final(self).wf(),
            final(self).timer.period == old(self).timer.period,
            sat_add(old(self).timer.elapsed, delta) >= old(self).timer.period ==> (lit
                == Some(old(self).next_led) && final(self).next_led == next_led_spec(
                old(self).next_led,
            )),
            sat_add(old(self).timer.elapsed, delta) < old(self).timer.period ==> (lit
                == None::<LedPos> && final(self).next_led == old(self).next_led),
    {
        let fired = self.timer.tick(delta);
        if fired {
            let lit_pos = self.next_led;
            self.next_led = next_led(self.next_led);
            Some(lit_pos)
        } else {
            None
        }
    }
}

} // verus!
