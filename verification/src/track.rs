//! The scripted track: notes, timed sequence steps, the loopable sequence
//! store, and the per-playthrough track state the judgment engine mutates.

use vstd::prelude::*;
use crate::osc::OscType;
use crate::pot::PotType;

verus! {

/// The expected-input combination for one sequence step: a primary
/// oscillator, an optional secondary oscillator (reserved for chords,
/// currently always absent in authored content), and a potentiometer.
#[derive(Debug, Clone, Copy)]
pub struct Note {
    pub s1: OscType,
    pub s2: Option<OscType>,
    pub pot: PotType,
}

/// One step of the script: a note together with its expected beat offset,
/// counted in beats from the start of one loop iteration.
#[derive(Debug, Clone, Copy)]
pub struct SequenceStep {
    pub time: u64,
    pub note: Note,
}

/// Construction-time rejection of malformed sequence data.
#[derive(Debug, Clone, Copy, PartialEq, Eq, Structural)]
pub enum ConfigError {
    /// The authored beat offsets are not in non-decreasing order.
    OffsetsDecreasing,
}

/// Beat offsets listed in non-decreasing order, step by step.
pub open spec fn offsets_non_decreasing(steps: Seq<SequenceStep>) -> bool {
    forall|i: int| 0 <= i && i + 1 < steps.len() ==> #[trigger] steps[i].time <= steps[i + 1].time
}

/// An ordered, loopable script of timed notes. Static per playthrough:
/// beyond indexed lookup it owns no behavior, and its steps cannot change
/// after construction.
#[derive(Debug, Clone)]
pub struct SequenceStore {
    steps: Vec<SequenceStep>,
}

impl View for SequenceStore {
    type V = Seq<SequenceStep>;

    closed spec fn view(&self) -> Seq<SequenceStep> {
        self.steps@
    }
}

impl SequenceStore {
    /// Build a store from authored steps, validating that beat offsets are
    /// non-decreasing; a violation is a configuration error rejected here,
    /// before the sequence can reach the running engine.
    pub fn new(steps: Vec<SequenceStep>) -> (r: Result<SequenceStore, ConfigError>)
        ensures
            offsets_non_decreasing(steps@) ==> (r matches Ok(s) && s@ == steps@),
            !offsets_non_decreasing(steps@) ==> r == Err::<SequenceStore, ConfigError>(
                ConfigError::OffsetsDecreasing,
            ),
    {
        let n = steps.len();
        if n > 0 {
            let mut i: usize = 1;
            while i < n
                invariant
                    n == steps@.len(),
                    1 <= i <= n,
                    forall|k: int| 1 <= k < i as int ==> steps@[k - 1].time <= #[trigger] steps@[k].time,
                decreases n - i,
            {
                if steps[i - 1].time > steps[i].time {
                    return Err(ConfigError::OffsetsDecreasing);
                }
                i = i + 1;
            }
            assert forall|k: int| 0 <= k && k + 1 < steps@.len() implies #[trigger] steps@[k].time
                <= steps@[k + 1].time by {
                assert(steps@[k].time <= steps@[k + 1].time);
            }
        }
        Ok(SequenceStore { steps })
    }

    /// How many steps one loop iteration holds.
    pub fn length(&self) -> (r: usize)
        ensures
            r == self@.len(),
    {
        self.steps.len()
    }

    pub fn is_empty(&self) -> (r: bool)
        ensures
            r == (self@.len() == 0),
    {
        self.steps.len() == 0
    }

    /// Indexed lookup: the step as it was authored, offsets included.
    pub fn step_at(&self, index: usize) -> (r: SequenceStep)
        requires
            index < self@.len(),
        ensures
            r == self@[index as int],
    {
        self.steps[index]
    }
}

/// Every step offset read back from a constructed store equals the authored
/// offset at the same index: construction keeps the steps exactly.
pub proof fn lemma_offsets_round_trip(steps: Seq<SequenceStep>, store: SequenceStore)
    requires
        store@ == steps,
    ensures
        forall|i: int| 0 <= i < steps.len() ==> #[trigger] store@[i].time == steps[i].time,
{
}

/// Saturating addition on the clock's integer domain: time accumulators and
/// loop counters stop at the top of the range instead of wrapping.
pub open spec fn sat_add(a: u64, b: u64) -> u64 {
    if a + b <= u64::MAX {
        (a + b) as u64
    } else {
        u64::MAX
    }
}

/// Elapsed-time accumulator for one playthrough, in integer time units.
/// Reset to zero when a playthrough (re)starts.
#[derive(Debug, Clone, Copy, PartialEq, Eq, Structural)]
pub struct ClockState {
    pub elapsed: u64,
}

impl ClockState {
    pub fn new() -> (r: ClockState)
        ensures
            r.elapsed == 0,
    {
        ClockState { elapsed: 0 }
    }

    /// Accumulate one frame's delta time. Saturates at the top of the
    /// range, so elapsed time never decreases and never wraps.
    pub fn tick(&mut self, delta: u64)
        ensures
            final(self).elapsed == sat_add(old(self).elapsed, delta),
    {
        if delta > u64::MAX - self.elapsed {
            self.elapsed = u64::MAX;
        } else {
            self.elapsed = self.elapsed + delta;
        }
    }

    pub fn reset(&mut self)
        ensures
            final(self).elapsed == 0,
    {
        self.elapsed = 0;
    }
}

/// Session state of one playthrough of the script: the sequence, the tempo
/// (time units per beat), the current step index, and the loop counter.
#[derive(Debug, Clone)]
pub struct Track {
    pub tempo: u64,
    pub iteration: u64,
    pub pos: usize,
    pub seq: SequenceStore,
}

impl Track {
    /// A track is well formed when its tempo is positive and its step index
    /// lies inside the sequence (at zero for an empty sequence).
    pub open spec fn wf(self) -> bool {
        &&& self.tempo > 0
        &&& if self.seq@.len() == 0 {
            self.pos == 0
        } else {
            self.pos < self.seq@.len()
        }
    }

    /// A fresh track at the head of the script.
    pub fn new(tempo: u64, seq: SequenceStore) -> (r: Track)
        requires
            tempo > 0,
        ensures
            r.wf(),
            r.tempo == tempo,
            r.seq == seq,
            r.pos == 0,
            r.iteration == 0,
    {
        Track { tempo, iteration: 0, pos: 0, seq }
    }

    /// Rewind to the head of the script for a fresh playthrough; the
    /// sequence and tempo are untouched.
    pub fn reset(&mut self)
        ensures
            final(self).pos == 0,
            final(self).iteration == 0,
            final(self).tempo == old(self).tempo,
            final(self).seq == old(self).seq,
            old(self).tempo > 0 ==> final(self).wf(),
    {
        self.pos = 0;
        self.iteration = 0;
    }

    /// Bump the loop counter by one (saturating at the top of its range).
    pub fn advance_iteration(&mut self)
        ensures
            final(self).iteration == sat_add(old(self).iteration, 1),
            final(self).tempo == old(self).tempo,
            final(self).pos == old(self).pos,
            final(self).seq == old(self).seq,
    {
        if self.iteration < u64::MAX {
            self.iteration = self.iteration + 1;
        }
    }
}

/// How many beats of lead-in pass before the backing track starts.
pub const LEAD_IN_BEATS: u64 = 24;

/// The lead-in threshold in time units: the tempo times the lead-in beat
/// count, saturating at the top of the range.
pub fn lead_in(tempo: u64) -> (r: u64)
    ensures
        tempo * LEAD_IN_BEATS <= u64::MAX ==> r == tempo * LEAD_IN_BEATS,
        tempo * LEAD_IN_BEATS > u64::MAX ==> r == u64::MAX,
{
    if tempo > u64::MAX / LEAD_IN_BEATS {
        u64::MAX
    } else {
        tempo * LEAD_IN_BEATS
    }
}

/// One-shot latch for starting backing-track playback after a fixed lead-in:
/// it accumulates delta time while the threshold has not been reached, fires
/// exactly once when a frame begins at or past the threshold, and then stays
/// quiet for the rest of the playthrough.
#[derive(Debug, Clone, Copy, PartialEq, Eq, Structural)]
pub struct StartDelay {
    pub elapsed: u64,
    pub done: bool,
}

impl StartDelay {
    pub fn new() -> (r: StartDelay)
        ensures
            r.elapsed == 0,
            !r.done,
    {
        StartDelay { elapsed: 0, done: false }
    }

    /// One frame of the latch. Fires when the accumulated time had already
    /// reached the threshold as the frame began; afterwards the latch is
    /// done and ignores further frames.
    pub fn tick(&mut self, delta: u64, threshold: u64) -> (fired: bool)
        ensures
            old(self).done ==> (!fired && *final(self) == *old(self)),
            !old(self).done && old(self).elapsed < threshold ==> (!fired && final(self).elapsed
                == sat_add(old(self).elapsed, delta) && !final(self).done),
            !old(self).done && old(self).elapsed >= threshold ==> (fired && final(self).elapsed
                == 0 && final(self).done),
    {
        if self.done {
            false
        } else if self.elapsed < threshold {
            if delta > u64::MAX - self.elapsed {
                self.elapsed = u64::MAX;
            } else {
                self.elapsed = self.elapsed + delta;
            }
            false
        } else {
            self.elapsed = 0;
            self.done = true;
            true
        }
    }
}

/// The authored sample track's tempo, in milliseconds per beat.
pub const SAMPLE_TEMPO_MILLIS: u64 = 333;

/// The authored sample script: eight steps at beat offsets one through
/// eight, each naming the oscillator and the potentiometer the player must
/// have active at that beat.
pub open spec fn sample_sequence_spec() -> Seq<SequenceStep> {
    seq![
        SequenceStep { time: 1, note: Note { s1: OscType::Sine, s2: None, pot: PotType::PotJ } },
        SequenceStep { time: 2, note: Note { s1: OscType::Sine, s2: None, pot: PotType::PotO } },
        SequenceStep {
            time: 3,
            note: Note { s1: OscType::Triangle, s2: None, pot: PotType::PotI },
        },
        SequenceStep {
            time: 4,
            note: Note { s1: OscType::Sawtooth, s2: None, pot: PotType::PotL },
        },
        SequenceStep { time: 5, note: Note { s1: OscType::Sine, s2: None, pot: PotType::PotJ } },
        SequenceStep { time: 6, note: Note { s1: OscType::Square, s2: None, pot: PotType::PotK } },
        SequenceStep { time: 7, note: Note { s1: OscType::Square, s2: None, pot: PotType::PotO } },
        SequenceStep {
            time: 8,
            note: Note { s1: OscType::Sawtooth, s2: None, pot: PotType::PotK },
        },
    ]
}

/// Build the authored sample script as a step list ready for a store.
pub fn sample_sequence() -> (r: Vec<SequenceStep>)
    ensures
        r@ == sample_sequence_spec(),
        offsets_non_decreasing(r@),
{
    let mut steps: Vec<SequenceStep> = Vec::new();
    steps.push(SequenceStep { time: 1, note: Note { s1: OscType::Sine, s2: None, pot: PotType::PotJ } });
    steps.push(SequenceStep { time: 2, note: Note { s1: OscType::Sine, s2: None, pot: PotType::PotO } });
    steps.push(SequenceStep { time: 3, note: Note { s1: OscType::Triangle, s2: None, pot: PotType::PotI } });
    steps.push(SequenceStep { time: 4, note: Note { s1: OscType::Sawtooth, s2: None, pot: PotType::PotL } });
    steps.push(SequenceStep { time: 5, note: Note { s1: OscType::Sine, s2: None, pot: PotType::PotJ } });
    steps.push(SequenceStep { time: 6, note: Note { s1: OscType::Square, s2: None, pot: PotType::PotK } });
    steps.push(SequenceStep { time: 7, note: Note { s1: OscType::Square, s2: None, pot: PotType::PotO } });
    steps.push(SequenceStep { time: 8, note: Note { s1: OscType::Sawtooth, s2: None, pot: PotType::PotK } });
    assert(steps@ =~= sample_sequence_spec());
    assert(offsets_non_decreasing(steps@)) by {
        assert forall|i: int| 0 <= i && i + 1 < steps@.len() implies #[trigger] steps@[i].time
            <= steps@[i + 1].time by {
            assert(steps@[i].time as int == i + 1);
        }
    }
    steps
}

} // verus!

