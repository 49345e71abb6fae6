//! The judgment engine: it drives the playthrough clock, derives the current
//! beat, advances the track when the clock overruns the expected beat, and —
//! on an external check trigger — judges the live control state against the
//! expected note of the current step, awarding score on a hit.
//!
//! Checking and advancing are deliberately separate: `check_note` never moves
//! the track position, so one step can be checked any number of times before
//! the clock carries the track past it, each check judged independently.

use vstd::prelude::*;
use vstd::arithmetic::div_mod::{lemma_div_is_ordered, lemma_mod_self_0, lemma_small_mod};
use crate::input::Controls;
use crate::pot::PotType;
use crate::track::{sat_add, ClockState, Track};
use crate::Score;

verus! {

/// Lifecycle of one playthrough.
#[derive(Debug, Clone, Copy, PartialEq, Eq, Structural)]
pub enum PlaybackState {
    NotStarted,
    Running,
    Stopped,
}

/// Outcome of one note check. Every outcome but a hit leaves the score
/// untouched; none of them is an error — all are expected gameplay signals.
#[derive(Debug, Clone, Copy, PartialEq, Eq, Structural)]
pub enum Judgment {
    /// Checked at the expected beat with the expected controls active.
    Hit,
    /// Checked at the expected beat, but the expected controls were not all
    /// active: a silent miss, judged binary with no partial credit.
    Miss,
    /// Checked after the expected beat had already passed.
    TooLate,
    /// Checked before the expected beat's window opened.
    InvalidTiming,
}

/// The beat the clock stands at: elapsed time divided by the tempo,
/// rounded down. Derived, never stored.
pub open spec fn beat_of(elapsed: u64, tempo: u64) -> int
    recommends
        tempo > 0,
{
    elapsed as int / tempo as int
}

/// The absolute beat at which the track's current step is due: its authored
/// offset within one loop, plus one full loop length per completed iteration.
pub open spec fn expected_beat(t: Track) -> int
    recommends
        t.seq@.len() > 0,
        t.pos < t.seq@.len(),
{
    t.seq@[t.pos as int].time + t.seq@.len() * t.iteration
}

/// The track after one detected overrun: the position moves forward exactly
/// one step, wrapping past the last step to the head and bumping the loop
/// counter (which saturates at the top of its range).
pub open spec fn advanced(t: Track) -> Track {
    if t.pos + 1 == t.seq@.len() {
        Track { pos: 0, iteration: sat_add(t.iteration, 1), ..t }
    } else {
        Track { pos: (t.pos + 1) as usize, ..t }
    }
}

/// One playthrough's state, owned in one place: the scripted track, the
/// elapsed-time clock, the score, and the lifecycle state. The host loop
/// passes in delta times and control snapshots; nothing here blocks,
/// suspends, or is shared.
#[derive(Debug, Clone)]
pub struct JudgmentEngine {
    pub track: Track,
    pub clock: ClockState,
    pub score: Score,
    pub state: PlaybackState,
}

/// Whether one tick with this delta detects an overrun and advances the
/// track: only while running, on a non-empty sequence, when the beat reached
/// by the grown clock exceeds the expected beat of the current step.
pub open spec fn tick_advances(e: JudgmentEngine, delta: u64) -> bool {
    &&& e.state == PlaybackState::Running
    &&& e.track.seq@.len() > 0
    &&& beat_of(sat_add(e.clock.elapsed, delta), e.track.tempo) > expected_beat(e.track)
}

/// The engine after one tick: while running the clock grows by the delta,
/// and the track advances exactly one step if the overrun test fires;
/// stopped or not-started engines are untouched. The score never changes
/// on a tick.
pub open spec fn tick_spec(e: JudgmentEngine, delta: u64) -> JudgmentEngine {
    if e.state != PlaybackState::Running {
        e
    } else {
        JudgmentEngine {
            clock: ClockState { elapsed: sat_add(e.clock.elapsed, delta) },
            track: if tick_advances(e, delta) {
                advanced(e.track)
            } else {
                e.track
            },
            ..e
        }
    }
}

/// The display cue a tick emits: when the track advances, the potentiometer
/// of the step now current; otherwise nothing.
pub open spec fn tick_event_spec(e: JudgmentEngine, delta: u64) -> Option<PotType> {
    if tick_advances(e, delta) {
        let t = advanced(e.track);
        Some(t.seq@[t.pos as int].note.pot)
    } else {
        None
    }
}

/// The judgment for a check at this instant: at the expected beat the
/// expected note's potentiometer and primary oscillator must both be
/// active for a hit; past it the check is too late; before it the timing
/// is invalid.
pub open spec fn judgment_of(t: Track, elapsed: u64, c: Controls) -> Judgment
    recommends
        t.seq@.len() > 0,
        t.pos < t.seq@.len(),
{
    let cur = beat_of(elapsed, t.tempo);
    let exp = expected_beat(t);
    if cur == exp {
        let note = t.seq@[t.pos as int].note;
        if c.pot_active(note.pot) && c.osc_active(note.s1) {
            Judgment::Hit
        } else {
            Judgment::Miss
        }
    } else if cur > exp {
        Judgment::TooLate
    } else {
        Judgment::InvalidTiming
    }
}

/// The engine and the reported outcome after one check: a no-op without a
/// judgment while not running or on an empty sequence; otherwise the
/// judgment of the current instant, with a hit crediting the score (which
/// saturates at the top of its range) and flagging it dirty. A check never
/// touches the track or the clock.
pub open spec fn check_note_spec(e: JudgmentEngine, c: Controls) -> (JudgmentEngine, Option<
    Judgment,
>) {
    if e.state != PlaybackState::Running || e.track.seq@.len() == 0 {
        (e, None)
    } else {
        let j = judgment_of(e.track, e.clock.elapsed, c);
        if j == Judgment::Hit {
            (
                JudgmentEngine {
                    score: Score { value: sat_add(e.score.value, 1), updated: true },
                    ..e
                },
                Some(j),
            )
        } else {
            (e, Some(j))
        }
    }
}

impl JudgmentEngine {
    pub open spec fn wf(self) -> bool {
        self.track.wf()
    }

    /// A fresh engine over a track, not yet running: clock at zero, score
    /// empty but flagged dirty so the display draws the initial value.
    pub fn new(track: Track) -> (r: JudgmentEngine)
        requires
            track.wf(),
        ensures
            r.wf(),
            r.track == track,
            r.clock.elapsed == 0,
            r.score.value == 0,
            r.score.updated,
            r.state == PlaybackState::NotStarted,
    {
        JudgmentEngine {
            track,
            clock: ClockState::new(),
            score: Score::new(),
            state: PlaybackState::NotStarted,
        }
    }

    /// (Re)start a playthrough: clock back to zero, track rewound to the
    /// head of the script, score reset, and the engine set running. The
    /// sequence and tempo are untouched.
    pub fn start(&mut self)
        requires
            old(self).wf(),
        ensures
            final(self).wf(),
            final(self).clock.elapsed == 0,
            final(self).track.pos == 0,
            final(self).track.iteration == 0,
            final(self).track.tempo == old(self).track.tempo,
            final(self).track.seq == old(self).track.seq,
            final(self).score.value == 0,
            final(self).score.updated,
            final(self).state == PlaybackState::Running,
    {
        self.clock.reset();
        self.track.reset();
        self.score = Score::new();
        self.state = PlaybackState::Running;
    }

    /// End the playthrough: only the lifecycle state changes.
    pub fn stop(&mut self)
        ensures
            final(self).state == PlaybackState::Stopped,
            final(self).track == old(self).track,
            final(self).clock == old(self).clock,
            final(self).score == old(self).score,
    {
        self.state = PlaybackState::Stopped;
    }

    /// One fixed simulation step: grow the clock by the delta and advance
    /// the track exactly one step if the current beat has overrun the
    /// expected beat. Returns the display cue for the step now current when
    /// an advance happened.
    pub fn tick(&mut self, delta: u64) -> (r: Option<PotType>)
        requires
            old(self).wf(),
        ensures
            final(self).wf(),
            *final(self) == tick_spec(*old(self), delta),
            r == tick_event_spec(*old(self), delta),
    {
        if self.state != PlaybackState::Running {
            return None;
        }
        self.clock.tick(delta);
        let len = self.track.seq.length();
        if len == 0 {
            return None;
        }
        let step = self.track.seq.step_at(self.track.pos);
        let cur: u64 = self.clock.elapsed / self.track.tempo;
        let l: u128 = len as u128;
        let it: u128 = self.track.iteration as u128;
        assert(l * it <= (u64::MAX as u128) * (u64::MAX as u128)) by (nonlinear_arith)
            requires
                l <= u64::MAX as u128,
                it <= u64::MAX as u128,
        ;
        let exp: u128 = (step.time as u128) + l * it;
        if (cur as u128) > exp {
            self.track.pos = self.track.pos + 1;
            if self.track.pos == len {
                self.track.pos = 0;
                self.track.advance_iteration();
            }
            let now = self.track.seq.step_at(self.track.pos);
            Some(now.note.pot)
        } else {
            None
        }
    }

    /// Judge the live control state against the expected note at this
    /// clock instant. Never advances the track position or the loop
    /// counter, and never moves the clock: advancing is exclusively the
    /// tick's responsibility.
    pub fn check_note(&mut self, controls: &Controls) -> (r: Option<Judgment>)
        requires
            old(self).wf(),
        ensures
            final(self).wf(),
            *final(self) == check_note_spec(*old(self), *controls).0,
            r == check_note_spec(*old(self), *controls).1,
            final(self).track == old(self).track,
            final(self).clock == old(self).clock,
            final(self).score.value >= old(self).score.value,
    {
        if self.state != PlaybackState::Running {
            return None;
        }
        if self.track.seq.is_empty() {
            return None;
        }
        let len = self.track.seq.length();
        let step = self.track.seq.step_at(self.track.pos);
        let cur: u64 = self.clock.elapsed / self.track.tempo;
        let l: u128 = len as u128;
        let it: u128 = self.track.iteration as u128;
        assert(l * it <= (u64::MAX as u128) * (u64::MAX as u128)) by (nonlinear_arith)
            requires
                l <= u64::MAX as u128,
                it <= u64::MAX as u128,
        ;
        let exp: u128 = (step.time as u128) + l * it;
        if (cur as u128) == exp {
            if controls.pot_is_active(step.note.pot) && controls.osc_is_active(step.note.s1) {
                if self.score.value < u64::MAX {
                    self.score.value = self.score.value + 1;
                }
                self.score.updated = true;
                Some(Judgment::Hit)
            } else {
                Some(Judgment::Miss)
            }
        } else if (cur as u128) > exp {
            Some(Judgment::TooLate)
        } else {
            Some(Judgment::InvalidTiming)
        }
    }
}

/// The beat derived from the clock is monotonically non-decreasing in
/// elapsed time: growing the clock can never move the beat backwards.
pub proof fn lemma_beat_monotonic(e1: u64, e2: u64, tempo: u64)
    requires
        tempo > 0,
        e1 <= e2,
    ensures
        beat_of(e1, tempo) <= beat_of(e2, tempo),
{
    lemma_div_is_ordered(e1 as int, e2 as int, tempo as int);
}

/// When a tick detects an overrun, the position moves forward by exactly
/// one, modulo the sequence length — and the loop counter grows by exactly
/// one when, and only when, the position wraps from the last step to the
/// head.
pub proof fn lemma_tick_advances_one_step(e: JudgmentEngine, delta: u64)
    requires
        e.wf(),
        tick_advances(e, delta),
        e.track.iteration < u64::MAX,
        e.track.seq@.len() <= usize::MAX,
    ensures
        ({
            let t = tick_spec(e, delta).track;
            &&& t.pos == (e.track.pos + 1) % (e.track.seq@.len() as int)
            &&& (e.track.pos + 1 == e.track.seq@.len() ==> t.pos == 0 && t.iteration
                == e.track.iteration + 1)
            &&& (e.track.pos + 1 < e.track.seq@.len() ==> t.pos == e.track.pos + 1 && t.iteration
                == e.track.iteration)
        }),
{
    let len = e.track.seq@.len() as int;
    let t = tick_spec(e, delta).track;
    if e.track.pos + 1 == len {
        lemma_mod_self_0(len);
        assert((e.track.pos + 1) % len == 0);
    } else {
        lemma_small_mod((e.track.pos + 1) as nat, len as nat);
        assert((e.track.pos + 1) % len == e.track.pos + 1);
        assert(t.pos == e.track.pos + 1);
    }
}

/// Checking twice at the same clock instant with unchanged controls yields
/// the same judgment both times — and a hit scores again on each check:
/// repeat checks of a still-satisfied step are each credited, with no
/// deduplication within one instant.
pub proof fn lemma_check_note_repeat(e: JudgmentEngine, c: Controls)
    ensures
        ({
            let (e1, r1) = check_note_spec(e, c);
            let (e2, r2) = check_note_spec(e1, c);
            &&& r2 == r1
            &&& (r1 == Some(Judgment::Hit) && e.score.value + 2 <= u64::MAX ==> e2.score.value
                == e.score.value + 2)
            &&& (r1 != Some(Judgment::Hit) ==> e2 == e)
        }),
{
}

} // verus!
