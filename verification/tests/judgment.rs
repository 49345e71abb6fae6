//! The judgment engine: beat derivation, advancing, and note checks.

use tangerine_jam::input::Controls;
use tangerine_jam::judge::{Judgment, JudgmentEngine, PlaybackState};
use tangerine_jam::osc::{OscState, OscType};
use tangerine_jam::pot::{PotState, PotType};
use tangerine_jam::track::{sample_sequence, ClockState, SequenceStore, Track};

fn sample_engine() -> JudgmentEngine {
    let store = SequenceStore::new(sample_sequence()).unwrap();
    let mut engine = JudgmentEngine::new(Track::new(333, store));
    engine.start();
    engine
}

fn sine_and_j_active() -> Controls {
    let mut controls = Controls::new();
    controls.set_osc(OscType::Sine, OscState::Active);
    controls.set_pot(PotType::PotJ, PotState::Active);
    controls
}

#[test]
fn beat_never_decreases_as_clock_grows() {
    // The derived beat floor(elapsed / tempo) only ever grows with elapsed.
    let tempo: u64 = 333;
    let mut last: u64 = 0;
    let mut clock = ClockState::new();
    for _ in 0..50 {
        clock.tick(100);
        let beat = clock.elapsed / tempo;
        assert!(beat >= last);
        last = beat;
    }
    assert_eq!(last, 15); // floor(5000 / 333)
}

#[test]
fn scenario_a_two_overruns_by_beat_three() {
    // Tempo 333 time units per beat, offsets 1..=8; three 400-unit frames
    // reach elapsed 1200 (beat 3) with exactly two overruns detected.
    let mut engine = sample_engine();
    assert_eq!(engine.tick(400), None); // beat 1, expected 1: no overrun
    assert_eq!(engine.track.pos, 0);
    let cue = engine.tick(400); // beat 2 > expected 1: advance to step 1
    assert_eq!(engine.track.pos, 1);
    assert_eq!(cue, Some(PotType::PotO));
    engine.tick(400); // beat 3 > expected 2: advance to step 2
    assert_eq!(engine.clock.elapsed, 1200);
    assert_eq!(engine.track.pos, 2);
    assert_eq!(engine.track.iteration, 0);
}

#[test]
fn scenario_b_hit_scores_and_sets_dirty_flag() {
    let mut engine = sample_engine();
    engine.score.mark_clean();
    engine.tick(333); // exactly beat 1, the expected beat of step 0
    assert_eq!(engine.track.pos, 0);
    let r = engine.check_note(&sine_and_j_active());
    assert_eq!(r, Some(Judgment::Hit));
    assert_eq!(engine.score.value, 1);
    assert!(engine.score.updated);
}

#[test]
fn scenario_c_missing_oscillator_is_a_silent_miss() {
    let mut engine = sample_engine();
    engine.tick(333);
    let mut controls = Controls::new();
    controls.set_pot(PotType::PotJ, PotState::Active); // Sine stays inactive
    let r = engine.check_note(&controls);
    assert_eq!(r, Some(Judgment::Miss));
    assert_eq!(engine.score.value, 0);
}

#[test]
fn scenario_d_check_before_window_is_invalid_timing() {
    let mut engine = sample_engine();
    // Clock still at zero: beat 0, before expected beat 1.
    let r = engine.check_note(&sine_and_j_active());
    assert_eq!(r, Some(Judgment::InvalidTiming));
    assert_eq!(engine.score.value, 0);
}

#[test]
fn scenario_e_check_past_window_is_too_late() {
    let mut engine = sample_engine();
    engine.clock.elapsed = 666; // beat 2 while step 0 (expected beat 1) is current
    assert_eq!(engine.track.pos, 0);
    let r = engine.check_note(&sine_and_j_active());
    assert_eq!(r, Some(Judgment::TooLate));
    assert_eq!(engine.score.value, 0);
}

#[test]
fn scenario_f_wrap_bumps_iteration_and_shifts_expected_beat() {
    let mut engine = sample_engine();
    engine.track.pos = 7; // last step, expected beat 8
    engine.clock.elapsed = 9 * 333; // beat 9 > 8: the next tick wraps
    let cue = engine.tick(0);
    assert_eq!(engine.track.pos, 0);
    assert_eq!(engine.track.iteration, 1);
    assert_eq!(cue, Some(PotType::PotJ));
    // Step 0 is now due at beat 1 + 8, not at beat 1.
    assert_eq!(engine.check_note(&sine_and_j_active()), Some(Judgment::Hit));
    engine.clock.elapsed = 333; // beat 1: one full loop too early now
    assert_eq!(
        engine.check_note(&sine_and_j_active()),
        Some(Judgment::InvalidTiming)
    );
}

#[test]
fn repeat_checks_at_one_instant_score_each_time() {
    // No deduplication within one unchanged instant: each check of a
    // still-satisfied step is judged and credited independently.
    let mut engine = sample_engine();
    engine.tick(333);
    let controls = sine_and_j_active();
    assert_eq!(engine.check_note(&controls), Some(Judgment::Hit));
    assert_eq!(engine.check_note(&controls), Some(Judgment::Hit));
    assert_eq!(engine.score.value, 2);
    assert_eq!(engine.track.pos, 0); // checking never advances the track
    assert_eq!(engine.clock.elapsed, 333); // nor does it move the clock
}

#[test]
fn check_note_on_empty_sequence_is_a_no_op() {
    let store = SequenceStore::new(Vec::new()).unwrap();
    let mut engine = JudgmentEngine::new(Track::new(333, store));
    engine.start();
    assert_eq!(engine.check_note(&sine_and_j_active()), None);
    assert_eq!(engine.score.value, 0);
    assert_eq!(engine.tick(400), None); // ticking an empty track is safe too
    assert_eq!(engine.track.pos, 0);
}

#[test]
fn engine_idle_until_started_and_after_stop() {
    let store = SequenceStore::new(sample_sequence()).unwrap();
    let mut engine = JudgmentEngine::new(Track::new(333, store));
    assert_eq!(engine.state, PlaybackState::NotStarted);
    assert_eq!(engine.tick(400), None);
    assert_eq!(engine.clock.elapsed, 0); // the clock only runs while running
    assert_eq!(engine.check_note(&sine_and_j_active()), None);
    engine.start();
    assert_eq!(engine.state, PlaybackState::Running);
    engine.tick(400);
    assert_eq!(engine.clock.elapsed, 400);
    engine.stop();
    assert_eq!(engine.tick(400), None);
    assert_eq!(engine.clock.elapsed, 400);
}

#[test]
fn restart_resets_clock_track_and_score() {
    let mut engine = sample_engine();
    engine.tick(333);
    engine.check_note(&sine_and_j_active());
    assert_eq!(engine.score.value, 1);
    engine.start();
    assert_eq!(engine.clock.elapsed, 0);
    assert_eq!(engine.track.pos, 0);
    assert_eq!(engine.track.iteration, 0);
    assert_eq!(engine.score.value, 0);
    assert!(engine.score.updated);
}

#[test]
fn clock_saturates_instead_of_wrapping() {
    let mut clock = ClockState::new();
    clock.tick(u64::MAX - 5);
    clock.tick(100);
    assert_eq!(clock.elapsed, u64::MAX);
}
