//! The host-facing pieces around the core: state toggles, the score
//! display decision, texture names, the LED ring, and the playback start latch.

use tangerine_jam::input::{menu, pause, Controls};
use tangerine_jam::led::{
    led_target_state, next_led, LedPos, LedState, LedTicker, RepeatingTimer, LED_TICK_MILLIS,
};
use tangerine_jam::menu::{interact_game_menu, menu_label, MenuOptions};
use tangerine_jam::osc::{OscState, OscType};
use tangerine_jam::pot::{fetch_pot_tex, PotState, PotType};
use tangerine_jam::track::{lead_in, StartDelay};
use tangerine_jam::{should_redraw, ApplicationState, ModeState, PauseState, Score};

#[test]
fn pause_toggles() {
    assert_eq!(pause(PauseState::Unpaused), PauseState::Paused);
    assert_eq!(pause(PauseState::Paused), PauseState::Unpaused);
}

#[test]
fn menu_toggles_against_gameplay() {
    assert_eq!(menu(ApplicationState::Menu), ApplicationState::InGame);
    assert_eq!(menu(ApplicationState::InGame), ApplicationState::Menu);
    assert_eq!(menu(ApplicationState::Loading), ApplicationState::Menu);
    assert_eq!(menu(ApplicationState::Exit), ApplicationState::Menu);
    assert_eq!(menu(ApplicationState::Freeform), ApplicationState::Menu);
}

#[test]
fn menu_options_select_states_and_labels() {
    assert_eq!(interact_game_menu(MenuOptions::Start), ApplicationState::Loading);
    assert_eq!(interact_game_menu(MenuOptions::Resume), ApplicationState::InGame);
    assert_eq!(interact_game_menu(MenuOptions::Exit), ApplicationState::Exit);
    assert_eq!(menu_label(MenuOptions::Start), "Start Game");
    assert_eq!(menu_label(MenuOptions::Resume), "Resume Game");
    assert_eq!(menu_label(MenuOptions::Exit), "Quit Game");
}

#[test]
fn score_redraw_decision() {
    let mut score = Score::new();
    assert!(score.updated);
    assert!(should_redraw(&score, ModeState::Singleplayer));
    assert!(should_redraw(&score, ModeState::Freeform));
    score.mark_clean();
    assert!(!should_redraw(&score, ModeState::Freeform));
    assert!(should_redraw(&score, ModeState::Singleplayer));
    assert!(should_redraw(&score, ModeState::NotInGame));
}

#[test]
fn controls_record_independent_activity() {
    let mut controls = Controls::new();
    assert!(!controls.osc_is_active(OscType::Sine));
    assert!(!controls.pot_is_active(PotType::PotJ));
    controls.set_osc(OscType::Sine, OscState::Active);
    controls.set_pot(PotType::PotK, PotState::Active);
    assert!(controls.osc_is_active(OscType::Sine));
    assert!(!controls.osc_is_active(OscType::Square));
    assert!(controls.pot_is_active(PotType::PotK));
    assert!(!controls.pot_is_active(PotType::PotJ));
    controls.set_osc(OscType::Sine, OscState::Inactive);
    assert!(!controls.osc_is_active(OscType::Sine));
    assert!(controls.pot_is_active(PotType::PotK));
}

#[test]
fn pot_texture_names() {
    assert_eq!(fetch_pot_tex(PotType::PotJ), "pot_j_on.png");
    assert_eq!(fetch_pot_tex(PotType::PotI), "pot_i_on.png");
    assert_eq!(fetch_pot_tex(PotType::PotK), "pot_k_on.png");
    assert_eq!(fetch_pot_tex(PotType::PotO), "pot_o_on.png");
    assert_eq!(fetch_pot_tex(PotType::PotL), "pot_l_on.png");
}

#[test]
fn led_ring_closes_after_eight_steps() {
    let mut pos = LedPos::A;
    let mut seen = vec![pos];
    for _ in 0..7 {
        pos = next_led(pos);
        seen.push(pos);
    }
    assert_eq!(
        seen,
        vec![
            LedPos::A,
            LedPos::B,
            LedPos::C,
            LedPos::D,
            LedPos::E,
            LedPos::F,
            LedPos::G,
            LedPos::H,
        ]
    );
    assert_eq!(next_led(pos), LedPos::A);
}

#[test]
fn only_the_lit_led_is_on() {
    assert_eq!(led_target_state(LedPos::C, LedPos::C), LedState::On);
    assert_eq!(led_target_state(LedPos::D, LedPos::C), LedState::Off);
}

#[test]
fn repeating_timer_fires_and_keeps_remainder() {
    let mut timer = RepeatingTimer::new(LED_TICK_MILLIS);
    assert!(!timer.tick(300));
    assert_eq!(timer.elapsed, 300);
    assert!(timer.tick(100)); // 400 >= 333, remainder 67
    assert_eq!(timer.elapsed, 67);
    assert!(!timer.tick(200));
    assert_eq!(timer.elapsed, 267);
}

#[test]
fn led_ticker_lights_pending_position_then_advances() {
    let mut ticker = LedTicker::new(LED_TICK_MILLIS);
    assert_eq!(ticker.tick(100), None);
    assert_eq!(ticker.next_led, LedPos::A);
    assert_eq!(ticker.tick(300), Some(LedPos::A));
    assert_eq!(ticker.next_led, LedPos::B);
    assert_eq!(ticker.tick(333), Some(LedPos::B));
    assert_eq!(ticker.next_led, LedPos::C);
}

#[test]
fn start_delay_fires_exactly_once_after_lead_in() {
    let threshold = lead_in(333);
    assert_eq!(threshold, 333 * 24);
    let mut latch = StartDelay::new();
    let mut fires = 0;
    for _ in 0..600 {
        if latch.tick(16, threshold) {
            fires += 1;
        }
    }
    // 600 frames of 16 units pass well beyond the 7992-unit lead-in, but
    // the latch fires on exactly one of them.
    assert_eq!(fires, 1);
    assert!(latch.done);
}

#[test]
fn lead_in_saturates_on_huge_tempo() {
    assert_eq!(lead_in(u64::MAX / 2), u64::MAX);
}
