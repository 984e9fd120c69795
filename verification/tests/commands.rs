use pomo_oxide::config::Config;
use pomo_oxide::config::ConfigEdit;
use pomo_oxide::config::State;
use pomo_oxide::span::Span;
use pomo_oxide::timer::AppModel;
use pomo_oxide::timer::AppMsg;
use pomo_oxide::timer::Effects;

fn config(rest_count: u8) -> Config {
    Config {
        pomodoro_time: Span::from_secs(1500),
        break_time: Span::from_secs(300),
        rest_time: Span::from_secs(1200),
        rest_count,
        sound_path: String::from("bell.ogg"),
    }
}

fn edit(model: &mut AppModel, edit: ConfigEdit, sound_ok: bool) -> Effects {
    model.update(AppMsg::ChangeConfig { edit, sound_ok })
}

/// A paused timer with `rounds` focus periods of the cycle behind it and
/// the clock of the next one part run down.
fn paused_after(rounds: u8, rest_count: u8) -> AppModel {
    let mut model = AppModel::new(config(rest_count), true);
    for _ in 0..rounds {
        model.next_state(true);
        model.next_state(true);
    }
    model.toggle(Some(true));
    for _ in 0..8 {
        model.schedule_step();
    }
    model.toggle(Some(false));
    model.clear_step_permission();
    assert_eq!(model.rest_counter(), rounds);
    assert_eq!(model.timer(), Span::from_secs(1498));
    model
}

#[test]
fn toggle_without_argument_flips() {
    let mut model = AppModel::new(config(4), false);
    let effects = model.update(AppMsg::Toggle(None));
    assert!(model.running());
    assert!(effects.tick.is_some());
    let effects = model.update(AppMsg::Toggle(None));
    assert!(!model.running());
    assert_eq!(effects, Effects { play_sound: false, save_config: false, tick: None });
    assert_eq!(model.step_permission(), None);
}

#[test]
fn toggle_with_argument_sets() {
    let mut model = AppModel::new(config(4), false);
    model.update(AppMsg::Toggle(Some(false)));
    assert!(!model.running());
    assert_eq!(model.timer(), Span::from_secs(1500));
    model.update(AppMsg::Toggle(Some(true)));
    assert!(model.running());
    model.update(AppMsg::Toggle(Some(true)));
    assert!(model.running());
    // Two messages to a running timer: two waits off the clock.
    assert_eq!(model.timer(), Span::from_millis(1_499_500));
    assert_eq!(model.state(), State::Pomodoro);
}

#[test]
fn renew_puts_full_length_back() {
    let mut model = paused_after(2, 4);
    model.next_state(true);
    assert_eq!(model.state(), State::Break);
    model.toggle(Some(true));
    model.schedule_step();
    model.toggle(Some(false));
    model.clear_step_permission();
    assert_eq!(model.timer(), Span::from_millis(299_750));

    let effects = model.update(AppMsg::Renew);
    assert_eq!(model.timer(), Span::from_secs(300));
    assert_eq!(model.state(), State::Break);
    assert_eq!(model.rest_counter(), 2);
    assert_eq!(model.pomodoro_count(), 3);
    assert!(!model.running());
    assert_eq!(effects, Effects { play_sound: false, save_config: false, tick: None });
}

#[test]
fn renew_on_running_timer_takes_first_wait_at_once() {
    let mut model = AppModel::new(config(4), true);
    model.update(AppMsg::Toggle(None));
    model.update(AppMsg::Toggle(Some(true)));
    let effects = model.update(AppMsg::Renew);
    let tick = effects.tick.unwrap();
    assert_eq!(tick.delay, Span::from_millis(250));
    assert_eq!(model.timer(), Span::from_millis(1_499_750));
    assert!(!effects.play_sound);
    assert!(model.running());
}

#[test]
fn restart_goes_to_head_of_cycle() {
    let mut model = paused_after(3, 4);
    model.next_state(true);
    assert_eq!(model.state(), State::Rest);
    let effects = model.update(AppMsg::Restart);
    assert_eq!(model.state(), State::Pomodoro);
    assert_eq!(model.rest_counter(), 0);
    assert_eq!(model.timer(), Span::from_secs(1500));
    assert_eq!(model.pomodoro_count(), 4);
    assert!(!model.running());
    assert_eq!(effects, Effects { play_sound: false, save_config: false, tick: None });
}

#[test]
fn restart_keeps_running_timer_running() {
    let mut model = paused_after(1, 4);
    model.update(AppMsg::Toggle(None));
    let effects = model.update(AppMsg::Restart);
    assert!(model.running());
    assert_eq!(model.rest_counter(), 0);
    assert_eq!(model.timer(), Span::from_millis(1_499_750));
    assert_eq!(effects.tick.unwrap().delay, Span::from_millis(250));
}

#[test]
fn new_length_of_current_phase_renews_it() {
    let mut model = paused_after(2, 4);
    let effects = edit(&mut model, ConfigEdit::SetPomodoroTime(Span::from_secs(600)), false);
    assert_eq!(model.config().pomodoro_time, Span::from_secs(600));
    assert_eq!(model.timer(), Span::from_secs(600));
    assert_eq!(model.state(), State::Pomodoro);
    assert_eq!(model.rest_counter(), 2);
    assert_eq!(effects, Effects { play_sound: false, save_config: true, tick: None });
}

#[test]
fn new_length_of_other_phase_renews_current_one_too() {
    let mut model = paused_after(2, 4);
    edit(&mut model, ConfigEdit::SetBreakTime(Span::from_secs(60)), false);
    assert_eq!(model.config().break_time, Span::from_secs(60));
    assert_eq!(model.timer(), Span::from_secs(1500));
    edit(&mut model, ConfigEdit::SetRestTime(Span::from_secs(90)), false);
    assert_eq!(model.config().rest_time, Span::from_secs(90));
    assert_eq!(model.config().pomodoro_time, Span::from_secs(1500));
    assert_eq!(model.rest_counter(), 2);
}

#[test]
fn cycle_cut_to_counter_or_below_restarts() {
    for new_count in 1..=2u8 {
        let mut model = paused_after(2, 4);
        model.next_state(false);
        assert_eq!(model.state(), State::Break);
        let effects = edit(&mut model, ConfigEdit::SetRestCount(new_count), false);
        assert_eq!(model.config().rest_count, new_count);
        assert_eq!(model.state(), State::Pomodoro);
        assert_eq!(model.rest_counter(), 0);
        assert_eq!(model.timer(), Span::from_secs(1500));
        assert!(effects.save_config);
    }
}

#[test]
fn cycle_cut_to_above_counter_renews() {
    let mut model = paused_after(2, 4);
    model.next_state(false);
    assert_eq!(model.state(), State::Break);
    model.toggle(Some(true));
    model.schedule_step();
    model.toggle(Some(false));
    edit(&mut model, ConfigEdit::SetRestCount(3), false);
    assert_eq!(model.config().rest_count, 3);
    assert_eq!(model.state(), State::Break);
    assert_eq!(model.rest_counter(), 2);
    assert_eq!(model.timer(), Span::from_secs(300));
    // The break closes the shorter cycle.
    model.next_state(true);
    assert_eq!(model.state(), State::Pomodoro);
    assert_eq!(model.rest_counter(), 0);
}

#[test]
fn cycle_of_no_focus_period_is_not_taken_over() {
    let mut model = paused_after(2, 4);
    let effects = edit(&mut model, ConfigEdit::SetRestCount(0), false);
    assert_eq!(model.config().rest_count, 4);
    assert_eq!(model.rest_counter(), 2);
    assert_eq!(model.state(), State::Pomodoro);
    assert_eq!(model.timer(), Span::from_secs(1500));
    assert!(effects.save_config);
}

#[test]
fn usable_sound_is_taken_over_and_played() {
    let mut model = AppModel::new(config(4), false);
    let change = ConfigEdit::SetSoundAsset(String::from("gong.ogg"));
    assert_eq!(model.sound_to_validate(&change), Some(String::from("gong.ogg")));
    let effects = edit(&mut model, change, true);
    assert_eq!(model.config().sound_path, "gong.ogg");
    assert!(model.has_song());
    assert_eq!(effects, Effects { play_sound: true, save_config: true, tick: None });
}

#[test]
fn unusable_sound_is_rolled_back() {
    let mut model = AppModel::new(config(4), true);
    let change = ConfigEdit::SetSoundAsset(String::from("missing.ogg"));
    assert_eq!(model.sound_to_validate(&change), Some(String::from("missing.ogg")));
    let effects = edit(&mut model, change, false);
    assert_eq!(model.config().sound_path, "bell.ogg");
    assert!(model.has_song());
    // The sound that stays is played all the same.
    assert_eq!(effects, Effects { play_sound: true, save_config: true, tick: None });
}

#[test]
fn unusable_sound_without_old_one_is_silent() {
    let mut model = AppModel::new(config(4), false);
    let effects = edit(&mut model, ConfigEdit::SetSoundAsset(String::from("missing.ogg")), false);
    assert_eq!(model.config().sound_path, "bell.ogg");
    assert!(!model.has_song());
    assert_eq!(effects, Effects { play_sound: false, save_config: true, tick: None });
}

#[test]
fn same_sound_again_is_not_tried() {
    let mut model = AppModel::new(config(4), false);
    let change = ConfigEdit::SetSoundAsset(String::from("bell.ogg"));
    assert_eq!(model.sound_to_validate(&change), None);
    let effects = edit(&mut model, change, true);
    assert!(!model.has_song());
    assert_eq!(effects, Effects { play_sound: false, save_config: true, tick: None });
    assert_eq!(model.sound_to_validate(&ConfigEdit::SetRestCount(2)), None);
    assert_eq!(model.sound_to_validate(&ConfigEdit::SetPomodoroTime(Span::zero())), None);
}

#[test]
fn reset_to_defaults_with_usable_default_sound() {
    let mut custom = config(7);
    custom.pomodoro_time = Span::from_secs(60);
    let mut model = AppModel::new(custom, false);
    assert_eq!(
        model.sound_to_validate(&ConfigEdit::ResetToDefaults),
        Some(String::from("default.ogg"))
    );
    let effects = edit(&mut model, ConfigEdit::ResetToDefaults, true);
    assert_eq!(model.config(), &Config::default());
    assert_eq!(model.timer(), Span::from_secs(1500));
    assert!(effects.play_sound);
    assert!(effects.save_config);
}

#[test]
fn reset_to_defaults_keeps_sound_if_default_is_unusable() {
    let mut model = paused_after(5, 7);
    let effects = edit(&mut model, ConfigEdit::ResetToDefaults, false);
    let mut expected = Config::default();
    expected.sound_path = String::from("bell.ogg");
    assert_eq!(model.config(), &expected);
    // Five focus periods do not fit a cycle of four.
    assert_eq!(model.rest_counter(), 0);
    assert_eq!(model.state(), State::Pomodoro);
    assert_eq!(model.timer(), Span::from_secs(1500));
    assert!(effects.play_sound);
}

#[test]
fn edit_on_running_timer_schedules_next_tick() {
    let mut model = AppModel::new(config(4), false);
    model.update(AppMsg::Toggle(None));
    let effects = edit(&mut model, ConfigEdit::SetPomodoroTime(Span::from_millis(100)), false);
    let tick = effects.tick.unwrap();
    assert_eq!(tick.delay, Span::from_millis(100));
    assert_eq!(tick.handle, 1);
    assert_eq!(model.timer(), Span::zero());
    assert!(effects.save_config);
}

#[test]
fn bare_operations_match_messages() {
    let mut by_message = paused_after(1, 4);
    let mut by_call = paused_after(1, 4);
    by_message.update(AppMsg::Skip);
    assert!(!by_call.next_state(false));
    assert_eq!(by_message.state(), by_call.state());
    assert_eq!(by_message.timer(), by_call.timer());
    by_message.update(AppMsg::Restart);
    by_call.restart();
    assert_eq!(by_message.state(), by_call.state());
    assert_eq!(by_message.rest_counter(), by_call.rest_counter());
    by_message.update(AppMsg::Renew);
    by_call.restart_state();
    assert_eq!(by_message.timer(), by_call.timer());
    assert_eq!(by_call.state_duration(), Span::from_secs(1500));
    let ring = by_call.change_config(ConfigEdit::SetSoundAsset(String::from("gong.ogg")), true);
    assert!(ring);
    assert_eq!(by_call.config().sound_path, "gong.ogg");
}
