use pomo_oxide::config::Config;
use pomo_oxide::config::State;
use pomo_oxide::display::min_as_markup;
use pomo_oxide::display::min_format;
use pomo_oxide::span::Span;
use pomo_oxide::timer::AppModel;

#[test]
fn clock_shows_minutes_and_seconds() {
    assert_eq!(min_format(&Span::from_secs(1500)), "25:00");
    assert_eq!(min_format(&Span::from_secs(300)), "5:00");
    assert_eq!(min_format(&Span::from_secs(65)), "1:05");
    assert_eq!(min_format(&Span::from_secs(59)), "0:59");
    assert_eq!(min_format(&Span::from_secs(10)), "0:10");
    assert_eq!(min_format(&Span::from_secs(9)), "0:09");
    assert_eq!(min_format(&Span::zero()), "0:00");
    assert_eq!(min_format(&Span::from_secs(180 * 60)), "180:00");
}

#[test]
fn clock_rounds_started_second_up() {
    assert_eq!(min_format(&Span::from_millis(1_499_750)), "25:00");
    assert_eq!(min_format(&Span::from_millis(1_499_000)), "24:59");
    assert_eq!(min_format(&Span::from_millis(59_001)), "1:00");
    assert_eq!(min_format(&Span::from_millis(1)), "0:01");
    assert_eq!(min_format(&Span::from_millis(250)), "0:01");
}

#[test]
fn clock_drops_less_than_a_millisecond() {
    assert_eq!(min_format(&Span::new(0, 999_999).unwrap()), "0:00");
    assert_eq!(min_format(&Span::new(0, 1_000_000).unwrap()), "0:01");
    assert_eq!(min_format(&Span::new(9, 999_999).unwrap()), "0:09");
}

#[test]
fn clock_of_longest_span() {
    let longest = Span::new(u64::MAX, 999_999_999).unwrap();
    // 2^64 seconds are 307445734561825860 minutes and 16 seconds.
    assert_eq!(min_format(&longest), "307445734561825860:16");
}

#[test]
fn clock_in_large_type() {
    assert_eq!(
        min_as_markup(String::from("24:59")),
        "<span font=\"Sans Bold 64\">24:59</span>"
    );
    assert_eq!(min_as_markup(String::new()), "<span font=\"Sans Bold 64\"></span>");
}

#[test]
fn phase_names_and_colours() {
    assert_eq!(State::Pomodoro.name(), "Pomodoro");
    assert_eq!(State::Break.name(), "Break");
    assert_eq!(State::Rest.name(), "Rest");
    assert_eq!(State::Pomodoro.color(), "#FFA3CC");
    assert_eq!(State::Break.color(), "#FAFFA3");
    assert_eq!(State::Rest.color(), "#A3FFD6");
}

#[test]
fn phase_in_large_type() {
    assert_eq!(
        State::Pomodoro.as_markup(),
        "<span font=\"Sans Bold 28\" color=\"#FFA3CC\">Pomodoro</span>"
    );
    assert_eq!(
        State::Break.as_markup(),
        "<span font=\"Sans Bold 28\" color=\"#FAFFA3\">Break</span>"
    );
    assert_eq!(
        State::Rest.as_markup(),
        "<span font=\"Sans Bold 28\" color=\"#A3FFD6\">Rest</span>"
    );
}

#[test]
fn status_line_counts_focus_periods_and_cycle() {
    let mut model = AppModel::new(Config::default(), false);
    assert_eq!(model.status_bar(), "Completed: 0  -  Cycle (0/4)");
    assert_eq!(
        model.state_as_markup(),
        "<span font=\"Sans Bold 28\" color=\"#FFA3CC\">Pomodoro</span>"
    );
    for _ in 0..3 {
        model.next_state(true);
        model.next_state(true);
    }
    assert_eq!(model.status_bar(), "Completed: 3  -  Cycle (3/4)");
    model.next_state(true);
    assert_eq!(model.status_bar(), "Completed: 4  -  Cycle (3/4)");
    assert_eq!(
        model.state_as_markup(),
        "<span font=\"Sans Bold 28\" color=\"#A3FFD6\">Rest</span>"
    );
    model.next_state(true);
    assert_eq!(model.status_bar(), "Completed: 4  -  Cycle (0/4)");
}

#[test]
fn status_line_with_many_digits() {
    let mut config = Config::default();
    config.rest_count = 255;
    let mut model = AppModel::new(config, false);
    for _ in 0..120 {
        model.next_state(true);
        model.next_state(false);
    }
    assert_eq!(model.status_bar(), "Completed: 120  -  Cycle (120/255)");
}
