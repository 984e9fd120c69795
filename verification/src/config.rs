//! The phases of the cycle and the configuration that sets their lengths.

use vstd::prelude::*;
use crate::span::Span;
use crate::span::NANOS_PER_SEC;

verus! {

/// The sound asset of a fresh configuration.
pub const DEFAULT_SOUND: &'static str = "default.ogg";

/// Seconds of focus in a fresh configuration: 25 minutes.
pub const DEFAULT_POMODORO_SECS: u64 = 1500;

/// Seconds of a break in a fresh configuration: 5 minutes.
pub const DEFAULT_BREAK_SECS: u64 = 300;

/// Seconds of a rest in a fresh configuration: 20 minutes.
pub const DEFAULT_REST_SECS: u64 = 1200;

/// Focus periods per cycle in a fresh configuration.
pub const DEFAULT_REST_COUNT: u8 = 4;

/// One phase of the cycle: a focus period, the short break after it, or the
/// long rest that takes the place of the break once per cycle.
#[derive(Clone, Copy, Debug, PartialEq, Eq, Structural)]
pub enum State {
    Pomodoro,
    Break,
    Rest,
}

impl Default for State {
    /// A timer starts out in a focus period.
    fn default() -> (r: State)
        ensures
            r == State::Pomodoro,
    {
        State::Pomodoro
    }
}

/// What the timer is configured with.
#[derive(Clone, Debug, PartialEq, Eq)]
pub struct Config {
    /// Time for each pomodoro.
    pub pomodoro_time: Span,
    /// Time for each break.
    pub break_time: Span,
    /// Time for each rest.
    pub rest_time: Span,
    /// How many pomodoros until the break will be a rest.
    pub rest_count: u8,
    /// Where the notification sound is kept.
    pub sound_path: String,
}

/// A configuration as plain mathematics: lengths in nanoseconds, the sound
/// asset as its characters.
pub struct ConfigView {
    pub pomodoro_time: nat,
    pub break_time: nat,
    pub rest_time: nat,
    pub rest_count: nat,
    pub sound_path: Seq<char>,
}

impl ConfigView {
    /// A configuration is usable when a cycle has at least one focus period.
    pub open spec fn wf(self) -> bool {
        self.rest_count >= 1
    }

    /// The configured length of a phase.
    pub open spec fn duration(self, state: State) -> nat {
        match state {
            State::Pomodoro => self.pomodoro_time,
            State::Break => self.break_time,
            State::Rest => self.rest_time,
        }
    }

    /// The fresh configuration: 25 minutes of focus, 5 of break, 20 of rest,
    /// a rest after every fourth focus period.
    pub open spec fn fresh() -> ConfigView {
        ConfigView {
            pomodoro_time: (DEFAULT_POMODORO_SECS * NANOS_PER_SEC) as nat,
            break_time: (DEFAULT_BREAK_SECS * NANOS_PER_SEC) as nat,
            rest_time: (DEFAULT_REST_SECS * NANOS_PER_SEC) as nat,
            rest_count: DEFAULT_REST_COUNT as nat,
            sound_path: DEFAULT_SOUND@,
        }
    }

    /// The configuration after one edit. An edit that would leave a cycle
    /// without a focus period changes nothing.
    pub open spec fn edited(self, edit: EditView) -> ConfigView {
        match edit {
            EditView::SetPomodoroTime(t) => ConfigView { pomodoro_time: t, ..self },
            EditView::SetBreakTime(t) => ConfigView { break_time: t, ..self },
            EditView::SetRestTime(t) => ConfigView { rest_time: t, ..self },
            EditView::SetRestCount(n) => if n >= 1 {
                ConfigView { rest_count: n, ..self }
            } else {
                self
            },
            EditView::SetSoundAsset(p) => ConfigView { sound_path: p, ..self },
            EditView::ResetToDefaults => ConfigView::fresh(),
        }
    }
}

impl View for Config {
    type V = ConfigView;

    open spec fn view(&self) -> ConfigView {
        ConfigView {
            pomodoro_time: self.pomodoro_time@,
            break_time: self.break_time@,
            rest_time: self.rest_time@,
            rest_count: self.rest_count as nat,
            sound_path: self.sound_path@,
        }
    }
}

/// One change to a configuration.
#[derive(Clone, Debug, PartialEq, Eq)]
pub enum ConfigEdit {
    /// Give focus periods a new length.
    SetPomodoroTime(Span),
    /// Give breaks a new length.
    SetBreakTime(Span),
    /// Give rests a new length.
    SetRestTime(Span),
    /// Change how many focus periods make a cycle.
    SetRestCount(u8),
    /// Name another sound asset.
    SetSoundAsset(String),
    /// Go back to the fresh configuration.
    ResetToDefaults,
}

/// An edit as plain mathematics.
pub enum EditView {
    SetPomodoroTime(nat),
    SetBreakTime(nat),
    SetRestTime(nat),
    SetRestCount(nat),
    SetSoundAsset(Seq<char>),
    ResetToDefaults,
}

impl View for ConfigEdit {
    type V = EditView;

    open spec fn view(&self) -> EditView {
        match *self {
            ConfigEdit::SetPomodoroTime(t) => EditView::SetPomodoroTime(t@),
            ConfigEdit::SetBreakTime(t) => EditView::SetBreakTime(t@),
            ConfigEdit::SetRestTime(t) => EditView::SetRestTime(t@),
            ConfigEdit::SetRestCount(n) => EditView::SetRestCount(n as nat),
            ConfigEdit::SetSoundAsset(p) => EditView::SetSoundAsset(p@),
            ConfigEdit::ResetToDefaults => EditView::ResetToDefaults,
        }
    }
}

impl State {
    /// How long this phase lasts under `config`.
    pub fn duration(&self, config: &Config) -> (r: Span)
        ensures
            r@ == config@.duration(*self),
    {
        match self {
            State::Pomodoro => config.pomodoro_time,
            State::Break => config.break_time,
            State::Rest => config.rest_time,
        }
    }
}

impl Default for Config {
    /// The fresh configuration.
    fn default() -> (r: Config)
        ensures
            r@ == ConfigView::fresh(),
    {
        Config {
            pomodoro_time: Span::from_secs(DEFAULT_POMODORO_SECS),
            break_time: Span::from_secs(DEFAULT_BREAK_SECS),
            rest_time: Span::from_secs(DEFAULT_REST_SECS),
            rest_count: DEFAULT_REST_COUNT,
            sound_path: DEFAULT_SOUND.to_owned(),
        }
    }
}

impl Config {
    /// Whether a timer can run on this configuration.
    pub fn is_valid(&self) -> (r: bool)
        ensures
            r == self@.wf(),
    {
        self.rest_count >= 1
    }

    /// Carries out one edit.
    pub fn apply(&mut self, edit: ConfigEdit)
        ensures
            final(self)@ == old(self)@.edited(edit@),
    {
        match edit {
            ConfigEdit::SetPomodoroTime(t) => {
                self.pomodoro_time = t;
            },
            ConfigEdit::SetBreakTime(t) => {
                self.break_time = t;
            },
            ConfigEdit::SetRestTime(t) => {
                self.rest_time = t;
            },
            ConfigEdit::SetRestCount(n) => {
                if n >= 1 {
                    self.rest_count = n;
                }
            },
            ConfigEdit::SetSoundAsset(p) => {
                self.sound_path = p;
            },
            ConfigEdit::ResetToDefaults => {
                *self = Config::default();
            },
        }
    }
}

} // verus!
