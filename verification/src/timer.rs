//! The executable timer.
//!
//! Every method here does what the function of the same name in
//! [`crate::model`] says, on machine integers in place of natural numbers.

use vstd::prelude::*;
use crate::config::Config;
use crate::config::ConfigEdit;
use crate::config::DEFAULT_SOUND;
use crate::config::State;
use crate::laws::lemma_change_config_wf;
use crate::laws::lemma_next_state_wf;
use crate::laws::lemma_schedule_step_wf;
use crate::model::EffectsView;
use crate::model::ModelView;
use crate::model::MsgView;
use crate::model::TickView;
use crate::model::SLEEP_STEP_MILLIS;
use crate::span::Span;

verus! {

/// One scheduled tick: wait for `delay`, then send a step that shows
/// `handle`.
#[derive(Clone, Copy, Debug, PartialEq, Eq, Structural)]
pub struct Tick {
    pub delay: Span,
    pub handle: u64,
}

impl View for Tick {
    type V = TickView;

    open spec fn view(&self) -> TickView {
        TickView { delay: self.delay@, handle: self.handle as nat }
    }
}

/// What the caller is asked to do after a message.
#[derive(Clone, Copy, Debug, PartialEq, Eq, Structural)]
pub struct Effects {
    /// Play the notification sound once.
    pub play_sound: bool,
    /// Store the configuration.
    pub save_config: bool,
    /// Wait, then come back with a step. Any tick scheduled earlier has
    /// lost its permission by now.
    pub tick: Option<Tick>,
}

impl View for Effects {
    type V = EffectsView;

    open spec fn view(&self) -> EffectsView {
        EffectsView {
            play_sound: self.play_sound,
            save_config: self.save_config,
            tick: match self.tick {
                Some(t) => Some(t@),
                None => None,
            },
        }
    }
}

impl Effects {
    /// Nothing to do.
    pub fn none() -> (r: Effects)
        ensures
            r@ == EffectsView::none(),
    {
        Effects { play_sound: false, save_config: false, tick: None }
    }
}

/// A message to the timer.
#[derive(Clone, Debug, PartialEq, Eq)]
pub enum AppMsg {
    /// Nothing happened that the timer needs to know of. The pending tick
    /// loses its permission all the same.
    Ignore,
    /// A tick has fired; it shows the handle it was scheduled with.
    Step(u64),
    /// Start or pause: as told, or the other way round.
    Toggle(Option<bool>),
    /// Cut the current phase short.
    Skip,
    /// Start the current phase over.
    Renew,
    /// Start the cycle over.
    Restart,
    /// Edit the configuration. `sound_ok` says whether the sound asset that
    /// the edit names could be loaded; it is looked at only where the edit
    /// names another asset than the one in force.
    ChangeConfig { edit: ConfigEdit, sound_ok: bool },
}

impl View for AppMsg {
    type V = MsgView;

    open spec fn view(&self) -> MsgView {
        match *self {
            AppMsg::Ignore => MsgView::Ignore,
            AppMsg::Step(handle) => MsgView::Step(handle as nat),
            AppMsg::Toggle(running) => MsgView::Toggle(running),
            AppMsg::Skip => MsgView::Skip,
            AppMsg::Renew => MsgView::Renew,
            AppMsg::Restart => MsgView::Restart,
            AppMsg::ChangeConfig { edit, sound_ok } => MsgView::ChangeConfig {
                edit: edit@,
                sound_ok,
            },
        }
    }
}

/// The timer: countdown, phase, counters, configuration and the permission
/// of the one pending tick.
#[derive(Debug)]
pub struct AppModel {
    running: bool,
    timer: Span,
    state: State,
    rest_counter: u8,
    pomodoro_count: usize,
    config: Config,
    has_song: bool,
    ticks_issued: u64,
    /// The handle of the tick that may still send its step.
    step_permission: Option<u64>,
}

impl View for AppModel {
    type V = ModelView;

    closed spec fn view(&self) -> ModelView {
        ModelView {
            running: self.running,
            timer: self.timer@,
            state: self.state,
            rest_counter: self.rest_counter as nat,
            pomodoro_count: self.pomodoro_count as nat,
            config: self.config@,
            has_song: self.has_song,
            ticks_issued: self.ticks_issued as nat,
            step_permission: match self.step_permission {
                Some(h) => Some(h as nat),
                None => None,
            },
        }
    }
}

/// The fixed step between two looks at the clock.
pub fn sleep_step() -> (r: Span)
    ensures
        r@ == crate::model::sleep_step(),
{
    Span::from_millis(SLEEP_STEP_MILLIS)
}

impl AppModel {
    /// The invariant of a timer: that of its state.
    pub open spec fn wf(&self) -> bool {
        self@.wf()
    }

    /// A timer paused at the head of its first focus period. `has_song`
    /// says whether the configured sound asset could be loaded.
    pub fn new(config: Config, has_song: bool) -> (r: AppModel)
        requires
            config@.wf(),
        ensures
            r@ == ModelView::init(config@, has_song),
            r.wf(),
    {
        let state = State::default();
        let timer = state.duration(&config);
        AppModel {
            running: false,
            timer,
            state,
            rest_counter: 0,
            pomodoro_count: 0,
            config,
            has_song,
            ticks_issued: 0,
            step_permission: None,
        }
    }

    /// Whether the countdown is going.
    pub fn running(&self) -> (r: bool)
        ensures
            r == self@.running,
    {
        self.running
    }

    /// What is left of the current phase.
    pub fn timer(&self) -> (r: Span)
        ensures
            r@ == self@.timer,
    {
        self.timer
    }

    /// The current phase.
    pub fn state(&self) -> (r: State)
        ensures
            r == self@.state,
    {
        self.state
    }

    /// How far the cycle has come: the focus periods of this cycle whose
    /// break is over.
    pub fn rest_counter(&self) -> (r: u8)
        ensures
            r == self@.rest_counter,
    {
        self.rest_counter
    }

    /// Focus periods that ran to their end, ever.
    pub fn pomodoro_count(&self) -> (r: usize)
        ensures
            r == self@.pomodoro_count,
    {
        self.pomodoro_count
    }

    /// The configuration in force.
    pub fn config(&self) -> (r: &Config)
        ensures
            r@ == self@.config,
    {
        &self.config
    }

    /// Whether a sound has been loaded that can be played.
    pub fn has_song(&self) -> (r: bool)
        ensures
            r == self@.has_song,
    {
        self.has_song
    }

    /// How many ticks have been scheduled so far.
    pub fn ticks_issued(&self) -> (r: u64)
        ensures
            r == self@.ticks_issued,
    {
        self.ticks_issued
    }

    /// The handle of the pending tick, if one is pending.
    pub fn step_permission(&self) -> (r: Option<u64>)
        ensures
            r is Some == self@.step_permission is Some,
            r is Some ==> r->0 == self@.step_permission->0,
    {
        self.step_permission
    }

    /// The configured length of the current phase.
    pub fn state_duration(&self) -> (r: Span)
        ensures
            r@ == self@.config.duration(self@.state),
    {
        self.state.duration(&self.config)
    }

    /// Whether a tick that shows `handle` may still deliver its step.
    pub fn permits(&self, handle: u64) -> (r: bool)
        ensures
            r == self@.permits(handle as nat),
    {
        match self.step_permission {
            Some(h) => h == handle,
            None => false,
        }
    }

    /// Whether both counters can still go up by one, so that the timer can
    /// take one more message, whatever it is.
    pub fn counters_have_room(&self) -> (r: bool)
        ensures
            r == (self@.pomodoro_count < usize::MAX && self@.ticks_issued < u64::MAX),
            r ==> forall|msg: MsgView|
                (#[trigger] self@.update(msg)).pomodoro_count <= usize::MAX && self@.update(
                    msg,
                ).ticks_issued <= u64::MAX,
    {
        self.pomodoro_count < usize::MAX && self.ticks_issued < u64::MAX
    }

    /// Starts or pauses the countdown: as told, or the other way round.
    pub fn toggle(&mut self, running: Option<bool>)
        ensures
            final(self)@ == old(self)@.toggle(running),
            old(self).wf() ==> final(self).wf(),
    {
        self.running = match running {
            Some(r) => r,
            None => !self.running,
        };
    }

    /// Takes the permission from whatever tick is pending. Doing so twice
    /// is the same as doing so once.
    pub fn clear_step_permission(&mut self)
        ensures
            final(self)@ == old(self)@.clear_step_permission(),
            old(self).wf() ==> final(self).wf(),
    {
        self.step_permission = None;
    }

    /// Moves on to the next phase if the clock has run down; a focus period
    /// that ends so counts as done. Returns whether to play the sound.
    pub fn try_next_state(&mut self) -> (ring: bool)
        requires
            old(self).wf(),
            old(self)@.try_next_state().pomodoro_count <= usize::MAX,
        ensures
            final(self)@ == old(self)@.try_next_state(),
            ring == old(self)@.try_next_state_rings(),
            final(self).wf(),
    {
        if self.timer.is_zero() {
            self.next_state(true)
        } else {
            false
        }
    }

    /// Moves on to the next phase and puts its full length on the clock.
    /// `natural` says that the phase ran to its end; a phase cut short is
    /// not counted and does not ring. Returns whether to play the sound.
    pub fn next_state(&mut self, natural: bool) -> (ring: bool)
        requires
            old(self).wf(),
            old(self)@.next_state(natural).pomodoro_count <= usize::MAX,
        ensures
            final(self)@ == old(self)@.next_state(natural),
            ring == old(self)@.next_state_rings(natural),
            final(self).wf(),
            !natural ==> final(self)@.pomodoro_count == old(self)@.pomodoro_count,
    {
        proof {
            lemma_next_state_wf(self@, natural);
        }
        self.state = match self.state {
            State::Pomodoro => {
                if natural {
                    self.pomodoro_count += 1;
                }
                if self.rest_counter + 1 >= self.config.rest_count {
                    State::Rest
                } else {
                    State::Break
                }
            },
            State::Break | State::Rest => {
                self.rest_counter += 1;
                self.rest_counter %= self.config.rest_count;
                State::Pomodoro
            },
        };
        self.restart_state();
        natural && self.has_song
    }

    /// Puts the full length of the current phase back on the clock. Phase
    /// and counters stay as they are.
    pub fn restart_state(&mut self)
        ensures
            final(self)@ == old(self)@.restart_state(),
            final(self)@.timer == old(self)@.config.duration(old(self)@.state),
            final(self)@.state == old(self)@.state,
            final(self)@.rest_counter == old(self)@.rest_counter,
            final(self)@.pomodoro_count == old(self)@.pomodoro_count,
            final(self)@.running == old(self)@.running,
            old(self)@.config.wf() && old(self)@.tick_wf() && old(self)@.rest_counter < old(
                self,
            )@.config.rest_count ==> final(self).wf(),
    {
        self.timer = self.state_duration();
    }

    /// Goes back to the head of a cycle: a focus period with its full
    /// length on the clock and the cycle counter at 0.
    pub fn restart(&mut self)
        ensures
            final(self)@ == old(self)@.restart(),
            final(self)@.state == State::Pomodoro,
            final(self)@.rest_counter == 0,
            final(self)@.timer == old(self)@.config.pomodoro_time,
            final(self)@.running == old(self)@.running,
            final(self)@.pomodoro_count == old(self)@.pomodoro_count,
            old(self)@.config.wf() && old(self)@.tick_wf() ==> final(self).wf(),
    {
        self.state = State::Pomodoro;
        self.rest_counter = 0;
        self.restart_state();
    }

    /// The sound asset that `edit` would bring in, where it is another one
    /// than the asset in force: the one to try loading before the edit is
    /// made. `None` where the edit leaves the sound asset as it is.
    pub fn sound_to_validate(&self, edit: &ConfigEdit) -> (r: Option<String>)
        ensures
            r is Some == self@.sound_changes(edit@),
            r is Some ==> r->0@ == self@.config.edited(edit@).sound_path,
    {
        let candidate = match edit {
            ConfigEdit::SetSoundAsset(p) => p.clone(),
            ConfigEdit::ResetToDefaults => DEFAULT_SOUND.to_owned(),
            _ => {
                return None;
            },
        };
        if candidate == self.config.sound_path {
            None
        } else {
            Some(candidate)
        }
    }

    /// Edits the configuration. A new sound asset is kept only if
    /// `sound_ok`; the other fields of the edit stay either way. Then the
    /// cycle starts over if the cycle counter has run past the new cycle
    /// length, and the current phase starts over if not. Returns whether to
    /// play the sound.
    pub fn change_config(&mut self, edit: ConfigEdit, sound_ok: bool) -> (ring: bool)
        requires
            old(self).wf(),
        ensures
            final(self)@ == old(self)@.change_config(edit@, sound_ok),
            ring == old(self)@.change_config_rings(edit@, sound_ok),
            final(self).wf(),
            final(self)@.config == old(self)@.config_after(edit@, sound_ok),
            final(self)@.config.rest_count <= old(self)@.rest_counter ==> {
                &&& final(self)@.state == State::Pomodoro
                &&& final(self)@.rest_counter == 0
                &&& final(self)@.timer == final(self)@.config.pomodoro_time
            },
            final(self)@.config.rest_count > old(self)@.rest_counter ==> {
                &&& final(self)@.state == old(self)@.state
                &&& final(self)@.rest_counter == old(self)@.rest_counter
                &&& final(self)@.timer == final(self)@.config.duration(old(self)@.state)
            },
    {
        proof {
            lemma_change_config_wf(self@, edit@, sound_ok);
        }
        let previous_sound_path = self.config.sound_path.clone();
        self.config.apply(edit);
        let mut ring = false;
        if !(previous_sound_path == self.config.sound_path) {
            if sound_ok {
                self.has_song = true;
            } else {
                self.config.sound_path = previous_sound_path;
            }
            ring = self.has_song;
        }
        if self.config.rest_count <= self.rest_counter {
            self.restart();
        } else {
            self.restart_state();
        }
        ring
    }

    /// Schedules the next tick of a running timer: the wait, which is the
    /// fixed step or what is left of the phase where that is less, comes
    /// off the clock at once, and the tick gets a fresh handle. A paused
    /// timer schedules nothing.
    pub fn schedule_step(&mut self) -> (tick: Option<Tick>)
        requires
            old(self)@.schedule_step().ticks_issued <= u64::MAX,
        ensures
            final(self)@ == old(self)@.schedule_step(),
            match tick {
                Some(t) => Some(t@),
                None => None,
            } == old(self)@.scheduled_tick(),
            old(self).wf() ==> final(self).wf(),
    {
        proof {
            if self.wf() {
                lemma_schedule_step_wf(self@);
            }
        }
        if self.running {
            let delay = sleep_step().min(self.timer);
            self.timer = self.timer.saturating_sub(delay);
            let handle = self.ticks_issued;
            self.ticks_issued = handle + 1;
            self.step_permission = Some(handle);
            Some(Tick { delay, handle })
        } else {
            None
        }
    }

    /// Takes one message. A step whose tick has lost its permission is
    /// dropped and nothing changes. Anything else first takes the
    /// permission from the pending tick; then the message does its work and,
    /// if the timer is running after that, the next tick is scheduled.
    pub fn update(&mut self, msg: AppMsg) -> (effects: Effects)
        requires
            old(self).wf(),
            old(self)@.update(msg@).pomodoro_count <= usize::MAX,
            old(self)@.update(msg@).ticks_issued <= u64::MAX,
        ensures
            final(self)@ == old(self)@.update(msg@),
            effects@ == old(self)@.update_effects(msg@),
            final(self).wf(),
    {
        if let AppMsg::Step(handle) = msg {
            if !self.permits(handle) {
                return Effects::none();
            }
        }
        self.clear_step_permission();
        let mut play_sound = false;
        let mut save_config = false;
        match msg {
            AppMsg::Ignore => {
                return Effects::none();
            },
            AppMsg::Step(_) => {
                play_sound = self.try_next_state();
            },
            AppMsg::Toggle(running) => {
                self.toggle(running);
            },
            AppMsg::Skip => {
                play_sound = self.next_state(false);
            },
            AppMsg::Renew => {
                self.restart_state();
            },
            AppMsg::Restart => {
                self.restart();
            },
            AppMsg::ChangeConfig { edit, sound_ok } => {
                play_sound = self.change_config(edit, sound_ok);
                save_config = true;
            },
        }
        let tick = self.schedule_step();
        Effects { play_sound, save_config, tick }
    }
}

} // verus!
