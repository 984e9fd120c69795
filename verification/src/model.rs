//! The timer as plain mathematics: its state, the messages it takes, and
//! what each of them does to it.
//!
//! Counters are natural numbers here and lengths of time are nanoseconds, so
//! nothing in this file runs out of room. The executable timer mirrors these
//! functions one by one.

use vstd::prelude::*;
use crate::config::ConfigView;
use crate::config::EditView;
use crate::config::State;
use crate::span::NANOS_PER_MILLI;

verus! {

/// The longest single wait between two looks at the clock, in milliseconds.
pub const SLEEP_STEP_MILLIS: u64 = 250;

/// The longest single wait between two looks at the clock, in nanoseconds.
pub open spec fn sleep_step() -> nat {
    (SLEEP_STEP_MILLIS * NANOS_PER_MILLI) as nat
}

/// One scheduled tick: how long to wait, and the handle the tick has to show
/// when it comes back.
pub struct TickView {
    pub delay: nat,
    pub handle: nat,
}

/// What the surroundings are asked to do after a message.
pub struct EffectsView {
    /// Play the notification sound once.
    pub play_sound: bool,
    /// Store the configuration.
    pub save_config: bool,
    /// Wait, then come back with a step.
    pub tick: Option<TickView>,
}

impl EffectsView {
    /// Nothing to do.
    pub open spec fn none() -> EffectsView {
        EffectsView { play_sound: false, save_config: false, tick: None }
    }
}

/// A message to the timer.
pub enum MsgView {
    Ignore,
    Step(nat),
    Toggle(Option<bool>),
    Skip,
    Renew,
    Restart,
    ChangeConfig { edit: EditView, sound_ok: bool },
}

/// The state of a timer.
pub struct ModelView {
    /// Whether the countdown is going.
    pub running: bool,
    /// What is left of the current phase.
    pub timer: nat,
    /// The current phase.
    pub state: State,
    /// How far the cycle has come: the focus periods of this cycle whose
    /// break is over.
    pub rest_counter: nat,
    /// Focus periods that ran to their end, ever.
    pub pomodoro_count: nat,
    /// The configuration in force.
    pub config: ConfigView,
    /// Whether a sound has been loaded that can be played.
    pub has_song: bool,
    /// How many ticks have been scheduled so far; the next handle.
    pub ticks_issued: nat,
    /// The handle of the one tick that may still deliver its step.
    pub step_permission: Option<nat>,
}

impl ModelView {
    /// A timer as it starts out: paused at the head of a focus period.
    pub open spec fn init(config: ConfigView, has_song: bool) -> ModelView {
        ModelView {
            running: false,
            timer: config.duration(State::Pomodoro),
            state: State::Pomodoro,
            rest_counter: 0,
            pomodoro_count: 0,
            config,
            has_song,
            ticks_issued: 0,
            step_permission: None,
        }
    }

    /// What every reachable state has: a usable configuration, a cycle
    /// counter below the cycle length, no more time left than the phase
    /// lasts, and a pending handle that has really been given out.
    pub open spec fn wf(self) -> bool {
        &&& self.config.wf()
        &&& self.rest_counter < self.config.rest_count
        &&& self.timer <= self.config.duration(self.state)
        &&& self.tick_wf()
    }

    /// The handle of the pending tick, if there is one, has been given out.
    pub open spec fn tick_wf(self) -> bool {
        self.step_permission matches Some(h) ==> h < self.ticks_issued
    }

    /// Whether a tick that shows `handle` may still deliver its step.
    pub open spec fn permits(self, handle: nat) -> bool {
        self.step_permission == Some(handle)
    }

    /// Takes the permission from whatever tick is pending.
    pub open spec fn clear_step_permission(self) -> ModelView {
        ModelView { step_permission: None, ..self }
    }

    /// Starts or pauses the countdown: as told, or the other way round.
    pub open spec fn toggle(self, running: Option<bool>) -> ModelView {
        ModelView {
            running: match running {
                Some(r) => r,
                None => !self.running,
            },
            ..self
        }
    }

    /// Puts the full length of the current phase back on the clock.
    pub open spec fn restart_state(self) -> ModelView {
        ModelView { timer: self.config.duration(self.state), ..self }
    }

    /// Goes back to the head of a cycle.
    pub open spec fn restart(self) -> ModelView {
        ModelView { state: State::Pomodoro, rest_counter: 0, ..self }.restart_state()
    }

    /// The phase that follows the current one.
    pub open spec fn following_state(self) -> State {
        match self.state {
            State::Pomodoro => if self.rest_counter + 1 >= self.config.rest_count {
                State::Rest
            } else {
                State::Break
            },
            State::Break | State::Rest => State::Pomodoro,
        }
    }

    /// Moves on to the next phase and puts its full length on the clock. A
    /// focus period is followed by a break, or by the rest if it is the last
    /// of its cycle; a break or rest is followed by a focus period, and the
    /// cycle counter goes up by one, back to 0 at the cycle length. `natural`
    /// tells a phase that ran to its end from one that was cut short: only a
    /// focus period that ran to its end counts as done.
    pub open spec fn next_state(self, natural: bool) -> ModelView {
        match self.state {
            State::Pomodoro => ModelView {
                state: self.following_state(),
                pomodoro_count: if natural {
                    self.pomodoro_count + 1
                } else {
                    self.pomodoro_count
                },
                ..self
            },
            State::Break | State::Rest => ModelView {
                state: State::Pomodoro,
                rest_counter: (self.rest_counter + 1) % self.config.rest_count,
                ..self
            },
        }.restart_state()
    }

    /// Whether moving on rings: only a phase that ran to its end does, and
    /// only where there is a sound to play.
    pub open spec fn next_state_rings(self, natural: bool) -> bool {
        natural && self.has_song
    }

    /// Moves on if the clock has run down, and stays otherwise.
    pub open spec fn try_next_state(self) -> ModelView {
        if self.timer == 0 {
            self.next_state(true)
        } else {
            self
        }
    }

    /// Whether a step rings.
    pub open spec fn try_next_state_rings(self) -> bool {
        self.timer == 0 && self.next_state_rings(true)
    }

    /// Whether `edit` would name another sound asset than the one in force.
    pub open spec fn sound_changes(self, edit: EditView) -> bool {
        self.config.edited(edit).sound_path != self.config.sound_path
    }

    /// The configuration that `edit` leaves in force. A new sound asset
    /// that was found unusable is not taken over; the old one stays.
    pub open spec fn config_after(self, edit: EditView, sound_ok: bool) -> ConfigView {
        let edited = self.config.edited(edit);
        if self.sound_changes(edit) && !sound_ok {
            ConfigView { sound_path: self.config.sound_path, ..edited }
        } else {
            edited
        }
    }

    /// Edits the configuration. Where the cycle counter no longer fits the
    /// new cycle length the cycle starts over; otherwise the current phase
    /// does.
    pub open spec fn change_config(self, edit: EditView, sound_ok: bool) -> ModelView {
        let changed = ModelView {
            config: self.config_after(edit, sound_ok),
            has_song: self.has_song || (self.sound_changes(edit) && sound_ok),
            ..self
        };
        if changed.config.rest_count <= changed.rest_counter {
            changed.restart()
        } else {
            changed.restart_state()
        }
    }

    /// Whether an edit rings: one that names another sound asset does,
    /// where there is a sound to play afterwards.
    pub open spec fn change_config_rings(self, edit: EditView, sound_ok: bool) -> bool {
        self.sound_changes(edit) && (self.has_song || sound_ok)
    }

    /// The wait before the next tick: the fixed step, or what is left of
    /// the phase where that is less.
    pub open spec fn next_delay(self) -> nat {
        if self.timer <= sleep_step() {
            self.timer
        } else {
            sleep_step()
        }
    }

    /// Schedules the next tick of a running timer: the wait is taken off the
    /// clock at once, and the tick gets a handle that no tick had before. A
    /// paused timer schedules nothing.
    pub open spec fn schedule_step(self) -> ModelView {
        if self.running {
            ModelView {
                timer: (self.timer - self.next_delay()) as nat,
                ticks_issued: self.ticks_issued + 1,
                step_permission: Some(self.ticks_issued),
                ..self
            }
        } else {
            self
        }
    }

    /// The tick that `schedule_step` asks for.
    pub open spec fn scheduled_tick(self) -> Option<TickView> {
        if self.running {
            Some(TickView { delay: self.next_delay(), handle: self.ticks_issued })
        } else {
            None
        }
    }

    /// Whether the timer drops `msg` unseen: a step whose tick has lost its
    /// permission.
    pub open spec fn drops(self, msg: MsgView) -> bool {
        msg matches MsgView::Step(handle) && !self.permits(handle)
    }

    /// What a message does to the state, apart from clearing the pending
    /// tick before and scheduling the next one after.
    pub open spec fn dispatch(self, msg: MsgView) -> ModelView {
        match msg {
            MsgView::Ignore => self,
            MsgView::Step(_) => self.try_next_state(),
            MsgView::Toggle(running) => self.toggle(running),
            MsgView::Skip => self.next_state(false),
            MsgView::Renew => self.restart_state(),
            MsgView::Restart => self.restart(),
            MsgView::ChangeConfig { edit, sound_ok } => self.change_config(edit, sound_ok),
        }
    }

    /// Whether a message rings.
    pub open spec fn dispatch_rings(self, msg: MsgView) -> bool {
        match msg {
            MsgView::Step(_) => self.try_next_state_rings(),
            MsgView::Skip => self.next_state_rings(false),
            MsgView::ChangeConfig { edit, sound_ok } => self.change_config_rings(edit, sound_ok),
            _ => false,
        }
    }

    /// The state after a message. A dropped step changes nothing. Anything
    /// else first takes the permission from the pending tick; `Ignore` stops
    /// there, the others do their work and then schedule the next tick if
    /// the timer is running.
    pub open spec fn update(self, msg: MsgView) -> ModelView {
        if self.drops(msg) {
            self
        } else if msg is Ignore {
            self.clear_step_permission()
        } else {
            self.clear_step_permission().dispatch(msg).schedule_step()
        }
    }

    /// What the surroundings are asked to do after a message.
    pub open spec fn update_effects(self, msg: MsgView) -> EffectsView {
        if self.drops(msg) || msg is Ignore {
            EffectsView::none()
        } else {
            EffectsView {
                play_sound: self.clear_step_permission().dispatch_rings(msg),
                save_config: msg is ChangeConfig,
                tick: self.clear_step_permission().dispatch(msg).scheduled_tick(),
            }
        }
    }
}

} // verus!
