//! What holds of the timer whatever it is sent.
//!
//! The laws are stated of the mathematical timer of [`crate::model`]. The
//! executable timer does to its view exactly what those functions say, so
//! each law holds of it as well.

use vstd::prelude::*;
use crate::config::ConfigView;
use crate::config::EditView;
use crate::config::State;
use crate::model::sleep_step;
use crate::model::EffectsView;
use crate::model::ModelView;
use crate::model::MsgView;

verus! {

/// The state after a run of messages, taken one after the other.
pub open spec fn run(s: ModelView, msgs: Seq<MsgView>) -> ModelView
    decreases msgs.len(),
{
    if msgs.len() == 0 {
        s
    } else {
        run(s, msgs.drop_last()).update(msgs.last())
    }
}

/// The state after `k` rounds, each a focus period that runs to its end
/// and then the break or rest after it that does so too.
pub open spec fn after_rounds(s: ModelView, k: nat) -> ModelView
    decreases k,
{
    if k == 0 {
        s
    } else {
        after_rounds(s, (k - 1) as nat).next_state(true).next_state(true)
    }
}

/// A handle is spent once it has been given out and is not, or no longer,
/// the pending one.
pub open spec fn spent(s: ModelView, handle: nat) -> bool {
    handle < s.ticks_issued && !s.permits(handle)
}

/// The wait that the effects ask for, and none where they ask for no tick.
pub open spec fn wait_of(effects: EffectsView) -> nat {
    match effects.tick {
        Some(tick) => tick.delay,
        None => 0,
    }
}

/// A fresh timer on a usable configuration meets the invariant.
pub proof fn lemma_init_wf(config: ConfigView, has_song: bool)
    requires
        config.wf(),
    ensures
        ModelView::init(config, has_song).wf(),
{
}

/// Moving on to the next phase keeps the invariant.
pub proof fn lemma_next_state_wf(s: ModelView, natural: bool)
    requires
        s.wf(),
    ensures
        s.next_state(natural).wf(),
{
    let n = s.config.rest_count;
    let c = s.rest_counter + 1;
    assert(c % n < n) by (nonlinear_arith)
        requires
            n >= 1,
    ;
}

/// Editing the configuration keeps the invariant, whatever the edit.
pub proof fn lemma_change_config_wf(s: ModelView, edit: EditView, sound_ok: bool)
    requires
        s.wf(),
    ensures
        s.change_config(edit, sound_ok).wf(),
{
}

/// Scheduling a tick keeps the invariant.
pub proof fn lemma_schedule_step_wf(s: ModelView)
    requires
        s.wf(),
    ensures
        s.schedule_step().wf(),
{
}

/// No message breaks the invariant: the configuration stays usable, the
/// cycle counter stays below the cycle length, the clock never shows more
/// than the phase lasts, and at most one tick is pending.
pub proof fn lemma_update_wf(s: ModelView, msg: MsgView)
    requires
        s.wf(),
    ensures
        s.update(msg).wf(),
{
    let cleared = s.clear_step_permission();
    match msg {
        MsgView::Step(_) => {
            lemma_next_state_wf(cleared, true);
        },
        MsgView::Skip => {
            lemma_next_state_wf(cleared, false);
        },
        MsgView::ChangeConfig { edit, sound_ok } => {
            lemma_change_config_wf(cleared, edit, sound_ok);
        },
        _ => {},
    }
    lemma_schedule_step_wf(cleared.dispatch(msg));
}

/// No run of messages breaks the invariant.
pub proof fn lemma_run_wf(s: ModelView, msgs: Seq<MsgView>)
    requires
        s.wf(),
    ensures
        run(s, msgs).wf(),
    decreases msgs.len(),
{
    if msgs.len() > 0 {
        lemma_run_wf(s, msgs.drop_last());
        lemma_update_wf(run(s, msgs.drop_last()), msgs.last());
    }
}

/// Starting or pausing changes no phase: only the running flag moves, to
/// what was asked for or, where nothing was asked for, to its opposite. A
/// timer that runs afterwards has a tick scheduled.
pub proof fn lemma_toggle_changes_no_phase(s: ModelView, running: Option<bool>)
    ensures
        s.update(MsgView::Toggle(running)).running == match running {
            Some(r) => r,
            None => !s.running,
        },
        s.update(MsgView::Toggle(running)).state == s.state,
        s.update(MsgView::Toggle(running)).rest_counter == s.rest_counter,
        s.update(MsgView::Toggle(running)).pomodoro_count == s.pomodoro_count,
        s.update(MsgView::Toggle(running)).config == s.config,
        s.update(MsgView::Toggle(running)).timer + wait_of(
            s.update_effects(MsgView::Toggle(running)),
        ) == s.timer,
        s.update_effects(MsgView::Toggle(running)).tick is Some == s.update(
            MsgView::Toggle(running),
        ).running,
        !s.update_effects(MsgView::Toggle(running)).play_sound,
        !s.update_effects(MsgView::Toggle(running)).save_config,
{
}

/// A step that finds time left on the clock changes no phase and no
/// counter; the timer only goes on counting down.
pub proof fn lemma_step_before_expiry_changes_no_phase(s: ModelView, handle: nat)
    requires
        s.permits(handle),
        s.timer > 0,
    ensures
        s.update(MsgView::Step(handle)).state == s.state,
        s.update(MsgView::Step(handle)).rest_counter == s.rest_counter,
        s.update(MsgView::Step(handle)).pomodoro_count == s.pomodoro_count,
        s.update(MsgView::Step(handle)).running == s.running,
        s.update(MsgView::Step(handle)).timer + wait_of(s.update_effects(MsgView::Step(handle)))
            == s.timer,
        !s.update_effects(MsgView::Step(handle)).play_sound,
{
}

/// A step that finds the clock run down moves on as a phase does that ran
/// to its end: phase, counters and sound are those of `next_state(true)`,
/// and the full length of the new phase is due.
pub proof fn lemma_step_on_empty_clock_moves_on(s: ModelView, handle: nat)
    requires
        s.permits(handle),
        s.timer == 0,
    ensures
        s.update(MsgView::Step(handle)) == s.clear_step_permission().next_state(
            true,
        ).schedule_step(),
        s.update(MsgView::Step(handle)).state == s.next_state(true).state,
        s.update(MsgView::Step(handle)).rest_counter == s.next_state(true).rest_counter,
        s.update(MsgView::Step(handle)).pomodoro_count == s.next_state(true).pomodoro_count,
        s.update(MsgView::Step(handle)).timer + wait_of(s.update_effects(MsgView::Step(handle)))
            == s.config.duration(s.following_state()),
        s.update_effects(MsgView::Step(handle)).play_sound == s.has_song,
{
}

/// A cycle of `N` focus periods ends in a rest. From the head of a cycle,
/// after `k < N` rounds the timer is in a focus period again with `k` on the
/// cycle counter and `k` more focus periods counted as done. The focus
/// period that follows leads to a break while it is not the `N`-th of the
/// cycle, and to the rest when it is; and when that rest has run to its end
/// the cycle counter is back at 0.
pub proof fn lemma_cycle_ends_in_rest(s: ModelView, k: nat)
    requires
        s.wf(),
        s.state == State::Pomodoro,
        s.rest_counter == 0,
        k < s.config.rest_count,
    ensures
        after_rounds(s, k).wf(),
        after_rounds(s, k).config == s.config,
        after_rounds(s, k).state == State::Pomodoro,
        after_rounds(s, k).rest_counter == k,
        after_rounds(s, k).pomodoro_count == s.pomodoro_count + k,
        k + 1 < s.config.rest_count ==> after_rounds(s, k).next_state(true).state == State::Break,
        k + 1 == s.config.rest_count ==> {
            let rest = after_rounds(s, k).next_state(true);
            &&& rest.state == State::Rest
            &&& rest.timer == s.config.rest_time
            &&& rest.next_state(true).state == State::Pomodoro
            &&& rest.next_state(true).rest_counter == 0
        },
    decreases k,
{
    let n = s.config.rest_count;
    if k > 0 {
        let j = (k - 1) as nat;
        lemma_cycle_ends_in_rest(s, j);
        let before = after_rounds(s, j);
        lemma_next_state_wf(before, true);
        lemma_next_state_wf(before.next_state(true), true);
        assert((j + 1) % n == j + 1) by (nonlinear_arith)
            requires
                j + 1 < n,
        ;
    }
    if k + 1 == n {
        assert((k + 1) % n == 0) by (nonlinear_arith)
            requires
                k + 1 == n,
                n >= 1,
        ;
    }
}

/// Cutting a phase short never counts a focus period as done, whatever is
/// left on the clock and whichever phase it is.
pub proof fn lemma_skip_never_counts(s: ModelView)
    ensures
        s.next_state(false).pomodoro_count == s.pomodoro_count,
        s.update(MsgView::Skip).pomodoro_count == s.pomodoro_count,
        !s.update_effects(MsgView::Skip).play_sound,
{
}

/// Cutting a phase short leads to the phase that follows, with its full
/// length due: what is on the clock and what the scheduled tick waits for
/// add up to it.
pub proof fn lemma_skip_moves_on(s: ModelView)
    requires
        s.wf(),
    ensures
        s.update(MsgView::Skip).state == s.following_state(),
        s.update(MsgView::Skip).timer + wait_of(s.update_effects(MsgView::Skip))
            == s.config.duration(s.following_state()),
        !s.running ==> s.update(MsgView::Skip).timer == s.config.duration(s.following_state()),
{
}

/// The count of focus periods done never goes down, and goes up, by one,
/// only when a tick that still has its permission finds a focus period with
/// nothing left on the clock.
pub proof fn lemma_count_moves_only_on_expiry(s: ModelView, msg: MsgView)
    ensures
        s.update(msg).pomodoro_count == if msg matches MsgView::Step(handle) && s.permits(handle)
            && s.state == State::Pomodoro && s.timer == 0 {
            s.pomodoro_count + 1
        } else {
            s.pomodoro_count
        },
{
}

/// Renewing puts exactly the configured length of the current phase back
/// and leaves phase, cycle counter, count of focus periods, configuration
/// and the running flag alone.
pub proof fn lemma_renew_restores_phase_length(s: ModelView)
    ensures
        s.restart_state().timer == s.config.duration(s.state),
        s.restart_state() == (ModelView { timer: s.restart_state().timer, ..s }),
        s.update(MsgView::Renew).timer + wait_of(s.update_effects(MsgView::Renew))
            == s.config.duration(s.state),
        !s.running ==> s.update(MsgView::Renew).timer == s.config.duration(s.state),
        s.update(MsgView::Renew).state == s.state,
        s.update(MsgView::Renew).rest_counter == s.rest_counter,
        s.update(MsgView::Renew).pomodoro_count == s.pomodoro_count,
        s.update(MsgView::Renew).running == s.running,
        s.update(MsgView::Renew).config == s.config,
{
}

/// Restarting always leads to a focus period with the cycle counter at 0
/// and the full length of a focus period due, and leaves the running flag,
/// the count of focus periods done and the configuration alone.
pub proof fn lemma_restart_heads_cycle(s: ModelView)
    ensures
        s.restart().state == State::Pomodoro,
        s.restart().rest_counter == 0,
        s.restart().timer == s.config.pomodoro_time,
        s.update(MsgView::Restart).state == State::Pomodoro,
        s.update(MsgView::Restart).rest_counter == 0,
        s.update(MsgView::Restart).timer + wait_of(s.update_effects(MsgView::Restart))
            == s.config.pomodoro_time,
        !s.running ==> s.update(MsgView::Restart).timer == s.config.pomodoro_time,
        s.update(MsgView::Restart).running == s.running,
        s.update(MsgView::Restart).pomodoro_count == s.pomodoro_count,
        s.update(MsgView::Restart).config == s.config,
{
}

/// An edit that leaves the cycle no longer than the cycle counter starts
/// the cycle over, in full: a focus period, nothing done in the cycle, the
/// new length of a focus period on the clock. Any other edit starts the
/// current phase over with its new length and leaves phase and cycle
/// counter alone.
pub proof fn lemma_change_config_restarts_or_renews(s: ModelView, edit: EditView, sound_ok: bool)
    ensures
        ({
            let config = s.config_after(edit, sound_ok);
            let after = s.change_config(edit, sound_ok);
            &&& after.config == config
            &&& after.running == s.running
            &&& after.pomodoro_count == s.pomodoro_count
            &&& config.rest_count <= s.rest_counter ==> {
                &&& after.state == State::Pomodoro
                &&& after.rest_counter == 0
                &&& after.timer == config.pomodoro_time
                &&& after == (ModelView { config, has_song: after.has_song, ..s }).restart()
            }
            &&& config.rest_count > s.rest_counter ==> {
                &&& after.state == s.state
                &&& after.rest_counter == s.rest_counter
                &&& after.timer == config.duration(s.state)
            }
        }),
{
}

/// What an edit leaves in force: the lengths and the cycle length are those
/// of the edited configuration, which never takes over a cycle length of 0;
/// the sound asset is that of the edited configuration only if it could be
/// loaded, and the old one if not. The configuration stays usable, and it is
/// asked to be stored either way.
pub proof fn lemma_change_config_rejects_unusable(s: ModelView, edit: EditView, sound_ok: bool)
    requires
        s.config.wf(),
    ensures
        s.config_after(edit, sound_ok).wf(),
        s.config_after(edit, sound_ok).pomodoro_time == s.config.edited(edit).pomodoro_time,
        s.config_after(edit, sound_ok).break_time == s.config.edited(edit).break_time,
        s.config_after(edit, sound_ok).rest_time == s.config.edited(edit).rest_time,
        s.config_after(edit, sound_ok).rest_count == s.config.edited(edit).rest_count,
        s.config_after(edit, sound_ok).sound_path == if sound_ok {
            s.config.edited(edit).sound_path
        } else {
            s.config.sound_path
        },
        s.update_effects(MsgView::ChangeConfig { edit, sound_ok }).save_config,
{
}

/// The wait of a scheduled tick is the fixed step or what was left of the
/// phase, whichever is less, and it has come off the clock already: the
/// clock and the wait together are what the clock showed before.
pub proof fn lemma_tick_wait_is_capped(s: ModelView)
    requires
        s.running,
    ensures
        s.scheduled_tick() is Some,
        s.scheduled_tick()->0.delay <= sleep_step(),
        s.scheduled_tick()->0.delay <= s.timer,
        s.scheduled_tick()->0.delay == sleep_step() || s.scheduled_tick()->0.delay == s.timer,
        s.schedule_step().timer + s.scheduled_tick()->0.delay == s.timer,
        s.schedule_step().permits(s.scheduled_tick()->0.handle),
{
}

/// After a message that was not dropped a tick is pending exactly if the
/// timer runs, unless the message was `Ignore`, which leaves none pending;
/// and the pending tick is the one that the effects ask for.
pub proof fn lemma_tick_pending_iff_running(s: ModelView, msg: MsgView)
    requires
        !s.drops(msg),
    ensures
        msg is Ignore ==> s.update(msg).step_permission is None,
        !(msg is Ignore) ==> (s.update(msg).step_permission is Some <==> s.update(msg).running),
        s.update_effects(msg).tick is Some <==> s.update(msg).step_permission is Some,
        s.update_effects(msg).tick matches Some(tick) ==> s.update(msg).permits(tick.handle),
{
}

/// Taking the permission away twice is the same as doing so once.
pub proof fn lemma_clear_is_idempotent(s: ModelView)
    ensures
        s.clear_step_permission().clear_step_permission() == s.clear_step_permission(),
        forall|handle: nat| !s.clear_step_permission().permits(handle),
{
}

/// A step whose tick has lost its permission does nothing at all.
pub proof fn lemma_stale_step_is_dropped(s: ModelView, handle: nat)
    requires
        !s.permits(handle),
    ensures
        s.update(MsgView::Step(handle)) == s,
        s.update_effects(MsgView::Step(handle)) == EffectsView::none(),
{
}

/// Every message that is taken spends the tick that was pending before it:
/// the step of that very tick as much as anything that comes in its place.
pub proof fn lemma_taken_message_spends_pending(s: ModelView, msg: MsgView, handle: nat)
    requires
        s.tick_wf(),
        s.permits(handle),
        !s.drops(msg),
    ensures
        spent(s.update(msg), handle),
{
}

/// A spent handle stays spent.
pub proof fn lemma_spent_stays_spent(s: ModelView, msg: MsgView, handle: nat)
    requires
        spent(s, handle),
    ensures
        spent(s.update(msg), handle),
{
}

/// A spent handle stays spent through any run of messages.
pub proof fn lemma_spent_through_run(s: ModelView, msgs: Seq<MsgView>, handle: nat)
    requires
        spent(s, handle),
    ensures
        spent(run(s, msgs), handle),
    decreases msgs.len(),
{
    if msgs.len() > 0 {
        lemma_spent_through_run(s, msgs.drop_last(), handle);
        lemma_spent_stays_spent(run(s, msgs.drop_last()), msgs.last(), handle);
    }
}

/// A tick steps at most once: when its step has been taken, a second step
/// that shows the same handle is dropped, whatever came in between.
pub proof fn lemma_tick_steps_at_most_once(s: ModelView, handle: nat, later: Seq<MsgView>)
    requires
        s.tick_wf(),
        s.permits(handle),
    ensures
        run(s.update(MsgView::Step(handle)), later).drops(MsgView::Step(handle)),
{
    lemma_taken_message_spends_pending(s, MsgView::Step(handle), handle);
    lemma_spent_through_run(s.update(MsgView::Step(handle)), later, handle);
}

/// A tick that a later message has overtaken never steps. Let a message
/// `first` leave a tick pending and let a second message be taken right
/// after it, be it a command or that tick's own step. Then, whatever
/// messages follow, a step that shows the first tick's handle is dropped: it
/// changes nothing and asks for nothing.
pub proof fn lemma_preempted_tick_never_steps(
    s: ModelView,
    first: MsgView,
    second: MsgView,
    later: Seq<MsgView>,
    handle: nat,
)
    requires
        s.wf(),
        s.update(first).permits(handle),
        !s.update(first).drops(second),
    ensures
        ({
            let end = run(s.update(first).update(second), later);
            &&& end.drops(MsgView::Step(handle))
            &&& end.update(MsgView::Step(handle)) == end
            &&& end.update_effects(MsgView::Step(handle)) == EffectsView::none()
        }),
{
    lemma_update_wf(s, first);
    lemma_taken_message_spends_pending(s.update(first), second, handle);
    lemma_spent_through_run(s.update(first).update(second), later, handle);
}

} // verus!
