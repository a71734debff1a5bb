use vstd::prelude::*;

use crate::app::{App, AppState, TimerState};
use crate::event::{AppEvent, KeyCode};

verus! {

/// While running, ticks count the remaining time down by one per tick until
/// it reaches the zero floor, and they never touch the run/pause state.
pub proof fn lemma_ticks_count_down(a: App, n: nat)
    requires
        a.timer_state == TimerState::Running,
    ensures
        App::spec_ticks(a, n).current_time == if n <= a.current_time {
            a.current_time - n
        } else {
            0
        },
        App::spec_ticks(a, n).timer_state == TimerState::Running,
    decreases n,
{
    if n > 0 {
        lemma_ticks_count_down(App::spec_tick(a), (n - 1) as nat);
    }
}

/// After exactly the remaining number of ticks with the timer running
/// throughout and no intervening key events, the remaining time reaches
/// exactly zero, and it stays at zero on any further ticks.
pub proof fn lemma_countdown_reaches_floor(a: App, extra: nat)
    requires
        a.timer_state == TimerState::Running,
    ensures
        App::spec_ticks(a, a.current_time as nat).current_time == 0,
        App::spec_ticks(a, a.current_time as nat + extra).current_time == 0,
{
    lemma_ticks_count_down(a, a.current_time as nat);
    lemma_ticks_count_down(a, a.current_time as nat + extra);
}

/// Toggling pause twice (running to stopped to running, or the other way)
/// with no ticks in between restores the state exactly; in particular the
/// remaining time is unchanged. Away from the zero floor, space only toggles.
pub proof fn lemma_pause_toggle_involution(a: App)
    requires
        a.current_time != 0,
    ensures
        App::spec_key(App::spec_key(a, KeyCode::Char(' ')), KeyCode::Char(' ')) == a,
{
}

/// A reset restores the remaining time to the configured duration and
/// re-arms a configured notification, even one already delivered, regardless
/// of the current state.
pub proof fn lemma_reset_rearms(a: App)
    requires
        a.notification.configured(),
    ensures
        App::spec_reset(a).current_time == a.start_time,
        App::spec_reset(a).notification.armed,
        !App::spec_reset(a).notification.delivered,
        App::spec_reset(a).notification.title == a.notification.title,
        App::spec_reset(a).notification.body == a.notification.body,
{
}

/// Ticks never re-arm a notification: from a disarmed state, no run of ticks
/// dispatches, and the request stays disarmed.
pub proof fn lemma_ticks_never_rearm(a: App, n: nat)
    requires
        !a.notification.armed,
    ensures
        App::spec_tick_dispatch_count(a, n) == 0,
        !App::spec_ticks(a, n).notification.armed,
    decreases n,
{
    if n > 0 {
        lemma_ticks_never_rearm(App::spec_tick(a), (n - 1) as nat);
    }
}

/// The notification fires at most once per arming: however many consecutive
/// ticks arrive, at most one of them dispatches.
pub proof fn lemma_dispatch_at_most_once(a: App, n: nat)
    ensures
        App::spec_tick_dispatch_count(a, n) <= 1,
    decreases n,
{
    if n > 0 {
        if App::spec_tick_dispatches(a) {
            lemma_ticks_never_rearm(App::spec_tick(a), (n - 1) as nat);
        } else {
            lemma_dispatch_at_most_once(App::spec_tick(a), (n - 1) as nat);
        }
    }
}

/// With an armed, undelivered notification and the countdown already at the
/// zero floor, a run of at least one tick dispatches exactly once.
pub proof fn lemma_dispatch_exactly_once(a: App, n: nat)
    requires
        a.current_time == 0,
        a.timer_state == TimerState::Running,
        a.notification.armed,
        !a.notification.delivered,
        n >= 1,
    ensures
        App::spec_tick_dispatch_count(a, n) == 1,
{
    lemma_ticks_never_rearm(App::spec_tick(a), (n - 1) as nat);
}

/// No event changes the notification text.
pub proof fn lemma_step_keeps_text(a: App, event: AppEvent)
    ensures
        App::spec_step(a, event).notification.title == a.notification.title,
        App::spec_step(a, event).notification.body == a.notification.body,
{
}

/// With no notification configured (empty title and body) and none armed,
/// no sequence of events whatsoever dispatches: the countdown simply holds
/// at zero once it gets there.
pub proof fn lemma_unconfigured_never_dispatches(a: App, events: Seq<AppEvent>)
    requires
        !a.notification.configured(),
        !a.notification.armed,
    ensures
        App::spec_dispatch_count(a, events) == 0,
        !App::spec_run(a, events).notification.configured(),
        !App::spec_run(a, events).notification.armed,
    decreases events.len(),
{
    if events.len() > 0 {
        lemma_step_keeps_text(a, events.first());
        lemma_unconfigured_never_dispatches(App::spec_step(a, events.first()), events.drop_first());
    }
}

/// A quit key at any state whatsoever moves the lifecycle to its terminal
/// value, at which the driving loop stops.
pub proof fn lemma_quit_is_terminal(a: App, key: KeyCode)
    requires
        key == KeyCode::Esc || key == KeyCode::Char('q') || key == KeyCode::Char('\u{0439}'),
    ensures
        App::spec_key(a, key).app_state == AppState::Quit,
{
}

/// Every event preserves the state invariant.
pub proof fn lemma_step_preserves_wf(a: App, event: AppEvent)
    requires
        a.wf(),
    ensures
        App::spec_step(a, event).wf(),
{
}

/// The state invariant holds after any whole sequence of events.
pub proof fn lemma_run_preserves_wf(a: App, events: Seq<AppEvent>)
    requires
        a.wf(),
    ensures
        App::spec_run(a, events).wf(),
    decreases events.len(),
{
    if events.len() > 0 {
        lemma_step_preserves_wf(a, events.first());
        lemma_run_preserves_wf(App::spec_step(a, events.first()), events.drop_first());
    }
}

} // verus!
