use vstd::prelude::*;

use crate::event::{AppEvent, KeyCode};
use crate::mode::Mode;
use crate::notification::NotificationRequest;

verus! {

/// Whether ticks decrement the remaining time.
#[derive(Clone, Copy, Debug, PartialEq, Eq, Structural)]
pub enum TimerState {
    Stop,
    Running,
}

/// Top-level lifecycle of the application, distinct from the countdown's own
/// run/pause state. `Quit` is terminal: the driving loop stops at it.
#[derive(Clone, Copy, Debug, PartialEq, Eq, Structural)]
pub enum AppState {
    Normal,
    Quit,
}

/// The countdown state machine. It owns the remaining time in whole seconds,
/// the configured duration it resets to, the run/pause state, the lifecycle,
/// the display mode, and the one-shot notification request. Events mutate it
/// exclusively through [`App::step`] and the functions it is built from.
#[derive(Debug)]
pub struct App {
    /// Remaining time, in seconds; clamped to zero at expiry.
    pub current_time: u64,
    /// The configured duration, in seconds, restored by a reset.
    pub start_time: u64,
    pub timer_state: TimerState,
    pub app_state: AppState,
    pub mode: Mode,
    /// The second of the day (0..86400) at which the countdown ends, shown by
    /// the alarm layout.
    pub alarm_time: u64,
    pub notification: NotificationRequest,
}

impl App {
    /// The state invariant: the countdown never exceeds its configured
    /// duration, the alarm target is a valid second of the day, and the
    /// notification request is sound.
    pub open spec fn wf(&self) -> bool {
        &&& self.current_time <= self.start_time
        &&& self.alarm_time < 86400
        &&& self.notification.wf()
    }

    /// The notification trigger fires exactly when the request is armed and
    /// has not yet been delivered in this arming.
    pub open spec fn spec_should_dispatch(a: App) -> bool {
        a.notification.armed && !a.notification.delivered
    }

    /// The state after the notification trigger ran: a firing request is
    /// marked delivered and disarmed; otherwise nothing changes.
    pub open spec fn spec_trigger(a: App) -> App {
        if App::spec_should_dispatch(a) {
            App {
                notification: NotificationRequest {
                    armed: false,
                    delivered: true,
                    ..a.notification
                },
                ..a
            }
        } else {
            a
        }
    }

    /// The state after one tick: while running, the remaining time counts
    /// down to zero; at zero the notification trigger runs and the time holds.
    pub open spec fn spec_tick(a: App) -> App {
        if a.timer_state == TimerState::Running {
            if a.current_time >= 1 {
                App { current_time: (a.current_time - 1) as u64, ..a }
            } else {
                App::spec_trigger(a)
            }
        } else {
            a
        }
    }

    /// Whether one tick from this state dispatches the notification.
    pub open spec fn spec_tick_dispatches(a: App) -> bool {
        a.timer_state == TimerState::Running && a.current_time == 0
            && App::spec_should_dispatch(a)
    }

    /// The state after a reset: the remaining time is restored to the
    /// configured duration, and a configured notification is re-armed.
    pub open spec fn spec_reset(a: App) -> App {
        App {
            current_time: a.start_time,
            notification: a.notification.spec_rearmed(),
            ..a
        }
    }

    /// The state after a key press. Space resumes from the zero floor (at
    /// the full duration, re-armed) or toggles pause; `r` resets; `q` and
    /// escape quit; everything else is a no-op. The Cyrillic characters are
    /// the same bindings on a Russian keyboard layout.
    pub open spec fn spec_key(a: App, key: KeyCode) -> App {
        match key {
            KeyCode::Char(c) => {
                if c == ' ' {
                    if a.current_time == 0 {
                        App {
                            current_time: a.start_time,
                            timer_state: TimerState::Running,
                            notification: a.notification.spec_rearmed(),
                            ..a
                        }
                    } else if a.timer_state == TimerState::Running {
                        App { timer_state: TimerState::Stop, ..a }
                    } else {
                        App { timer_state: TimerState::Running, ..a }
                    }
                } else if c == 'r' || c == '\u{043A}' {
                    App::spec_reset(a)
                } else if c == 'q' || c == '\u{0439}' {
                    App { app_state: AppState::Quit, ..a }
                } else {
                    a
                }
            },
            KeyCode::Esc => App { app_state: AppState::Quit, ..a },
            KeyCode::Other => a,
        }
    }

    /// The state after one event.
    pub open spec fn spec_step(a: App, event: AppEvent) -> App {
        match event {
            AppEvent::Key(key) => App::spec_key(a, key),
            AppEvent::Tick => App::spec_tick(a),
        }
    }

    /// Whether one event dispatches the notification (only a tick can).
    pub open spec fn spec_step_dispatches(a: App, event: AppEvent) -> bool {
        match event {
            AppEvent::Key(_) => false,
            AppEvent::Tick => App::spec_tick_dispatches(a),
        }
    }

    /// The state after `n` consecutive ticks.
    pub open spec fn spec_ticks(a: App, n: nat) -> App
        decreases n,
    {
        if n == 0 {
            a
        } else {
            App::spec_ticks(App::spec_tick(a), (n - 1) as nat)
        }
    }

    /// How many of `n` consecutive ticks dispatch the notification.
    pub open spec fn spec_tick_dispatch_count(a: App, n: nat) -> nat
        decreases n,
    {
        if n == 0 {
            0
        } else {
            (if App::spec_tick_dispatches(a) {
                1nat
            } else {
                0nat
            }) + App::spec_tick_dispatch_count(App::spec_tick(a), (n - 1) as nat)
        }
    }

    /// The state after a whole sequence of events.
    pub open spec fn spec_run(a: App, events: Seq<AppEvent>) -> App
        decreases events.len(),
    {
        if events.len() == 0 {
            a
        } else {
            App::spec_run(App::spec_step(a, events.first()), events.drop_first())
        }
    }

    /// How many events of a sequence dispatch the notification.
    pub open spec fn spec_dispatch_count(a: App, events: Seq<AppEvent>) -> nat
        decreases events.len(),
    {
        if events.len() == 0 {
            0
        } else {
            (if App::spec_step_dispatches(a, events.first()) {
                1nat
            } else {
                0nat
            }) + App::spec_dispatch_count(
                App::spec_step(a, events.first()),
                events.drop_first(),
            )
        }
    }

    /// The state at startup: the countdown stands at the configured duration
    /// and runs; a notification is armed exactly when it has text.
    pub fn new(mode: Mode, start_seconds: u64, alarm_time: u64, title: String, body: String) -> (a:
        App)
        requires
            alarm_time < 86400,
        ensures
            a.current_time == start_seconds,
            a.start_time == start_seconds,
            a.timer_state == TimerState::Running,
            a.app_state == AppState::Normal,
            a.mode == mode,
            a.alarm_time == alarm_time,
            a.notification.title == title,
            a.notification.body == body,
            a.notification.armed == a.notification.configured(),
            !a.notification.delivered,
            a.wf(),
    {
        App {
            current_time: start_seconds,
            start_time: start_seconds,
            timer_state: TimerState::Running,
            app_state: AppState::Normal,
            mode,
            alarm_time,
            notification: NotificationRequest::new(title, body),
        }
    }

    /// The driving loop runs as long as this holds; the `Quit` lifecycle
    /// value ends it.
    pub fn is_running(&self) -> (b: bool)
        ensures
            b == (self.app_state == AppState::Normal),
    {
        self.app_state == AppState::Normal
    }

    /// Runs the notification trigger; the result says whether the caller
    /// must deliver the notification now (at most once per arming).
    pub fn notification(&mut self) -> (dispatch: bool)
        ensures
            *final(self) == App::spec_trigger(*old(self)),
            dispatch == App::spec_should_dispatch(*old(self)),
    {
        if self.notification.armed && !self.notification.delivered {
            self.notification.armed = false;
            self.notification.delivered = true;
            true
        } else {
            false
        }
    }

    /// Consumes one tick; the result says whether the caller must deliver
    /// the notification now.
    pub fn update_timer(&mut self) -> (dispatch: bool)
        ensures
            *final(self) == App::spec_tick(*old(self)),
            dispatch == App::spec_tick_dispatches(*old(self)),
    {
        if self.timer_state == TimerState::Running {
            if self.current_time >= 1 {
                self.current_time = self.current_time - 1;
                false
            } else {
                self.notification()
            }
        } else {
            false
        }
    }

    /// Consumes one key press.
    pub fn handle_key_event(&mut self, key: KeyCode)
        ensures
            *final(self) == App::spec_key(*old(self), key),
    {
        match key {
            KeyCode::Char(' ') => {
                if self.current_time == 0 {
                    self.current_time = self.start_time;
                    self.timer_state = TimerState::Running;
                    self.notification.rearm();
                } else if self.timer_state == TimerState::Running {
                    self.timer_state = TimerState::Stop;
                } else {
                    self.timer_state = TimerState::Running;
                }
            },
            KeyCode::Char('r') | KeyCode::Char('\u{043A}') => self.reset(),
            KeyCode::Char('q') | KeyCode::Char('\u{0439}') => self.app_state = AppState::Quit,
            KeyCode::Esc => self.app_state = AppState::Quit,
            _ => (),
        }
    }

    /// Restores the countdown to the configured duration and re-arms a
    /// configured notification, regardless of the current state.
    pub fn reset(&mut self)
        ensures
            *final(self) == App::spec_reset(*old(self)),
    {
        self.current_time = self.start_time;
        self.notification.rearm();
    }

    /// Consumes one event; the result says whether the caller must deliver
    /// the notification now.
    pub fn step(&mut self, event: AppEvent) -> (dispatch: bool)
        ensures
            *final(self) == App::spec_step(*old(self), event),
            dispatch == App::spec_step_dispatches(*old(self), event),
    {
        match event {
            AppEvent::Key(key) => {
                self.handle_key_event(key);
                false
            },
            AppEvent::Tick => self.update_timer(),
        }
    }
}

} // verus!
