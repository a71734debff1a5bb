use countdown::{App, AppEvent, AppState, KeyCode, Mode, TimerState};

fn running_app(start: u64, title: &str, body: &str) -> App {
    App::new(Mode::Timer, start, 0, String::from(title), String::from(body))
}

#[test]
fn countdown_reaches_zero_and_holds() {
    let mut app = running_app(3, "", "");
    for _ in 0..3 {
        app.update_timer();
    }
    assert_eq!(app.current_time, 0);
    for _ in 0..10 {
        app.update_timer();
        assert_eq!(app.current_time, 0);
    }
}

#[test]
fn tick_decrements_only_while_running() {
    let mut app = running_app(10, "", "");
    app.update_timer();
    assert_eq!(app.current_time, 9);
    app.handle_key_event(KeyCode::Char(' '));
    assert_eq!(app.timer_state, TimerState::Stop);
    app.update_timer();
    assert_eq!(app.current_time, 9);
}

#[test]
fn pause_toggle_twice_leaves_time_unchanged() {
    let mut app = running_app(42, "t", "b");
    app.handle_key_event(KeyCode::Char(' '));
    assert_eq!(app.timer_state, TimerState::Stop);
    assert_eq!(app.current_time, 42);
    app.handle_key_event(KeyCode::Char(' '));
    assert_eq!(app.timer_state, TimerState::Running);
    assert_eq!(app.current_time, 42);
}

#[test]
fn reset_restores_time_and_rearms_delivered_notification() {
    let mut app = running_app(2, "title", "body");
    assert!(app.notification.armed);
    for _ in 0..3 {
        app.update_timer();
    }
    assert!(app.notification.delivered);
    assert!(!app.notification.armed);
    app.handle_key_event(KeyCode::Char(' '));
    app.handle_key_event(KeyCode::Char('r'));
    assert_eq!(app.current_time, 2);
    assert!(app.notification.armed);
    assert!(!app.notification.delivered);
}

#[test]
fn cyrillic_reset_key_resets_too() {
    let mut app = running_app(7, "", "");
    app.update_timer();
    assert_eq!(app.current_time, 6);
    app.handle_key_event(KeyCode::Char('к'));
    assert_eq!(app.current_time, 7);
}

#[test]
fn dispatch_fires_exactly_once_per_arming() {
    let mut app = running_app(0, "title", "");
    let mut dispatches: u32 = 0;
    for _ in 0..5 {
        if app.update_timer() {
            dispatches += 1;
        }
    }
    assert_eq!(dispatches, 1);
    assert!(app.notification.delivered);
    assert!(!app.notification.armed);
}

#[test]
fn no_notification_configured_never_dispatches() {
    let mut app = running_app(2, "", "");
    assert!(!app.notification.armed);
    for _ in 0..10 {
        assert!(!app.update_timer());
    }
    assert_eq!(app.current_time, 0);
    let mut dispatched = app.step(AppEvent::Key(KeyCode::Char('r')));
    assert!(!dispatched);
    for _ in 0..10 {
        dispatched = app.step(AppEvent::Tick);
        assert!(!dispatched);
    }
}

#[test]
fn scenario_five_seconds_then_space_resumes() {
    let mut app = running_app(5, "done", "the timer is done");
    let mut dispatches: u32 = 0;
    for _ in 0..5 {
        if app.update_timer() {
            dispatches += 1;
        }
    }
    assert_eq!(app.current_time, 0);
    // the trigger runs on the next tick, taken at the zero floor
    if app.update_timer() {
        dispatches += 1;
    }
    assert_eq!(dispatches, 1);
    app.handle_key_event(KeyCode::Char(' '));
    assert_eq!(app.current_time, 5);
    assert_eq!(app.timer_state, TimerState::Running);
    assert!(app.notification.armed);
    assert!(!app.notification.delivered);
}

#[test]
fn quit_keys_end_the_lifecycle_in_any_state() {
    let mut app = running_app(9, "", "");
    assert!(app.is_running());
    app.handle_key_event(KeyCode::Char('q'));
    assert_eq!(app.app_state, AppState::Quit);
    assert!(!app.is_running());

    let mut stopped = running_app(0, "t", "b");
    stopped.handle_key_event(KeyCode::Esc);
    assert_eq!(stopped.app_state, AppState::Quit);

    let mut third = running_app(1, "", "");
    third.handle_key_event(KeyCode::Char('й'));
    assert_eq!(third.app_state, AppState::Quit);
}

#[test]
fn other_keys_are_no_ops() {
    let mut app = running_app(5, "t", "");
    app.update_timer();
    let before_time = app.current_time;
    app.handle_key_event(KeyCode::Char('x'));
    app.handle_key_event(KeyCode::Other);
    assert_eq!(app.current_time, before_time);
    assert_eq!(app.timer_state, TimerState::Running);
    assert_eq!(app.app_state, AppState::Normal);
    assert!(app.notification.armed);
}

#[test]
fn step_routes_keys_and_ticks() {
    let mut app = running_app(2, "", "");
    assert!(!app.step(AppEvent::Tick));
    assert_eq!(app.current_time, 1);
    assert!(!app.step(AppEvent::Key(KeyCode::Char(' '))));
    assert_eq!(app.timer_state, TimerState::Stop);
}

#[test]
fn stopped_timer_never_ticks_or_triggers() {
    let mut app = running_app(1, "t", "b");
    app.handle_key_event(KeyCode::Char(' '));
    assert_eq!(app.timer_state, TimerState::Stop);
    assert!(app.notification.armed);
    for _ in 0..5 {
        assert!(!app.update_timer());
    }
    assert_eq!(app.current_time, 1);
    assert!(app.notification.armed);
}

#[test]
fn space_at_zero_does_not_arm_unconfigured_notification() {
    let mut app = running_app(1, "", "");
    app.update_timer();
    assert_eq!(app.current_time, 0);
    app.handle_key_event(KeyCode::Char(' '));
    assert_eq!(app.current_time, 1);
    assert!(!app.notification.armed);
}

#[test]
fn notification_armed_exactly_when_text_configured() {
    let both_empty = running_app(1, "", "");
    assert!(!both_empty.notification.armed);
    let title_only = running_app(1, "t", "");
    assert!(title_only.notification.armed);
    let body_only = running_app(1, "", "b");
    assert!(body_only.notification.armed);
}
