use countdown::ui::{clock_text, dec_str, get_style, get_time, pad2_str, render_alarm, render_timer, timer_text};
use countdown::{App, KeyCode, Mode, Tone};

#[test]
fn timer_text_trims_leading_zero_units() {
    assert_eq!(timer_text(3661).as_str(), "1:01:01");
    assert_eq!(timer_text(61).as_str(), "1:01");
    assert_eq!(timer_text(5).as_str(), "05");
}

#[test]
fn timer_text_edges() {
    assert_eq!(timer_text(0).as_str(), "00");
    assert_eq!(timer_text(59).as_str(), "59");
    assert_eq!(timer_text(60).as_str(), "1:00");
    assert_eq!(timer_text(3599).as_str(), "59:59");
    assert_eq!(timer_text(3600).as_str(), "1:00:00");
    assert_eq!(timer_text(360000).as_str(), "100:00:00");
}

#[test]
fn clock_text_pads_every_unit() {
    assert_eq!(clock_text(3661).as_str(), "01:01:01");
    assert_eq!(clock_text(0).as_str(), "00:00:00");
    assert_eq!(clock_text(86399).as_str(), "23:59:59");
}

#[test]
fn decimal_text_exact() {
    assert_eq!(dec_str(0).as_str(), "0");
    assert_eq!(dec_str(7).as_str(), "7");
    assert_eq!(dec_str(1234567890).as_str(), "1234567890");
    assert_eq!(pad2_str(5).as_str(), "05");
    assert_eq!(pad2_str(99).as_str(), "99");
    assert_eq!(pad2_str(100).as_str(), "100");
}

#[test]
fn get_time_splits_units() {
    assert_eq!(get_time(3661), (1, 1, 1));
    assert_eq!(get_time(59), (0, 0, 59));
    assert_eq!(get_time(86399), (23, 59, 59));
}

#[test]
fn style_reflects_state_and_blinks_at_zero() {
    let mut app = App::new(Mode::Timer, 2, 0, String::new(), String::new());
    assert_eq!(get_style(&app), (Tone::Active, false));
    app.handle_key_event(KeyCode::Char(' '));
    assert_eq!(get_style(&app), (Tone::Dim, false));
    app.handle_key_event(KeyCode::Char(' '));
    app.update_timer();
    app.update_timer();
    assert_eq!(app.current_time, 0);
    assert_eq!(get_style(&app), (Tone::Active, true));
}

#[test]
fn timer_projection_has_no_alarm_line() {
    let app = App::new(Mode::Timer, 61, 0, String::new(), String::new());
    let p = render_timer(&app);
    assert_eq!(p.text.as_str(), "1:01");
    assert_eq!(p.tone, Tone::Active);
    assert!(!p.blink);
    assert!(p.alarm_line.is_none());
}

#[test]
fn alarm_projection_shows_target_time() {
    let app = App::new(Mode::Alarm, 61, 3661, String::new(), String::new());
    let p = render_alarm(&app);
    assert_eq!(p.text.as_str(), "00:01:01");
    assert_eq!(p.alarm_line.unwrap().as_str(), "Alarm set for 01:01:01");
}

#[test]
fn render_picks_layout_by_mode() {
    let timer = App::new(Mode::Timer, 5, 0, String::new(), String::new());
    let p = timer.render();
    assert_eq!(p.text.as_str(), "05");
    assert!(p.alarm_line.is_none());

    let alarm = App::new(Mode::Alarm, 5, 86399, String::new(), String::new());
    let q = alarm.render();
    assert_eq!(q.text.as_str(), "00:00:05");
    assert_eq!(q.alarm_line.unwrap().as_str(), "Alarm set for 23:59:59");
}

#[test]
fn rendering_is_repeatable() {
    let app = App::new(Mode::Timer, 125, 0, String::new(), String::new());
    let first = render_timer(&app);
    let second = render_timer(&app);
    assert_eq!(first.text, second.text);
    assert_eq!(app.current_time, 125);
    assert_eq!(first.text.as_str(), "2:05");
}

#[test]
fn mode_names() {
    assert_eq!(Mode::Timer.name().as_str(), "timer");
    assert_eq!(Mode::Alarm.name().as_str(), "alarm");
    assert_eq!(Mode::default(), Mode::Timer);
}
