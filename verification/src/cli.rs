use vstd::arithmetic::div_mod::{lemma_add_mod_noop, lemma_small_mod};
use vstd::prelude::*;

use crate::app::{App, AppState, TimerState};
use crate::duration::{parse_duration, spec_duration_seconds};
use crate::mode::Mode;

verus! {

/// The startup configuration, as plain values: the mode, the configured
/// duration text, and the notification title and body (empty text means no
/// notification). Reading these off the command line is the surrounding
/// program's concern.
pub struct Cli {
    pub mode: Mode,
    pub duration: String,
    pub summary: String,
    pub body: String,
}

/// Why the startup configuration was rejected.
#[derive(Clone, Copy, Debug, PartialEq, Eq, Structural)]
pub enum ConfigError {
    /// The configured duration does not fit the duration grammar, or does
    /// not fit the machine word.
    InvalidDuration,
}

/// Relies on chrono::Local::now and chrono::Timelike::num_seconds_from_midnight:
/// every time of day maps to an integer in 0..=86399 seconds past midnight.
#[verifier::external_body]
fn now_seconds_of_day() -> (r: u64)
    ensures
        r < 86400,
{
    chrono::Timelike::num_seconds_from_midnight(&chrono::Local::now().time()) as u64
}

/// The second of the day a countdown of the given length reaches, starting
/// from the given second of the day.
pub fn alarm_time_after(now: u64, duration_secs: u64) -> (t: u64)
    requires
        now < 86400,
    ensures
        t == (now + duration_secs) % 86400,
        t < 86400,
{
    let wrapped = duration_secs % 86400;
    let t = (now + wrapped) % 86400;
    proof {
        lemma_small_mod(now as nat, 86400);
        lemma_add_mod_noop(now as int, duration_secs as int, 86400);
    }
    t
}

/// Builds the startup state from the configuration and the current second of
/// the day. The countdown stands at the configured duration and runs; a
/// notification is armed exactly when it has text; the alarm target is the
/// time of day the countdown will reach. A malformed duration is rejected.
pub fn from_cli(cli: Cli, now: u64) -> (r: Result<App, ConfigError>)
    requires
        now < 86400,
    ensures
        (r is Ok <==> (spec_duration_seconds(cli.duration@) matches Some(v) && v <= u64::MAX)),
        r matches Ok(a) ==> spec_duration_seconds(cli.duration@) matches Some(v) && {
            &&& a.current_time == v
            &&& a.start_time == v
            &&& a.timer_state == TimerState::Running
            &&& a.app_state == AppState::Normal
            &&& a.mode == cli.mode
            &&& a.alarm_time == (now + v) % 86400
            &&& a.notification.title == cli.summary
            &&& a.notification.body == cli.body
            &&& a.notification.armed == a.notification.configured()
            &&& !a.notification.delivered
            &&& a.wf()
        },
        r matches Err(e) ==> e == ConfigError::InvalidDuration,
{
    match parse_duration(cli.duration.as_str()) {
        Option::Some(secs) => {
            let alarm_time = alarm_time_after(now, secs);
            Result::Ok(App::new(cli.mode, secs, alarm_time, cli.summary, cli.body))
        },
        Option::None => Result::Err(ConfigError::InvalidDuration),
    }
}

/// Builds the startup state from the configuration, taking the alarm target
/// from the wall clock.
pub fn init_app(cli: Cli) -> (r: Result<App, ConfigError>)
    ensures
        (r is Ok <==> (spec_duration_seconds(cli.duration@) matches Some(v) && v <= u64::MAX)),
        r matches Ok(a) ==> spec_duration_seconds(cli.duration@) matches Some(v) && {
            &&& a.current_time == v
            &&& a.start_time == v
            &&& a.timer_state == TimerState::Running
            &&& a.app_state == AppState::Normal
            &&& a.mode == cli.mode
            &&& a.alarm_time < 86400
            &&& a.notification.title == cli.summary
            &&& a.notification.body == cli.body
            &&& a.notification.armed == a.notification.configured()
            &&& !a.notification.delivered
            &&& a.wf()
        },
        r matches Err(e) ==> e == ConfigError::InvalidDuration,
{
    let now = now_seconds_of_day();
    from_cli(cli, now)
}

} // verus!
