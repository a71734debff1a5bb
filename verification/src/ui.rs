use vstd::prelude::*;

use crate::app::{App, TimerState};
use crate::mode::Mode;

verus! {

/// The character for one digit value (meaningful only below ten).
pub open spec fn digit_char_of(d: nat) -> char {
    if d == 0 {
        '0'
    } else if d == 1 {
        '1'
    } else if d == 2 {
        '2'
    } else if d == 3 {
        '3'
    } else if d == 4 {
        '4'
    } else if d == 5 {
        '5'
    } else if d == 6 {
        '6'
    } else if d == 7 {
        '7'
    } else if d == 8 {
        '8'
    } else {
        '9'
    }
}

/// The decimal numeral of a number, most significant digit first, without
/// leading zeroes (a single zero for zero itself).
pub open spec fn spec_dec(n: nat) -> Seq<char>
    decreases n,
{
    if n < 10 {
        seq![digit_char_of(n)]
    } else {
        spec_dec(n / 10) + seq![digit_char_of(n % 10)]
    }
}

/// The decimal numeral padded with a leading zero to at least two digits.
pub open spec fn spec_pad2(n: nat) -> Seq<char> {
    if n < 10 {
        seq!['0'] + spec_dec(n)
    } else {
        spec_dec(n)
    }
}

/// The timer display text, with leading zero units trimmed away: hours,
/// minutes and seconds when hours remain; minutes and seconds when only
/// minutes remain; two-digit seconds at the end.
pub open spec fn spec_timer_text(secs: nat) -> Seq<char> {
    let h = secs / 3600;
    let m = (secs % 3600) / 60;
    let s = secs % 60;
    if h > 0 {
        spec_dec(h) + seq![':'] + spec_pad2(m) + seq![':'] + spec_pad2(s)
    } else if m > 0 {
        spec_dec(m) + seq![':'] + spec_pad2(s)
    } else {
        spec_pad2(s)
    }
}

/// A full clock-style reading: hours, minutes and seconds, each padded to
/// two digits.
pub open spec fn spec_clock_text(secs: nat) -> Seq<char> {
    spec_pad2(secs / 3600) + seq![':'] + spec_pad2((secs % 3600) / 60) + seq![':'] + spec_pad2(
        secs % 60,
    )
}

/// The secondary line of the alarm layout: the absolute time the countdown
/// will reach.
pub open spec fn spec_alarm_line(target: nat) -> Seq<char> {
    "Alarm set for "@ + spec_clock_text(target)
}

/// The visual emphasis of the time display: a running tone or a paused,
/// neutral tone.
#[derive(Clone, Copy, Debug, PartialEq, Eq, Structural)]
pub enum Tone {
    Dim,
    Active,
}

/// The tone reflects the run/pause state.
pub open spec fn spec_tone(state: TimerState) -> Tone {
    match state {
        TimerState::Stop => Tone::Dim,
        TimerState::Running => Tone::Active,
    }
}

/// A visual description of one frame: the large time text, its emphasis, and
/// the secondary line of the alarm layout. Drawing it is the display layer's
/// concern; producing it mutates nothing.
pub struct Projection {
    pub text: String,
    pub tone: Tone,
    /// Attention emphasis once the countdown holds at zero, whatever the
    /// run/pause state.
    pub blink: bool,
    pub alarm_line: Option<String>,
}

/// One digit as text.
fn digit_str(d: u64) -> (r: &'static str)
    requires
        d < 10,
    ensures
        r@ == seq![digit_char_of(d as nat)],
{
    if d == 0 {
        proof {
            reveal_strlit("0");
            assert("0"@ =~= seq!['0']);
        }
        "0"
    } else if d == 1 {
        proof {
            reveal_strlit("1");
            assert("1"@ =~= seq!['1']);
        }
        "1"
    } else if d == 2 {
        proof {
            reveal_strlit("2");
            assert("2"@ =~= seq!['2']);
        }
        "2"
    } else if d == 3 {
        proof {
            reveal_strlit("3");
            assert("3"@ =~= seq!['3']);
        }
        "3"
    } else if d == 4 {
        proof {
            reveal_strlit("4");
            assert("4"@ =~= seq!['4']);
        }
        "4"
    } else if d == 5 {
        proof {
            reveal_strlit("5");
            assert("5"@ =~= seq!['5']);
        }
        "5"
    } else if d == 6 {
        proof {
            reveal_strlit("6");
            assert("6"@ =~= seq!['6']);
        }
        "6"
    } else if d == 7 {
        proof {
            reveal_strlit("7");
            assert("7"@ =~= seq!['7']);
        }
        "7"
    } else if d == 8 {
        proof {
            reveal_strlit("8");
            assert("8"@ =~= seq!['8']);
        }
        "8"
    } else {
        proof {
            reveal_strlit("9");
            assert("9"@ =~= seq!['9']);
        }
        "9"
    }
}

/// The decimal numeral of a number as text.
pub fn dec_str(n: u64) -> (r: String)
    ensures
        r@ == spec_dec(n as nat),
    decreases n,
{
    if n < 10 {
        String::from_str(digit_str(n))
    } else {
        let mut r = dec_str(n / 10);
        r.append(digit_str(n % 10));
        r
    }
}

/// The decimal numeral padded with a leading zero to at least two digits.
pub fn pad2_str(n: u64) -> (r: String)
    ensures
        r@ == spec_pad2(n as nat),
{
    if n < 10 {
        let mut r = String::from_str("0");
        proof {
            reveal_strlit("0");
            assert("0"@ =~= seq!['0']);
        }
        r.append(digit_str(n));
        r
    } else {
        dec_str(n)
    }
}

/// Splits whole seconds into hours, minutes and seconds.
pub fn get_time(secs: u64) -> (t: (u64, u64, u64))
    ensures
        t.0 == secs as nat / 3600,
        t.1 == (secs as nat % 3600) / 60,
        t.2 == secs as nat % 60,
{
    (secs / 3600, (secs % 3600) / 60, secs % 60)
}

/// The timer display text for a remaining time in seconds.
pub fn timer_text(secs: u64) -> (r: String)
    ensures
        r@ == spec_timer_text(secs as nat),
{
    let (h, m, s) = get_time(secs);
    proof {
        reveal_strlit(":");
        assert(":"@ =~= seq![':']);
    }
    if h > 0 {
        let mut r = dec_str(h);
        r.append(":");
        let mm = pad2_str(m);
        r.append(mm.as_str());
        r.append(":");
        let ss = pad2_str(s);
        r.append(ss.as_str());
        proof {
            assert(r@ =~= spec_timer_text(secs as nat));
        }
        r
    } else if m > 0 {
        let mut r = dec_str(m);
        r.append(":");
        let ss = pad2_str(s);
        r.append(ss.as_str());
        proof {
            assert(r@ =~= spec_timer_text(secs as nat));
        }
        r
    } else {
        pad2_str(s)
    }
}

/// The clock-style text for a time in seconds.
pub fn clock_text(secs: u64) -> (r: String)
    ensures
        r@ == spec_clock_text(secs as nat),
{
    let (h, m, s) = get_time(secs);
    proof {
        reveal_strlit(":");
        assert(":"@ =~= seq![':']);
    }
    let mut r = pad2_str(h);
    r.append(":");
    let mm = pad2_str(m);
    r.append(mm.as_str());
    r.append(":");
    let ss = pad2_str(s);
    r.append(ss.as_str());
    proof {
        assert(r@ =~= spec_clock_text(secs as nat));
    }
    r
}

/// The visual emphasis for a state: the tone reflects the run/pause state,
/// and the display blinks once the countdown holds at zero.
pub fn get_style(app: &App) -> (style: (Tone, bool))
    ensures
        style.0 == spec_tone(app.timer_state),
        style.1 == (app.current_time == 0),
{
    let tone = match app.timer_state {
        TimerState::Stop => Tone::Dim,
        TimerState::Running => Tone::Active,
    };
    (tone, app.current_time == 0)
}

/// The timer layout: the trimmed countdown text alone.
pub fn render_timer(app: &App) -> (p: Projection)
    ensures
        p.text@ == spec_timer_text(app.current_time as nat),
        p.tone == spec_tone(app.timer_state),
        p.blink == (app.current_time == 0),
        p.alarm_line is None,
{
    let (tone, blink) = get_style(app);
    Projection { text: timer_text(app.current_time), tone, blink, alarm_line: Option::None }
}

/// The alarm layout: the full clock-style countdown text, and a secondary
/// line showing the absolute target time.
pub fn render_alarm(app: &App) -> (p: Projection)
    ensures
        p.text@ == spec_clock_text(app.current_time as nat),
        p.tone == spec_tone(app.timer_state),
        p.blink == (app.current_time == 0),
        p.alarm_line matches Some(l) && l@ == spec_alarm_line(app.alarm_time as nat),
{
    let (tone, blink) = get_style(app);
    let mut line = String::from_str("Alarm set for ");
    let target = clock_text(app.alarm_time);
    line.append(target.as_str());
    proof {
        assert(line@ =~= spec_alarm_line(app.alarm_time as nat));
    }
    Projection {
        text: clock_text(app.current_time),
        tone,
        blink,
        alarm_line: Option::Some(line),
    }
}

impl App {
    /// The render projection: a pure description of one frame, chosen by the
    /// display mode.
    pub fn render(&self) -> (p: Projection)
        ensures
            self.mode == Mode::Timer ==> p.text@ == spec_timer_text(self.current_time as nat),
            self.mode == Mode::Alarm ==> p.text@ == spec_clock_text(self.current_time as nat),
            p.tone == spec_tone(self.timer_state),
            p.blink == (self.current_time == 0),
            (p.alarm_line is Some) == (self.mode == Mode::Alarm),
            p.alarm_line matches Some(l) ==> l@ == spec_alarm_line(self.alarm_time as nat),
    {
        match self.mode {
            Mode::Timer => render_timer(self),
            Mode::Alarm => render_alarm(self),
        }
    }
}

} // verus!
