use vstd::prelude::*;

verus! {

/// Which target the countdown counts toward and which layout is rendered.
#[derive(Clone, Copy, Debug, PartialEq, Eq, Structural)]
pub enum Mode {
    Timer,
    Alarm,
}

impl Default for Mode {
    /// The mode used when none is configured.
    fn default() -> (m: Mode)
        ensures
            m == Mode::Timer,
    {
        Mode::Timer
    }
}

impl Mode {
    /// The name under which the mode is selected on the command line.
    pub fn name(&self) -> (s: String)
        ensures
            *self == Mode::Timer ==> s@ == "timer"@,
            *self == Mode::Alarm ==> s@ == "alarm"@,
    {
        match self {
            Mode::Timer => String::from_str("timer"),
            Mode::Alarm => String::from_str("alarm"),
        }
    }
}

} // verus!
