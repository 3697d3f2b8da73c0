use vstd::prelude::*;

verus! {

/// What the caller asks for: which kinds of sleep to prevent, and why.
#[derive(Clone, Debug)]
pub struct Options {
    /// Prevent the display from sleeping.
    pub display: bool,
    /// Prevent the system from sleeping when the user is idle.
    pub idle: bool,
    /// Prevent the system from sleeping at all.
    pub sleep: bool,
    /// Shown by the operating system's diagnostic tools.
    pub reason: String,
}

/// One kind of sleep prevention; each is requested on its own.
#[derive(Clone, Copy, Debug, PartialEq, Eq, Structural)]
pub enum Mode {
    Display,
    Idle,
    Sleep,
}

/// The mode at position `i` of the fixed request order: display, idle, sleep.
pub open spec fn mode_at(i: int) -> Mode {
    if i == 0 {
        Mode::Display
    } else if i == 1 {
        Mode::Idle
    } else {
        Mode::Sleep
    }
}

/// Whether `o` asks for the mode at position `i`.
pub open spec fn wants(o: Options, i: int) -> bool {
    if i == 0 {
        o.display
    } else if i == 1 {
        o.idle
    } else if i == 2 {
        o.sleep
    } else {
        false
    }
}

impl Mode {
    /// The power-management assertion type named in the request.
    pub open spec fn assertion_type_spec(self) -> Seq<char> {
        match self {
            Mode::Display => "PreventUserIdleDisplaySleep"@,
            Mode::Idle => "PreventUserIdleSystemSleep"@,
            Mode::Sleep => "PreventSystemSleep"@,
        }
    }

    pub fn assertion_type(&self) -> (r: &'static str)
        ensures
            r@ == self.assertion_type_spec(),
    {
        proof {
            reveal_strlit("PreventUserIdleDisplaySleep");
            reveal_strlit("PreventUserIdleSystemSleep");
            reveal_strlit("PreventSystemSleep");
        }
        match self {
            Mode::Display => "PreventUserIdleDisplaySleep",
            Mode::Idle => "PreventUserIdleSystemSleep",
            Mode::Sleep => "PreventSystemSleep",
        }
    }
}

} // verus!
