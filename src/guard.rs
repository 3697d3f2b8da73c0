use vstd::prelude::*;

use crate::error::IOError;
use crate::options::{mode_at, wants, Mode, Options};

verus! {

/// The status that a granted power-management request returns.
pub const IO_RETURN_SUCCESS: i32 = 0;

/// Position of the first mode at or after `from` that `o` asks for, or `3`
/// when there is none.
pub open spec fn next_index(o: Options, from: int) -> int {
    if from <= 0 && o.display {
        0
    } else if from <= 1 && o.idle {
        1
    } else if from <= 2 && o.sleep {
        2
    } else {
        3
    }
}

/// The request still owed after the modes before `stage` have been handled.
pub open spec fn pending_of(o: Options, stage: int) -> Option<Mode> {
    if next_index(o, stage) < 3 {
        Some(mode_at(next_index(o, stage)))
    } else {
        None
    }
}

/// The modes that `o` asks for, in request order.
pub open spec fn requested(o: Options) -> Seq<Mode> {
    (if o.display { seq![Mode::Display] } else { seq![] }) + (if o.idle {
        seq![Mode::Idle]
    } else {
        seq![]
    }) + (if o.sleep { seq![Mode::Sleep] } else { seq![] })
}

/// The tokens among three slots that are held, that is not the unset `0`,
/// in slot order.
pub open spec fn held_of(slots: Seq<u32>) -> Seq<u32> {
    (if slots[0] != 0 { seq![slots[0]] } else { seq![] }) + (if slots[1] != 0 {
        seq![slots[1]]
    } else {
        seq![]
    }) + (if slots[2] != 0 { seq![slots[2]] } else { seq![] })
}

/// Three unset slots.
pub open spec fn unset() -> Seq<u32> {
    seq![0u32, 0u32, 0u32]
}

/// A construction driven from `stage` and `slots` by the operating system's
/// `replies` (status, token), one per request, in order. Gives the requests
/// issued, the refused status if a request was refused, and the slots at the
/// end: on a refusal, those to be released.
pub open spec fn run(o: Options, stage: int, slots: Seq<u32>, replies: Seq<(i32, u32)>) -> (
    Seq<Mode>,
    Option<i32>,
    Seq<u32>,
)
    decreases replies.len(),
{
    let i = next_index(o, stage);
    if i >= 3 || replies.len() == 0 {
        (seq![], None, slots)
    } else if replies[0].0 == IO_RETURN_SUCCESS {
        let rest = run(o, i + 1, slots.update(i, replies[0].1), replies.drop_first());
        (seq![mode_at(i)] + rest.0, rest.1, rest.2)
    } else {
        (seq![mode_at(i)], Some(replies[0].0), slots)
    }
}

/// Holds the power-management assertions that keep the machine awake.
///
/// Each slot is `0` while unset, or the token of an assertion that was
/// granted for the mode it stands for. The caller releases the tokens that
/// [`KeepAwake::held`] lists, once each, when the guard's lifetime ends.
pub struct KeepAwake {
    options: Options,
    display_assertion: u32,
    idle_assertion: u32,
    sleep_assertion: u32,
}

impl KeepAwake {
    pub closed spec fn spec_options(&self) -> Options {
        self.options
    }

    /// The display, idle and sleep slots, in that order.
    pub closed spec fn spec_slots(&self) -> Seq<u32> {
        seq![self.display_assertion, self.idle_assertion, self.sleep_assertion]
    }

    /// A slot holds a token only for a mode that the options ask for.
    pub open spec fn wf(&self) -> bool {
        forall|i: int| 0 <= i < 3 && self.spec_slots()[i] != 0 ==> wants(self.spec_options(), i)
    }

    /// The options that the guard was made for.
    pub fn options(&self) -> (r: &Options)
        ensures
            *r == self.spec_options(),
    {
        &self.options
    }

    /// The tokens to release at teardown: each held slot once, in the order
    /// display, idle, sleep.
    pub fn held(&self) -> (r: Vec<u32>)
        ensures
            r@ == held_of(self.spec_slots()),
    {
        let mut r: Vec<u32> = Vec::new();
        if self.display_assertion != 0 {
            r.push(self.display_assertion);
        }
        if self.idle_assertion != 0 {
            r.push(self.idle_assertion);
        }
        if self.sleep_assertion != 0 {
            r.push(self.sleep_assertion);
        }
        assert(r@ =~= held_of(self.spec_slots()));
        r
    }
}

/// A refused construction: the status that the operating system returned,
/// and the tokens granted before it, which the caller releases.
pub struct Failure {
    pub error: IOError,
    pub release: Vec<u32>,
}

/// A construction in progress: the modes before `stage` have been handled.
pub struct Acquire {
    awake: KeepAwake,
    stage: usize,
}

impl Acquire {
    pub closed spec fn spec_options(&self) -> Options {
        self.awake.spec_options()
    }

    pub closed spec fn spec_slots(&self) -> Seq<u32> {
        self.awake.spec_slots()
    }

    pub closed spec fn spec_stage(&self) -> int {
        self.stage as int
    }

    /// Slots from `stage` on are unset, and only requested modes hold a
    /// token.
    pub open spec fn wf(&self) -> bool {
        &&& 0 <= self.spec_stage() <= 3
        &&& forall|i: int| self.spec_stage() <= i < 3 ==> self.spec_slots()[i] == 0
        &&& forall|i: int|
            0 <= i < 3 && self.spec_slots()[i] != 0 ==> wants(self.spec_options(), i)
    }

    /// Starts a construction for `options`: nothing requested, every slot
    /// unset.
    pub fn new(options: Options) -> (r: Acquire)
        ensures
            r.wf(),
            r.spec_options() == options,
            r.spec_stage() == 0,
            r.spec_slots() == unset(),
    {
        let r = Acquire {
            awake: KeepAwake {
                options,
                display_assertion: 0,
                idle_assertion: 0,
                sleep_assertion: 0,
            },
            stage: 0,
        };
        assert(r.spec_slots() =~= unset());
        r
    }

    /// The caller-supplied reason, to be named in each request.
    pub fn reason(&self) -> (r: &str)
        ensures
            r@ == self.spec_options().reason@,
    {
        self.awake.options.reason.as_str()
    }

    fn next_index(&self) -> (r: usize)
        ensures
            r == next_index(self.spec_options(), self.spec_stage()),
    {
        let o = &self.awake.options;
        if self.stage == 0 && o.display {
            0
        } else if self.stage <= 1 && o.idle {
            1
        } else if self.stage <= 2 && o.sleep {
            2
        } else {
            3
        }
    }

    /// The mode to request next, in the order display, idle, sleep, skipping
    /// those not asked for; `None` once every requested mode was granted.
    pub fn pending(&self) -> (r: Option<Mode>)
        ensures
            r == pending_of(self.spec_options(), self.spec_stage()),
    {
        match self.next_index() {
            0 => Some(Mode::Display),
            1 => Some(Mode::Idle),
            2 => Some(Mode::Sleep),
            _ => None,
        }
    }

    /// Takes the operating system's reply to the pending request. A granted
    /// request stores `id` in the mode's slot and moves past it; any other
    /// status ends the construction with that status and the tokens granted
    /// so far, and no further mode is requested.
    pub fn record(self, status: i32, id: u32) -> (r: Result<Acquire, Failure>)
        requires
            self.wf(),
            pending_of(self.spec_options(), self.spec_stage()) is Some,
        ensures
            ({
                let i = next_index(self.spec_options(), self.spec_stage());
                match r {
                    Ok(a) => {
                        &&& status == IO_RETURN_SUCCESS
                        &&& a.wf()
                        &&& a.spec_options() == self.spec_options()
                        &&& a.spec_stage() == i + 1
                        &&& a.spec_slots() == self.spec_slots().update(i, id)
                    },
                    Err(f) => {
                        &&& status != IO_RETURN_SUCCESS
                        &&& f.error.code() == status
                        &&& f.release@ == held_of(self.spec_slots())
                    },
                }
            }),
    {
        let i = self.next_index();
        if status == IO_RETURN_SUCCESS {
            let mut a = self;
            if i == 0 {
                a.awake.display_assertion = id;
            } else if i == 1 {
                a.awake.idle_assertion = id;
            } else {
                a.awake.sleep_assertion = id;
            }
            a.stage = i + 1;
            assert(a.spec_slots() =~= self.spec_slots().update(i as int, id));
            Ok(a)
        } else {
            let release = self.awake.held();
            Err(Failure { error: IOError::new(status), release })
        }
    }

    /// Ends a construction in which every requested mode was granted.
    pub fn finish(self) -> (r: KeepAwake)
        requires
            self.wf(),
            pending_of(self.spec_options(), self.spec_stage()) is None,
        ensures
            r.wf(),
            r.spec_options() == self.spec_options(),
            r.spec_slots() == self.spec_slots(),
    {
        self.awake
    }
}

} // verus!
