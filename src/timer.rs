use crate::command::UserInput;
use vstd::prelude::*;

verus! {

/// How long a session runs: one of two presets, or a number of minutes.
#[derive(Debug, Clone, Copy, PartialEq, Eq, Structural)]
pub enum Args {
    /// 10 minutes
    Long,
    /// 5 minutes
    Short,
    Time { time: usize },
}

/// Minutes in a long session.
pub const LONG_MINUTES: usize = 10;

/// Minutes in a short session.
pub const SHORT_MINUTES: usize = 5;

impl Args {
    pub open spec fn minutes_spec(self) -> nat {
        match self {
            Args::Long => LONG_MINUTES as nat,
            Args::Short => SHORT_MINUTES as nat,
            Args::Time { time } => time as nat,
        }
    }

    /// The number of minutes this choice stands for.
    pub fn minutes(&self) -> (r: usize)
        ensures
            r == self.minutes_spec(),
    {
        match self {
            Args::Long => LONG_MINUTES,
            Args::Short => SHORT_MINUTES,
            Args::Time { time } => *time,
        }
    }
}

/// Where a timer is in its life.
#[derive(Debug, Clone, Copy, PartialEq, Eq, Structural)]
pub enum TimerState {
    NotStarted,
    Running,
    Paused,
    Canceled,
    Completed,
}

/// What the control loop does next.
#[derive(Debug, Clone, Copy, PartialEq, Eq, Structural)]
pub enum LoopAction {
    /// Block until the next one-second tick, then call `tick`.
    WaitTick,
    /// Poll for a command again without waiting.
    Poll,
    /// Leave the loop: the timer has reached a terminal state.
    Exit,
}

/// Canceled and Completed end the loop; nothing changes them.
pub open spec fn is_terminal(s: TimerState) -> bool {
    s == TimerState::Canceled || s == TimerState::Completed
}

/// The loop's next move once the timer is in state `s`.
pub open spec fn action_for(s: TimerState) -> LoopAction {
    if is_terminal(s) {
        LoopAction::Exit
    } else if s == TimerState::Running {
        LoopAction::WaitTick
    } else {
        LoopAction::Poll
    }
}

/// A countdown: its length, the seconds counted so far and its state.
#[derive(Debug, Clone, Copy, PartialEq, Eq, Structural)]
pub struct Timer {
    pub time_min: usize,
    pub time_sec: usize,
    /// Seconds counted so far.
    pub current_time: usize,
    pub state: TimerState,
}

impl Timer {
    /// The timer's invariant.
    pub open spec fn wf(self) -> bool {
        &&& self.time_sec == 60 * self.time_min
        &&& self.current_time <= self.time_sec
        &&& self.state == TimerState::NotStarted ==> self.current_time == 0
        &&& (self.state == TimerState::Running || self.state == TimerState::Paused)
            ==> self.current_time < self.time_sec
        &&& self.state == TimerState::Completed ==> self.current_time == self.time_sec
    }

    pub open spec fn with_state(self, s: TimerState) -> Timer {
        Timer { state: s, ..self }
    }

    /// The loop starts: a timer of zero length is complete at once.
    pub open spec fn started(self) -> Timer {
        if self.state == TimerState::NotStarted {
            if self.time_sec == 0 {
                self.with_state(TimerState::Completed)
            } else {
                self.with_state(TimerState::Running)
            }
        } else {
            self
        }
    }

    /// The transition that a command makes.
    pub open spec fn applied(self, cmd: UserInput) -> Timer {
        if is_terminal(self.state) {
            self
        } else {
            match cmd {
                UserInput::Cancel => self.with_state(TimerState::Canceled),
                UserInput::Pause => if self.state == TimerState::Running {
                    self.with_state(TimerState::Paused)
                } else {
                    self
                },
                UserInput::Resume => if self.state == TimerState::Paused {
                    self.with_state(TimerState::Running)
                } else {
                    self
                },
            }
        }
    }

    /// One second passes: it counts only while running.
    pub open spec fn ticked(self) -> Timer {
        if self.state == TimerState::Running {
            let e = self.current_time + 1;
            Timer {
                current_time: e as usize,
                state: if e == self.time_sec {
                    TimerState::Completed
                } else {
                    TimerState::Running
                },
                ..self
            }
        } else {
            self
        }
    }

    /// The first half of a loop iteration: start if need be, then apply
    /// the command that the poll brought, if any.
    pub open spec fn received(self, poll: Option<UserInput>) -> Timer {
        match poll {
            Some(cmd) => self.started().applied(cmd),
            None => self.started(),
        }
    }

    /// One whole loop iteration.
    pub open spec fn iterated(self, poll: Option<UserInput>) -> Timer {
        self.received(poll).ticked()
    }
}

/// The timer after the control loop has run on the given poll results, one
/// per iteration, stopping early at a terminal state.
pub open spec fn run(t: Timer, polls: Seq<Option<UserInput>>) -> Timer
    decreases polls.len(),
{
    if polls.len() == 0 || is_terminal(t.state) {
        t
    } else {
        run(t.iterated(polls[0]), polls.drop_first())
    }
}

/// The number of ticks waited for in that run.
pub open spec fn run_ticks(t: Timer, polls: Seq<Option<UserInput>>) -> nat
    decreases polls.len(),
{
    if polls.len() == 0 || is_terminal(t.state) {
        0
    } else {
        let w: nat = if t.received(polls[0]).state == TimerState::Running {
            1
        } else {
            0
        };
        w + run_ticks(t.iterated(polls[0]), polls.drop_first())
    }
}

impl Timer {
    /// A timer that has not started, of the length that `args` gives.
    pub fn new(args: Args) -> (r: Timer)
        requires
            60 * args.minutes_spec() <= usize::MAX,
        ensures
            r.wf(),
            r.time_min == args.minutes_spec(),
            r.time_sec == 60 * args.minutes_spec(),
            r.current_time == 0,
            r.state == TimerState::NotStarted,
    {
        let time_min = args.minutes();
        Timer { time_min, time_sec: 60 * time_min, current_time: 0, state: TimerState::NotStarted }
    }

    /// Starts the timer if it has not started.
    pub fn start(&mut self)
        requires
            old(self).wf(),
        ensures
            *final(self) == old(self).started(),
            final(self).wf(),
    {
        if self.state == TimerState::NotStarted {
            if self.time_sec == 0 {
                self.state = TimerState::Completed;
            } else {
                self.state = TimerState::Running;
            }
        }
    }

    /// Applies one command by the transition table.
    pub fn apply_command(&mut self, cmd: UserInput)
        requires
            old(self).wf(),
        ensures
            *final(self) == old(self).applied(cmd),
            final(self).wf(),
    {
        if self.state == TimerState::Canceled || self.state == TimerState::Completed {
            return ;
        }
        match cmd {
            UserInput::Cancel => {
                self.state = TimerState::Canceled;
            },
            UserInput::Pause => {
                if self.state == TimerState::Running {
                    self.state = TimerState::Paused;
                }
            },
            UserInput::Resume => {
                if self.state == TimerState::Paused {
                    self.state = TimerState::Running;
                }
            },
        }
    }

    /// The first half of a loop iteration: starts the timer if need be,
    /// applies the polled command, if any, and says what the loop does next.
    pub fn step(&mut self, poll: Option<UserInput>) -> (r: LoopAction)
        requires
            old(self).wf(),
        ensures
            *final(self) == old(self).received(poll),
            final(self).wf(),
            r == action_for(final(self).state),
    {
        self.start();
        match poll {
            Some(cmd) => self.apply_command(cmd),
            None => {},
        }
        self.action()
    }

    /// The loop's next move in the current state.
    pub fn action(&self) -> (r: LoopAction)
        ensures
            r == action_for(self.state),
    {
        match self.state {
            TimerState::Canceled | TimerState::Completed => LoopAction::Exit,
            TimerState::Running => LoopAction::WaitTick,
            _ => LoopAction::Poll,
        }
    }

    /// The second half of a loop iteration, after a tick: counts one second
    /// while running and completes the timer at its length.
    pub fn tick(&mut self) -> (r: LoopAction)
        requires
            old(self).wf(),
        ensures
            *final(self) == old(self).ticked(),
            final(self).wf(),
            r == (if is_terminal(final(self).state) {
                LoopAction::Exit
            } else {
                LoopAction::Poll
            }),
    {
        if self.state == TimerState::Running {
            self.current_time = self.current_time + 1;
            if self.current_time == self.time_sec {
                self.state = TimerState::Completed;
                return LoopAction::Exit;
            }
        }
        if self.state == TimerState::Canceled || self.state == TimerState::Completed {
            LoopAction::Exit
        } else {
            LoopAction::Poll
        }
    }

    /// Runs the control loop on a scripted series of poll results, one per
    /// iteration, in place of a key listener and a clock. Stops at a
    /// terminal state or when the script ends, and returns the number of
    /// ticks waited for.
    pub fn simulate(&mut self, polls: &Vec<Option<UserInput>>) -> (r: usize)
        requires
            old(self).wf(),
        ensures
            *final(self) == run(*old(self), polls@),
            r == run_ticks(*old(self), polls@),
            final(self).wf(),
    {
        let ghost t0 = *self;
        let mut i: usize = 0;
        let mut ticks: usize = 0;
        assert(polls@.skip(0) =~= polls@);
        while i < polls.len()
            invariant
                self.wf(),
                i <= polls@.len(),
                ticks <= i,
                run(t0, polls@) == run(*self, polls@.skip(i as int)),
                run_ticks(t0, polls@) == ticks + run_ticks(*self, polls@.skip(i as int)),
            ensures
                run(*self, polls@.skip(i as int)) == *self,
                run_ticks(*self, polls@.skip(i as int)) == 0,
            decreases polls@.len() - i,
        {
            if self.state == TimerState::Canceled || self.state == TimerState::Completed {
                break;
            }
            let ghost before = *self;
            proof {
                assert(polls@.skip(i as int).drop_first() =~= polls@.skip(i + 1));
            }
            let action = self.step(polls[i]);
            if action == LoopAction::WaitTick {
                self.tick();
                ticks = ticks + 1;
            }
            assert(*self == before.iterated(polls@[i as int]));
            i = i + 1;
        }
        ticks
    }

    /// The annotation shown beside the progress: set while paused, cleared
    /// otherwise.
    pub fn status_message(&self) -> (r: &'static str)
        ensures
            self.state == TimerState::Paused ==> r@ == "Timer Paused"@,
            self.state != TimerState::Paused ==> r@ == ""@,
    {
        if self.state == TimerState::Paused {
            "Timer Paused"
        } else {
            ""
        }
    }

    /// The closing message, which tells a canceled timer from a completed
    /// one; none while the timer is live.
    pub fn finish_message(&self) -> (r: Option<&'static str>)
        ensures
            self.state == TimerState::Canceled ==> r.is_some() && r.unwrap()@ == "Canceled!"@,
            self.state == TimerState::Completed ==> r.is_some() && r.unwrap()@ == "Squashed!"@,
            !is_terminal(self.state) ==> r.is_none(),
    {
        match self.state {
            TimerState::Canceled => Some("Canceled!"),
            TimerState::Completed => Some("Squashed!"),
            _ => None,
        }
    }
}

} // verus!
