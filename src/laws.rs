//! Properties of the control loop over whole runs.
use crate::command::UserInput;
use crate::timer::{is_terminal, run, run_ticks, Timer, TimerState};
use vstd::prelude::*;

verus! {

/// `n` iterations in which no command arrives.
pub open spec fn no_commands(n: nat) -> Seq<Option<UserInput>> {
    Seq::new(n, |i: int| None::<UserInput>)
}

/// Running on `a` and then on `b` is running on `a + b`.
pub proof fn lemma_run_concat(t: Timer, a: Seq<Option<UserInput>>, b: Seq<Option<UserInput>>)
    ensures
        run(t, a + b) == run(run(t, a), b),
        run_ticks(t, a + b) == run_ticks(t, a) + run_ticks(run(t, a), b),
    decreases a.len(),
{
    if a.len() == 0 {
        assert(a + b =~= b);
    } else if is_terminal(t.state) {
        if b.len() > 0 {
            assert((a + b).len() > 0);
        }
    } else {
        assert((a + b).drop_first() =~= a.drop_first() + b);
        assert((a + b)[0] == a[0]);
        lemma_run_concat(t.iterated(a[0]), a.drop_first(), b);
    }
}

/// A terminal timer stays as it is whatever the loop is given.
pub proof fn lemma_terminal_is_final(t: Timer, polls: Seq<Option<UserInput>>)
    requires
        is_terminal(t.state),
    ensures
        run(t, polls) == t,
        run_ticks(t, polls) == 0,
        forall|cmd: UserInput| #[trigger] t.applied(cmd) == t,
{
}

/// A running timer with no commands counts one second per iteration and
/// completes exactly when the count reaches its length.
pub proof fn lemma_running_counts_down(t: Timer, n: nat)
    requires
        t.wf(),
        t.state == TimerState::Running,
    ensures
        t.current_time + n < t.time_sec ==> run(t, no_commands(n)).state == TimerState::Running
            && run(t, no_commands(n)).current_time == t.current_time + n
            && run_ticks(t, no_commands(n)) == n,
        t.current_time + n >= t.time_sec ==> run(t, no_commands(n)).state
            == TimerState::Completed && run(t, no_commands(n)).current_time == t.time_sec
            && run_ticks(t, no_commands(n)) == t.time_sec - t.current_time,
        run(t, no_commands(n)).time_sec == t.time_sec,
        run(t, no_commands(n)).wf(),
    decreases n,
{
    if n > 0 {
        let s = no_commands(n);
        assert(s.drop_first() =~= no_commands((n - 1) as nat));
        let u = t.iterated(s[0]);
        if u.state == TimerState::Running {
            lemma_running_counts_down(u, (n - 1) as nat);
        } else {
            lemma_terminal_is_final(u, s.drop_first());
        }
    }
}

/// A timer of `m` minutes that is given no commands completes after exactly
/// `m * 60` ticks, with its count equal to its length; before that it is
/// still running.
pub proof fn lemma_no_commands_completes(t: Timer, n: nat)
    requires
        t.wf(),
        t.state == TimerState::NotStarted,
    ensures
        n >= 1 && n >= t.time_sec ==> run(t, no_commands(n)).state == TimerState::Completed
            && run(t, no_commands(n)).current_time == t.time_sec
            && run(t, no_commands(n)).time_sec == 60 * t.time_min
            && run_ticks(t, no_commands(n)) == t.time_sec,
        1 <= n < t.time_sec ==> run(t, no_commands(n)).state == TimerState::Running
            && run(t, no_commands(n)).current_time == n,
{
    if n >= 1 {
        let s = no_commands(n);
        assert(s.drop_first() =~= no_commands((n - 1) as nat));
        let u = t.iterated(s[0]);
        if t.time_sec == 0 {
            lemma_terminal_is_final(t.started(), s.drop_first());
        } else {
            assert(u == t.with_state(TimerState::Running).ticked());
            lemma_running_counts_down(t.with_state(TimerState::Running), n);
            assert(s =~= seq![None::<UserInput>] + no_commands((n - 1) as nat));
            lemma_run_concat(t, seq![None::<UserInput>], no_commands((n - 1) as nat));
            lemma_run_concat(
                t.with_state(TimerState::Running),
                seq![None::<UserInput>],
                no_commands((n - 1) as nat),
            );
            assert(seq![None::<UserInput>].drop_first() =~= Seq::<Option<UserInput>>::empty());
        }
    }
}

/// A cancel that arrives before completion ends the timer in that same
/// iteration, keeps its count, and nothing that follows changes it.
pub proof fn lemma_cancel_is_final(t: Timer, polls: Seq<Option<UserInput>>)
    requires
        t.wf(),
        !is_terminal(t.started().state),
    ensures
        t.iterated(Some(UserInput::Cancel)) == t.with_state(TimerState::Canceled),
        run(t, seq![Some(UserInput::Cancel)] + polls) == t.with_state(TimerState::Canceled),
        run_ticks(t, seq![Some(UserInput::Cancel)] + polls) == 0,
{
    let c = t.with_state(TimerState::Canceled);
    let one = seq![Some(UserInput::Cancel)];
    assert(one.drop_first() =~= Seq::<Option<UserInput>>::empty());
    assert(t.iterated(one[0]) == c);
    assert(run(t, one) == run(c, one.drop_first()));
    assert(run_ticks(t, one) == run_ticks(c, one.drop_first()));
    lemma_run_concat(t, one, polls);
    lemma_terminal_is_final(c, polls);
}

/// A pause keeps the count, and however many iterations pass while paused,
/// the count does not move; a resume starts counting again.
pub proof fn lemma_pause_halts(t: Timer, k: nat)
    requires
        t.wf(),
        t.state == TimerState::Running,
    ensures
        t.iterated(Some(UserInput::Pause)) == t.with_state(TimerState::Paused),
        run(t.with_state(TimerState::Paused), no_commands(k)) == t.with_state(TimerState::Paused),
        run_ticks(t.with_state(TimerState::Paused), no_commands(k)) == 0,
        t.with_state(TimerState::Paused).iterated(Some(UserInput::Resume)) == t.iterated(None),
    decreases k,
{
    if k > 0 {
        assert(no_commands(k).drop_first() =~= no_commands((k - 1) as nat));
        lemma_pause_halts(t, (k - 1) as nat);
    }
}

/// Pausing and resuming, with any number of iterations in between, leaves
/// the rest of the run as it would have been with neither: the same final
/// timer and the same number of ticks.
pub proof fn lemma_pause_round_trip(t: Timer, k: nat, rest: Seq<Option<UserInput>>)
    requires
        t.wf(),
        t.state == TimerState::Running,
    ensures
        run(t, seq![Some(UserInput::Pause)] + no_commands(k) + seq![Some(UserInput::Resume)] + rest)
            == run(t, seq![None] + rest),
        run_ticks(
            t,
            seq![Some(UserInput::Pause)] + no_commands(k) + seq![Some(UserInput::Resume)] + rest,
        ) == run_ticks(t, seq![None] + rest),
{
    let p = t.with_state(TimerState::Paused);
    let pause = seq![Some(UserInput::Pause)];
    let resume = seq![Some(UserInput::Resume)];
    let none = seq![None::<UserInput>];
    let empty = Seq::<Option<UserInput>>::empty();
    assert(pause.drop_first() =~= empty);
    assert(resume.drop_first() =~= empty);
    assert(none.drop_first() =~= empty);
    let n = no_commands(k);
    lemma_pause_halts(t, k);
    assert(run(t, pause) == run(t.iterated(pause[0]), empty));
    assert(run_ticks(t, pause) == run_ticks(t.iterated(pause[0]), empty));
    assert(run(p, resume) == run(p.iterated(resume[0]), empty));
    assert(run_ticks(p, resume) == 1 + run_ticks(p.iterated(resume[0]), empty));
    assert(run(t, none) == run(t.iterated(none[0]), empty));
    assert(run_ticks(t, none) == 1 + run_ticks(t.iterated(none[0]), empty));
    lemma_run_concat(t, pause, n);
    lemma_run_concat(t, pause + n, resume);
    lemma_run_concat(t, pause + n + resume, rest);
    lemma_run_concat(t, none, rest);
}

/// A pause on a paused timer and a resume on a running one change nothing.
pub proof fn lemma_redundant_commands(t: Timer)
    requires
        t.wf(),
    ensures
        t.state == TimerState::Paused ==> t.applied(UserInput::Pause) == t,
        t.state == TimerState::Paused ==> t.iterated(Some(UserInput::Pause)) == t,
        t.state == TimerState::Running ==> t.applied(UserInput::Resume) == t,
{
}

/// A pause and a resume sent back to back are applied in that order, one
/// per iteration: the timer ends up counting again, never left paused.
pub proof fn lemma_pause_then_resume(t: Timer)
    requires
        t.wf(),
        t.state == TimerState::Running || t.state == TimerState::Paused,
    ensures
        run(t, seq![Some(UserInput::Pause), Some(UserInput::Resume)]) == t.with_state(
            TimerState::Running,
        ).ticked(),
        run(t, seq![Some(UserInput::Pause), Some(UserInput::Resume)]).state
            != TimerState::Paused,
        t.current_time + 1 < t.time_sec ==> run(
            t,
            seq![Some(UserInput::Pause), Some(UserInput::Resume)],
        ).state == TimerState::Running,
{
    let s = seq![Some(UserInput::Pause), Some(UserInput::Resume)];
    let resume = seq![Some(UserInput::Resume)];
    let empty = Seq::<Option<UserInput>>::empty();
    assert(s.drop_first() =~= resume);
    assert(resume.drop_first() =~= empty);
    let p = t.iterated(s[0]);
    assert(p == t.with_state(TimerState::Paused));
    assert(run(t, s) == run(p, resume));
    assert(run(p, resume) == run(p.iterated(resume[0]), empty));
}

} // verus!
