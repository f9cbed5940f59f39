use pomo_rs::{Args, LoopAction, Timer, TimerState, UserInput};

fn quiet(n: usize) -> Vec<Option<UserInput>> {
    vec![None; n]
}

#[test]
fn one_minute_without_commands_completes() {
    let mut t = Timer::new(Args::Time { time: 1 });
    let ticks = t.simulate(&quiet(100));
    assert_eq!(t.state, TimerState::Completed);
    assert_eq!(t.current_time, 60);
    assert_eq!(t.time_sec, 60);
    assert_eq!(ticks, 60);
    assert_eq!(t.finish_message(), Some("Squashed!"));
}

#[test]
fn cancel_after_three_ticks() {
    let mut t = Timer::new(Args::Short);
    let mut polls = quiet(3);
    polls.push(Some(UserInput::Cancel));
    polls.extend(quiet(400));
    let ticks = t.simulate(&polls);
    assert_eq!(t.state, TimerState::Canceled);
    assert_eq!(t.current_time, 3);
    assert_eq!(ticks, 3);
    assert!(ticks < 300);
    assert_eq!(t.finish_message(), Some("Canceled!"));
}

#[test]
fn pause_for_thirty_seconds_then_resume() {
    let mut t = Timer::new(Args::Time { time: 2 });
    let mut polls = quiet(10);
    polls.push(Some(UserInput::Pause));
    polls.extend(quiet(30));
    polls.push(Some(UserInput::Resume));
    polls.extend(quiet(200));
    let ticks = t.simulate(&polls);
    assert_eq!(t.state, TimerState::Completed);
    assert_eq!(t.current_time, 120);
    assert_eq!(ticks, 120);
}

#[test]
fn zero_minutes_completes_at_start() {
    let mut t = Timer::new(Args::Time { time: 0 });
    let ticks = t.simulate(&quiet(5));
    assert_eq!(t.state, TimerState::Completed);
    assert_eq!(t.current_time, 0);
    assert_eq!(ticks, 0);
}

#[test]
fn no_commands_takes_exactly_the_length() {
    for m in [1usize, 3, 10] {
        let mut t = Timer::new(Args::Time { time: m });
        let ticks = t.simulate(&quiet(m * 60 - 1));
        assert_eq!(t.state, TimerState::Running);
        assert_eq!(t.current_time, m * 60 - 1);
        assert_eq!(ticks, m * 60 - 1);
        let more = t.simulate(&quiet(10));
        assert_eq!(more, 1);
        assert_eq!(t.state, TimerState::Completed);
        assert_eq!(t.current_time, m * 60);
    }
}

#[test]
fn presets_give_their_lengths() {
    assert_eq!(Args::Long.minutes(), 10);
    assert_eq!(Args::Short.minutes(), 5);
    assert_eq!(Args::Time { time: 7 }.minutes(), 7);
    let t = Timer::new(Args::Long);
    assert_eq!(t.time_min, 10);
    assert_eq!(t.time_sec, 600);
    assert_eq!(t.current_time, 0);
    assert_eq!(t.state, TimerState::NotStarted);
}

#[test]
fn cancel_while_paused_is_immediate_and_final() {
    let mut t = Timer::new(Args::Short);
    t.simulate(&vec![None, None, Some(UserInput::Pause), None]);
    assert_eq!(t.state, TimerState::Paused);
    assert_eq!(t.step(Some(UserInput::Cancel)), LoopAction::Exit);
    assert_eq!(t.state, TimerState::Canceled);
    assert_eq!(t.current_time, 2);
    let after = t;
    t.apply_command(UserInput::Resume);
    t.apply_command(UserInput::Pause);
    assert_eq!(t.tick(), LoopAction::Exit);
    assert_eq!(t.simulate(&quiet(10)), 0);
    assert_eq!(t, after);
}

#[test]
fn paused_timer_does_not_count() {
    let mut t = Timer::new(Args::Short);
    assert_eq!(t.step(None), LoopAction::WaitTick);
    assert_eq!(t.tick(), LoopAction::Poll);
    assert_eq!(t.step(Some(UserInput::Pause)), LoopAction::Poll);
    assert_eq!(t.status_message(), "Timer Paused");
    for _ in 0..50 {
        assert_eq!(t.step(None), LoopAction::Poll);
        assert_eq!(t.tick(), LoopAction::Poll);
    }
    assert_eq!(t.current_time, 1);
    assert_eq!(t.step(Some(UserInput::Resume)), LoopAction::WaitTick);
    assert_eq!(t.status_message(), "");
    t.tick();
    assert_eq!(t.current_time, 2);
}

#[test]
fn redundant_pause_and_resume_change_nothing() {
    let mut t = Timer::new(Args::Short);
    t.start();
    assert_eq!(t.state, TimerState::Running);
    let running = t;
    t.apply_command(UserInput::Resume);
    assert_eq!(t, running);
    t.apply_command(UserInput::Pause);
    let paused = t;
    t.apply_command(UserInput::Pause);
    assert_eq!(t, paused);
    assert_eq!(t.state, TimerState::Paused);
}

#[test]
fn pause_then_resume_back_to_back_keeps_running() {
    let mut t = Timer::new(Args::Short);
    t.simulate(&quiet(4));
    let ticks = t.simulate(&vec![Some(UserInput::Pause), Some(UserInput::Resume)]);
    assert_eq!(t.state, TimerState::Running);
    assert_eq!(t.current_time, 5);
    assert_eq!(ticks, 1);
}

#[test]
fn live_timer_has_no_closing_message() {
    let t = Timer::new(Args::Short);
    assert_eq!(t.finish_message(), None);
    assert_eq!(t.action(), LoopAction::Poll);
}
