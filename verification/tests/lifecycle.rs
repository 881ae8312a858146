//! Driving the lifecycle machine through the scenarios the runtime
//! promises: graceful stop, restart, suspension, panic containment and
//! the restart ceiling.

use ractor::lifecycle::{
    Action, LifecycleMachine, Phase, State, StoppingPosition, Suspension,
};

#[test]
fn graceful_stop_runs_stopped_before_termination() {
    let mut m = LifecycleMachine::new(3);
    let mut s = State::Continue;
    assert_eq!(m.observe(&mut s), Action::CallStarted);
    assert_eq!(m.observe(&mut s), Action::Receive);
    assert_eq!(m.delivered(), Action::Execute);
    // The handler asked for a stop: the stop hook runs before the end.
    s = State::Stop;
    assert_eq!(m.observe(&mut s), Action::CallStopped(StoppingPosition::Message));
    assert_eq!(m.observe(&mut s), Action::Terminate);
    assert_eq!(m.phase, Phase::Done);
}

#[test]
fn stop_before_start_skips_all_hooks() {
    let mut m = LifecycleMachine::new(3);
    let mut s = State::Stop;
    // Never started, nothing to stop: straight to termination.
    assert_eq!(m.observe(&mut s), Action::Terminate);
    assert_eq!(m.phase, Phase::Done);
}

#[test]
fn reset_before_start_is_inert() {
    let mut m = LifecycleMachine::new(3);
    let mut s = State::Reset;
    assert_eq!(m.observe(&mut s), Action::CallStarted);
    assert_eq!(s, State::Continue);
}

#[test]
fn reset_after_start_restarts_without_message_loop() {
    let mut m = LifecycleMachine::new(3);
    let mut s = State::Continue;
    assert_eq!(m.observe(&mut s), Action::CallStarted);
    s = State::Reset;
    assert_eq!(m.observe(&mut s), Action::CallReset);
    // The lifecycle starts over from the top.
    assert_eq!(m.observe(&mut s), Action::CallStarted);
    // A user-directed reset does not consume the panic-restart budget.
    assert_eq!(m.restarts, 0);
}

#[test]
fn stop_after_start_stops_at_starting_position() {
    let mut m = LifecycleMachine::new(3);
    let mut s = State::Continue;
    assert_eq!(m.observe(&mut s), Action::CallStarted);
    s = State::Stop;
    assert_eq!(m.observe(&mut s), Action::CallStopped(StoppingPosition::Starting));
}

#[test]
fn directive_is_cleared_at_each_checkpoint() {
    let mut m = LifecycleMachine::new(3);
    let mut s = State::Sleep(42);
    assert_eq!(m.observe(&mut s), Action::Suspend(Suspension::Sleep(42)));
    assert_eq!(s, State::Continue);
    assert_eq!(m.resumed(), Action::CallStarted);
}

#[test]
fn pause_and_yield_suspend_then_proceed() {
    let mut m = LifecycleMachine::new(3);
    let mut s = State::Continue;
    assert_eq!(m.observe(&mut s), Action::CallStarted);
    s = State::Pause;
    assert_eq!(m.observe(&mut s), Action::Suspend(Suspension::Pause));
    assert_eq!(m.resumed(), Action::Receive);
    assert_eq!(m.delivered(), Action::Execute);
    s = State::Yield;
    assert_eq!(m.observe(&mut s), Action::Suspend(Suspension::Yield));
    assert_eq!(m.resumed(), Action::Receive);
}

#[test]
fn manual_abort_is_treated_as_continue() {
    let mut m = LifecycleMachine::new(3);
    let mut s = State::Abort;
    assert_eq!(m.observe(&mut s), Action::CallStarted);
    s = State::Abort;
    assert_eq!(m.observe(&mut s), Action::Receive);
}

#[test]
fn closed_mailbox_stops_at_end_and_refuses_restart() {
    let mut m = LifecycleMachine::new(3);
    let mut s = State::Continue;
    assert_eq!(m.observe(&mut s), Action::CallStarted);
    assert_eq!(m.observe(&mut s), Action::Receive);
    assert_eq!(m.closed(), Action::CallStopped(StoppingPosition::End));
    // A closed mailbox cannot be reopened: the one post-stop reset is
    // refused here.
    s = State::Reset;
    assert_eq!(m.observe(&mut s), Action::Terminate);
    assert_eq!(m.phase, Phase::Done);
}

#[test]
fn reset_after_message_stop_restarts() {
    let mut m = LifecycleMachine::new(3);
    let mut s = State::Continue;
    assert_eq!(m.observe(&mut s), Action::CallStarted);
    assert_eq!(m.observe(&mut s), Action::Receive);
    assert_eq!(m.delivered(), Action::Execute);
    s = State::Stop;
    assert_eq!(m.observe(&mut s), Action::CallStopped(StoppingPosition::Message));
    // The stop hook asked for one more life.
    s = State::Reset;
    assert_eq!(m.observe(&mut s), Action::CallReset);
    assert_eq!(m.observe(&mut s), Action::CallStarted);
}

#[test]
fn panic_is_contained_and_restarts_below_ceiling() {
    let mut m = LifecycleMachine::new(2);
    let mut s = State::Continue;
    assert_eq!(m.observe(&mut s), Action::CallStarted);
    assert_eq!(m.observe(&mut s), Action::Receive);
    assert_eq!(m.delivered(), Action::Execute);
    // The handler panicked mid-envelope.
    assert_eq!(m.panicked(&mut s), Action::CallCatchUnwind);
    assert_eq!(s, State::Abort);
    // The default panic hook asks for a reset.
    s = State::Reset;
    assert_eq!(m.recovered(&s), Action::CallReset);
    assert_eq!(m.restarts, 1);
    // After the rebuild the actor restarts and reaches the mailbox
    // again: a message queued behind the one that panicked is processed.
    assert_eq!(m.observe(&mut s), Action::CallStarted);
    assert_eq!(m.observe(&mut s), Action::Receive);
}

#[test]
fn panic_hook_not_asking_reset_terminates() {
    let mut m = LifecycleMachine::new(5);
    let mut s = State::Continue;
    assert_eq!(m.observe(&mut s), Action::CallStarted);
    assert_eq!(m.panicked(&mut s), Action::CallCatchUnwind);
    // The hook left the Abort evidence untouched: no restart.
    assert_eq!(m.recovered(&s), Action::Terminate);
    assert_eq!(m.phase, Phase::Done);
}

#[test]
fn restart_ceiling_terminates_permanently() {
    let max: u16 = 3;
    let mut m = LifecycleMachine::new(max);
    let mut s = State::Continue;
    assert_eq!(m.observe(&mut s), Action::CallStarted);
    // Each panic below the ceiling restarts.
    for round in 0..max {
        assert_eq!(m.panicked(&mut s), Action::CallCatchUnwind);
        s = State::Reset;
        assert_eq!(m.recovered(&s), Action::CallReset);
        assert_eq!(m.restarts, round + 1);
        assert_eq!(m.observe(&mut s), Action::CallStarted);
    }
    // The (max + 1)-th panic terminates, reset or no reset.
    assert_eq!(m.panicked(&mut s), Action::CallCatchUnwind);
    s = State::Reset;
    assert_eq!(m.recovered(&s), Action::Terminate);
    assert_eq!(m.phase, Phase::Done);
    assert_eq!(m.restarts, max);
}

#[test]
fn one_envelope_at_a_time() {
    let mut m = LifecycleMachine::new(0);
    let mut s = State::Continue;
    assert_eq!(m.observe(&mut s), Action::CallStarted);
    assert_eq!(m.observe(&mut s), Action::Receive);
    assert_eq!(m.phase, Phase::Receiving);
    assert_eq!(m.delivered(), Action::Execute);
    // While the envelope runs the machine sits in Executing: only
    // observing its outcome brings it back to the mailbox, so no second
    // envelope is ever handed out meanwhile.
    assert_eq!(m.phase, Phase::Executing);
    assert_eq!(m.observe(&mut s), Action::Receive);
    assert_eq!(m.phase, Phase::Receiving);
}

#[test]
fn clear_resets_directive() {
    let mut s = State::Sleep(9);
    s.clear();
    assert_eq!(s, State::Continue);
}
