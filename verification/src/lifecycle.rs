//! The per-actor lifecycle state machine.
//!
//! An actor runner alternates between asynchronous work (running a hook,
//! awaiting the mailbox, suspending) and decisions about what to do next.
//! All the decisions live here, in [`LifecycleMachine`]: a pure state
//! machine that, fed the outcome of each piece of asynchronous work,
//! returns the next [`Action`] to perform.  The unverified driver performs
//! the action and reports back; it decides nothing itself.
//!
//! A lifecycle round has three nested checkpoints — before the start hook,
//! after it, and after each processed envelope — plus a final checkpoint
//! after the stop hook.  At each checkpoint the machine observes the
//! [`State`] directive the actor left in its context, clears it back to
//! [`State::Continue`], and picks the transition.  A panic anywhere in the
//! round is reported to the machine, which routes it through the actor's
//! panic hook and a bounded restart decision.

use vstd::prelude::*;

verus! {

/// The directive an actor leaves in its context, read at the next
/// lifecycle checkpoint to choose the actor's next transition.  After
/// being observed at a checkpoint it is cleared back to [`State::Continue`].
#[derive(Clone, Copy, Debug, PartialEq, Eq, Structural)]
pub enum State {
    /// The default after every checkpoint: keep going.
    Continue,
    /// Stop the actor.  Observed before the first start nothing has begun,
    /// so the actor terminates without its stop hook: never started,
    /// nothing to stop.
    Stop,
    /// Suspend until an external signal wakes the actor.
    Pause,
    /// Give the cooperative scheduler one tick, so one busy instance
    /// cannot monopolize a shared mailbox.
    Yield,
    /// Rebuild the actor's state and restart the lifecycle from the top.
    /// Inert before the first start: there is nothing to reset yet.
    Reset,
    /// Suspend for the given number of milliseconds.
    Sleep(u64),
    /// Evidence of a panic, set by the runner alone before the panic hook
    /// runs.  Setting it by hand is ineffective: a checkpoint treats it
    /// exactly as [`State::Continue`].
    Abort,
}

impl State {
    /// Resets the directive to its default, as every checkpoint does after
    /// observing it.
    pub fn clear(&mut self)
        ensures
            *final(self) == State::Continue,
    {
        *self = State::Continue;
    }
}

/// Where in its lifecycle an actor terminated; handed to the stop hook.
#[derive(Clone, Copy, Debug, PartialEq, Eq, Structural)]
pub enum StoppingPosition {
    /// A Stop directive was observed right after the start hook, before
    /// any envelope was processed.
    Starting,
    /// A Stop directive was observed after processing an envelope.
    Message,
    /// The mailbox closed: every address was dropped.  A closed mailbox
    /// cannot be reopened, so a restart after this is refused.
    End,
}

/// How the runner should suspend the actor's task before proceeding.
#[derive(Clone, Copy, Debug, PartialEq, Eq, Structural)]
pub enum Suspension {
    /// Until an external signal arrives.
    Pause,
    /// For one cooperative-scheduler tick.
    Yield,
    /// For the given number of milliseconds.
    Sleep(u64),
}

/// What the machine does once a suspension is over.
#[derive(Clone, Copy, Debug, PartialEq, Eq, Structural)]
pub enum Resume {
    /// Run the start hook: the suspension happened before the first start.
    Start,
    /// Go back to the mailbox: the suspension happened inside the round.
    Receive,
    /// Terminate: the suspension happened after the stop hook.
    Terminate,
}

/// The machine's position in the lifecycle: which piece of asynchronous
/// work is in flight, and so which report is expected next.
#[derive(Clone, Copy, Debug, PartialEq, Eq, Structural)]
pub enum Phase {
    /// The actor is being built (created, or rebuilt by the reset hook);
    /// the directive it leaves behind is observed at the first checkpoint.
    PreStart,
    /// The start hook is running.
    Starting,
    /// Waiting on the mailbox for the next envelope.
    Receiving,
    /// An envelope is being executed against the actor.
    Executing,
    /// The stop hook is running, with the recorded stopping position.
    Stopping(StoppingPosition),
    /// The task is suspended; on resumption the machine proceeds as the
    /// recorded [`Resume`] says.
    Suspended(Resume),
    /// The panic hook is running.
    Catching,
    /// The runner is finished; no further step is valid.
    Done,
}

/// What the driver must do next.  Every action except [`Action::Terminate`]
/// is answered by exactly one report back to the machine.
#[derive(Clone, Copy, Debug, PartialEq, Eq, Structural)]
pub enum Action {
    /// Run the actor's start hook, then report the directive it left.
    CallStarted,
    /// Await the next envelope from the mailbox, then report delivery or
    /// closure.
    Receive,
    /// Execute the delivered envelope against the actor, then report the
    /// directive it left.
    Execute,
    /// Run the actor's stop hook with this position, then report the
    /// directive it left.
    CallStopped(StoppingPosition),
    /// Rebuild the actor's state with its reset hook, then report the
    /// directive it left.
    CallReset,
    /// Suspend the task as indicated, then report resumption.
    Suspend(Suspension),
    /// Run the actor's panic hook, then report the directive it left.
    CallCatchUnwind,
    /// The runner is finished: drop the actor and its context.
    Terminate,
}

/// The lifecycle decision core of one actor runner.
///
/// The restart counter bounds panic-directed restarts across the runner's
/// whole life, not per round: once `restarts` reaches `max_restarts`, the
/// next caught panic terminates the runner permanently.
#[derive(Clone, Copy, Debug, PartialEq, Eq, Structural)]
pub struct LifecycleMachine {
    /// Which report the machine expects next.
    pub phase: Phase,
    /// How many panic-directed restarts have happened so far.
    pub restarts: u16,
    /// The restart ceiling, from the actor's static configuration.
    pub max_restarts: u16,
}

/// The same machine with another phase; counters untouched.
pub open spec fn with_phase(m: LifecycleMachine, p: Phase) -> LifecycleMachine {
    LifecycleMachine { phase: p, restarts: m.restarts, max_restarts: m.max_restarts }
}

/// True of the directives that suspend the task at a checkpoint.
pub open spec fn is_suspension(s: State) -> bool {
    s is Pause || s is Yield || s is Sleep
}

/// The suspension a checkpoint turns a suspending directive into.
pub open spec fn spec_suspension(s: State) -> Suspension
    recommends
        is_suspension(s),
{
    match s {
        State::Pause => Suspension::Pause,
        State::Sleep(ms) => Suspension::Sleep(ms),
        _ => Suspension::Yield,
    }
}

/// Checkpoint before the start hook.  Stop terminates at once — the actor
/// never started, so nothing is stopped.  Reset is inert: there is nothing
/// to reset before the first start.  A suspending directive suspends, then
/// the start hook runs.
pub open spec fn spec_pre_start(m: LifecycleMachine, s: State) -> (LifecycleMachine, Action) {
    match s {
        State::Stop => (with_phase(m, Phase::Done), Action::Terminate),
        State::Pause => (
            with_phase(m, Phase::Suspended(Resume::Start)),
            Action::Suspend(Suspension::Pause),
        ),
        State::Yield => (
            with_phase(m, Phase::Suspended(Resume::Start)),
            Action::Suspend(Suspension::Yield),
        ),
        State::Sleep(ms) => (
            with_phase(m, Phase::Suspended(Resume::Start)),
            Action::Suspend(Suspension::Sleep(ms)),
        ),
        _ => (with_phase(m, Phase::Starting), Action::CallStarted),
    }
}

/// Checkpoint after the start hook, before the message loop.  Stop routes
/// through the stop hook with position Starting; Reset rebuilds the actor
/// and restarts the lifecycle without entering the message loop.
pub open spec fn spec_post_start(m: LifecycleMachine, s: State) -> (LifecycleMachine, Action) {
    match s {
        State::Stop => (
            with_phase(m, Phase::Stopping(StoppingPosition::Starting)),
            Action::CallStopped(StoppingPosition::Starting),
        ),
        State::Reset => (with_phase(m, Phase::PreStart), Action::CallReset),
        State::Pause => (
            with_phase(m, Phase::Suspended(Resume::Receive)),
            Action::Suspend(Suspension::Pause),
        ),
        State::Yield => (
            with_phase(m, Phase::Suspended(Resume::Receive)),
            Action::Suspend(Suspension::Yield),
        ),
        State::Sleep(ms) => (
            with_phase(m, Phase::Suspended(Resume::Receive)),
            Action::Suspend(Suspension::Sleep(ms)),
        ),
        _ => (with_phase(m, Phase::Receiving), Action::Receive),
    }
}

/// Checkpoint after an executed envelope.  Continue loops back to the
/// mailbox; Stop routes through the stop hook with position Message;
/// Reset rebuilds the actor and restarts the lifecycle.
pub open spec fn spec_after_message(m: LifecycleMachine, s: State) -> (LifecycleMachine, Action) {
    match s {
        State::Stop => (
            with_phase(m, Phase::Stopping(StoppingPosition::Message)),
            Action::CallStopped(StoppingPosition::Message),
        ),
        State::Reset => (with_phase(m, Phase::PreStart), Action::CallReset),
        State::Pause => (
            with_phase(m, Phase::Suspended(Resume::Receive)),
            Action::Suspend(Suspension::Pause),
        ),
        State::Yield => (
            with_phase(m, Phase::Suspended(Resume::Receive)),
            Action::Suspend(Suspension::Yield),
        ),
        State::Sleep(ms) => (
            with_phase(m, Phase::Suspended(Resume::Receive)),
            Action::Suspend(Suspension::Sleep(ms)),
        ),
        _ => (with_phase(m, Phase::Receiving), Action::Receive),
    }
}

/// Final checkpoint, after the stop hook.  One more Reset may restart the
/// whole lifecycle — unless the actor stopped because the mailbox closed:
/// a closed mailbox cannot be reopened, so a restart after End is refused.
/// Every other directive terminates (a suspending one suspends first).
pub open spec fn spec_after_stopped(
    m: LifecycleMachine,
    pos: StoppingPosition,
    s: State,
) -> (LifecycleMachine, Action) {
    match s {
        State::Reset => if pos != StoppingPosition::End {
            (with_phase(m, Phase::PreStart), Action::CallReset)
        } else {
            (with_phase(m, Phase::Done), Action::Terminate)
        },
        State::Pause => (
            with_phase(m, Phase::Suspended(Resume::Terminate)),
            Action::Suspend(Suspension::Pause),
        ),
        State::Yield => (
            with_phase(m, Phase::Suspended(Resume::Terminate)),
            Action::Suspend(Suspension::Yield),
        ),
        State::Sleep(ms) => (
            with_phase(m, Phase::Suspended(Resume::Terminate)),
            Action::Suspend(Suspension::Sleep(ms)),
        ),
        _ => (with_phase(m, Phase::Done), Action::Terminate),
    }
}

/// The checkpoint for the current phase, applied to the observed directive.
pub open spec fn spec_checkpoint(m: LifecycleMachine, s: State) -> (LifecycleMachine, Action)
    recommends
        m.phase is PreStart || m.phase is Starting || m.phase is Executing || m.phase is Stopping,
{
    match m.phase {
        Phase::PreStart => spec_pre_start(m, s),
        Phase::Starting => spec_post_start(m, s),
        Phase::Executing => spec_after_message(m, s),
        Phase::Stopping(pos) => spec_after_stopped(m, pos, s),
        _ => (m, Action::Terminate),
    }
}

/// The restart decision after the panic hook ran, leaving directive `s`.
/// Only an explicit Reset below the ceiling restarts; anything else —
/// including the Abort the runner set, left untouched by the hook —
/// terminates the runner permanently.  The panic itself is absorbed either
/// way: it is never re-raised.
pub open spec fn spec_recover(m: LifecycleMachine, s: State) -> (LifecycleMachine, Action) {
    if s is Reset && m.restarts < m.max_restarts {
        (
            LifecycleMachine {
                phase: Phase::PreStart,
                restarts: (m.restarts + 1) as u16,
                max_restarts: m.max_restarts,
            },
            Action::CallReset,
        )
    } else {
        (with_phase(m, Phase::Done), Action::Terminate)
    }
}

/// One step of the machine through any of its entry points: holds when
/// some report takes `m` to `m2` while issuing `a`.
pub open spec fn spec_transition(m: LifecycleMachine, m2: LifecycleMachine, a: Action) -> bool {
    ||| {
        &&& (m.phase is PreStart || m.phase is Starting || m.phase is Executing
            || m.phase is Stopping)
        &&& (exists|s: State| (#[trigger] spec_checkpoint(m, s)) == (m2, a))
    }
    ||| m.phase is Receiving && m2 == with_phase(m, Phase::Executing) && a == Action::Execute
    ||| m.phase is Receiving && m2 == with_phase(m, Phase::Stopping(StoppingPosition::End))
        && a == Action::CallStopped(StoppingPosition::End)
    ||| m.phase matches Phase::Suspended(r) && {
        match r {
            Resume::Start => m2 == with_phase(m, Phase::Starting) && a == Action::CallStarted,
            Resume::Receive => m2 == with_phase(m, Phase::Receiving) && a == Action::Receive,
            Resume::Terminate => m2 == with_phase(m, Phase::Done) && a == Action::Terminate,
        }
    }
    ||| !(m.phase is Done) && !(m.phase is Catching) && m2 == with_phase(m, Phase::Catching)
        && a == Action::CallCatchUnwind
    ||| m.phase is Catching && (exists|s: State| (#[trigger] spec_recover(m, s)) == (m2, a))
}

impl LifecycleMachine {
    /// A fresh machine for a newly created actor: the first report it
    /// expects is the directive the creation left behind.
    pub fn new(max_restarts: u16) -> (m: LifecycleMachine)
        ensures
            m.phase is PreStart,
            m.restarts == 0,
            m.max_restarts == max_restarts,
    {
        LifecycleMachine { phase: Phase::PreStart, restarts: 0, max_restarts }
    }

    /// A lifecycle hook finished (creation, reset, the start hook, an
    /// executed envelope, or the stop hook), leaving `*state` as the
    /// directive: runs the checkpoint of the current phase and clears the
    /// directive back to Continue.
    pub fn observe(&mut self, state: &mut State) -> (a: Action)
        requires
            old(self).phase is PreStart || old(self).phase is Starting
                || old(self).phase is Executing || old(self).phase is Stopping,
        ensures
            *final(self) == spec_checkpoint(*old(self), *old(state)).0,
            a == spec_checkpoint(*old(self), *old(state)).1,
            *final(state) == State::Continue,
    {
        let observed = *state;
        state.clear();
        let a: Action;
        match observed {
            State::Stop => {
                match self.phase {
                    Phase::PreStart => {
                        self.phase = Phase::Done;
                        a = Action::Terminate;
                    }
                    Phase::Starting => {
                        self.phase = Phase::Stopping(StoppingPosition::Starting);
                        a = Action::CallStopped(StoppingPosition::Starting);
                    }
                    Phase::Executing => {
                        self.phase = Phase::Stopping(StoppingPosition::Message);
                        a = Action::CallStopped(StoppingPosition::Message);
                    }
                    _ => {
                        self.phase = Phase::Done;
                        a = Action::Terminate;
                    }
                }
            }
            State::Reset => {
                match self.phase {
                    Phase::PreStart => {
                        self.phase = Phase::Starting;
                        a = Action::CallStarted;
                    }
                    Phase::Stopping(pos) => {
                        if pos != StoppingPosition::End {
                            self.phase = Phase::PreStart;
                            a = Action::CallReset;
                        } else {
                            self.phase = Phase::Done;
                            a = Action::Terminate;
                        }
                    }
                    _ => {
                        self.phase = Phase::PreStart;
                        a = Action::CallReset;
                    }
                }
            }
            State::Pause => {
                a = Action::Suspend(Suspension::Pause);
                self.phase = Phase::Suspended(Self::resume_of(self.phase));
            }
            State::Yield => {
                a = Action::Suspend(Suspension::Yield);
                self.phase = Phase::Suspended(Self::resume_of(self.phase));
            }
            State::Sleep(ms) => {
                a = Action::Suspend(Suspension::Sleep(ms));
                self.phase = Phase::Suspended(Self::resume_of(self.phase));
            }
            _ => {
                match self.phase {
                    Phase::PreStart => {
                        self.phase = Phase::Starting;
                        a = Action::CallStarted;
                    }
                    Phase::Stopping(_) => {
                        self.phase = Phase::Done;
                        a = Action::Terminate;
                    }
                    _ => {
                        self.phase = Phase::Receiving;
                        a = Action::Receive;
                    }
                }
            }
        }
        a
    }

    /// Where a suspension at the given checkpoint phase resumes to.
    fn resume_of(phase: Phase) -> (r: Resume)
        ensures
            r == match phase {
                Phase::PreStart => Resume::Start,
                Phase::Stopping(_) => Resume::Terminate,
                _ => Resume::Receive,
            },
    {
        match phase {
            Phase::PreStart => Resume::Start,
            Phase::Stopping(_) => Resume::Terminate,
            _ => Resume::Receive,
        }
    }

    /// The mailbox delivered an envelope: execute it.
    pub fn delivered(&mut self) -> (a: Action)
        requires
            old(self).phase is Receiving,
        ensures
            *final(self) == with_phase(*old(self), Phase::Executing),
            a == Action::Execute,
    {
        self.phase = Phase::Executing;
        Action::Execute
    }

    /// The mailbox closed — every address was dropped: the message loop is
    /// over, and the stop hook runs with position End.
    pub fn closed(&mut self) -> (a: Action)
        requires
            old(self).phase is Receiving,
        ensures
            *final(self) == with_phase(*old(self), Phase::Stopping(StoppingPosition::End)),
            a == Action::CallStopped(StoppingPosition::End),
    {
        self.phase = Phase::Stopping(StoppingPosition::End);
        Action::CallStopped(StoppingPosition::End)
    }

    /// The suspension is over: proceed where the checkpoint left off.
    pub fn resumed(&mut self) -> (a: Action)
        requires
            old(self).phase is Suspended,
        ensures
            old(self).phase matches Phase::Suspended(r) ==> match r {
                Resume::Start => *final(self) == with_phase(*old(self), Phase::Starting)
                    && a == Action::CallStarted,
                Resume::Receive => *final(self) == with_phase(*old(self), Phase::Receiving)
                    && a == Action::Receive,
                Resume::Terminate => *final(self) == with_phase(*old(self), Phase::Done)
                    && a == Action::Terminate,
            },
    {
        match self.phase {
            Phase::Suspended(Resume::Start) => {
                self.phase = Phase::Starting;
                Action::CallStarted
            }
            Phase::Suspended(Resume::Receive) => {
                self.phase = Phase::Receiving;
                Action::Receive
            }
            _ => {
                self.phase = Phase::Done;
                Action::Terminate
            }
        }
    }

    /// A panic was caught anywhere in the lifecycle round.  The machine
    /// marks the directive as Abort — read-only evidence the panic hook
    /// can observe — and routes to the hook.  The panic never propagates
    /// further: the mailbox and every other actor instance are untouched.
    pub fn panicked(&mut self, state: &mut State) -> (a: Action)
        requires
            !(old(self).phase is Done),
            !(old(self).phase is Catching),
        ensures
            *final(self) == with_phase(*old(self), Phase::Catching),
            *final(state) == State::Abort,
            a == Action::CallCatchUnwind,
    {
        *state = State::Abort;
        self.phase = Phase::Catching;
        Action::CallCatchUnwind
    }

    /// The panic hook finished, leaving directive `*state`: decide between
    /// a bounded restart and permanent termination, as [`spec_recover`]
    /// says.  The directive is not cleared here — this is not a lifecycle
    /// checkpoint; a restart's first checkpoint will clear it.
    pub fn recovered(&mut self, state: &State) -> (a: Action)
        requires
            old(self).phase is Catching,
        ensures
            *final(self) == spec_recover(*old(self), *state).0,
            a == spec_recover(*old(self), *state).1,
    {
        let restart = match state {
            State::Reset => self.restarts < self.max_restarts,
            _ => false,
        };
        if restart {
            self.restarts = self.restarts + 1;
            self.phase = Phase::PreStart;
            Action::CallReset
        } else {
            self.phase = Phase::Done;
            Action::Terminate
        }
    }
}

/// The restart counter never passes its ceiling: if it is within the
/// ceiling before a recovery decision, it still is afterwards.
pub proof fn lemma_restart_counter_bounded(m: LifecycleMachine, s: State)
    requires
        m.restarts <= m.max_restarts,
    ensures
        spec_recover(m, s).0.restarts <= m.max_restarts,
{
}

/// Bounded restart: once the ceiling is reached, the next caught panic
/// terminates the runner permanently, whatever the panic hook asked for.
pub proof fn lemma_restart_bound(m: LifecycleMachine, s: State)
    requires
        m.restarts >= m.max_restarts,
    ensures
        spec_recover(m, s).0.phase is Done,
        spec_recover(m, s).1 == Action::Terminate,
{
}

/// Restart reaches the mailbox again: when a caught panic is answered
/// with a Reset below the ceiling, the machine rebuilds the actor,
/// restarts it, and then asks for the next envelope — a message queued
/// behind the one that panicked is still processed.
pub proof fn lemma_restart_processes_next_message(m: LifecycleMachine)
    requires
        m.phase is Catching,
        m.restarts < m.max_restarts,
    ensures
        ({
            let r1 = spec_recover(m, State::Reset);
            let r2 = spec_checkpoint(r1.0, State::Continue);
            let r3 = spec_checkpoint(r2.0, State::Continue);
            r1.1 == Action::CallReset && r2.1 == Action::CallStarted && r3.1 == Action::Receive
                && r3.0.phase is Receiving
        }),
{
}

/// Graceful stop: a Stop directive observed after the start hook or after
/// an envelope always routes through the stop hook — the checkpoint's
/// action is CallStopped, never a direct termination.
pub proof fn lemma_stop_runs_stopped(m: LifecycleMachine)
    requires
        m.phase is Starting || m.phase is Executing,
    ensures
        spec_checkpoint(m, State::Stop).1 matches Action::CallStopped(_),
        spec_checkpoint(m, State::Stop).0.phase is Stopping,
{
}

/// The runner terminates at a checkpoint only before anything started
/// (nothing to stop) or after the stop hook already ran: the message loop
/// never terminates silently.
pub proof fn lemma_no_silent_termination(m: LifecycleMachine, s: State)
    requires
        m.phase is PreStart || m.phase is Starting || m.phase is Executing
            || m.phase is Stopping,
    ensures
        spec_checkpoint(m, s).0.phase is Done ==> (m.phase is PreStart && s is Stop)
            || m.phase is Stopping,
{
}

/// The transition relation covers the machine's actual steps: every
/// checkpoint observation and every recovery decision is a
/// [`spec_transition`] step, so what the relation-level lemmas say holds
/// of every run of the machine.
pub proof fn lemma_steps_are_transitions(m: LifecycleMachine, s: State)
    ensures
        (m.phase is PreStart || m.phase is Starting || m.phase is Executing
            || m.phase is Stopping) ==> spec_transition(
            m,
            spec_checkpoint(m, s).0,
            spec_checkpoint(m, s).1,
        ),
        m.phase is Catching ==> spec_transition(m, spec_recover(m, s).0, spec_recover(m, s).1),
{
}

/// Exclusive execution: an envelope is handed to the actor only from the
/// Receiving phase, and the machine leaves that phase as it does so; no
/// step out of Executing hands over another envelope.  Handlers of one
/// instance therefore never run concurrently with themselves, and run in
/// strict dequeue order.
pub proof fn lemma_exclusive_execution(m: LifecycleMachine, m2: LifecycleMachine, a: Action)
    requires
        spec_transition(m, m2, a),
    ensures
        a == Action::Execute ==> m.phase is Receiving && m2.phase is Executing,
        m.phase is Executing ==> a != Action::Execute,
{
}

/// No two envelope executions are adjacent: after each Execute the machine
/// is in Executing, whose steps never issue another Execute before the
/// envelope's outcome is observed at a checkpoint.
pub proof fn lemma_no_adjacent_executes(
    m0: LifecycleMachine,
    m1: LifecycleMachine,
    m2: LifecycleMachine,
    a1: Action,
    a2: Action,
)
    requires
        spec_transition(m0, m1, a1),
        spec_transition(m1, m2, a2),
        a1 == Action::Execute,
    ensures
        a2 != Action::Execute,
{
    lemma_exclusive_execution(m0, m1, a1);
    lemma_exclusive_execution(m1, m2, a2);
}

/// A run of the machine: one more machine state than actions, each
/// consecutive pair linked by the transition relation.
pub open spec fn is_run(machines: Seq<LifecycleMachine>, actions: Seq<Action>) -> bool {
    machines.len() == actions.len() + 1 && forall|i: int|
        0 <= i < actions.len() ==> #[trigger] spec_transition(
            machines[i],
            machines[i + 1],
            actions[i],
        )
}

/// In a run that is in the Executing phase at `a` and out of it at `b`,
/// some step in between leaves the phase: the step that observes the
/// envelope's outcome.
proof fn lemma_executing_boundary(
    machines: Seq<LifecycleMachine>,
    actions: Seq<Action>,
    a: int,
    b: int,
) -> (k: int)
    requires
        is_run(machines, actions),
        0 <= a < b < machines.len(),
        machines[a].phase is Executing,
        !(machines[b].phase is Executing),
    ensures
        a <= k < b,
        machines[k].phase is Executing,
        !(machines[k + 1].phase is Executing),
    decreases b - a,
{
    if !(machines[a + 1].phase is Executing) {
        a
    } else {
        lemma_executing_boundary(machines, actions, a + 1, b)
    }
}

/// Exclusive execution over whole runs: between any two envelope
/// executions stands a step that leaves the Executing phase — the
/// observation of the first envelope's outcome.  Handlers of one
/// instance never overlap, and envelopes are handed over strictly one
/// after another.
pub proof fn lemma_run_exclusive_execution(
    machines: Seq<LifecycleMachine>,
    actions: Seq<Action>,
    i: int,
    j: int,
)
    requires
        is_run(machines, actions),
        0 <= i < j < actions.len(),
        actions[i] == Action::Execute,
        actions[j] == Action::Execute,
    ensures
        exists|k: int|
            i < k < j && (#[trigger] machines[k]).phase is Executing && !(machines[k
                + 1].phase is Executing),
{
    assert(spec_transition(machines[i], machines[i + 1], actions[i]));
    lemma_exclusive_execution(machines[i], machines[i + 1], actions[i]);
    assert(spec_transition(machines[j], machines[j + 1], actions[j]));
    lemma_exclusive_execution(machines[j], machines[j + 1], actions[j]);
    let k = lemma_executing_boundary(machines, actions, i + 1, j);
    assert(i < k < j && machines[k].phase is Executing && !(machines[k + 1].phase is Executing));
}

/// A step never shrinks the restart counter, never changes the ceiling,
/// and never passes it.
pub proof fn lemma_transition_restart_bound(
    m: LifecycleMachine,
    m2: LifecycleMachine,
    a: Action,
)
    requires
        spec_transition(m, m2, a),
        m.restarts <= m.max_restarts,
    ensures
        m2.restarts >= m.restarts,
        m2.max_restarts == m.max_restarts,
        m2.restarts <= m2.max_restarts,
{
}

/// Across a whole run from a machine within its ceiling — as every
/// fresh machine is — the panic-restart counter stays within the
/// ceiling at every point.
pub proof fn lemma_run_restart_bound(
    machines: Seq<LifecycleMachine>,
    actions: Seq<Action>,
    i: int,
)
    requires
        is_run(machines, actions),
        machines.len() > 0,
        machines[0].restarts <= machines[0].max_restarts,
        0 <= i < machines.len(),
    ensures
        machines[i].restarts <= machines[i].max_restarts,
    decreases i,
{
    if i > 0 {
        lemma_run_restart_bound(machines, actions, i - 1);
        assert(spec_transition(machines[i - 1], machines[i - 1 + 1], actions[i - 1]));
        lemma_transition_restart_bound(machines[i - 1], machines[i], actions[i - 1]);
    }
}

} // verus!
