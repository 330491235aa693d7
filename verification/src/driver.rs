//! The execution driver: the order in which one guest execution proceeds.
//!
//! The driver decides, the caller acts. The caller reports what happened as
//! an event and is told what to do next. Whatever the outcome of the entry
//! point, the next thing to do is to clean up, once.

use crate::kinds::HostValue;
use crate::report::ExecutionReport;
use vstd::prelude::*;

verus! {

/// How far an execution has come.
#[derive(Clone, Copy, Debug, PartialEq, Eq, Structural)]
pub enum Phase {
    /// Nothing has happened yet.
    Created,
    /// The module is linked; the guest thread is not yet marked as running.
    Linked,
    /// The guest thread is marked as running; the entry point is to be
    /// invoked or is under way.
    Running,
    /// The entry point returned.
    Completed,
    /// The entry point ended in a trap.
    Trapped,
    /// The execution was cleaned up; the captured streams can be drained.
    CleanedUp,
}

/// What the caller observed, without its payload.
#[derive(Clone, Copy, Debug, PartialEq, Eq, Structural)]
pub enum EventKind {
    Linked,
    MarkedRunning,
    Returned,
    Trapped,
    CleanedUp,
}

/// What the caller observed.
#[derive(Clone, Debug)]
pub enum Event {
    /// Linking succeeded.
    Linked,
    /// The guest thread was marked as running.
    MarkedRunning,
    /// The entry point returned these values.
    Returned { values: Vec<HostValue> },
    /// The entry point ended in a trap, or the call failed at the boundary
    /// of the harness.
    Trapped { diagnostic: String, trace: Vec<String> },
    /// The cleanup was carried out.
    CleanedUp,
}

/// What the caller is to do next.
#[derive(Clone, Copy, Debug, PartialEq, Eq, Structural)]
pub enum Action {
    /// Mark the guest thread as running.
    MarkRunning,
    /// Invoke the entry point, without arguments.
    InvokeEntryPoint,
    /// Clean the execution up, with this exit code in place of the guest's
    /// own if one is given.
    CleanUp { exit_override: Option<i32> },
    /// Drain the captured output and error streams to their ends.
    DrainStreams,
}

/// An event came in a phase that does not expect it. The driver did not
/// move.
#[derive(Clone, Copy, Debug, PartialEq, Eq, Structural)]
pub struct DriverError {
    pub phase: Phase,
    pub event: EventKind,
}

/// How the entry point ended.
#[derive(Clone, Debug)]
pub enum ExecutionResult {
    /// The entry point returned these values.
    Completed { values: Vec<HostValue> },
    /// The entry point ended in a trap; the guest's fault is reported, not
    /// escalated.
    Trapped { diagnostic: String, trace: Vec<String> },
}

impl Event {
    /// The event without its payload.
    pub open spec fn spec_kind(&self) -> EventKind {
        match self {
            Event::Linked => EventKind::Linked,
            Event::MarkedRunning => EventKind::MarkedRunning,
            Event::Returned { .. } => EventKind::Returned,
            Event::Trapped { .. } => EventKind::Trapped,
            Event::CleanedUp => EventKind::CleanedUp,
        }
    }

    /// The event without its payload.
    #[verifier::when_used_as_spec(spec_kind)]
    pub fn kind(&self) -> (kind: EventKind)
        ensures
            kind == self.spec_kind(),
    {
        match self {
            Event::Linked => EventKind::Linked,
            Event::MarkedRunning => EventKind::MarkedRunning,
            Event::Returned { .. } => EventKind::Returned,
            Event::Trapped { .. } => EventKind::Trapped,
            Event::CleanedUp => EventKind::CleanedUp,
        }
    }

    /// The result that the event carries, if it ends the entry point.
    pub open spec fn result(self) -> Option<ExecutionResult> {
        match self {
            Event::Returned { values } => Some(ExecutionResult::Completed { values }),
            Event::Trapped { diagnostic, trace } => Some(
                ExecutionResult::Trapped { diagnostic, trace },
            ),
            _ => None,
        }
    }
}

/// The one step that each phase allows: the phase it leads to and what the
/// caller is to do then. Any other event is out of order.
pub open spec fn transition(phase: Phase, event: EventKind, exit_override: Option<i32>) -> Option<
    (Phase, Action),
> {
    match (phase, event) {
        (Phase::Created, EventKind::Linked) => Some((Phase::Linked, Action::MarkRunning)),
        (Phase::Linked, EventKind::MarkedRunning) => Some((Phase::Running, Action::InvokeEntryPoint)),
        (Phase::Running, EventKind::Returned) => Some(
            (Phase::Completed, Action::CleanUp { exit_override }),
        ),
        (Phase::Running, EventKind::Trapped) => Some(
            (Phase::Trapped, Action::CleanUp { exit_override }),
        ),
        (Phase::Completed, EventKind::CleanedUp) => Some((Phase::CleanedUp, Action::DrainStreams)),
        (Phase::Trapped, EventKind::CleanedUp) => Some((Phase::CleanedUp, Action::DrainStreams)),
        _ => None,
    }
}

/// The phase that a fresh driver reaches over a sequence of events, events
/// out of order being refused.
pub open spec fn phase_after(events: Seq<EventKind>, exit_override: Option<i32>) -> Phase
    decreases events.len(),
{
    if events.len() == 0 {
        Phase::Created
    } else {
        let before = phase_after(events.drop_last(), exit_override);
        match transition(before, events.last(), exit_override) {
            Some((phase, _)) => phase,
            None => before,
        }
    }
}

/// The actions that a fresh driver asks for over a sequence of events, in
/// order; an event out of order asks for nothing.
pub open spec fn actions_after(events: Seq<EventKind>, exit_override: Option<i32>) -> Seq<Action>
    decreases events.len(),
{
    if events.len() == 0 {
        Seq::empty()
    } else {
        let before = phase_after(events.drop_last(), exit_override);
        let actions = actions_after(events.drop_last(), exit_override);
        match transition(before, events.last(), exit_override) {
            Some((_, action)) => actions.push(action),
            None => actions,
        }
    }
}

/// How many of `actions` ask for a cleanup.
pub open spec fn cleanups(actions: Seq<Action>) -> nat
    decreases actions.len(),
{
    if actions.len() == 0 {
        0
    } else {
        cleanups(actions.drop_last()) + if actions.last() is CleanUp {
            1nat
        } else {
            0nat
        }
    }
}

/// How many of `actions` ask for the entry point to be invoked.
pub open spec fn invocations(actions: Seq<Action>) -> nat
    decreases actions.len(),
{
    if actions.len() == 0 {
        0
    } else {
        invocations(actions.drop_last()) + if actions.last() is InvokeEntryPoint {
            1nat
        } else {
            0nat
        }
    }
}

/// Whether the entry point has ended in `phase`, by return or by trap.
pub open spec fn run_ended(phase: Phase) -> bool {
    phase == Phase::Completed || phase == Phase::Trapped || phase == Phase::CleanedUp
}

/// Whether the entry point has been asked for in `phase`.
pub open spec fn run_begun(phase: Phase) -> bool {
    phase == Phase::Running || run_ended(phase)
}

/// Over every sequence of events, the driver asks for a cleanup exactly once
/// as soon as the entry point has ended, whether it returned or trapped, and
/// not at all before; and it asks for the entry point exactly once as soon as
/// the guest thread is marked as running, and not at all before.
pub proof fn lemma_cleanup_exactly_once(events: Seq<EventKind>, exit_override: Option<i32>)
    ensures
        cleanups(actions_after(events, exit_override)) == (if run_ended(
            phase_after(events, exit_override),
        ) {
            1nat
        } else {
            0nat
        }),
        invocations(actions_after(events, exit_override)) == (if run_begun(
            phase_after(events, exit_override),
        ) {
            1nat
        } else {
            0nat
        }),
    decreases events.len(),
{
    if events.len() > 0 {
        lemma_cleanup_exactly_once(events.drop_last(), exit_override);
        let before = phase_after(events.drop_last(), exit_override);
        let actions = actions_after(events.drop_last(), exit_override);
        match transition(before, events.last(), exit_override) {
            Some((_, action)) => {
                assert(actions.push(action).drop_last() =~= actions);
            },
            None => {},
        }
    }
}

/// A cleanup is only ever asked for after the entry point was asked for: in
/// the actions of any sequence of events, every cleanup has an invocation of
/// the entry point before it.
pub proof fn lemma_cleanup_follows_run(events: Seq<EventKind>, exit_override: Option<i32>, i: int)
    requires
        0 <= i < actions_after(events, exit_override).len(),
        actions_after(events, exit_override)[i] is CleanUp,
    ensures
        exists|j: int| 0 <= j < i && actions_after(events, exit_override)[j] is InvokeEntryPoint,
    decreases events.len(),
{
    let all = actions_after(events, exit_override);
    if events.len() > 0 {
        let earlier = events.drop_last();
        let before = phase_after(earlier, exit_override);
        let actions = actions_after(earlier, exit_override);
        if i < actions.len() {
            lemma_cleanup_follows_run(earlier, exit_override, i);
            let j = choose|j: int| 0 <= j < i && actions[j] is InvokeEntryPoint;
            assert(all[j] is InvokeEntryPoint);
        } else {
            assert(before == Phase::Running);
            lemma_cleanup_exactly_once(earlier, exit_override);
            lemma_counted_action_exists(actions);
            let j = choose|j: int| 0 <= j < actions.len() && actions[j] is InvokeEntryPoint;
            assert(all[j] is InvokeEntryPoint);
        }
    }
}

/// Actions of which at least one asks for the entry point hold such an
/// action.
proof fn lemma_counted_action_exists(actions: Seq<Action>)
    requires
        invocations(actions) > 0,
    ensures
        exists|j: int| 0 <= j < actions.len() && actions[j] is InvokeEntryPoint,
    decreases actions.len(),
{
    if actions.last() is InvokeEntryPoint {
        assert(actions[actions.len() - 1] is InvokeEntryPoint);
    } else {
        lemma_counted_action_exists(actions.drop_last());
        let j = choose|j: int| 0 <= j < actions.drop_last().len() && actions.drop_last()[j] is InvokeEntryPoint;
        assert(actions[j] is InvokeEntryPoint);
    }
}

/// The driver of one guest execution.
pub struct ExecutionDriver {
    phase: Phase,
    exit_override: Option<i32>,
    result: Option<ExecutionResult>,
    history: Ghost<Seq<EventKind>>,
}

impl ExecutionDriver {
    #[verifier::type_invariant]
    spec fn well_formed(&self) -> bool {
        &&& self.phase == phase_after(self.history@, self.exit_override)
        &&& self.result is Some <==> run_ended(self.phase)
        &&& self.phase == Phase::Completed ==> self.result->0 is Completed
        &&& self.phase == Phase::Trapped ==> self.result->0 is Trapped
    }

    /// The phase the execution is in.
    pub closed spec fn spec_phase(&self) -> Phase {
        self.phase
    }

    /// The exit code that a cleanup is to use in place of the guest's own.
    pub closed spec fn spec_exit_override(&self) -> Option<i32> {
        self.exit_override
    }

    /// How the entry point ended, once it has.
    pub closed spec fn spec_result(&self) -> Option<ExecutionResult> {
        self.result
    }

    /// The events that the driver accepted, in order.
    pub closed spec fn history(&self) -> Seq<EventKind> {
        self.history@
    }

    /// A driver for an execution on which nothing has happened yet.
    pub fn new(exit_override: Option<i32>) -> (driver: Self)
        ensures
            driver.spec_phase() == Phase::Created,
            driver.spec_exit_override() == exit_override,
            driver.spec_result() is None,
            driver.history() == Seq::<EventKind>::empty(),
    {
        ExecutionDriver {
            phase: Phase::Created,
            exit_override,
            result: None,
            history: Ghost(Seq::empty()),
        }
    }

    /// The phase the execution is in.
    #[verifier::when_used_as_spec(spec_phase)]
    pub fn phase(&self) -> (phase: Phase)
        ensures
            phase == self.spec_phase(),
            phase == phase_after(self.history(), self.spec_exit_override()),
    {
        proof {
            use_type_invariant(self);
        }
        self.phase
    }

    /// How the entry point ended: known from the moment it returned or
    /// trapped, and kept through the cleanup.
    pub fn result(&self) -> (result: Option<&ExecutionResult>)
        ensures
            result is Some <==> run_ended(self.spec_phase()),
            result matches Some(r) ==> Some(*r) == self.spec_result(),
            self.spec_phase() == Phase::Completed ==> result->0 is Completed,
            self.spec_phase() == Phase::Trapped ==> result->0 is Trapped,
    {
        proof {
            use_type_invariant(self);
        }
        self.result.as_ref()
    }

    /// Takes note of an event and says what to do next. An event that the
    /// phase does not expect is refused and changes nothing. The end of the
    /// entry point, by return or by trap, is recorded as the result and is
    /// always answered by the request to clean up.
    pub fn step(&mut self, event: Event) -> (r: Result<Action, DriverError>)
        ensures
            final(self).spec_exit_override() == old(self).spec_exit_override(),
            match transition(old(self).spec_phase(), event.spec_kind(), old(self).spec_exit_override()) {
                Some((phase, action)) => {
                    &&& r == Ok::<Action, DriverError>(action)
                    &&& final(self).spec_phase() == phase
                    &&& final(self).history() == old(self).history().push(event.spec_kind())
                    &&& actions_after(final(self).history(), final(self).spec_exit_override())
                        == actions_after(old(self).history(), old(self).spec_exit_override()).push(
                        action,
                    )
                    &&& final(self).spec_result() == if event.result() is Some {
                        event.result()
                    } else {
                        old(self).spec_result()
                    }
                },
                None => {
                    &&& r == Err::<Action, DriverError>(
                        DriverError { phase: old(self).spec_phase(), event: event.spec_kind() },
                    )
                    &&& final(self).spec_phase() == old(self).spec_phase()
                    &&& final(self).history() == old(self).history()
                    &&& final(self).spec_result() == old(self).spec_result()
                },
            },
    {
        proof {
            use_type_invariant(&*self);
        }
        let phase = self.phase;
        let exit_override = self.exit_override;
        let kind = event.kind();
        let ghost history = self.history@;
        let ghost grown = history.push(kind);
        proof {
            assert(grown.drop_last() =~= history);
        }
        let mut taken = ExecutionDriver::new(exit_override);
        core::mem::swap(self, &mut taken);
        let (next, action, result) = match (phase, event) {
            (Phase::Created, Event::Linked) => (Phase::Linked, Action::MarkRunning, taken.result),
            (Phase::Linked, Event::MarkedRunning) => (
                Phase::Running,
                Action::InvokeEntryPoint,
                taken.result,
            ),
            (Phase::Running, Event::Returned { values }) => (
                Phase::Completed,
                Action::CleanUp { exit_override },
                Some(ExecutionResult::Completed { values }),
            ),
            (Phase::Running, Event::Trapped { diagnostic, trace }) => (
                Phase::Trapped,
                Action::CleanUp { exit_override },
                Some(ExecutionResult::Trapped { diagnostic, trace }),
            ),
            (Phase::Completed, Event::CleanedUp) => (
                Phase::CleanedUp,
                Action::DrainStreams,
                taken.result,
            ),
            (Phase::Trapped, Event::CleanedUp) => (
                Phase::CleanedUp,
                Action::DrainStreams,
                taken.result,
            ),
            _ => {
                *self = taken;
                return Err(DriverError { phase, event: kind });
            },
        };
        *self = ExecutionDriver { phase: next, exit_override, result, history: Ghost(grown) };
        Ok(action)
    }

    /// Ends the execution with the text drained from the captured output
    /// and error streams. There is no report before the cleanup: until then
    /// the driver is handed back as it was.
    pub fn finish(self, stdout: String, stderr: String) -> (r: Result<ExecutionReport, Self>)
        ensures
            self.spec_phase() != Phase::CleanedUp ==> r == Err::<ExecutionReport, Self>(self),
            self.spec_phase() == Phase::CleanedUp ==> (r matches Ok(report) && Some(report.result)
                == self.spec_result() && report.stdout == (if stdout@.len() == 0 {
                None
            } else {
                Some(stdout)
            }) && report.stderr == (if stderr@.len() == 0 {
                None
            } else {
                Some(stderr)
            })),
    {
        proof {
            use_type_invariant(&self);
        }
        match self.phase {
            Phase::CleanedUp => {
                match self.result {
                    Some(result) => Ok(ExecutionReport::new(result, stdout, stderr)),
                    None => {
                        proof {
                            assert(false);
                        }
                        Err(self)
                    },
                }
            },
            _ => Err(self),
        }
    }
}

} // verus!
