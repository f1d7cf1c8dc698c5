//! The execution orchestrator: one execution from module resolution to its
//! single outcome.
//!
//! The orchestrator performs no work on the engine itself. It is told what
//! happened ([`Event`]) and answers what has to be done next ([`Action`]); a
//! driver performs the action and reports the next event. The heap guard and
//! the watchdog reach it through [`Orchestrator::near_heap_limit`] and
//! [`Orchestrator::timeout_elapsed`], from whatever context they run in: the
//! driver serialises the calls, so that each of them is one atomic step.
//!
//! Three choices are fixed here. Evaluation settlement is final unless the
//! caller asks for [`DrainPolicy::DrainAfterSettlement`], in which case the
//! execution ends only when the event loop has drained. A timeout of zero
//! means fail-fast: the execution ends as `TimedOut` as soon as the module
//! reference is resolved, and no isolate is created. A termination request
//! counts from the moment the driver is told to install the guards, not only
//! from its report that they are installed: a timer that runs out in between
//! is not lost.

use vstd::prelude::*;
use crate::guard::{intercept, raise_limit, raised_limit, HeapGuardVerdict};
use crate::limits::{ConfigurationError, LimitsModel, ResourceLimits};
use crate::outcome::{copy_outcome, ScriptResult, TerminationReason};
use crate::signal::{SignalModel, TerminationSignal, TerminationSource};

verus! {

/// Whether the event loop is drained after evaluation has settled.
#[derive(Debug, Clone, Copy, PartialEq, Eq, Structural)]
pub enum DrainPolicy {
    /// Settlement ends the execution.
    SettlementFinal,
    /// After settlement the event loop runs until it has nothing pending; an
    /// error of the loop during the drain ends the execution as `VmError`.
    DrainAfterSettlement,
}

/// Where an execution stands.
#[derive(Debug, PartialEq, Eq)]
pub enum Phase {
    /// The module reference is being resolved; nothing is allocated.
    Resolving,
    /// The isolate is being created with the heap ceiling.
    Creating,
    /// The heap guard and the watchdog are being installed; a request of
    /// either counts already.
    Guarding,
    /// The module is being loaded.
    Loading,
    /// Evaluation has begun; settlement races the event loop.
    Racing,
    /// The event loop finished cleanly; only settlement is awaited, and it
    /// ends the execution under either drain policy.
    AwaitingSettlement,
    /// Evaluation settled with the given result; the event loop is draining.
    Draining(ScriptResult),
    /// The execution is over, with its outcome.
    Finished(Result<TerminationReason, ConfigurationError>),
}

/// What the driver reports.
#[derive(Debug, PartialEq, Eq)]
pub enum Event {
    /// The module reference was resolved, or could not be.
    Resolved(Result<(), String>),
    /// The isolate was created, or the engine refused.
    IsolateCreated(Result<(), String>),
    /// The heap guard is registered and the watchdog is armed.
    GuardsInstalled,
    /// The module was loaded, or loading failed.
    Loaded(Result<(), String>),
    /// What was observed of evaluation and event loop at one moment: for each,
    /// how it ended, or `None` while it is pending or was not looked at. Where
    /// both have ended, settlement decides.
    Progress { settlement: Option<ScriptResult>, event_loop: Option<Result<(), String>> },
}

/// What the driver has to do next.
#[derive(Debug, PartialEq, Eq)]
pub enum Action {
    /// Resolve the module reference and report `Resolved`.
    ResolveModule,
    /// Create a fresh isolate with these heap limits and report
    /// `IsolateCreated`. A floor of zero leaves the initial size to the engine.
    CreateIsolate { heap_floor: usize, heap_ceiling: usize },
    /// Register the heap guard, arm the watchdog with this timeout, and report
    /// `GuardsInstalled`. Either may be heard from before the report is in.
    InstallGuards { heap_ceiling: usize, timeout_ms: u64 },
    /// Load the module and report `Loaded`.
    LoadModule,
    /// Begin evaluation if it has not begun, wait until settlement or event
    /// loop is ready, looking at settlement first, and report `Progress`.
    Evaluate,
    /// Wait for settlement and report it in `Progress`.
    AwaitSettlement,
    /// Run the event loop until it ends and report it in `Progress`.
    DrainEventLoop,
    /// Cancel the watchdog, tear down the isolate if there is one, and hand
    /// the outcome to the caller.
    Finish(Result<TerminationReason, ConfigurationError>),
}

/// Anything that can happen to an execution: a report of the driver, an
/// interception by the heap guard, or the watchdog's timer running out.
pub ghost enum Input {
    Deliver(Event),
    NearHeapLimit { current_limit: usize },
    TimeoutElapsed,
}

/// Mathematical content of an [`Orchestrator`].
pub ghost struct OrchestratorModel {
    pub limits: LimitsModel,
    pub policy: DrainPolicy,
    pub phase: Phase,
    pub signal: SignalModel,
}

impl OrchestratorModel {
    /// An orchestrator that has done nothing yet.
    pub open spec fn fresh(limits: LimitsModel, policy: DrainPolicy) -> OrchestratorModel {
        OrchestratorModel { limits, policy, phase: Phase::Resolving, signal: SignalModel::idle() }
    }

    /// Whether the execution is over.
    pub open spec fn finished(self) -> bool {
        self.phase is Finished
    }

    /// Whether the driver has reported the guards installed and the
    /// execution is not over. The span begins with the report
    /// `GuardsInstalled`, not with the arming that precedes it.
    pub open spec fn supervised(self) -> bool {
        self.phase is Loading || self.phase is Racing || self.phase is AwaitingSettlement
            || self.phase is Draining
    }

    /// Whether a termination request counts: from the moment the driver is
    /// told to install the guards until the execution is over. A timer that
    /// runs out, or an interception that comes, while the guards are still
    /// being installed is a request like any later one.
    pub open spec fn armed(self) -> bool {
        self.phase is Guarding || self.supervised()
    }

    /// The outcome, once the execution is over.
    pub open spec fn outcome(self) -> Option<Result<TerminationReason, ConfigurationError>> {
        match self.phase {
            Phase::Finished(outcome) => Some(outcome),
            _ => None,
        }
    }

    /// The same execution in another phase.
    pub open spec fn enter(self, phase: Phase) -> OrchestratorModel {
        OrchestratorModel { phase, ..self }
    }

    /// The end of an execution under guard that would end with `fallback` if
    /// nobody had asked for termination.
    pub open spec fn finish(self, fallback: TerminationReason) -> OrchestratorModel {
        self.enter(Phase::Finished(Ok(self.signal.classify(fallback))))
    }

    /// The orchestrator after the driver has reported `event`. An event that
    /// the phase does not await changes nothing.
    pub open spec fn deliver(self, event: Event) -> OrchestratorModel {
        match (self.phase, event) {
            (Phase::Resolving, Event::Resolved(Ok(_))) => if self.limits.timeout_ms == 0 {
                self.enter(Phase::Finished(Ok(TerminationReason::TimedOut)))
            } else {
                self.enter(Phase::Creating)
            },
            (Phase::Resolving, Event::Resolved(Err(why))) => self.enter(
                Phase::Finished(Err(ConfigurationError::UnresolvableModule(why))),
            ),
            (Phase::Creating, Event::IsolateCreated(Ok(_))) => self.enter(Phase::Guarding),
            (Phase::Creating, Event::IsolateCreated(Err(why))) => self.enter(
                Phase::Finished(Err(ConfigurationError::IsolateRejected(why))),
            ),
            (Phase::Guarding, Event::GuardsInstalled) => self.enter(Phase::Loading),
            (Phase::Loading, Event::Loaded(Ok(_))) => self.enter(Phase::Racing),
            (Phase::Loading, Event::Loaded(Err(detail))) => self.finish(
                TerminationReason::VmError(detail),
            ),
            (Phase::Racing, Event::Progress { settlement: Some(result), .. }) => match self.policy {
                DrainPolicy::SettlementFinal => self.finish(TerminationReason::Completed(result)),
                DrainPolicy::DrainAfterSettlement => if self.signal.requested() {
                    self.finish(TerminationReason::Completed(result))
                } else {
                    self.enter(Phase::Draining(result))
                },
            },
            (Phase::Racing, Event::Progress { settlement: None, event_loop: Some(Err(detail)) }) => self.finish(
                TerminationReason::VmError(detail),
            ),
            (Phase::Racing, Event::Progress { settlement: None, event_loop: Some(Ok(_)) }) => self.enter(
                Phase::AwaitingSettlement,
            ),
            (Phase::AwaitingSettlement, Event::Progress { settlement: Some(result), .. }) => self.finish(
                TerminationReason::Completed(result),
            ),
            (Phase::Draining(result), Event::Progress { event_loop: Some(Ok(_)), .. }) => self.finish(
                TerminationReason::Completed(result),
            ),
            (Phase::Draining(_), Event::Progress { event_loop: Some(Err(detail)), .. }) => self.finish(
                TerminationReason::VmError(detail),
            ),
            _ => self,
        }
    }

    /// What the driver has to do in this state.
    pub open spec fn pending(self) -> Action {
        match self.phase {
            Phase::Resolving => Action::ResolveModule,
            Phase::Creating => Action::CreateIsolate {
                heap_floor: 0,
                heap_ceiling: self.limits.memory_ceiling_bytes as usize,
            },
            Phase::Guarding => Action::InstallGuards {
                heap_ceiling: self.limits.memory_ceiling_bytes as usize,
                timeout_ms: self.limits.timeout_ms as u64,
            },
            Phase::Loading => Action::LoadModule,
            Phase::Racing => Action::Evaluate,
            Phase::AwaitingSettlement => Action::AwaitSettlement,
            Phase::Draining(_) => Action::DrainEventLoop,
            Phase::Finished(outcome) => Action::Finish(outcome),
        }
    }

    /// The orchestrator after the engine has reported that heap use nears its
    /// limit. The request counts while the execution is armed.
    pub open spec fn near_heap_limit(self) -> OrchestratorModel {
        if self.armed() {
            OrchestratorModel { signal: self.signal.request(TerminationSource::HeapGuard), ..self }
        } else {
            self
        }
    }

    /// What the heap guard answers in this state to a report of `current_limit`.
    pub open spec fn heap_guard_verdict(self, current_limit: usize) -> HeapGuardVerdict {
        HeapGuardVerdict { terminate: self.armed(), new_limit: raised_limit(current_limit) }
    }

    /// The orchestrator after the watchdog's timer has elapsed. The request
    /// counts while the execution is armed, so also when the timer runs out
    /// before the driver has reported the guards installed.
    pub open spec fn timeout_elapsed(self) -> OrchestratorModel {
        if self.armed() {
            OrchestratorModel { signal: self.signal.request(TerminationSource::Watchdog), ..self }
        } else {
            self
        }
    }

    /// The orchestrator after one input.
    pub open spec fn react(self, input: Input) -> OrchestratorModel {
        match input {
            Input::Deliver(event) => self.deliver(event),
            Input::NearHeapLimit { .. } => self.near_heap_limit(),
            Input::TimeoutElapsed => self.timeout_elapsed(),
        }
    }

    /// The orchestrator after a sequence of inputs, taken in order.
    pub open spec fn run(self, inputs: Seq<Input>) -> OrchestratorModel
        decreases inputs.len(),
    {
        if inputs.len() == 0 {
            self
        } else {
            self.run(inputs.drop_last()).react(inputs.last())
        }
    }
}

/// One execution: its limits, where it stands, and who has asked for
/// termination.
#[derive(Debug)]
pub struct Orchestrator {
    limits: ResourceLimits,
    policy: DrainPolicy,
    phase: Phase,
    signal: TerminationSignal,
}

impl View for Orchestrator {
    type V = OrchestratorModel;

    closed spec fn view(&self) -> OrchestratorModel {
        OrchestratorModel {
            limits: self.limits@,
            policy: self.policy,
            phase: self.phase,
            signal: self.signal@,
        }
    }
}

impl Orchestrator {
    /// An orchestrator for one execution under `limits`. Its first pending
    /// action is to resolve the module reference.
    pub fn new(limits: ResourceLimits, policy: DrainPolicy) -> (orchestrator: Orchestrator)
        ensures
            orchestrator@ == OrchestratorModel::fresh(limits@, policy),
    {
        Orchestrator { limits, policy, phase: Phase::Resolving, signal: TerminationSignal::new() }
    }

    /// The limits of this execution.
    pub fn limits(&self) -> (limits: ResourceLimits)
        ensures
            limits@ == self@.limits,
    {
        self.limits
    }

    /// The drain policy of this execution.
    pub fn policy(&self) -> (policy: DrainPolicy)
        ensures
            policy == self@.policy,
    {
        self.policy
    }

    /// Whether the execution is over.
    pub fn is_finished(&self) -> (b: bool)
        ensures
            b == self@.finished(),
    {
        match &self.phase {
            Phase::Finished(_) => true,
            _ => false,
        }
    }

    /// Whether the guards have been reported installed and the execution is
    /// not over.
    pub fn is_supervised(&self) -> (b: bool)
        ensures
            b == self@.supervised(),
    {
        match &self.phase {
            Phase::Loading => true,
            Phase::Racing => true,
            Phase::AwaitingSettlement => true,
            Phase::Draining(_) => true,
            _ => false,
        }
    }

    /// Whether a termination request counts now.
    pub fn is_armed(&self) -> (b: bool)
        ensures
            b == self@.armed(),
    {
        match &self.phase {
            Phase::Guarding => true,
            _ => self.is_supervised(),
        }
    }

    /// The outcome, once the execution is over.
    pub fn outcome(&self) -> (outcome: Option<Result<TerminationReason, ConfigurationError>>)
        ensures
            outcome == self@.outcome(),
    {
        match &self.phase {
            Phase::Finished(outcome) => Some(copy_outcome(outcome)),
            _ => None,
        }
    }

    /// Who is named as the cause of termination, if anyone has asked.
    pub fn cause(&self) -> (cause: Option<TerminationSource>)
        ensures
            cause == self@.signal.cause(),
    {
        self.signal.cause()
    }

    /// What the driver has to do now.
    pub fn pending(&self) -> (action: Action)
        ensures
            action == self@.pending(),
    {
        match &self.phase {
            Phase::Resolving => Action::ResolveModule,
            Phase::Creating => Action::CreateIsolate {
                heap_floor: 0,
                heap_ceiling: self.limits.heap_ceiling(),
            },
            Phase::Guarding => Action::InstallGuards {
                heap_ceiling: self.limits.heap_ceiling(),
                timeout_ms: self.limits.timeout_ms(),
            },
            Phase::Loading => Action::LoadModule,
            Phase::Racing => Action::Evaluate,
            Phase::AwaitingSettlement => Action::AwaitSettlement,
            Phase::Draining(_) => Action::DrainEventLoop,
            Phase::Finished(outcome) => Action::Finish(copy_outcome(outcome)),
        }
    }

    /// Takes the driver's report and answers with what to do next.
    pub fn deliver(&mut self, event: Event) -> (action: Action)
        ensures
            final(self)@ == old(self)@.deliver(event),
            action == final(self)@.pending(),
    {
        let next: Option<Phase> = match event {
            Event::Resolved(resolution) => match (&self.phase, resolution) {
                (Phase::Resolving, Ok(_)) => if self.limits.fails_fast() {
                    Some(Phase::Finished(Ok(TerminationReason::TimedOut)))
                } else {
                    Some(Phase::Creating)
                },
                (Phase::Resolving, Err(why)) => Some(
                    Phase::Finished(Err(ConfigurationError::UnresolvableModule(why))),
                ),
                _ => None,
            },
            Event::IsolateCreated(creation) => match (&self.phase, creation) {
                (Phase::Creating, Ok(_)) => Some(Phase::Guarding),
                (Phase::Creating, Err(why)) => Some(
                    Phase::Finished(Err(ConfigurationError::IsolateRejected(why))),
                ),
                _ => None,
            },
            Event::GuardsInstalled => match &self.phase {
                Phase::Guarding => Some(Phase::Loading),
                _ => None,
            },
            Event::Loaded(load) => match (&self.phase, load) {
                (Phase::Loading, Ok(_)) => Some(Phase::Racing),
                (Phase::Loading, Err(detail)) => Some(self.end(TerminationReason::VmError(detail))),
                _ => None,
            },
            Event::Progress { settlement, event_loop } => match &self.phase {
                Phase::Racing => match (settlement, event_loop) {
                    (Some(result), _) => match self.policy {
                        DrainPolicy::SettlementFinal => Some(
                            self.end(TerminationReason::Completed(result)),
                        ),
                        DrainPolicy::DrainAfterSettlement => if self.signal.is_requested() {
                            Some(self.end(TerminationReason::Completed(result)))
                        } else {
                            Some(Phase::Draining(result))
                        },
                    },
                    (None, Some(Err(detail))) => Some(self.end(TerminationReason::VmError(detail))),
                    (None, Some(Ok(_))) => Some(Phase::AwaitingSettlement),
                    (None, None) => None,
                },
                Phase::AwaitingSettlement => match settlement {
                    Some(result) => Some(self.end(TerminationReason::Completed(result))),
                    None => None,
                },
                Phase::Draining(result) => match event_loop {
                    Some(Ok(_)) => Some(self.end(TerminationReason::Completed(result.clone()))),
                    Some(Err(detail)) => Some(self.end(TerminationReason::VmError(detail))),
                    None => None,
                },
                _ => None,
            },
        };
        match next {
            Some(phase) => {
                self.phase = phase;
            },
            None => {},
        }
        self.pending()
    }

    /// The heap guard: the engine reports that heap use nears `current_limit`.
    /// While the execution is armed the request is recorded and the verdict
    /// asks for termination; in every state the verdict grants a larger
    /// limit. It may be invoked any number of times.
    pub fn near_heap_limit(&mut self, current_limit: usize) -> (verdict: HeapGuardVerdict)
        ensures
            final(self)@ == old(self)@.near_heap_limit(),
            verdict == old(self)@.heap_guard_verdict(current_limit),
    {
        if self.is_armed() {
            let new_limit = intercept(&mut self.signal, current_limit);
            HeapGuardVerdict { terminate: true, new_limit }
        } else {
            HeapGuardVerdict { terminate: false, new_limit: raise_limit(current_limit) }
        }
    }

    /// The watchdog: the timer armed with the timeout has elapsed. Returns
    /// whether the isolate is to be told to stop, which is so while the
    /// execution is armed: from the moment the driver is told to install the
    /// guards, whether or not it has reported them installed yet. After the
    /// end the call has no effect.
    pub fn timeout_elapsed(&mut self) -> (terminate: bool)
        ensures
            final(self)@ == old(self)@.timeout_elapsed(),
            terminate == (old(self)@.phase is Guarding || old(self)@.supervised()),
    {
        if self.is_armed() {
            self.signal.request(TerminationSource::Watchdog);
            true
        } else {
            false
        }
    }

    fn end(&self, fallback: TerminationReason) -> (phase: Phase)
        ensures
            phase == Phase::Finished(Ok(self@.signal.classify(fallback))),
    {
        Phase::Finished(Ok(self.signal.classify(fallback)))
    }
}

} // verus!
