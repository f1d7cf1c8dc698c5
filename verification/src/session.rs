//! Sandbox sessions: one request, one fresh orchestrator, no state shared
//! with any other session.

use vstd::prelude::*;
use crate::limits::{ConfigurationError, ResourceLimits};
use crate::orchestrator::{DrainPolicy, Input, Orchestrator, OrchestratorModel};
use crate::outcome::TerminationReason;

verus! {

/// One unit of work: which module to run, and under which limits.
#[derive(Debug)]
pub struct ExecutionRequest {
    pub module_reference: String,
    pub limits: ResourceLimits,
}

/// The life of one request: the module it names and the orchestrator that was
/// made for it and for nothing else.
#[derive(Debug)]
pub struct SandboxSession {
    pub module_reference: String,
    pub orchestrator: Orchestrator,
}

/// What a session's execution context came to when it was joined: the outcome
/// it returned, or the text of the fault that it died of.
pub open spec fn contained(
    joined: Result<Result<TerminationReason, ConfigurationError>, String>,
) -> Result<TerminationReason, ConfigurationError> {
    match joined {
        Ok(outcome) => outcome,
        Err(fault) => Ok(TerminationReason::VmError(fault)),
    }
}

impl SandboxSession {
    /// Opens a session for `request`, with an orchestrator that has done
    /// nothing yet.
    pub fn open(request: ExecutionRequest, policy: DrainPolicy) -> (session: SandboxSession)
        ensures
            session.module_reference == request.module_reference,
            session.orchestrator@ == OrchestratorModel::fresh(request.limits@, policy),
    {
        let ExecutionRequest { module_reference, limits } = request;
        SandboxSession { module_reference, orchestrator: Orchestrator::new(limits, policy) }
    }

    /// Turns what joining a session's execution context gave into the outcome
    /// of that request: a fault of the context becomes a `VmError` of this
    /// request and goes no further.
    pub fn contain(joined: Result<Result<TerminationReason, ConfigurationError>, String>) -> (outcome:
        Result<TerminationReason, ConfigurationError>)
        ensures
            outcome == contained(joined),
    {
        match joined {
            Ok(outcome) => outcome,
            Err(fault) => Ok(TerminationReason::VmError(fault)),
        }
    }
}

/// One input to one of two sessions that run side by side.
pub ghost struct Turn {
    pub to_first: bool,
    pub input: Input,
}

/// Two sessions after the inputs of `schedule`, each input going to the
/// session that its turn names.
pub open spec fn side_by_side(
    first: OrchestratorModel,
    second: OrchestratorModel,
    schedule: Seq<Turn>,
) -> (OrchestratorModel, OrchestratorModel)
    decreases schedule.len(),
{
    if schedule.len() == 0 {
        (first, second)
    } else {
        let (a, b) = side_by_side(first, second, schedule.drop_last());
        let turn = schedule.last();
        if turn.to_first {
            (a.react(turn.input), b)
        } else {
            (a, b.react(turn.input))
        }
    }
}

/// The inputs that `schedule` gives to one of the two sessions, in order.
pub open spec fn inputs_of(schedule: Seq<Turn>, first: bool) -> Seq<Input>
    decreases schedule.len(),
{
    if schedule.len() == 0 {
        Seq::empty()
    } else {
        let earlier = inputs_of(schedule.drop_last(), first);
        if schedule.last().to_first == first {
            earlier.push(schedule.last().input)
        } else {
            earlier
        }
    }
}

/// Sessions are isolated: however the inputs of two sessions interleave, each
/// session ends where it would have ended alone on its own inputs. What
/// happens to one of them, a termination included, leaves the outcome of the
/// other untouched.
pub proof fn sessions_do_not_interfere(
    first: OrchestratorModel,
    second: OrchestratorModel,
    schedule: Seq<Turn>,
)
    ensures
        side_by_side(first, second, schedule).0 == first.run(inputs_of(schedule, true)),
        side_by_side(first, second, schedule).1 == second.run(inputs_of(schedule, false)),
    decreases schedule.len(),
{
    if schedule.len() > 0 {
        let earlier = schedule.drop_last();
        let turn = schedule.last();
        sessions_do_not_interfere(first, second, earlier);
        let own = if turn.to_first {
            inputs_of(earlier, true)
        } else {
            inputs_of(earlier, false)
        };
        assert(own.push(turn.input).drop_last() == own);
        assert(own.push(turn.input).last() == turn.input);
    }
}

} // verus!
