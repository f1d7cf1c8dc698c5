//! What holds of every execution, whatever the driver, the engine and the
//! timers do and in whatever order.

use vstd::prelude::*;
use crate::limits::{ConfigurationError, LimitsModel};
use crate::orchestrator::{Action, DrainPolicy, Event, Input, OrchestratorModel, Phase};
use crate::outcome::{ScriptResult, TerminationReason};

verus! {

/// No input in `inputs` is an interception by the heap guard.
pub open spec fn no_heap_guard(inputs: Seq<Input>) -> bool {
    forall|i: int| 0 <= i < inputs.len() ==> !(#[trigger] inputs[i] is NearHeapLimit)
}

/// Every input in `inputs` is a report of the driver: neither the heap guard
/// nor the watchdog intervenes.
pub open spec fn undisturbed(inputs: Seq<Input>) -> bool {
    forall|i: int| 0 <= i < inputs.len() ==> #[trigger] inputs[i] is Deliver
}

/// An execution has exactly one outcome: once it is over, no report, no
/// interception and no elapsed timer changes anything, and the driver is told
/// to finish with that same outcome.
pub proof fn finished_is_final(s: OrchestratorModel, inputs: Seq<Input>)
    requires
        s.finished(),
    ensures
        s.run(inputs) == s,
        s.run(inputs).pending() == Action::Finish(s.outcome().unwrap()),
    decreases inputs.len(),
{
    if inputs.len() > 0 {
        finished_is_final(s, inputs.drop_last());
    }
}

/// A termination request that arrives before the execution is over decides
/// it: however the execution goes on, it does not end as `Completed` nor as
/// `VmError`, but as `MemoryExceeded` or `TimedOut`.
pub proof fn request_before_the_end_prevents_completion(s: OrchestratorModel, inputs: Seq<Input>)
    requires
        s.armed(),
        s.signal.requested(),
    ensures
        s.run(inputs).armed() || s.run(inputs).outcome() == Some(
            Ok::<TerminationReason, ConfigurationError>(TerminationReason::MemoryExceeded),
        ) || s.run(inputs).outcome() == Some(
            Ok::<TerminationReason, ConfigurationError>(TerminationReason::TimedOut),
        ),
        s.run(inputs).signal.requested(),
    decreases inputs.len(),
{
    if inputs.len() > 0 {
        request_before_the_end_prevents_completion(s, inputs.drop_last());
    }
}

/// Once the heap guard has intercepted during an armed execution, the
/// execution can only end as `MemoryExceeded`: whatever the driver reports
/// afterwards, whether or not the watchdog elapses too, and however often the
/// guard is invoked again.
pub proof fn memory_exceeded_is_decided(s: OrchestratorModel, current_limit: usize, later: Seq<Input>)
    requires
        s.armed(),
    ensures
        ({
            let end = s.react(Input::NearHeapLimit { current_limit }).run(later);
            end.armed() || end.outcome() == Some(
                Ok::<TerminationReason, ConfigurationError>(TerminationReason::MemoryExceeded),
            )
        }),
        s.react(Input::NearHeapLimit { current_limit }).run(later).signal.memory_requested,
    decreases later.len(),
{
    if later.len() > 0 {
        memory_exceeded_is_decided(s, current_limit, later.drop_last());
    }
}

/// Once the watchdog has elapsed during an armed execution in which the heap
/// guard neither has intercepted nor intercepts later, the execution can only
/// end as `TimedOut`. This holds from the moment the driver is told to install
/// the guards: also of a timer that runs out before the driver has reported
/// them installed.
pub proof fn timed_out_is_decided(s: OrchestratorModel, later: Seq<Input>)
    requires
        s.armed(),
        !s.signal.memory_requested,
        no_heap_guard(later),
    ensures
        ({
            let end = s.react(Input::TimeoutElapsed).run(later);
            end.armed() || end.outcome() == Some(
                Ok::<TerminationReason, ConfigurationError>(TerminationReason::TimedOut),
            )
        }),
        !s.react(Input::TimeoutElapsed).run(later).signal.memory_requested,
        s.react(Input::TimeoutElapsed).run(later).signal.timeout_requested,
    decreases later.len(),
{
    if later.len() > 0 {
        let before = later.drop_last();
        assert forall|i: int| 0 <= i < before.len() implies !(#[trigger] before[i] is NearHeapLimit) by {
            assert(before[i] == later[i]);
        }
        timed_out_is_decided(s, before);
        assert(!(later.last() is NearHeapLimit)) by {
            assert(later.last() == later[later.len() - 1]);
        }
    }
}

/// Running two sequences one after the other is running their concatenation.
pub proof fn run_in_two_parts(s: OrchestratorModel, first: Seq<Input>, second: Seq<Input>)
    ensures
        s.run(first + second) == s.run(first).run(second),
    decreases second.len(),
{
    if second.len() == 0 {
        assert(first + second == first);
    } else {
        run_in_two_parts(s, first, second.drop_last());
        assert((first + second).drop_last() == first + second.drop_last());
        assert((first + second).last() == second.last());
    }
}

/// Without an interception by the heap guard no memory request is recorded.
pub proof fn no_heap_guard_records_no_memory_request(s: OrchestratorModel, inputs: Seq<Input>)
    requires
        !s.signal.memory_requested,
        no_heap_guard(inputs),
    ensures
        !s.run(inputs).signal.memory_requested,
    decreases inputs.len(),
{
    if inputs.len() > 0 {
        let before = inputs.drop_last();
        assert forall|i: int| 0 <= i < before.len() implies !(#[trigger] before[i] is NearHeapLimit) by {
            assert(before[i] == inputs[i]);
        }
        no_heap_guard_records_no_memory_request(s, before);
        assert(!(inputs.last() is NearHeapLimit)) by {
            assert(inputs.last() == inputs[inputs.len() - 1]);
        }
    }
}

/// The memory ceiling over a whole execution: if the heap guard intercepts at
/// any moment at which the execution is armed, then whatever came before and
/// whatever comes after, the execution can only end as `MemoryExceeded`.
pub proof fn exceeded_ceiling_ends_as_memory_exceeded(
    limits: LimitsModel,
    policy: DrainPolicy,
    before: Seq<Input>,
    current_limit: usize,
    later: Seq<Input>,
)
    requires
        OrchestratorModel::fresh(limits, policy).run(before).armed(),
    ensures
        ({
            let end = OrchestratorModel::fresh(limits, policy).run(
                before.push(Input::NearHeapLimit { current_limit }) + later,
            );
            end.armed() || end.outcome() == Some(
                Ok::<TerminationReason, ConfigurationError>(TerminationReason::MemoryExceeded),
            )
        }),
{
    let start = OrchestratorModel::fresh(limits, policy);
    let intercepted = Input::NearHeapLimit { current_limit };
    run_in_two_parts(start, before.push(intercepted), later);
    run_one_more(start, before, intercepted);
    memory_exceeded_is_decided(start.run(before), current_limit, later);
}

/// The timeout over a whole execution: if the watchdog's timer runs out at
/// any moment at which the execution is armed, and the heap guard never
/// intercepts, then whatever the driver reports before and after, the
/// execution can only end as `TimedOut`: not as `Completed`, not as
/// `MemoryExceeded`, not as `VmError`.
pub proof fn elapsed_timeout_ends_as_timed_out(
    limits: LimitsModel,
    policy: DrainPolicy,
    before: Seq<Input>,
    later: Seq<Input>,
)
    requires
        OrchestratorModel::fresh(limits, policy).run(before).armed(),
        no_heap_guard(before),
        no_heap_guard(later),
    ensures
        ({
            let end = OrchestratorModel::fresh(limits, policy).run(
                before.push(Input::TimeoutElapsed) + later,
            );
            end.armed() || end.outcome() == Some(
                Ok::<TerminationReason, ConfigurationError>(TerminationReason::TimedOut),
            )
        }),
{
    let start = OrchestratorModel::fresh(limits, policy);
    run_in_two_parts(start, before.push(Input::TimeoutElapsed), later);
    run_one_more(start, before, Input::TimeoutElapsed);
    no_heap_guard_records_no_memory_request(start, before);
    timed_out_is_decided(start.run(before), later);
}

/// The heap guard and the watchdog may fire in either order: the state is the
/// same, and the execution can then only end as `MemoryExceeded`.
pub proof fn simultaneous_requests_end_as_memory_exceeded(
    s: OrchestratorModel,
    current_limit: usize,
    later: Seq<Input>,
)
    requires
        s.armed(),
    ensures
        s.react(Input::NearHeapLimit { current_limit }).react(Input::TimeoutElapsed) == s.react(
            Input::TimeoutElapsed,
        ).react(Input::NearHeapLimit { current_limit }),
        ({
            let end = s.react(Input::TimeoutElapsed).react(Input::NearHeapLimit { current_limit }).run(
                later,
            );
            end.armed() || end.outcome() == Some(
                Ok::<TerminationReason, ConfigurationError>(TerminationReason::MemoryExceeded),
            )
        }),
{
    memory_exceeded_is_decided(s.react(Input::TimeoutElapsed), current_limit, later);
}

/// While neither the heap guard nor the watchdog intervenes, no request is
/// recorded, and an execution with a timeout above zero does not end as
/// `TimedOut` nor as `MemoryExceeded`.
pub proof fn undisturbed_execution_meets_no_limit(
    limits: LimitsModel,
    policy: DrainPolicy,
    inputs: Seq<Input>,
)
    requires
        limits.timeout_ms > 0,
        undisturbed(inputs),
    ensures
        ({
            let end = OrchestratorModel::fresh(limits, policy).run(inputs);
            &&& end.limits == limits
            &&& end.policy == policy
            &&& !end.signal.requested()
            &&& end.outcome() != Some(
                Ok::<TerminationReason, ConfigurationError>(TerminationReason::TimedOut),
            )
            &&& end.outcome() != Some(
                Ok::<TerminationReason, ConfigurationError>(TerminationReason::MemoryExceeded),
            )
        }),
    decreases inputs.len(),
{
    if inputs.len() > 0 {
        let before = inputs.drop_last();
        assert forall|i: int| 0 <= i < before.len() implies #[trigger] before[i] is Deliver by {
            assert(before[i] == inputs[i]);
        }
        undisturbed_execution_meets_no_limit(limits, policy, before);
        assert(inputs.last() is Deliver) by {
            assert(inputs.last() == inputs[inputs.len() - 1]);
        }
    }
}

/// Running one input more is reacting to it after the run so far.
pub proof fn run_one_more(s: OrchestratorModel, inputs: Seq<Input>, input: Input)
    ensures
        s.run(inputs.push(input)) == s.run(inputs).react(input),
{
    assert(inputs.push(input).drop_last() == inputs);
    assert(inputs.push(input).last() == input);
}

/// The reports of a driver for whom everything up to evaluation succeeds.
pub open spec fn setup_reports() -> Seq<Input> {
    seq![
        Input::Deliver(Event::Resolved(Ok(()))),
        Input::Deliver(Event::IsolateCreated(Ok(()))),
        Input::Deliver(Event::GuardsInstalled),
        Input::Deliver(Event::Loaded(Ok(()))),
    ]
}

/// The reports of an execution in which everything succeeds and evaluation
/// settles with `result`, while the event loop shows `event_loop`.
pub open spec fn clean_reports(result: ScriptResult, event_loop: Option<Result<(), String>>) -> Seq<
    Input,
> {
    setup_reports().push(Input::Deliver(Event::Progress { settlement: Some(result), event_loop }))
}

/// The reports of an execution in which evaluation settles with `result`
/// and the event loop then drains cleanly. What the event loop shows at
/// settlement, and what is seen of settlement during the drain, is free.
pub open spec fn drained_reports(
    result: ScriptResult,
    at_settlement: Option<Result<(), String>>,
    during_drain: Option<ScriptResult>,
) -> Seq<Input> {
    clean_reports(result, at_settlement).push(
        Input::Deliver(Event::Progress { settlement: during_drain, event_loop: Some(Ok(())) }),
    )
}

/// The reports of an execution in which the event loop ends cleanly before
/// evaluation settles with `result`.
pub open spec fn late_settlement_reports(
    result: ScriptResult,
    event_loop: Option<Result<(), String>>,
) -> Seq<Input> {
    setup_reports().push(
        Input::Deliver(Event::Progress { settlement: None, event_loop: Some(Ok(())) }),
    ).push(Input::Deliver(Event::Progress { settlement: Some(result), event_loop }))
}

/// Under a timeout above zero, a driver for whom everything succeeds arrives
/// at the race with no termination request recorded.
pub proof fn setup_reaches_the_race(limits: LimitsModel, policy: DrainPolicy)
    requires
        limits.timeout_ms > 0,
    ensures
        OrchestratorModel::fresh(limits, policy).run(setup_reports()) == OrchestratorModel::fresh(
            limits,
            policy,
        ).enter(Phase::Racing),
{
    let start = OrchestratorModel::fresh(limits, policy);
    let r4 = setup_reports();
    let r3 = r4.drop_last();
    let r2 = r3.drop_last();
    let r1 = r2.drop_last();
    let r0 = r1.drop_last();
    assert(r0.len() == 0);
    assert(start.run(r0) == start);
    assert(start.run(r1) == start.run(r0).react(r1.last()));
    assert(start.run(r1) == start.enter(Phase::Creating));
    assert(start.run(r2) == start.run(r1).react(r2.last()));
    assert(start.run(r2) == start.enter(Phase::Guarding));
    assert(start.run(r3) == start.run(r2).react(r3.last()));
    assert(start.run(r3) == start.enter(Phase::Loading));
    assert(start.run(r4) == start.run(r3).react(r4.last()));
}

/// Under a timeout above zero, with settlement final and no intervention, an
/// execution whose evaluation settles ends as `Completed` with exactly the
/// result that evaluation settled with, whatever the event loop shows at that
/// moment. The end state is a function of limits and reports, so repeating
/// the execution repeats the outcome.
pub proof fn generous_limits_complete(
    limits: LimitsModel,
    result: ScriptResult,
    event_loop: Option<Result<(), String>>,
)
    requires
        limits.timeout_ms > 0,
    ensures
        OrchestratorModel::fresh(limits, DrainPolicy::SettlementFinal).run(
            clean_reports(result, event_loop),
        ).outcome() == Some(
            Ok::<TerminationReason, ConfigurationError>(TerminationReason::Completed(result)),
        ),
{
    let start = OrchestratorModel::fresh(limits, DrainPolicy::SettlementFinal);
    setup_reaches_the_race(limits, DrainPolicy::SettlementFinal);
    run_one_more(
        start,
        setup_reports(),
        Input::Deliver(Event::Progress { settlement: Some(result), event_loop }),
    );
}

/// The same where the event loop is drained after settlement: with no
/// intervention and a drain that ends cleanly, the execution ends as
/// `Completed` with exactly the result that evaluation settled with.
pub proof fn generous_limits_complete_after_the_drain(
    limits: LimitsModel,
    result: ScriptResult,
    at_settlement: Option<Result<(), String>>,
    during_drain: Option<ScriptResult>,
)
    requires
        limits.timeout_ms > 0,
    ensures
        OrchestratorModel::fresh(limits, DrainPolicy::DrainAfterSettlement).run(
            clean_reports(result, at_settlement),
        ).phase == Phase::Draining(result),
        OrchestratorModel::fresh(limits, DrainPolicy::DrainAfterSettlement).run(
            drained_reports(result, at_settlement, during_drain),
        ).outcome() == Some(
            Ok::<TerminationReason, ConfigurationError>(TerminationReason::Completed(result)),
        ),
{
    let start = OrchestratorModel::fresh(limits, DrainPolicy::DrainAfterSettlement);
    setup_reaches_the_race(limits, DrainPolicy::DrainAfterSettlement);
    run_one_more(
        start,
        setup_reports(),
        Input::Deliver(Event::Progress { settlement: Some(result), event_loop: at_settlement }),
    );
    run_one_more(
        start,
        clean_reports(result, at_settlement),
        Input::Deliver(Event::Progress { settlement: during_drain, event_loop: Some(Ok(())) }),
    );
}

/// The same where the event loop ends cleanly before evaluation settles:
/// under either drain policy and with no intervention, the settlement that
/// is then awaited ends the execution as `Completed` with exactly its result.
pub proof fn generous_limits_complete_after_the_event_loop(
    limits: LimitsModel,
    policy: DrainPolicy,
    result: ScriptResult,
    event_loop: Option<Result<(), String>>,
)
    requires
        limits.timeout_ms > 0,
    ensures
        OrchestratorModel::fresh(limits, policy).run(
            late_settlement_reports(result, event_loop),
        ).outcome() == Some(
            Ok::<TerminationReason, ConfigurationError>(TerminationReason::Completed(result)),
        ),
{
    let start = OrchestratorModel::fresh(limits, policy);
    let waiting = Input::Deliver(Event::Progress { settlement: None, event_loop: Some(Ok(())) });
    setup_reaches_the_race(limits, policy);
    run_one_more(start, setup_reports(), waiting);
    run_one_more(
        start,
        setup_reports().push(waiting),
        Input::Deliver(Event::Progress { settlement: Some(result), event_loop }),
    );
}

/// A module reference that cannot be resolved ends the execution with a
/// configuration error before anything is allocated: the driver is never told
/// to create an isolate, whatever happens afterwards.
pub proof fn unresolved_module_creates_no_isolate(
    limits: LimitsModel,
    policy: DrainPolicy,
    why: String,
    later: Seq<Input>,
)
    ensures
        OrchestratorModel::fresh(limits, policy).pending() == Action::ResolveModule,
        OrchestratorModel::fresh(limits, policy).deliver(Event::Resolved(Err(why))).run(
            later,
        ).pending() == Action::Finish(Err(ConfigurationError::UnresolvableModule(why))),
{
    finished_is_final(
        OrchestratorModel::fresh(limits, policy).deliver(Event::Resolved(Err(why))),
        later,
    );
}

/// When evaluation and event loop are ready at the same moment, settlement
/// decides: what the event loop shows does not change the state that the
/// race is left in.
pub proof fn settlement_has_priority(
    s: OrchestratorModel,
    result: ScriptResult,
    event_loop: Option<Result<(), String>>,
)
    requires
        s.phase is Racing,
    ensures
        s.deliver(Event::Progress { settlement: Some(result), event_loop }) == s.deliver(
            Event::Progress { settlement: Some(result), event_loop: None },
        ),
{
}

} // verus!
