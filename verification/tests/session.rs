use script_sandbox::{
    Action, ConfigurationError, DrainPolicy, Event, ExecutionRequest, ResourceLimits,
    SandboxSession, ScriptResult, TerminationReason,
};

fn session(module: &str, memory_mib: u64, timeout_ms: u64) -> SandboxSession {
    let limits = ResourceLimits::new(memory_mib * 1024 * 1024, timeout_ms).unwrap();
    SandboxSession::open(
        ExecutionRequest { module_reference: module.to_string(), limits },
        DrainPolicy::SettlementFinal,
    )
}

fn settled(result: ScriptResult) -> Event {
    Event::Progress { settlement: Some(result), event_loop: None }
}

#[test]
fn open_starts_at_resolution() {
    let s = session("js/hello.js", 512, 5000);
    assert_eq!(s.module_reference, "js/hello.js");
    assert_eq!(s.orchestrator.pending(), Action::ResolveModule);
    assert_eq!(s.orchestrator.limits().memory_ceiling_bytes(), 536_870_912);
    assert_eq!(s.orchestrator.limits().timeout_ms(), 5000);
}

#[test]
fn contain_passes_a_returned_outcome_on() {
    assert_eq!(
        SandboxSession::contain(Ok(Ok(TerminationReason::TimedOut))),
        Ok(TerminationReason::TimedOut)
    );
    assert_eq!(
        SandboxSession::contain(Ok(Err(ConfigurationError::ZeroMemoryCeiling))),
        Err(ConfigurationError::ZeroMemoryCeiling)
    );
    assert_eq!(
        SandboxSession::contain(Ok(Ok(TerminationReason::Completed(ScriptResult::Success)))),
        Ok(TerminationReason::Completed(ScriptResult::Success))
    );
}

#[test]
fn contain_turns_a_fault_into_a_vm_error() {
    assert_eq!(
        SandboxSession::contain(Err("session thread panicked".to_string())),
        Ok(TerminationReason::VmError("session thread panicked".to_string()))
    );
}

#[test]
fn a_terminated_session_leaves_its_neighbour_alone() {
    let mut hungry = session("js/alloc.js", 10, 10_000);
    let mut steady = session("js/long.js", 512, 5000);
    hungry.orchestrator.deliver(Event::Resolved(Ok(())));
    steady.orchestrator.deliver(Event::Resolved(Ok(())));
    hungry.orchestrator.deliver(Event::IsolateCreated(Ok(())));
    hungry.orchestrator.deliver(Event::GuardsInstalled);
    steady.orchestrator.deliver(Event::IsolateCreated(Ok(())));
    hungry.orchestrator.deliver(Event::Loaded(Ok(())));
    steady.orchestrator.deliver(Event::GuardsInstalled);
    steady.orchestrator.deliver(Event::Loaded(Ok(())));
    assert!(hungry.orchestrator.near_heap_limit(10 * 1024 * 1024).terminate);
    assert_eq!(steady.orchestrator.cause(), None);
    let ended = hungry.orchestrator.deliver(settled(ScriptResult::ScriptFailure(
        "execution terminated".to_string(),
    )));
    assert_eq!(ended, Action::Finish(Ok(TerminationReason::MemoryExceeded)));
    assert!(steady.orchestrator.is_supervised());
    assert_eq!(steady.orchestrator.outcome(), None);
    let done = steady.orchestrator.deliver(settled(ScriptResult::Success));
    assert_eq!(done, Action::Finish(Ok(TerminationReason::Completed(ScriptResult::Success))));

    let mut alone = session("js/long.js", 512, 5000);
    alone.orchestrator.deliver(Event::Resolved(Ok(())));
    alone.orchestrator.deliver(Event::IsolateCreated(Ok(())));
    alone.orchestrator.deliver(Event::GuardsInstalled);
    alone.orchestrator.deliver(Event::Loaded(Ok(())));
    alone.orchestrator.deliver(settled(ScriptResult::Success));
    assert_eq!(alone.orchestrator.outcome(), steady.orchestrator.outcome());
}
