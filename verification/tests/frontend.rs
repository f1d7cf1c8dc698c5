use script_sandbox::frontend::{STATUS_INTERNAL_SERVER_ERROR, STATUS_OK};
use script_sandbox::{
    describe_outcome, exit_code, respond, rocket, ConfigurationError, DrainPolicy, Response,
    SandboxSession, ScriptResult, TerminationReason,
};

#[test]
fn launch_with_the_defaults() {
    let service = rocket(100, 3000).unwrap();
    assert_eq!(service.limits.memory_ceiling_bytes(), 104_857_600);
    assert_eq!(service.limits.timeout_ms(), 3000);
}

#[test]
fn launch_refuses_invalid_limits() {
    assert_eq!(rocket(0, 3000).err(), Some(ConfigurationError::ZeroMemoryCeiling));
    assert_eq!(rocket(usize::MAX, 3000).err(), Some(ConfigurationError::MemoryCeilingTooLarge));
}

#[test]
fn request_names_the_module_under_js() {
    let service = rocket(10, 2000).unwrap();
    let request = service.request("hello");
    assert_eq!(request.module_reference, "js/hello.js");
    assert_eq!(request.limits, service.limits);
    assert_eq!(service.request("").module_reference, "js/.js");
    assert_eq!(service.request("a.b").module_reference, "js/a.b.js");
}

#[test]
fn every_request_gets_a_fresh_session() {
    let service = rocket(10, 2000).unwrap();
    let first = SandboxSession::open(service.request("one"), DrainPolicy::SettlementFinal);
    let second = SandboxSession::open(service.request("two"), DrainPolicy::SettlementFinal);
    assert_eq!(first.module_reference, "js/one.js");
    assert_eq!(second.module_reference, "js/two.js");
    assert_eq!(first.orchestrator.limits(), service.limits);
    assert_eq!(first.orchestrator.pending(), second.orchestrator.pending());
    assert_eq!(first.orchestrator.outcome(), None);
    assert_eq!(first.orchestrator.cause(), None);
}

#[test]
fn completed_is_answered_with_ok() {
    let response = respond(&Ok(TerminationReason::Completed(ScriptResult::Success)));
    assert_eq!(response, Response { status: 200, body: "OK".to_string() });
    assert_eq!(STATUS_OK, 200);
}

#[test]
fn script_failure_is_answered_with_success_and_its_text() {
    let response =
        respond(&Ok(TerminationReason::Completed(ScriptResult::ScriptFailure("boom".to_string()))));
    assert_eq!(response.status, 200);
    assert_eq!(response.body, "Completed: script failed: boom");
}

#[test]
fn other_reasons_are_answered_with_a_server_error() {
    assert_eq!(STATUS_INTERNAL_SERVER_ERROR, 500);
    assert_eq!(
        respond(&Ok(TerminationReason::TimedOut)),
        Response { status: 500, body: "TimedOut".to_string() }
    );
    assert_eq!(
        respond(&Ok(TerminationReason::MemoryExceeded)),
        Response { status: 500, body: "MemoryExceeded".to_string() }
    );
    assert_eq!(
        respond(&Ok(TerminationReason::VmError("bad".to_string()))),
        Response { status: 500, body: "VmError: bad".to_string() }
    );
    assert_eq!(
        respond(&Err(ConfigurationError::UnresolvableModule("js/none.js".to_string()))),
        Response {
            status: 500,
            body: "ConfigurationError: unresolvable module: js/none.js".to_string()
        }
    );
}

#[test]
fn exit_code_is_nonzero_for_engine_and_configuration_failures() {
    assert_eq!(exit_code(&Ok(TerminationReason::VmError("x".to_string()))), 1);
    assert_eq!(exit_code(&Err(ConfigurationError::ZeroMemoryCeiling)), 1);
    assert_eq!(exit_code(&Err(ConfigurationError::MemoryCeilingTooLarge)), 1);
    assert_eq!(exit_code(&Err(ConfigurationError::UnresolvableModule("m".to_string()))), 1);
    assert_eq!(exit_code(&Err(ConfigurationError::IsolateRejected("m".to_string()))), 1);
}

#[test]
fn exit_code_is_zero_for_reported_outcomes() {
    assert_eq!(exit_code(&Ok(TerminationReason::Completed(ScriptResult::Success))), 0);
    assert_eq!(
        exit_code(&Ok(TerminationReason::Completed(ScriptResult::ScriptFailure("e".to_string())))),
        0
    );
    assert_eq!(exit_code(&Ok(TerminationReason::TimedOut)), 0);
    assert_eq!(exit_code(&Ok(TerminationReason::MemoryExceeded)), 0);
}

#[test]
fn reasons_have_their_texts() {
    assert_eq!(TerminationReason::Completed(ScriptResult::Success).describe(), "Completed");
    assert_eq!(
        TerminationReason::Completed(ScriptResult::ScriptFailure("oops".to_string())).describe(),
        "Completed: script failed: oops"
    );
    assert_eq!(TerminationReason::TimedOut.describe(), "TimedOut");
    assert_eq!(TerminationReason::MemoryExceeded.describe(), "MemoryExceeded");
    assert_eq!(TerminationReason::VmError("d".to_string()).describe(), "VmError: d");
    assert_eq!(TerminationReason::VmError(String::new()).describe(), "VmError: ");
}

#[test]
fn configuration_errors_have_their_texts() {
    assert_eq!(
        ConfigurationError::ZeroMemoryCeiling.describe(),
        "ConfigurationError: memory ceiling is zero"
    );
    assert_eq!(
        ConfigurationError::MemoryCeilingTooLarge.describe(),
        "ConfigurationError: memory ceiling is too large"
    );
    assert_eq!(
        ConfigurationError::UnresolvableModule("x.js".to_string()).describe(),
        "ConfigurationError: unresolvable module: x.js"
    );
    assert_eq!(
        ConfigurationError::IsolateRejected("no heap".to_string()).describe(),
        "ConfigurationError: isolate rejected: no heap"
    );
    assert_eq!(
        describe_outcome(&Err(ConfigurationError::ZeroMemoryCeiling)),
        "ConfigurationError: memory ceiling is zero"
    );
    assert_eq!(describe_outcome(&Ok(TerminationReason::TimedOut)), "TimedOut");
}

#[test]
fn reason_kinds() {
    assert!(TerminationReason::Completed(ScriptResult::Success).is_completed());
    assert!(!TerminationReason::TimedOut.is_completed());
    assert!(TerminationReason::TimedOut.is_limit());
    assert!(TerminationReason::MemoryExceeded.is_limit());
    assert!(!TerminationReason::VmError("x".to_string()).is_limit());
    assert!(!TerminationReason::Completed(ScriptResult::Success).is_limit());
}

#[test]
fn clones_are_equal() {
    let reasons = vec![
        TerminationReason::Completed(ScriptResult::Success),
        TerminationReason::Completed(ScriptResult::ScriptFailure("f".to_string())),
        TerminationReason::TimedOut,
        TerminationReason::MemoryExceeded,
        TerminationReason::VmError("v".to_string()),
    ];
    for reason in reasons {
        assert_eq!(reason.clone(), reason);
    }
}
