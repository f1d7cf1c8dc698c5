use script_sandbox::guard::intercept;
use script_sandbox::{raise_limit, ScriptResult, TerminationReason, TerminationSignal, TerminationSource};

#[test]
fn new_signal_names_no_cause() {
    let signal = TerminationSignal::new();
    assert!(!signal.is_requested());
    assert_eq!(signal.cause(), None);
    assert_eq!(
        signal.classify(TerminationReason::Completed(ScriptResult::Success)),
        TerminationReason::Completed(ScriptResult::Success)
    );
    assert_eq!(
        signal.classify(TerminationReason::VmError("e".to_string())),
        TerminationReason::VmError("e".to_string())
    );
}

#[test]
fn request_twice_is_request_once() {
    for source in [TerminationSource::HeapGuard, TerminationSource::Watchdog] {
        let mut once = TerminationSignal::new();
        once.request(source);
        let mut twice = TerminationSignal::new();
        twice.request(source);
        twice.request(source);
        assert_eq!(once, twice);
        assert!(once.is_requested());
        assert_eq!(once.cause(), Some(source));
    }
}

#[test]
fn requests_in_either_order_give_the_same_record() {
    let mut a = TerminationSignal::new();
    a.request(TerminationSource::HeapGuard);
    a.request(TerminationSource::Watchdog);
    let mut b = TerminationSignal::new();
    b.request(TerminationSource::Watchdog);
    b.request(TerminationSource::HeapGuard);
    assert_eq!(a, b);
    assert_eq!(a.cause(), Some(TerminationSource::HeapGuard));
    assert_eq!(
        a.classify(TerminationReason::Completed(ScriptResult::Success)),
        TerminationReason::MemoryExceeded
    );
}

#[test]
fn watchdog_alone_classifies_as_timed_out() {
    let mut signal = TerminationSignal::new();
    signal.request(TerminationSource::Watchdog);
    assert_eq!(
        signal.classify(TerminationReason::VmError("terminated".to_string())),
        TerminationReason::TimedOut
    );
}

#[test]
fn heap_guard_alone_classifies_as_memory_exceeded() {
    let mut signal = TerminationSignal::new();
    signal.request(TerminationSource::HeapGuard);
    assert_eq!(
        signal.classify(TerminationReason::Completed(ScriptResult::Success)),
        TerminationReason::MemoryExceeded
    );
}

#[test]
fn raise_limit_doubles() {
    assert_eq!(raise_limit(1), 2);
    assert_eq!(raise_limit(1000), 2000);
    assert_eq!(raise_limit(10 * 1024 * 1024), 20 * 1024 * 1024);
    assert_eq!(raise_limit(usize::MAX / 2), usize::MAX - 1);
}

#[test]
fn raise_limit_grants_a_byte_above_zero() {
    assert_eq!(raise_limit(0), 1);
}

#[test]
fn raise_limit_saturates() {
    assert_eq!(raise_limit(usize::MAX / 2 + 1), usize::MAX);
    assert_eq!(raise_limit(usize::MAX - 1), usize::MAX);
    assert_eq!(raise_limit(usize::MAX), usize::MAX);
}

#[test]
fn intercept_records_and_raises() {
    let mut signal = TerminationSignal::new();
    assert_eq!(intercept(&mut signal, 512), 1024);
    assert_eq!(signal.cause(), Some(TerminationSource::HeapGuard));
    assert_eq!(intercept(&mut signal, 1024), 2048);
    assert_eq!(signal.cause(), Some(TerminationSource::HeapGuard));
}
