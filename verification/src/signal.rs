//! The record of termination requests of one execution.
//!
//! The heap guard and the watchdog may both ask for the isolate to be stopped,
//! in either order and more than once. The record keeps which of them asked;
//! asking again changes nothing, and when both have asked the heap guard is
//! named as the cause.

use vstd::prelude::*;
use crate::outcome::TerminationReason;

verus! {

/// Who asks for the isolate to be stopped.
#[derive(Debug, Clone, Copy, PartialEq, Eq, Structural)]
pub enum TerminationSource {
    /// The near-heap-limit interception.
    HeapGuard,
    /// The timer that races the execution.
    Watchdog,
}

/// Mathematical content of a [`TerminationSignal`].
pub ghost struct SignalModel {
    pub memory_requested: bool,
    pub timeout_requested: bool,
}

impl SignalModel {
    /// The record before anyone has asked.
    pub open spec fn idle() -> SignalModel {
        SignalModel { memory_requested: false, timeout_requested: false }
    }

    /// The record after `source` has asked.
    pub open spec fn request(self, source: TerminationSource) -> SignalModel {
        match source {
            TerminationSource::HeapGuard => SignalModel { memory_requested: true, ..self },
            TerminationSource::Watchdog => SignalModel { timeout_requested: true, ..self },
        }
    }

    /// Whether anyone has asked.
    pub open spec fn requested(self) -> bool {
        self.memory_requested || self.timeout_requested
    }

    /// Whether `source` has asked.
    pub open spec fn requested_by(self, source: TerminationSource) -> bool {
        match source {
            TerminationSource::HeapGuard => self.memory_requested,
            TerminationSource::Watchdog => self.timeout_requested,
        }
    }

    /// Who is named as the cause: the heap guard if it asked, else the
    /// watchdog if it asked.
    pub open spec fn cause(self) -> Option<TerminationSource> {
        if self.memory_requested {
            Some(TerminationSource::HeapGuard)
        } else if self.timeout_requested {
            Some(TerminationSource::Watchdog)
        } else {
            None
        }
    }

    /// The reason an execution ends with when it would otherwise end with
    /// `fallback`: the cause decides where there is one.
    pub open spec fn classify(self, fallback: TerminationReason) -> TerminationReason {
        match self.cause() {
            Some(TerminationSource::HeapGuard) => TerminationReason::MemoryExceeded,
            Some(TerminationSource::Watchdog) => TerminationReason::TimedOut,
            None => fallback,
        }
    }
}

/// Which sources have asked for termination during one execution.
#[derive(Debug, Clone, Copy, PartialEq, Eq)]
pub struct TerminationSignal {
    memory_requested: bool,
    timeout_requested: bool,
}

impl View for TerminationSignal {
    type V = SignalModel;

    closed spec fn view(&self) -> SignalModel {
        SignalModel {
            memory_requested: self.memory_requested,
            timeout_requested: self.timeout_requested,
        }
    }
}

impl TerminationSignal {
    /// A record in which nobody has asked.
    pub fn new() -> (signal: TerminationSignal)
        ensures
            signal@ == SignalModel::idle(),
    {
        TerminationSignal { memory_requested: false, timeout_requested: false }
    }

    /// Records that `source` asks for termination.
    pub fn request(&mut self, source: TerminationSource)
        ensures
            final(self)@ == old(self)@.request(source),
    {
        match source {
            TerminationSource::HeapGuard => {
                self.memory_requested = true;
            },
            TerminationSource::Watchdog => {
                self.timeout_requested = true;
            },
        }
    }

    /// Whether anyone has asked.
    pub fn is_requested(&self) -> (b: bool)
        ensures
            b == self@.requested(),
    {
        self.memory_requested || self.timeout_requested
    }

    /// Who is named as the cause, if anyone has asked.
    pub fn cause(&self) -> (cause: Option<TerminationSource>)
        ensures
            cause == self@.cause(),
    {
        if self.memory_requested {
            Some(TerminationSource::HeapGuard)
        } else if self.timeout_requested {
            Some(TerminationSource::Watchdog)
        } else {
            None
        }
    }

    /// The reason an execution ends with when it would otherwise end with
    /// `fallback`.
    pub fn classify(&self, fallback: TerminationReason) -> (reason: TerminationReason)
        ensures
            reason == self@.classify(fallback),
    {
        match self.cause() {
            Some(TerminationSource::HeapGuard) => TerminationReason::MemoryExceeded,
            Some(TerminationSource::Watchdog) => TerminationReason::TimedOut,
            None => fallback,
        }
    }
}

/// Asking twice is asking once.
pub proof fn request_is_idempotent(signal: SignalModel, source: TerminationSource)
    ensures
        signal.request(source).request(source) == signal.request(source),
{
}

/// The order in which two sources ask does not matter.
pub proof fn requests_commute(signal: SignalModel, first: TerminationSource, second: TerminationSource)
    ensures
        signal.request(first).request(second) == signal.request(second).request(first),
{
}

/// A request is never taken back: whoever has asked has still asked after any
/// further request, and the source that asks has asked afterwards.
pub proof fn request_is_sticky(signal: SignalModel, asked: TerminationSource, source: TerminationSource)
    ensures
        signal.requested_by(asked) ==> signal.request(source).requested_by(asked),
        signal.request(source).requested_by(source),
        signal.request(source).requested(),
{
}

/// When both sources have asked, in either order, the heap guard is the cause
/// and the execution ends as `MemoryExceeded`.
pub proof fn memory_wins_a_tie(signal: SignalModel, fallback: TerminationReason)
    ensures
        signal.request(TerminationSource::HeapGuard).request(TerminationSource::Watchdog).cause()
            == Some(TerminationSource::HeapGuard),
        signal.request(TerminationSource::Watchdog).request(TerminationSource::HeapGuard).cause()
            == Some(TerminationSource::HeapGuard),
        signal.request(TerminationSource::HeapGuard).request(TerminationSource::Watchdog).classify(
            fallback,
        ) == TerminationReason::MemoryExceeded,
        signal.request(TerminationSource::Watchdog).request(TerminationSource::HeapGuard).classify(
            fallback,
        ) == TerminationReason::MemoryExceeded,
{
}

/// The classified reason is `Completed` only where nobody asked and the
/// fallback is `Completed`.
pub proof fn classify_keeps_fallback_only_when_idle(signal: SignalModel, fallback: TerminationReason)
    ensures
        !signal.requested() ==> signal.classify(fallback) == fallback,
        signal.requested() ==> !(signal.classify(fallback) is Completed) && !(signal.classify(
            fallback,
        ) is VmError),
        signal.memory_requested ==> signal.classify(fallback) == TerminationReason::MemoryExceeded,
        !signal.memory_requested && signal.timeout_requested ==> signal.classify(fallback)
            == TerminationReason::TimedOut,
{
}

} // verus!
