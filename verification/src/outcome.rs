//! The single outcome of an execution.

use vstd::prelude::*;
use vstd::string::*;
use crate::limits::ConfigurationError;

verus! {

/// How the top-level evaluation of a module settled.
#[derive(Debug, PartialEq, Eq)]
pub enum ScriptResult {
    /// The module ran to its end.
    Success,
    /// The module threw; the text is what it threw.
    ScriptFailure(String),
}

impl Clone for ScriptResult {
    fn clone(&self) -> (r: Self)
        ensures
            r == *self,
    {
        match self {
            ScriptResult::Success => ScriptResult::Success,
            ScriptResult::ScriptFailure(what) => ScriptResult::ScriptFailure(what.clone()),
        }
    }
}

/// Why an execution ended. Exactly one is produced per execution.
#[derive(Debug, PartialEq, Eq)]
pub enum TerminationReason {
    /// Evaluation settled before any termination was requested.
    Completed(ScriptResult),
    /// The watchdog elapsed first.
    TimedOut,
    /// The heap guard was invoked first.
    MemoryExceeded,
    /// The engine failed for a reason unrelated to the limits.
    VmError(String),
}

impl Clone for TerminationReason {
    fn clone(&self) -> (r: Self)
        ensures
            r == *self,
    {
        match self {
            TerminationReason::Completed(result) => TerminationReason::Completed(result.clone()),
            TerminationReason::TimedOut => TerminationReason::TimedOut,
            TerminationReason::MemoryExceeded => TerminationReason::MemoryExceeded,
            TerminationReason::VmError(detail) => TerminationReason::VmError(detail.clone()),
        }
    }
}

/// The text that reports a termination reason.
pub open spec fn reason_text(reason: TerminationReason) -> Seq<char> {
    match reason {
        TerminationReason::Completed(ScriptResult::Success) => "Completed"@,
        TerminationReason::Completed(ScriptResult::ScriptFailure(what)) => "Completed: script failed: "@
            + what@,
        TerminationReason::TimedOut => "TimedOut"@,
        TerminationReason::MemoryExceeded => "MemoryExceeded"@,
        TerminationReason::VmError(detail) => "VmError: "@ + detail@,
    }
}

/// The text that reports a configuration error.
pub open spec fn error_text(error: ConfigurationError) -> Seq<char> {
    match error {
        ConfigurationError::ZeroMemoryCeiling => "ConfigurationError: memory ceiling is zero"@,
        ConfigurationError::MemoryCeilingTooLarge => "ConfigurationError: memory ceiling is too large"@,
        ConfigurationError::UnresolvableModule(why) => "ConfigurationError: unresolvable module: "@
            + why@,
        ConfigurationError::IsolateRejected(why) => "ConfigurationError: isolate rejected: "@
            + why@,
    }
}

/// The text that reports what an execution came to.
pub open spec fn outcome_text(outcome: Result<TerminationReason, ConfigurationError>) -> Seq<char> {
    match outcome {
        Ok(reason) => reason_text(reason),
        Err(error) => error_text(error),
    }
}

impl TerminationReason {
    /// Whether evaluation settled, with either script result.
    pub fn is_completed(&self) -> (b: bool)
        ensures
            b == (*self is Completed),
    {
        match self {
            TerminationReason::Completed(_) => true,
            _ => false,
        }
    }

    /// Whether a resource limit ended the execution.
    pub fn is_limit(&self) -> (b: bool)
        ensures
            b == (*self is TimedOut || *self is MemoryExceeded),
    {
        match self {
            TerminationReason::TimedOut => true,
            TerminationReason::MemoryExceeded => true,
            _ => false,
        }
    }

    /// The reason as text, for a log line or a response body.
    pub fn describe(&self) -> (text: String)
        ensures
            text@ == reason_text(*self),
    {
        match self {
            TerminationReason::Completed(ScriptResult::Success) => String::from_str("Completed"),
            TerminationReason::Completed(ScriptResult::ScriptFailure(what)) => String::from_str(
                "Completed: script failed: ",
            ).concat(what.as_str()),
            TerminationReason::TimedOut => String::from_str("TimedOut"),
            TerminationReason::MemoryExceeded => String::from_str("MemoryExceeded"),
            TerminationReason::VmError(detail) => String::from_str("VmError: ").concat(
                detail.as_str(),
            ),
        }
    }
}

impl ConfigurationError {
    /// The error as text, for a log line or a response body.
    pub fn describe(&self) -> (text: String)
        ensures
            text@ == error_text(*self),
    {
        match self {
            ConfigurationError::ZeroMemoryCeiling => String::from_str(
                "ConfigurationError: memory ceiling is zero",
            ),
            ConfigurationError::MemoryCeilingTooLarge => String::from_str(
                "ConfigurationError: memory ceiling is too large",
            ),
            ConfigurationError::UnresolvableModule(why) => String::from_str(
                "ConfigurationError: unresolvable module: ",
            ).concat(why.as_str()),
            ConfigurationError::IsolateRejected(why) => String::from_str(
                "ConfigurationError: isolate rejected: ",
            ).concat(why.as_str()),
        }
    }
}

/// A copy of an outcome.
pub fn copy_outcome(outcome: &Result<TerminationReason, ConfigurationError>) -> (copy: Result<
    TerminationReason,
    ConfigurationError,
>)
    ensures
        copy == *outcome,
{
    match outcome {
        Ok(reason) => Ok(reason.clone()),
        Err(error) => Err(error.clone()),
    }
}

/// What an execution came to, as text.
pub fn describe_outcome(outcome: &Result<TerminationReason, ConfigurationError>) -> (text: String)
    ensures
        text@ == outcome_text(*outcome),
{
    match outcome {
        Ok(reason) => reason.describe(),
        Err(error) => error.describe(),
    }
}

} // verus!
