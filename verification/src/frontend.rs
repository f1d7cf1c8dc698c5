//! What the command line and the request-serving front end decide: which
//! module a request names, how an outcome is answered, and how a process
//! exits.

use vstd::prelude::*;
use vstd::string::*;
use crate::limits::{ceiling_error, valid_ceiling, ConfigurationError, LimitsModel, ResourceLimits, BYTES_PER_MIB};
use crate::outcome::{describe_outcome, outcome_text, ScriptResult, TerminationReason};
use crate::session::ExecutionRequest;

verus! {

/// Status of a response to an execution that completed.
pub const STATUS_OK: u16 = 200;

/// Status of a response to an execution that did not complete.
pub const STATUS_INTERNAL_SERVER_ERROR: u16 = 500;

/// What the request-serving front end keeps for its whole life: the limits
/// under which every request runs.
#[derive(Debug, Clone, Copy)]
pub struct Service {
    pub limits: ResourceLimits,
}

/// The answer to one request.
#[derive(Debug, PartialEq, Eq)]
pub struct Response {
    pub status: u16,
    pub body: String,
}

/// The module that a request for `name` runs.
pub open spec fn module_for(name: Seq<char>) -> Seq<char> {
    "js/"@ + name + ".js"@
}

/// Whether an outcome is answered with a success status: the execution
/// completed.
pub open spec fn succeeded(outcome: Result<TerminationReason, ConfigurationError>) -> bool {
    outcome matches Ok(TerminationReason::Completed(_))
}

/// The status that answers an outcome.
pub open spec fn response_status(outcome: Result<TerminationReason, ConfigurationError>) -> u16 {
    if succeeded(outcome) {
        STATUS_OK
    } else {
        STATUS_INTERNAL_SERVER_ERROR
    }
}

/// The body that answers an outcome: `OK` for a module that ran to its end,
/// else the text of the outcome.
pub open spec fn response_body(outcome: Result<TerminationReason, ConfigurationError>) -> Seq<char> {
    match outcome {
        Ok(TerminationReason::Completed(ScriptResult::Success)) => "OK"@,
        _ => outcome_text(outcome),
    }
}

/// The exit code of a process that ran one execution: zero unless the engine
/// failed or the configuration was refused. A resource limit that ended the
/// execution is reported, and is no failure of the process.
pub open spec fn exit_status(outcome: Result<TerminationReason, ConfigurationError>) -> u8 {
    match outcome {
        Ok(TerminationReason::VmError(_)) => 1,
        Err(_) => 1,
        _ => 0,
    }
}

/// The service that is launched with a memory limit in MiB and a timeout in
/// milliseconds. The limits are checked once, here, so that no request starts
/// under limits that would be refused.
pub fn rocket(memory_limit: usize, timeout: u64) -> (launch: Result<Service, ConfigurationError>)
    ensures
        valid_ceiling(memory_limit * BYTES_PER_MIB) <==> launch is Ok,
        launch matches Ok(service) ==> service.limits@ == (LimitsModel {
            memory_ceiling_bytes: (memory_limit * BYTES_PER_MIB) as nat,
            timeout_ms: timeout as nat,
        }),
        launch matches Err(e) ==> e == ceiling_error(memory_limit * BYTES_PER_MIB),
{
    match ResourceLimits::from_args(memory_limit, timeout) {
        Ok(limits) => Ok(Service { limits }),
        Err(e) => Err(e),
    }
}

impl Service {
    /// The unit of work for a request that names `name`.
    pub fn request(&self, name: &str) -> (request: ExecutionRequest)
        ensures
            request.module_reference@ == module_for(name@),
            request.limits == self.limits,
    {
        let module_reference = String::from_str("js/").concat(name).concat(".js");
        ExecutionRequest { module_reference, limits: self.limits }
    }
}

/// The answer to a request whose execution came to `outcome`.
pub fn respond(outcome: &Result<TerminationReason, ConfigurationError>) -> (response: Response)
    ensures
        response.status == response_status(*outcome),
        response.body@ == response_body(*outcome),
{
    match outcome {
        Ok(TerminationReason::Completed(ScriptResult::Success)) => Response {
            status: STATUS_OK,
            body: String::from_str("OK"),
        },
        Ok(TerminationReason::Completed(_)) => Response {
            status: STATUS_OK,
            body: describe_outcome(outcome),
        },
        _ => Response { status: STATUS_INTERNAL_SERVER_ERROR, body: describe_outcome(outcome) },
    }
}

/// The exit code of a process whose execution came to `outcome`.
pub fn exit_code(outcome: &Result<TerminationReason, ConfigurationError>) -> (code: u8)
    ensures
        code == exit_status(*outcome),
{
    match outcome {
        Ok(TerminationReason::VmError(_)) => 1,
        Err(_) => 1,
        _ => 0,
    }
}

} // verus!
