//! Decision core of a script sandbox that runs one untrusted module under a
//! memory ceiling and a wall-clock timeout.
//!
//! The script engine, its timers and its threads live outside this crate. The
//! crate holds what is decided about them: which limits are valid, what the
//! driver of an execution has to do next, how a near-heap-limit interception
//! and an elapsed watchdog are recorded, and which single outcome an execution
//! ends with.

pub mod limits;
pub mod outcome;
pub mod signal;
pub mod guard;
pub mod orchestrator;
pub mod guarantees;
pub mod session;
pub mod frontend;

pub use frontend::{exit_code, respond, rocket, Response, Service};
pub use guard::{raise_limit, HeapGuardVerdict};
pub use limits::{ConfigurationError, ResourceLimits};
pub use orchestrator::{Action, DrainPolicy, Event, Orchestrator, Phase};
pub use outcome::{describe_outcome, ScriptResult, TerminationReason};
pub use session::{ExecutionRequest, SandboxSession};
pub use signal::{TerminationSignal, TerminationSource};
