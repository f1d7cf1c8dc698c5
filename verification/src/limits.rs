//! Resource limits of one execution and the errors that refuse a
//! configuration before anything is allocated.

use vstd::prelude::*;

verus! {

/// Bytes in one mebibyte, the unit in which front ends take the memory limit.
pub const BYTES_PER_MIB: u64 = 1_048_576;

/// Memory limit, in MiB, that front ends use when none is given.
pub const DEFAULT_MEMORY_LIMIT_MIB: usize = 100;

/// Timeout, in milliseconds, that front ends use when none is given.
pub const DEFAULT_TIMEOUT_MS: u64 = 3000;

/// Memory limit, in MiB, of the front end that takes no limits.
pub const FIXED_MEMORY_LIMIT_MIB: usize = 10;

/// Timeout, in milliseconds, of the front end that takes no limits.
pub const FIXED_TIMEOUT_MS: u64 = 2000;

/// Why an execution was refused before it started.
#[derive(Debug, PartialEq, Eq)]
pub enum ConfigurationError {
    /// The memory ceiling is zero.
    ZeroMemoryCeiling,
    /// The memory ceiling does not fit the engine's heap-limit unit.
    MemoryCeilingTooLarge,
    /// The module reference could not be resolved; the text says why.
    UnresolvableModule(String),
    /// The engine refused to build an isolate; the text says why.
    IsolateRejected(String),
}

impl Clone for ConfigurationError {
    fn clone(&self) -> (r: Self)
        ensures
            r == *self,
    {
        match self {
            ConfigurationError::ZeroMemoryCeiling => ConfigurationError::ZeroMemoryCeiling,
            ConfigurationError::MemoryCeilingTooLarge => ConfigurationError::MemoryCeilingTooLarge,
            ConfigurationError::UnresolvableModule(why) => ConfigurationError::UnresolvableModule(
                why.clone(),
            ),
            ConfigurationError::IsolateRejected(why) => ConfigurationError::IsolateRejected(
                why.clone(),
            ),
        }
    }
}

/// Mathematical content of a [`ResourceLimits`].
pub ghost struct LimitsModel {
    pub memory_ceiling_bytes: nat,
    pub timeout_ms: nat,
}

/// Whether a byte count can be a memory ceiling: positive, and representable
/// in the engine's heap-limit unit.
pub open spec fn valid_ceiling(bytes: int) -> bool {
    0 < bytes <= usize::MAX
}

/// The configuration error that a byte count is refused with.
pub open spec fn ceiling_error(bytes: int) -> ConfigurationError {
    if bytes <= 0 {
        ConfigurationError::ZeroMemoryCeiling
    } else {
        ConfigurationError::MemoryCeilingTooLarge
    }
}

/// Memory ceiling and timeout of one execution. A value of this type always
/// holds a valid ceiling; a timeout of zero asks for immediate termination.
#[derive(Debug, Clone, Copy, PartialEq, Eq)]
pub struct ResourceLimits {
    memory_ceiling_bytes: u64,
    timeout_ms: u64,
}

impl View for ResourceLimits {
    type V = LimitsModel;

    closed spec fn view(&self) -> LimitsModel {
        LimitsModel {
            memory_ceiling_bytes: self.memory_ceiling_bytes as nat,
            timeout_ms: self.timeout_ms as nat,
        }
    }
}

impl ResourceLimits {
    #[verifier::type_invariant]
    spec fn inv(self) -> bool {
        valid_ceiling(self.memory_ceiling_bytes as int)
    }

    /// Validity of the limits as a statement about the model: what every
    /// executable value satisfies.
    pub open spec fn wf(self) -> bool {
        &&& valid_ceiling(self@.memory_ceiling_bytes as int)
        &&& self@.timeout_ms <= u64::MAX
    }

    /// Limits from a ceiling in bytes and a timeout in milliseconds.
    pub fn new(memory_ceiling_bytes: u64, timeout_ms: u64) -> (r: Result<ResourceLimits, ConfigurationError>)
        ensures
            valid_ceiling(memory_ceiling_bytes as int) <==> r is Ok,
            r matches Ok(l) ==> l.wf() && l@ == (LimitsModel {
                memory_ceiling_bytes: memory_ceiling_bytes as nat,
                timeout_ms: timeout_ms as nat,
            }),
            r matches Err(e) ==> e == ceiling_error(memory_ceiling_bytes as int),
    {
        if memory_ceiling_bytes == 0 {
            Err(ConfigurationError::ZeroMemoryCeiling)
        } else if memory_ceiling_bytes > usize::MAX as u64 {
            Err(ConfigurationError::MemoryCeilingTooLarge)
        } else {
            Ok(ResourceLimits { memory_ceiling_bytes, timeout_ms })
        }
    }

    /// Limits as front ends take them: the memory limit in MiB, the timeout in
    /// milliseconds.
    pub fn from_args(memory_limit_mib: usize, timeout_ms: u64) -> (r: Result<ResourceLimits, ConfigurationError>)
        ensures
            valid_ceiling(memory_limit_mib * BYTES_PER_MIB) <==> r is Ok,
            r matches Ok(l) ==> l.wf() && l@ == (LimitsModel {
                memory_ceiling_bytes: (memory_limit_mib * BYTES_PER_MIB) as nat,
                timeout_ms: timeout_ms as nat,
            }),
            r matches Err(e) ==> e == ceiling_error(memory_limit_mib * BYTES_PER_MIB),
    {
        if memory_limit_mib == 0 {
            return Err(ConfigurationError::ZeroMemoryCeiling);
        }
        match (memory_limit_mib as u64).checked_mul(BYTES_PER_MIB) {
            Some(bytes) => ResourceLimits::new(bytes, timeout_ms),
            None => Err(ConfigurationError::MemoryCeilingTooLarge),
        }
    }

    /// The limits of the front end that takes none: ten MiB and two seconds.
    pub fn fixed() -> (l: ResourceLimits)
        ensures
            l.wf(),
            l@ == (LimitsModel {
                memory_ceiling_bytes: (FIXED_MEMORY_LIMIT_MIB * BYTES_PER_MIB) as nat,
                timeout_ms: FIXED_TIMEOUT_MS as nat,
            }),
    {
        ResourceLimits { memory_ceiling_bytes: 10 * BYTES_PER_MIB, timeout_ms: FIXED_TIMEOUT_MS }
    }

    /// The memory ceiling in bytes.
    pub fn memory_ceiling_bytes(&self) -> (bytes: u64)
        ensures
            bytes == self@.memory_ceiling_bytes,
            self.wf(),
    {
        proof {
            use_type_invariant(self);
        }
        self.memory_ceiling_bytes
    }

    /// The timeout in milliseconds.
    pub fn timeout_ms(&self) -> (ms: u64)
        ensures
            ms == self@.timeout_ms,
    {
        self.timeout_ms
    }

    /// The ceiling in the engine's heap-limit unit.
    pub fn heap_ceiling(&self) -> (bytes: usize)
        ensures
            bytes == self@.memory_ceiling_bytes,
            bytes > 0,
    {
        proof {
            use_type_invariant(self);
        }
        self.memory_ceiling_bytes as usize
    }

    /// Whether the timeout asks for termination at once.
    pub fn fails_fast(&self) -> (b: bool)
        ensures
            b == (self@.timeout_ms == 0),
    {
        self.timeout_ms == 0
    }
}

} // verus!
