use script_sandbox::limits::{
    BYTES_PER_MIB, DEFAULT_MEMORY_LIMIT_MIB, DEFAULT_TIMEOUT_MS, FIXED_MEMORY_LIMIT_MIB,
    FIXED_TIMEOUT_MS,
};
use script_sandbox::{ConfigurationError, ResourceLimits};

#[test]
fn new_keeps_ceiling_and_timeout() {
    let limits = ResourceLimits::new(512 * 1024 * 1024, 5000).unwrap();
    assert_eq!(limits.memory_ceiling_bytes(), 536_870_912);
    assert_eq!(limits.timeout_ms(), 5000);
    assert_eq!(limits.heap_ceiling(), 536_870_912usize);
    assert!(!limits.fails_fast());
}

#[test]
fn new_refuses_zero_ceiling() {
    assert_eq!(ResourceLimits::new(0, 5000), Err(ConfigurationError::ZeroMemoryCeiling));
}

#[test]
fn new_accepts_one_byte() {
    let limits = ResourceLimits::new(1, 0).unwrap();
    assert_eq!(limits.memory_ceiling_bytes(), 1);
    assert_eq!(limits.heap_ceiling(), 1);
}

#[test]
fn new_accepts_the_largest_ceiling_the_machine_can_count() {
    let limits = ResourceLimits::new(usize::MAX as u64, 1).unwrap();
    assert_eq!(limits.heap_ceiling(), usize::MAX);
}

#[test]
fn from_args_scales_mebibytes() {
    let limits = ResourceLimits::from_args(100, 3000).unwrap();
    assert_eq!(limits.memory_ceiling_bytes(), 104_857_600);
    assert_eq!(limits.timeout_ms(), 3000);
    let small = ResourceLimits::from_args(10, 10_000).unwrap();
    assert_eq!(small.memory_ceiling_bytes(), 10_485_760);
    assert_eq!(small.timeout_ms(), 10_000);
}

#[test]
fn from_args_refuses_zero_mebibytes() {
    assert_eq!(ResourceLimits::from_args(0, 3000), Err(ConfigurationError::ZeroMemoryCeiling));
}

#[test]
fn from_args_refuses_a_ceiling_that_overflows() {
    assert_eq!(
        ResourceLimits::from_args(usize::MAX, 3000),
        Err(ConfigurationError::MemoryCeilingTooLarge)
    );
    let first_too_large = usize::MAX / (BYTES_PER_MIB as usize) + 1;
    assert_eq!(
        ResourceLimits::from_args(first_too_large, 3000),
        Err(ConfigurationError::MemoryCeilingTooLarge)
    );
}

#[test]
fn from_args_accepts_the_largest_whole_number_of_mebibytes() {
    let largest = usize::MAX / (BYTES_PER_MIB as usize);
    let limits = ResourceLimits::from_args(largest, 1).unwrap();
    assert_eq!(limits.memory_ceiling_bytes(), largest as u64 * BYTES_PER_MIB);
}

#[test]
fn zero_timeout_fails_fast() {
    let limits = ResourceLimits::new(1024, 0).unwrap();
    assert!(limits.fails_fast());
    assert_eq!(limits.timeout_ms(), 0);
}

#[test]
fn defaults_are_one_hundred_mebibytes_and_three_seconds() {
    assert_eq!(DEFAULT_MEMORY_LIMIT_MIB, 100);
    assert_eq!(DEFAULT_TIMEOUT_MS, 3000);
    assert_eq!(BYTES_PER_MIB, 1024 * 1024);
    let limits = ResourceLimits::from_args(DEFAULT_MEMORY_LIMIT_MIB, DEFAULT_TIMEOUT_MS).unwrap();
    assert_eq!(limits.memory_ceiling_bytes(), 104_857_600);
}

#[test]
fn limits_are_plain_values() {
    let limits = ResourceLimits::new(4096, 7).unwrap();
    let copy = limits;
    assert_eq!(copy, limits);
    assert_ne!(limits, ResourceLimits::new(4096, 8).unwrap());
}

#[test]
fn configuration_error_clone_is_equal() {
    let errors = vec![
        ConfigurationError::ZeroMemoryCeiling,
        ConfigurationError::MemoryCeilingTooLarge,
        ConfigurationError::UnresolvableModule("x".to_string()),
        ConfigurationError::IsolateRejected("y".to_string()),
    ];
    for error in errors {
        assert_eq!(error.clone(), error);
    }
}

#[test]
fn fixed_limits_are_ten_mebibytes_and_two_seconds() {
    let limits = ResourceLimits::fixed();
    assert_eq!(limits.memory_ceiling_bytes(), 10_485_760);
    assert_eq!(limits.timeout_ms(), 2000);
    assert_eq!(limits.heap_ceiling(), 10_485_760);
    assert!(!limits.fails_fast());
    assert_eq!(FIXED_MEMORY_LIMIT_MIB, 10);
    assert_eq!(FIXED_TIMEOUT_MS, 2000);
    assert_eq!(Ok(limits), ResourceLimits::from_args(FIXED_MEMORY_LIMIT_MIB, FIXED_TIMEOUT_MS));
}
