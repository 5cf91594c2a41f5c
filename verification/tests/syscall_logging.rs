use tos_vm_runtime::invoke_context::InvokeContext;
use tos_vm_runtime::memory::{MemoryMapping, MemoryRegion};
use tos_vm_runtime::storage::{NoOpAccounts, NoOpStorage};
use tos_vm_runtime::syscalls::logging::{SyscallError, TosLog, MAX_LOG_LENGTH};

fn create_test_mapping(data: Vec<u8>) -> MemoryMapping {
    let region = MemoryRegion::new_writable(data, 0x100000000);
    MemoryMapping::new(vec![region])
}

#[test]
fn test_tos_log_success() {
    let mut context = InvokeContext::new(
        10_000,
        [
            1, 2, 3, 4, 0, 0, 0, 0, 0, 0, 0, 0, 0, 0, 0, 0, 0, 0, 0, 0, 0, 0, 0, 0, 0, 0, 0, 0,
            0, 0, 0, 0,
        ],
        NoOpStorage,
        NoOpAccounts,
    );
    context.enable_debug();

    let data = b"Hello, TOS!".to_vec();
    let len = data.len() as u64;
    let mut mapping = create_test_mapping(data);

    let result = TosLog::rust(&mut context, 0x100000000, len, 0, 0, 0, &mut mapping);

    assert!(result.is_ok());
    assert_eq!(result.unwrap(), 0);

    // Check compute units were consumed
    let expected_cost = 100 + len;
    assert_eq!(context.get_compute_units_consumed(), expected_cost);

    // Debug mode is on: the message reached the log sink.
    assert_eq!(context.log_messages().len(), 1);
    assert_eq!(context.log_messages()[0], "Hello, TOS!");
}

#[test]
fn test_tos_log_too_long() {
    let mut context = InvokeContext::new(100_000, [0u8; 32], NoOpStorage, NoOpAccounts);
    let data = vec![0u8; 1024];
    let mut mapping = create_test_mapping(data);

    // Try to log a message that's too long
    let result = TosLog::rust(
        &mut context,
        0x100000000,
        MAX_LOG_LENGTH + 1,
        0,
        0,
        0,
        &mut mapping,
    );

    assert!(result.is_err());
    assert_eq!(
        result.unwrap_err(),
        SyscallError::MessageTooLong(MAX_LOG_LENGTH + 1, MAX_LOG_LENGTH)
    );
    // Rejected before any compute was charged.
    assert_eq!(context.get_compute_units_consumed(), 0);
}

#[test]
fn test_tos_log_insufficient_compute() {
    let mut context = InvokeContext::new(50, [0u8; 32], NoOpStorage, NoOpAccounts); // Very low budget
    let data = b"Hello".to_vec();
    let len = data.len() as u64;
    let mut mapping = create_test_mapping(data);

    let result = TosLog::rust(&mut context, 0x100000000, len, 0, 0, 0, &mut mapping);

    // Should fail due to insufficient compute units
    assert!(result.is_err());
    assert_eq!(result.unwrap_err(), SyscallError::OutOfComputeUnits);
    assert_eq!(context.get_compute_units_consumed(), 0);
}

#[test]
fn test_tos_log_invalid_utf8() {
    let mut context = InvokeContext::new(10_000, [0u8; 32], NoOpStorage, NoOpAccounts);
    let data = vec![0xFF, 0xFE, 0xFD]; // Invalid UTF-8
    let len = data.len() as u64;
    let mut mapping = create_test_mapping(data);

    let result = TosLog::rust(&mut context, 0x100000000, len, 0, 0, 0, &mut mapping);

    assert!(result.is_err());
    assert_eq!(result.unwrap_err(), SyscallError::InvalidString);
    // The charge happened before the message was decoded; it is not
    // refunded.
    assert_eq!(context.get_compute_units_consumed(), 100 + len);
}

#[test]
fn test_tos_log_empty_message() {
    let mut context = InvokeContext::new(10_000, [0u8; 32], NoOpStorage, NoOpAccounts);
    context.enable_debug();

    let data = b"".to_vec();
    let mut mapping = create_test_mapping(data);

    let result = TosLog::rust(&mut context, 0x100000000, 0, 0, 0, 0, &mut mapping);

    assert!(result.is_ok());
    // Base cost only
    assert_eq!(context.get_compute_units_consumed(), 100);
}

#[test]
fn test_tos_log_discarded_without_debug() {
    let mut context = InvokeContext::new(10_000, [0u8; 32], NoOpStorage, NoOpAccounts);

    let data = b"quiet".to_vec();
    let len = data.len() as u64;
    let mut mapping = create_test_mapping(data);

    let result = TosLog::rust(&mut context, 0x100000000, len, 0, 0, 0, &mut mapping);
    assert!(result.is_ok());
    // Charged, but discarded: nothing reaches the log sink.
    assert_eq!(context.get_compute_units_consumed(), 100 + len);
    assert!(context.log_messages().is_empty());
}

#[test]
fn test_tos_log_unmapped_message() {
    // The charge happened before the translation fault; it is not refunded.
    let mut context = InvokeContext::new(10_000, [0u8; 32], NoOpStorage, NoOpAccounts);
    let mut mapping = create_test_mapping(vec![0u8; 4]);

    let result = TosLog::rust(&mut context, 0x100000000, 5, 0, 0, 0, &mut mapping);
    assert!(matches!(result, Err(SyscallError::MemoryFault(_))));
    assert_eq!(context.get_compute_units_consumed(), 100 + 5);
}
