use tos_vm_runtime::invoke_context::InvokeContext;
use tos_vm_runtime::storage::{NoOpAccounts, NoOpStorage};

#[test]
fn test_invoke_context_creation() {
    let context = InvokeContext::new(100_000, [1u8; 32], NoOpStorage, NoOpAccounts);
    assert_eq!(context.get_compute_budget(), 100_000);
    assert_eq!(context.get_remaining(), 100_000);
    assert_eq!(context.get_compute_units_consumed(), 0);
    assert_eq!(context.contract_hash, [1u8; 32]);
}

#[test]
fn test_compute_consumption() {
    let mut context = InvokeContext::new(100_000, [0u8; 32], NoOpStorage, NoOpAccounts);

    // Consume some units
    context.consume(30_000);
    assert_eq!(context.get_remaining(), 70_000);
    assert_eq!(context.get_compute_units_consumed(), 30_000);

    // Consume more
    context.consume(20_000);
    assert_eq!(context.get_remaining(), 50_000);
    assert_eq!(context.get_compute_units_consumed(), 50_000);
}

#[test]
fn test_consume_checked() {
    let mut context = InvokeContext::new(100, [0u8; 32], NoOpStorage, NoOpAccounts);

    // Should succeed
    assert!(context.consume_checked(50).is_ok());
    assert_eq!(context.get_remaining(), 50);

    // Should fail - not enough units
    assert!(context.consume_checked(100).is_err());
    assert_eq!(context.get_remaining(), 50); // Unchanged

    // Should succeed with exact remaining amount
    assert!(context.consume_checked(50).is_ok());
    assert_eq!(context.get_remaining(), 0);
}

#[test]
fn test_saturating_consumption() {
    let mut context = InvokeContext::new(100, [0u8; 32], NoOpStorage, NoOpAccounts);

    // Consuming more than available should saturate at 0
    context.consume(150);
    assert_eq!(context.get_remaining(), 0);
    assert_eq!(context.get_compute_units_consumed(), 100);
}

#[test]
fn test_debug_mode() {
    let mut context = InvokeContext::new(100_000, [0u8; 32], NoOpStorage, NoOpAccounts);
    assert!(!context.debug_mode);

    context.enable_debug();
    assert!(context.debug_mode);
}

#[test]
fn test_context_with_full_state() {
    let context = InvokeContext::new_with_state(
        100_000,
        [1u8; 32], // contract_hash
        [2u8; 32], // block_hash
        12345,     // block_height
        [3u8; 32], // tx_hash
        [4u8; 32], // tx_sender
        NoOpStorage,
        NoOpAccounts,
    );

    assert_eq!(context.contract_hash, [1u8; 32]);
    assert_eq!(context.block_hash, [2u8; 32]);
    assert_eq!(context.block_height, 12345);
    assert_eq!(context.tx_hash, [3u8; 32]);
    assert_eq!(context.tx_sender, [4u8; 32]);
}

#[test]
fn test_return_data() {
    let mut context = InvokeContext::new(100_000, [1u8; 32], NoOpStorage, NoOpAccounts);

    // Initially no return data
    assert!(context.get_return_data().is_none());

    // Set return data
    let program_id = [5u8; 32];
    let data = vec![1, 2, 3, 4, 5];
    assert!(context.set_return_data(program_id, data.clone()).is_ok());

    // Get return data
    let result = context.get_return_data();
    assert!(result.is_some());
    let (ret_program_id, ret_data) = result.unwrap();
    assert_eq!(ret_program_id, program_id);
    assert_eq!(ret_data, data);

    // Clear return data
    context.clear_return_data();
    assert!(context.get_return_data().is_none());
}

#[test]
fn test_return_data_too_large() {
    let mut context = InvokeContext::new(100_000, [1u8; 32], NoOpStorage, NoOpAccounts);

    // Try to set return data larger than the maximum (1024 bytes)
    let program_id = [5u8; 32];
    let large_data = vec![0u8; 2000];
    let result = context.set_return_data(program_id, large_data);
    assert!(result.is_err());

    // Return data should still be None
    assert!(context.get_return_data().is_none());
}

#[test]
fn invoke_context_test_return_data_max_size() {
    let mut context = InvokeContext::new(100_000, [1u8; 32], NoOpStorage, NoOpAccounts);

    // Set return data at exactly max size (1024 bytes)
    let program_id = [5u8; 32];
    let max_data = vec![0u8; 1024];
    assert!(context.set_return_data(program_id, max_data.clone()).is_ok());

    let result = context.get_return_data();
    assert!(result.is_some());
    let (_ret_program_id, ret_data) = result.unwrap();
    assert_eq!(ret_data.len(), 1024);
}

#[test]
fn test_return_data_kept_after_oversized_set() {
    // An oversized payload is refused and the previously stored data is
    // unchanged.
    let mut context = InvokeContext::new(100_000, [1u8; 32], NoOpStorage, NoOpAccounts);
    assert!(context.set_return_data([7u8; 32], vec![9, 9]).is_ok());

    let too_large = vec![0u8; 1025];
    assert!(context.set_return_data([8u8; 32], too_large).is_err());

    let (pid, data) = context.get_return_data().unwrap();
    assert_eq!(pid, [7u8; 32]);
    assert_eq!(data, vec![9, 9]);
}

#[test]
fn test_emitted_logs() {
    let mut context = InvokeContext::new(100_000, [0u8; 32], NoOpStorage, NoOpAccounts);
    assert!(context.log_messages().is_empty());
    context.emit_log(String::from("first"));
    context.emit_log(String::from("second"));
    assert_eq!(context.log_messages().len(), 2);
    assert_eq!(context.log_messages()[0], "first");
    assert_eq!(context.log_messages()[1], "second");
}
