use tos_vm_runtime::invoke_context::InvokeContext;
use tos_vm_runtime::memory::{translate_slice, MemoryMapping, MemoryRegion};
use tos_vm_runtime::storage::{NoOpAccounts, NoOpStorage};
use tos_vm_runtime::syscalls::blockchain::{
    SyscallError, TosGetBlockHash, TosGetBlockHeight, TosGetContractHash, TosGetTxHash,
    TosGetTxSender, BLOCKCHAIN_QUERY_COST,
};

fn create_test_mapping(data: Vec<u8>) -> MemoryMapping {
    let region = MemoryRegion::new_writable(data, 0x100000000);
    MemoryMapping::new(vec![region])
}

fn full_state_context(
    budget: u64,
) -> InvokeContext<NoOpStorage, NoOpAccounts> {
    InvokeContext::new_with_state(
        budget,
        [1u8; 32],
        [2u8; 32],
        12345,
        [3u8; 32],
        [4u8; 32],
        NoOpStorage,
        NoOpAccounts,
    )
}

fn read_output(mapping: &MemoryMapping) -> Vec<u8> {
    translate_slice(mapping, 0x100000000, 32, false).unwrap()
}

#[test]
fn test_get_block_hash() {
    let mut context = full_state_context(10_000);
    let mut mapping = create_test_mapping(vec![0u8; 32]);

    let result = TosGetBlockHash::rust(&mut context, 0x100000000, 0, 0, 0, 0, &mut mapping);

    assert!(result.is_ok());
    assert_eq!(read_output(&mapping), vec![2u8; 32]);
    assert_eq!(context.get_compute_units_consumed(), BLOCKCHAIN_QUERY_COST);
}

#[test]
fn test_get_block_height() {
    let mut context = full_state_context(10_000);
    let mut mapping = create_test_mapping(vec![0u8; 32]);

    let result = TosGetBlockHeight::rust(&mut context, 0, 0, 0, 0, 0, &mut mapping);

    assert!(result.is_ok());
    assert_eq!(result.unwrap(), 12345);
    assert_eq!(context.get_compute_units_consumed(), BLOCKCHAIN_QUERY_COST);
}

#[test]
fn test_get_tx_hash() {
    let mut context = full_state_context(10_000);
    let mut mapping = create_test_mapping(vec![0u8; 32]);

    let result = TosGetTxHash::rust(&mut context, 0x100000000, 0, 0, 0, 0, &mut mapping);

    assert!(result.is_ok());
    assert_eq!(read_output(&mapping), vec![3u8; 32]);
}

#[test]
fn test_get_tx_sender() {
    let mut context = full_state_context(10_000);
    let mut mapping = create_test_mapping(vec![0u8; 32]);

    let result = TosGetTxSender::rust(&mut context, 0x100000000, 0, 0, 0, 0, &mut mapping);

    assert!(result.is_ok());
    assert_eq!(read_output(&mapping), vec![4u8; 32]);
}

#[test]
fn test_get_contract_hash() {
    let mut context = full_state_context(10_000);
    let mut mapping = create_test_mapping(vec![0u8; 32]);

    let result = TosGetContractHash::rust(&mut context, 0x100000000, 0, 0, 0, 0, &mut mapping);

    assert!(result.is_ok());
    assert_eq!(read_output(&mapping), vec![1u8; 32]);
}

#[test]
fn test_insufficient_compute_units() {
    let mut context = InvokeContext::new(20, [0u8; 32], NoOpStorage, NoOpAccounts); // Very low budget
    let mut mapping = create_test_mapping(vec![0u8; 32]);

    let result = TosGetBlockHash::rust(&mut context, 0x100000000, 0, 0, 0, 0, &mut mapping);

    assert!(result.is_err());
    assert_eq!(result.unwrap_err(), SyscallError::OutOfComputeUnits);
}

#[test]
fn test_get_block_hash_unmapped_output() {
    // The charge stands even when the output buffer is unmapped.
    let mut context = full_state_context(10_000);
    let mut mapping = create_test_mapping(vec![0u8; 16]);

    let result = TosGetBlockHash::rust(&mut context, 0x100000000, 0, 0, 0, 0, &mut mapping);
    assert!(matches!(result, Err(SyscallError::MemoryFault(_))));
    assert_eq!(context.get_compute_units_consumed(), BLOCKCHAIN_QUERY_COST);
}
