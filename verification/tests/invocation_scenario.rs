//! An end-to-end invocation: one context, a real in-memory storage port,
//! and a sequence of syscalls with exact compute accounting.

use tos_vm_runtime::invoke_context::InvokeContext;
use tos_vm_runtime::memory::{translate_slice, MemoryMapping, MemoryRegion};
use tos_vm_runtime::storage::{InMemoryAccounts, InMemoryStorage};
use tos_vm_runtime::syscalls::logging::TosLog;
use tos_vm_runtime::syscalls::storage::{TosStorageRead, TosStorageWrite};

#[test]
fn test_invocation_scenario() {
    let mut context = InvokeContext::new(
        10_000,
        [1u8; 32],
        InMemoryStorage::new(),
        InMemoryAccounts::new(),
    );
    context.enable_debug();

    // Guest memory layout: "hi" at 0, "k" at 8, [1,2,3] at 16,
    // a 3-byte output buffer at 32.
    let mut guest = vec![0u8; 64];
    guest[0..2].copy_from_slice(b"hi");
    guest[8..9].copy_from_slice(b"k");
    guest[16..19].copy_from_slice(&[1, 2, 3]);
    let region = MemoryRegion::new_writable(guest, 0x100000000);
    let mut mapping = MemoryMapping::new(vec![region]);

    // log("hi"): success, consumed = 100 + 2 = 102.
    let result = TosLog::rust(&mut context, 0x100000000, 2, 0, 0, 0, &mut mapping);
    assert_eq!(result.unwrap(), 0);
    assert_eq!(context.get_compute_units_consumed(), 102);
    assert_eq!(context.log_messages()[0], "hi");

    // storage_write(key = "k", value = [1,2,3]): success,
    // consumed += 500 + 6 = 506.
    let result = TosStorageWrite::rust(
        &mut context,
        0x100000008, // key
        1,
        0x100000010, // value
        3,
        0,
        &mut mapping,
    );
    assert_eq!(result.unwrap(), 0);
    assert_eq!(context.get_compute_units_consumed(), 102 + 506);

    // storage_read(key = "k", buf_len = 3): returns 3, buffer [1,2,3],
    // consumed += 200 + 3 = 203.
    let result = TosStorageRead::rust(
        &mut context,
        0x100000008, // key
        1,
        0x100000020, // output buffer
        3,
        0,
        &mut mapping,
    );
    assert_eq!(result.unwrap(), 3);
    let buffer = translate_slice(&mapping, 0x100000020, 3, false).unwrap();
    assert_eq!(buffer, vec![1, 2, 3]);
    assert_eq!(context.get_compute_units_consumed(), 102 + 506 + 203);
}

#[test]
fn test_two_contracts_never_alias() {
    // Two invocations over one shared storage port, with different contract
    // hashes, write the same key and never observe each other's value.
    let mut storage = InMemoryStorage::new();

    let mut guest = vec![0u8; 32];
    guest[0..1].copy_from_slice(b"k");
    guest[8..9].copy_from_slice(&[1]);
    let region = MemoryRegion::new_writable(guest, 0x100000000);
    let mut mapping = MemoryMapping::new(vec![region]);

    // First contract writes value [1] under "k".
    let mut first = InvokeContext::new(10_000, [1u8; 32], storage, InMemoryAccounts::new());
    TosStorageWrite::rust(&mut first, 0x100000000, 1, 0x100000008, 1, 0, &mut mapping)
        .unwrap();
    storage = first.storage;

    // Second contract writes value [2] under the same key "k".
    mapping.write_bytes(0x100000008, &[2]).unwrap();
    let mut second = InvokeContext::new(10_000, [2u8; 32], storage, InMemoryAccounts::new());
    TosStorageWrite::rust(&mut second, 0x100000000, 1, 0x100000008, 1, 0, &mut mapping)
        .unwrap();
    storage = second.storage;

    // Each contract reads back its own value.
    let mut first = InvokeContext::new(10_000, [1u8; 32], storage, InMemoryAccounts::new());
    let got = TosStorageRead::rust(&mut first, 0x100000000, 1, 0x100000010, 8, 0, &mut mapping);
    assert_eq!(got.unwrap(), 1);
    assert_eq!(translate_slice(&mapping, 0x100000010, 1, false).unwrap(), vec![1]);
    storage = first.storage;

    let mut second = InvokeContext::new(10_000, [2u8; 32], storage, InMemoryAccounts::new());
    let got = TosStorageRead::rust(&mut second, 0x100000000, 1, 0x100000010, 8, 0, &mut mapping);
    assert_eq!(got.unwrap(), 1);
    assert_eq!(translate_slice(&mapping, 0x100000010, 1, false).unwrap(), vec![2]);
}
