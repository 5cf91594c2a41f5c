use tos_vm_runtime::context::TosContext;
use tos_vm_runtime::error::TosVmError;
use tos_vm_runtime::memory::{MemoryMapping, MemoryRegion};
use tos_vm_runtime::vm::{
    interpret_execution_result, syscall_names, validate_compute_budget, vm_step, SyscallLog,
    VmEvent, VmState, DEFAULT_COMPUTE_BUDGET, MAX_COMPUTE_BUDGET,
};

#[test]
fn test_compute_budget_validation() {
    let result = validate_compute_budget(MAX_COMPUTE_BUDGET + 1);
    assert!(result.is_err());
}

#[test]
fn test_compute_budget_accepted() {
    assert_eq!(validate_compute_budget(DEFAULT_COMPUTE_BUDGET).unwrap(), DEFAULT_COMPUTE_BUDGET);
    assert_eq!(validate_compute_budget(MAX_COMPUTE_BUDGET).unwrap(), MAX_COMPUTE_BUDGET);
}

#[test]
fn test_interpret_execution_result() {
    assert_eq!(interpret_execution_result(Ok(0)).unwrap(), 0);
    assert!(matches!(
        interpret_execution_result(Ok(7)),
        Err(TosVmError::ProgramError(7))
    ));
    assert!(matches!(
        interpret_execution_result(Err(String::from("trap"))),
        Err(TosVmError::ExecutionError(_))
    ));
}

#[test]
fn test_vm_lifecycle() {
    let state = VmState::Unloaded;
    let state = vm_step(state, VmEvent::BytecodeAccepted);
    assert!(matches!(state, VmState::Verified));
    let state = vm_step(state, VmEvent::ContextAttached);
    assert!(matches!(state, VmState::ContextBound));
    let state = vm_step(state, VmEvent::ExecutionStarted);
    assert!(matches!(state, VmState::Executing));
    let state = vm_step(state, VmEvent::ExecutionFinished(Ok(0)));
    assert!(matches!(state, VmState::Completed(0)));
}

#[test]
fn test_vm_lifecycle_program_error() {
    let state = vm_step(VmState::Executing, VmEvent::ExecutionFinished(Ok(3)));
    assert!(matches!(state, VmState::ProgramError(3)));
}

#[test]
fn test_vm_lifecycle_traps() {
    let state = vm_step(
        VmState::Unloaded,
        VmEvent::BytecodeRejected(String::from("bad magic")),
    );
    assert!(matches!(state, VmState::Trapped(TosVmError::VerificationFailed(_))));

    let state = vm_step(
        VmState::Executing,
        VmEvent::ExecutionFinished(Err(String::from("fault"))),
    );
    assert!(matches!(state, VmState::Trapped(TosVmError::ExecutionError(_))));

    // An event out of order traps too.
    let state = vm_step(VmState::Unloaded, VmEvent::ExecutionStarted);
    assert!(matches!(state, VmState::Trapped(TosVmError::ExecutionError(_))));
}

#[test]
fn test_syscall_names() {
    let names = syscall_names();
    assert_eq!(names.len(), 13);
    assert_eq!(names[0], "tos_log");
    assert_eq!(names[12], "tos_get_return_data");
    assert!(names.contains(&"tos_storage_write"));
    assert!(names.contains(&"tos_transfer"));
}

#[test]
fn test_tos_context_meter() {
    let mut context = TosContext::new(1000);
    assert_eq!(context.compute_units_consumed(), 0);
    assert_eq!(context.get_remaining(), 1000);
    context.consume(300);
    assert_eq!(context.get_remaining(), 700);
    assert_eq!(context.compute_units_consumed(), 300);
    context.consume(800);
    assert_eq!(context.get_remaining(), 0);
    assert_eq!(context.compute_units_consumed(), 1000);
}

#[test]
fn test_tos_context_debug() {
    let mut context = TosContext::new(1000);
    assert!(!context.debug_mode);
    context.enable_debug();
    assert!(context.debug_mode);
}

#[test]
fn test_engine_log_syscall() {
    let mut context = TosContext::new(1000);
    context.enable_debug();
    let data = b"hello".to_vec();
    let len = data.len() as u64;
    let region = MemoryRegion::new_writable(data, 0x100000000);
    let mapping = MemoryMapping::new(vec![region]);

    let result = SyscallLog::call(0x100000000, len, 0, 0, 0, &mapping, &mut context);
    assert_eq!(result.unwrap(), 0);
    // One unit per byte, charged at the end.
    assert_eq!(context.compute_units_consumed(), len);
}

#[test]
fn test_engine_log_too_long() {
    let mut context = TosContext::new(10_000);
    let region = MemoryRegion::new_writable(vec![0u8; 8], 0x100000000);
    let mapping = MemoryMapping::new(vec![region]);

    let result = SyscallLog::call(0x100000000, 1025, 0, 0, 0, &mapping, &mut context);
    assert!(matches!(result, Err(TosVmError::SyscallError { .. })));
    assert_eq!(context.compute_units_consumed(), 0);
}

#[test]
fn test_engine_log_invalid_utf8() {
    let mut context = TosContext::new(10_000);
    let region = MemoryRegion::new_writable(vec![0xFF, 0xFE], 0x100000000);
    let mapping = MemoryMapping::new(vec![region]);

    let result = SyscallLog::call(0x100000000, 2, 0, 0, 0, &mapping, &mut context);
    assert!(result.is_err());
    assert_eq!(context.compute_units_consumed(), 0);
}
