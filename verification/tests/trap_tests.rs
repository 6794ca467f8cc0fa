//! Fault delivery: each fault kind becomes a trap through the exception
//! vector, with its code in the high byte of the status register.

use cvere::registers::PrivilegeLevel;
use cvere::vm::CVEREVM;
use cvere::VmError;

fn trap_code(vm: &CVEREVM) -> u16 {
    vm.registers.sr >> 8
}

#[test]
fn test_invalid_opcode_traps() {
    let mut vm = CVEREVM::new();
    vm.load_program(&[0x0001], 0).unwrap();

    assert_eq!(vm.step(), Ok(()));
    assert_eq!(trap_code(&vm), VmError::InvalidOpcode.fault_code());
    assert_eq!(vm.registers.pc, 0x0010, "resumes at the exception vector");
    assert_eq!(vm.registers.saved_pc, 0x0002, "the post-fetch program counter is saved");
    assert!(vm.registers.is_kernel_mode());
    assert!(!vm.halted);
    assert_eq!(vm.cycle_count, 1, "a trapped step still counts one cycle");
}

#[test]
fn test_execution_violation_traps() {
    let mut vm = CVEREVM::new();
    vm.load_program(&[0x0000, 0x0000], 0).unwrap();
    vm.registers.code_limit = 0x0002;

    assert_eq!(vm.step(), Ok(()));
    assert_eq!(trap_code(&vm), 0, "first fetch is inside the code segment");
    assert_eq!(vm.step(), Ok(()));
    assert_eq!(trap_code(&vm), VmError::ExecutionViolation.fault_code());
    assert_eq!(vm.registers.saved_pc, 0x0002, "the faulting counter itself is saved");
    assert_eq!(vm.registers.pc, 0x0010);
}

#[test]
fn test_fetch_at_top_of_memory_traps() {
    // The code segment is [code_base, code_limit) with a 16-bit limit,
    // so the very last address can never be executable: fetching there
    // is an execution violation.
    let mut vm = CVEREVM::new();
    vm.registers.pc = 0xFFFF;

    assert_eq!(vm.step(), Ok(()));
    assert_eq!(trap_code(&vm), VmError::ExecutionViolation.fault_code());
    assert_eq!(vm.registers.pc, 0x0010);
}

#[test]
fn test_second_word_out_of_range_traps() {
    // A CALL whose second word would lie past the end of memory.
    let mut vm = CVEREVM::new();
    vm.load_program(&[0xFF00], 0xFFFD).unwrap();
    vm.registers.pc = 0xFFFD;

    assert_eq!(vm.step(), Ok(()));
    assert_eq!(trap_code(&vm), VmError::OutOfRange.fault_code());
    assert_eq!(vm.registers.saved_pc, 0xFFFF, "saved after the first word");
    assert_eq!(vm.registers.pc, 0x0010);
}

#[test]
fn test_denied_store_traps_and_memory_unchanged() {
    let mut vm = CVEREVM::new();
    let program = vec![
        0xC142, // LOADI R1, 0x42
        0xB100, // STORE R1, R0, 0 — a write to 0x0000
        0xFFFF,
    ];
    vm.load_program(&program, 0).unwrap();
    vm.registers.enter_user_mode();

    assert_eq!(vm.step(), Ok(()));
    assert_eq!(vm.step(), Ok(()));
    assert_eq!(trap_code(&vm), VmError::AccessViolation.fault_code());
    assert!(vm.registers.is_kernel_mode(), "the trap forces ring 0");
    assert_eq!(vm.registers.saved_privilege, PrivilegeLevel::User);
    assert_eq!(vm.memory.read_word(0).unwrap(), 0xC142, "the denied store touched nothing");
}

#[test]
fn test_denied_load_traps() {
    // Build R1 = 0x2000 (world memory, closed to the user ring), then
    // LOAD R2 from it.
    let program = vec![
        0xC120, // LOADI R1, 0x20
        0xC208, // LOADI R2, 0x08
        0x8112, // SHL R1, R1, R2 — R1 = 0x2000
        0xA210, // LOAD R2, R1, 0
        0xFFFF,
    ];
    let mut vm = CVEREVM::new();
    vm.load_program(&program, 0).unwrap();
    vm.registers.enter_user_mode();

    for _ in 0..4 {
        vm.step().unwrap();
    }
    assert_eq!(vm.registers.sr >> 8, VmError::AccessViolation.fault_code());
    assert_eq!(vm.registers.read_gp(2), 0x08, "the denied load wrote no register");
}

#[test]
fn test_syscall_privilege_violation_traps() {
    let mut vm = CVEREVM::new();
    let program = vec![
        0xC140, // LOADI R1, 0x40 — CreateEntity, a supervisor call
        0xFF04, // SYSCALL
        0xFFFF,
    ];
    vm.load_program(&program, 0).unwrap();
    vm.registers.enter_user_mode();

    vm.step().unwrap();
    vm.step().unwrap();
    assert_eq!(trap_code(&vm), VmError::PrivilegeViolation.fault_code());
    assert!(vm.registers.is_kernel_mode());
}

#[test]
fn test_trap_and_return_restores_state() {
    let mut vm = CVEREVM::new();
    vm.registers.enter_user_mode();
    vm.registers.pc = 0x8000;
    vm.registers.sr = 0x000F;
    let sp_before = vm.registers.sp;

    vm.registers.raise_exception(7);
    assert_eq!(vm.registers.saved_pc, 0x8000);
    assert_eq!(vm.registers.saved_sr, 0x000F);
    assert_eq!(vm.registers.saved_privilege, PrivilegeLevel::User);
    assert_eq!(vm.registers.sr, 0x070F, "the code lands in the high byte, flags kept");
    assert_eq!(vm.registers.pc, 0x0010);
    assert!(vm.registers.is_kernel_mode());
    assert_eq!(vm.registers.user_sp, sp_before, "the outgoing stack pointer was banked");

    vm.registers.return_from_exception().unwrap();
    assert_eq!(vm.registers.pc, 0x8000);
    assert_eq!(vm.registers.sr, 0x000F);
    assert_eq!(vm.registers.get_privilege_level(), PrivilegeLevel::User);
    assert_eq!(vm.registers.sp, sp_before);
}

#[test]
fn test_return_from_exception_outside_kernel_fails() {
    let mut vm = CVEREVM::new();
    vm.registers.enter_user_mode();
    assert_eq!(vm.registers.return_from_exception(), Err(VmError::PrivilegeViolation));
}

#[test]
fn test_interrupt_mask_drops_interrupt() {
    let mut vm = CVEREVM::new();
    vm.registers.interrupt_mask = 0x0000;
    let pc = vm.registers.pc;
    assert!(!vm.registers.raise_interrupt(3), "a masked interrupt is dropped");
    assert_eq!(vm.registers.pc, pc);

    vm.registers.interrupt_mask = 0xFFFF;
    vm.registers.interrupts_enabled = false;
    assert!(!vm.registers.raise_interrupt(3), "disabled interrupts are dropped");

    vm.registers.interrupts_enabled = true;
    assert!(vm.registers.raise_interrupt(3));
    assert_eq!(vm.registers.pc, 0x0020, "interrupts use their own vector");
    assert_eq!(vm.registers.sr >> 8, 3, "the request number is the trap code");
}
