//! End-to-end programs run on the machine, checking final registers,
//! memory, flags and cycle counts.

use cvere::vm::CVEREVM;

#[test]
fn test_simple_add() {
    let mut vm = CVEREVM::new();
    let program = vec![
        0xC105, // LOADI R1, 0x05
        0xC203, // LOADI R2, 0x03
        0x1312, // ADD R3, R1, R2
        0xFFFF, // HALT
    ];

    vm.load_program(&program, 0).unwrap();
    vm.run(100).unwrap();

    assert_eq!(vm.registers.read_gp(1), 5);
    assert_eq!(vm.registers.read_gp(2), 3);
    assert_eq!(vm.registers.read_gp(3), 8);
    assert!(vm.halted);
}

#[test]
fn test_loop() {
    let mut vm = CVEREVM::new();
    let program = vec![
        0xC100, // LOADI R1, 0x00
        0xC20A, // LOADI R2, 0x0A
        0x2101, // ADDI R1, 0x01
        0x3321, // SUB R3, R2, R1
        0xF3FD, // BNE R3, -3
        0xFFFF, // HALT
    ];

    vm.load_program(&program, 0).unwrap();
    vm.run(1000).unwrap();

    assert_eq!(vm.registers.read_gp(1), 10);
    assert!(vm.halted);
}

#[test]
fn test_memory_operations() {
    let mut vm = CVEREVM::new();
    let program = vec![
        0xC142, // LOADI R1, 0x42
        0xC210, // LOADI R2, 0x10
        0xB120, // STORE R1, R2, 0x0
        0xA320, // LOAD R3, R2, 0x0
        0xFFFF, // HALT
    ];

    vm.load_program(&program, 0).unwrap();
    vm.run(100).unwrap();

    assert_eq!(vm.registers.read_gp(3), 0x42);
    assert!(vm.halted);
}

#[test]
fn test_r0_hardwired() {
    let mut vm = CVEREVM::new();

    vm.registers.write_gp(0, 0xFFFF);
    assert_eq!(vm.registers.read_gp(0), 0);
}

#[test]
fn test_arithmetic_scenario() {
    let mut vm = CVEREVM::new();
    let program = vec![0xC105, 0xC203, 0x1312, 0x3421, 0xFFFF];

    vm.load_program(&program, 0).unwrap();
    vm.run(100).unwrap();

    assert_eq!(vm.registers.read_gp(1), 0x0005);
    assert_eq!(vm.registers.read_gp(2), 0x0003);
    assert_eq!(vm.registers.read_gp(3), 0x0008);
    assert_eq!(vm.registers.read_gp(4), 0xFFFE, "3 - 5 wraps modulo 2^16");
    assert!(vm.halted);
    assert_eq!(vm.cycle_count, 5);
}

#[test]
fn test_loop_counter_scenario() {
    let mut vm = CVEREVM::new();
    let program = vec![0xC100, 0xC20A, 0x2101, 0x3321, 0xF3FD, 0xFFFF];

    vm.load_program(&program, 0).unwrap();
    vm.run(100).unwrap();

    assert_eq!(vm.registers.read_gp(1), 0x000A);
    assert_eq!(vm.registers.read_gp(2), 0x000A);
    assert!(vm.halted);
}

#[test]
fn test_memory_round_trip_scenario() {
    let mut vm = CVEREVM::new();
    let program = vec![0xC142, 0xC210, 0xB120, 0xA320, 0xFFFF];

    vm.load_program(&program, 0).unwrap();
    vm.run(100).unwrap();

    assert_eq!(vm.registers.read_gp(3), 0x0042);
    // The effective address is R2 + offset*2 = 0x0010.
    assert_eq!(vm.memory.read_word(0x0010).unwrap(), 0x0042);
    assert!(vm.halted);
}

#[test]
fn test_r0_write_via_instruction() {
    let mut vm = CVEREVM::new();
    let program = vec![0xC0FF, 0xFFFF];

    vm.load_program(&program, 0).unwrap();
    vm.run(100).unwrap();

    assert_eq!(vm.registers.read_gp(0), 0x0000);
    assert!(vm.halted);
}

#[test]
fn test_bitwise_scenario() {
    let mut vm = CVEREVM::new();
    let program = vec![0xC10F, 0xC233, 0x4312, 0x5412, 0x6512, 0x7611, 0xFFFF];

    vm.load_program(&program, 0).unwrap();
    vm.run(100).unwrap();

    assert_eq!(vm.registers.read_gp(3), 0x0003, "AND");
    assert_eq!(vm.registers.read_gp(4), 0x003F, "OR");
    assert_eq!(vm.registers.read_gp(5), 0x003C, "XOR");
    assert_eq!(vm.registers.read_gp(6), 0xFFF0, "NOT R1");
    assert!(vm.halted);
}

#[test]
fn test_conditional_skips_scenario() {
    let mut vm = CVEREVM::new();
    let program = vec![0xC100, 0xE101, 0xC2FF, 0xC301, 0xF301, 0xC4FF, 0xFFFF];

    vm.load_program(&program, 0).unwrap();
    vm.run(100).unwrap();

    assert_eq!(vm.registers.read_gp(2), 0x0000, "skipped by taken BEQ");
    assert_eq!(vm.registers.read_gp(4), 0x0000, "skipped by taken BNE");
    assert!(vm.halted);
}

#[test]
fn test_shifts() {
    let mut vm = CVEREVM::new();
    let program = vec![
        0xC10F, // LOADI R1, 0x0F
        0xC202, // LOADI R2, 0x02
        0x8312, // SHL R3, R1, R2
        0x9412, // SHR R4, R1, R2
        0xFFFF, // HALT
    ];

    vm.load_program(&program, 0).unwrap();
    vm.run(100).unwrap();

    assert_eq!(vm.registers.read_gp(3), 0x3C, "0x0F << 2");
    assert_eq!(vm.registers.read_gp(4), 0x03, "0x0F >> 2");
    assert!(vm.halted);
}

#[test]
fn test_jump_and_call() {
    let mut vm = CVEREVM::new();
    // 0x0000 JMP 0x006; 0x0002,0x0004 skipped; at 0x0006 CALL 0x000C;
    // the call target halts; LR holds the address of the call's second
    // word.
    let program = vec![
        0xD006, // JMP 0x006
        0xC1FF, // (skipped)
        0xC2FF, // (skipped)
        0xFF00, // CALL ...
        0x000C, // ... 0x000C
        0xC3FF, // (not reached)
        0xFFFF, // 0x000C: HALT
    ];

    vm.load_program(&program, 0).unwrap();
    vm.run(100).unwrap();

    assert!(vm.halted);
    assert_eq!(vm.registers.read_gp(1), 0);
    assert_eq!(vm.registers.read_gp(2), 0);
    assert_eq!(vm.registers.read_gp(3), 0);
    assert_eq!(vm.registers.lr, 0x0008);
}

#[test]
fn test_push_pop() {
    let mut vm = CVEREVM::new();
    let program = vec![
        0xC17B, // LOADI R1, 0x7B
        0xFF02, // PUSH ...
        0x1000, // ... R1 (register index in the top nibble)
        0xC100, // LOADI R1, 0x00
        0xFF03, // POP ...
        0x2000, // ... R2
        0xFFFF, // HALT
    ];

    vm.load_program(&program, 0).unwrap();
    vm.run(100).unwrap();

    assert!(vm.halted);
    assert_eq!(vm.registers.read_gp(2), 0x7B);
    assert_eq!(vm.registers.sp, 0xFFFE, "push then pop balances the stack");
}

#[test]
fn test_flags_zero_after_sub() {
    let mut vm = CVEREVM::new();
    let program = vec![
        0xC105, // LOADI R1, 0x05
        0xC205, // LOADI R2, 0x05
        0x3312, // SUB R3, R1, R2 — zero result
        0xFFFF, // HALT
    ];
    vm.load_program(&program, 0).unwrap();
    vm.run(100).unwrap();
    let flags = vm.registers.get_flags();
    assert!(flags.zero, "5 - 5 sets Z");
    assert!(!flags.negative);
}

#[test]
fn test_flags_negative_after_sub() {
    let mut vm = CVEREVM::new();
    let program = vec![
        0xC100, // LOADI R1, 0x00
        0xC201, // LOADI R2, 0x01
        0x3312, // SUB R3, R1, R2 — 0xFFFF
        0xFFFF, // HALT
    ];
    vm.load_program(&program, 0).unwrap();
    vm.run(100).unwrap();
    let flags = vm.registers.get_flags();
    assert!(!flags.zero);
    assert!(flags.negative, "bit 15 of the result sets N");
    assert_eq!(vm.registers.read_gp(3), 0xFFFF);
}

#[test]
fn test_run_cycle_budget() {
    let mut vm = CVEREVM::new();
    // An infinite loop: JMP 0x000.
    let program = vec![0xD000];
    vm.load_program(&program, 0).unwrap();

    let executed = vm.run(25).unwrap();
    assert_eq!(executed, 25);
    assert!(!vm.halted);
    assert_eq!(vm.cycle_count, 25);

    // The state is clean and resumable.
    let executed = vm.run(10).unwrap();
    assert_eq!(executed, 10);
    assert_eq!(vm.cycle_count, 35);
}

#[test]
fn test_step_after_halt_is_error() {
    let mut vm = CVEREVM::new();
    vm.load_program(&[0xFFFF], 0).unwrap();
    vm.run(10).unwrap();
    assert!(vm.halted);
    assert_eq!(vm.step(), Err(cvere::VmError::Halted));
}

#[test]
fn test_reset_idempotent() {
    let mut vm = CVEREVM::new();
    vm.load_program(&[0xC105, 0xFFFF], 0).unwrap();
    vm.run(100).unwrap();

    vm.reset();
    let once = vm.state_dump();
    let mem_once = vm.memory_dump(0, 64);
    vm.reset();
    assert_eq!(vm.state_dump(), once);
    assert_eq!(vm.memory_dump(0, 64), mem_once);
    assert!(!vm.halted);
    assert_eq!(vm.cycle_count, 0);
    assert_eq!(vm.registers.read_gp(1), 0);
    assert_eq!(vm.memory.read_word(0).unwrap(), 0);
}
