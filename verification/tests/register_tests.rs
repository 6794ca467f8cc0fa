//! The register file on its own: register access, flags, privilege
//! transitions and the banked stack pointers.

use cvere::flags::StatusFlags;
use cvere::registers::{PrivilegeLevel, RegisterFile};
use cvere::VmError;

#[test]
fn test_gp_access_bounds() {
    let mut rf = RegisterFile::new();
    rf.write_gp(1, 0x1234);
    assert_eq!(rf.read_gp(1), 0x1234);
    rf.write_gp(15, 0xBEEF);
    assert_eq!(rf.read_gp(15), 0xBEEF);
    rf.write_gp(16, 0xAAAA);
    assert_eq!(rf.read_gp(16), 0, "slot indices past 15 read zero");
    rf.write_gp(0, 0x5555);
    assert_eq!(rf.read_gp(0), 0, "slot 0 is hardwired");
}

#[test]
fn test_boot_state() {
    let rf = RegisterFile::new();
    assert_eq!(rf.pc, 0);
    assert_eq!(rf.sp, 0xFFFE);
    assert_eq!(rf.kernel_sp, 0xFFFE);
    assert_eq!(rf.supervisor_sp, 0xEFFE);
    assert_eq!(rf.user_sp, 0xDFFE);
    assert_eq!(rf.lr, 0);
    assert_eq!(rf.sr, 0);
    assert_eq!(rf.exception_handler, 0x0010);
    assert_eq!(rf.interrupt_handler, 0x0020);
    assert_eq!(rf.code_base, 0x0000);
    assert_eq!(rf.code_limit, 0xFFFF);
    assert_eq!(rf.stack_base, 0xD000);
    assert_eq!(rf.stack_limit, 0xFFFF);
    assert!(rf.interrupts_enabled);
    assert_eq!(rf.interrupt_mask, 0xFFFF);
    assert!(rf.is_kernel_mode());
}

#[test]
fn test_supervisor_transition_banks_sp() {
    let mut rf = RegisterFile::new();
    rf.sp = 0xF00C;
    rf.enter_supervisor_mode().unwrap();
    assert!(rf.is_supervisor_mode());
    assert_eq!(rf.sp, 0xEFFE, "the supervisor bank was loaded");
    assert_eq!(rf.kernel_sp, 0xF00C, "the outgoing stack pointer was banked");
}

#[test]
fn test_user_transition_banks_sp() {
    let mut rf = RegisterFile::new();
    rf.enter_supervisor_mode().unwrap();
    rf.sp = 0xE123;
    rf.enter_user_mode();
    assert!(rf.is_user_mode());
    assert_eq!(rf.sp, 0xDFFE);
    assert_eq!(rf.supervisor_sp, 0xE123);
}

#[test]
fn test_escalation_denied() {
    let mut rf = RegisterFile::new();
    rf.enter_user_mode();
    assert_eq!(rf.enter_supervisor_mode(), Err(VmError::PrivilegeViolation));
    assert!(rf.is_user_mode(), "a refused transition changes nothing");
    assert_eq!(
        rf.drop_privilege(PrivilegeLevel::Kernel),
        Err(VmError::PrivilegeViolation),
        "drop_privilege cannot escalate"
    );
    assert_eq!(
        rf.drop_privilege(PrivilegeLevel::Supervisor),
        Err(VmError::PrivilegeViolation)
    );
}

#[test]
fn test_drop_privilege_same_ring_is_noop() {
    let mut rf = RegisterFile::new();
    rf.sp = 0x1234;
    rf.drop_privilege(PrivilegeLevel::Kernel).unwrap();
    assert_eq!(rf.sp, 0x1234);
    assert_eq!(rf.kernel_sp, 0xFFFE, "the bank is untouched by a same-ring drop");
}

#[test]
fn test_drop_privilege_to_user() {
    let mut rf = RegisterFile::new();
    rf.sp = 0xFABC;
    rf.drop_privilege(PrivilegeLevel::User).unwrap();
    assert!(rf.is_user_mode());
    assert_eq!(rf.sp, 0xDFFE);
    assert_eq!(rf.kernel_sp, 0xFABC);
}

#[test]
fn test_memory_access_policy() {
    let mut rf = RegisterFile::new();

    // Kernel: everything.
    assert!(rf.can_access_memory(0x0000, true).is_ok());
    assert!(rf.can_access_memory(0xFFFF, true).is_ok());

    rf.enter_supervisor_mode().unwrap();
    assert!(rf.can_access_memory(0x0800, false).is_ok(), "kernel region readable");
    assert_eq!(rf.can_access_memory(0x0800, true), Err(VmError::AccessViolation));
    assert_eq!(rf.can_access_memory(0xF000, false), Err(VmError::AccessViolation));
    assert!(rf.can_access_memory(0x2000, true).is_ok(), "world memory");
    assert!(rf.can_access_memory(0x7FFF, false).is_ok());
    assert_eq!(rf.can_access_memory(0x8000, false), Err(VmError::AccessViolation));
    assert_eq!(rf.can_access_memory(0x1800, false), Err(VmError::AccessViolation));

    rf.enter_user_mode();
    assert!(rf.can_access_memory(0x0123, false).is_ok(), "kernel region readable");
    assert_eq!(rf.can_access_memory(0x0123, true), Err(VmError::AccessViolation));
    assert!(rf.can_access_memory(0x8000, true).is_ok(), "user heap");
    assert!(rf.can_access_memory(0xDFFF, true).is_ok());
    assert_eq!(rf.can_access_memory(0xE000, false), Err(VmError::AccessViolation));
    assert_eq!(rf.can_access_memory(0x2000, false), Err(VmError::AccessViolation));
    assert_eq!(rf.can_access_memory(0xF800, false), Err(VmError::AccessViolation));
}

#[test]
fn test_can_execute_bounds() {
    let mut rf = RegisterFile::new();
    rf.code_base = 0x0100;
    rf.code_limit = 0x0200;
    assert!(rf.can_execute(0x0100).is_ok());
    assert!(rf.can_execute(0x01FE).is_ok());
    assert_eq!(rf.can_execute(0x00FE), Err(VmError::ExecutionViolation));
    assert_eq!(rf.can_execute(0x0200), Err(VmError::ExecutionViolation));
}

#[test]
fn test_flags_preserve_trap_code() {
    let mut rf = RegisterFile::new();
    rf.sr = 0x4200;
    let mut f = rf.get_flags();
    assert!(!f.zero);
    f.zero = true;
    f.carry = true;
    rf.set_flags(f);
    assert_eq!(rf.sr, 0x4205, "the high byte survives flag writes");
    let g = rf.get_flags();
    assert!(g.zero && g.carry && !g.negative && !g.overflow);
}

#[test]
fn test_status_flags_round_trip() {
    let f = StatusFlags { zero: true, negative: false, carry: true, overflow: true };
    assert_eq!(f.to_u16(), 0b1101);
    let g = StatusFlags::from_u16(f.to_u16());
    assert_eq!(g.zero, f.zero);
    assert_eq!(g.negative, f.negative);
    assert_eq!(g.carry, f.carry);
    assert_eq!(g.overflow, f.overflow);
    assert_eq!(StatusFlags::from_u16(0xFFF0).to_u16(), 0, "only the low nibble is read");
    assert_eq!(StatusFlags::new().to_u16(), 0);
}

#[test]
fn test_privilege_level_codec() {
    assert_eq!(PrivilegeLevel::from_u16(0), PrivilegeLevel::Kernel);
    assert_eq!(PrivilegeLevel::from_u16(1), PrivilegeLevel::Supervisor);
    assert_eq!(PrivilegeLevel::from_u16(2), PrivilegeLevel::User);
    assert_eq!(PrivilegeLevel::from_u16(3), PrivilegeLevel::User);
    assert_eq!(PrivilegeLevel::from_u16(4), PrivilegeLevel::Kernel, "only the low bits count");
    assert_eq!(PrivilegeLevel::Kernel.to_u16(), 0);
    assert_eq!(PrivilegeLevel::Supervisor.to_u16(), 1);
    assert_eq!(PrivilegeLevel::User.to_u16(), 2);
    assert!(PrivilegeLevel::Kernel.can_access(PrivilegeLevel::User));
    assert!(!PrivilegeLevel::User.can_access(PrivilegeLevel::Kernel));
    assert!(PrivilegeLevel::Supervisor.can_access(PrivilegeLevel::Supervisor));
}

#[test]
fn test_register_reset() {
    let mut rf = RegisterFile::new();
    rf.write_gp(5, 99);
    rf.pc = 0x1234;
    rf.enter_user_mode();
    rf.interrupt_mask = 0;
    rf.reset();
    assert_eq!(rf.read_gp(5), 0);
    assert_eq!(rf.pc, 0);
    assert!(rf.is_kernel_mode());
    assert_eq!(rf.interrupt_mask, 0xFFFF);
    assert_eq!(rf.sp, 0xFFFE);
}

#[test]
fn test_register_dump_format() {
    let mut rf = RegisterFile::new();
    rf.write_gp(1, 0xABCD);
    let d = rf.dump();
    assert!(d.contains("R1: 0xABCD"));
    assert!(d.contains("PC: 0x0000"));
    assert!(d.contains("Ring: 0"));
    assert!(d.contains("Stack: 0xD000-0xFFFF"));
    assert!(d.contains("[Z=0 N=0 C=0 V=0]"));
}

#[test]
fn test_console_plumbing() {
    let mut rf = RegisterFile::new();
    rf.queue_console_input("hi");
    assert_eq!(rf.console.read_char(), Some('h'));
    rf.console.print_str("ok");
    assert_eq!(rf.get_console_output(), "ok");
}
