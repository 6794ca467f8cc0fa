//! The register file: sixteen general-purpose words, the special
//! registers, the banked stack pointers and the three-ring privilege
//! state machine with trap entry and return.

use vstd::prelude::*;

use vstd::string::StringExecFns;

use crate::VmError;
use crate::console::{Console, ConsoleView};
use crate::flags::{spec_flags_from_u16, spec_flags_to_u16, StatusFlags};
use crate::text::{hex4_chars, hex_digit, hex_digit_str, push_hex4};

verus! {

/// Ring-based protection levels; a lower ring number holds more
/// authority.
#[derive(Debug, Clone, Copy, PartialEq, Eq, Structural)]
pub enum PrivilegeLevel {
    /// Ring 0.
    Kernel,
    /// Ring 1.
    Supervisor,
    /// Ring 2.
    User,
}

/// The ring number of a privilege level: 0 kernel, 1 supervisor, 2 user.
pub open spec fn ring(p: PrivilegeLevel) -> int {
    match p {
        PrivilegeLevel::Kernel => 0,
        PrivilegeLevel::Supervisor => 1,
        PrivilegeLevel::User => 2,
    }
}

/// The privilege level encoded by the low two bits of a word: 0 kernel,
/// 1 supervisor, anything else user.
pub open spec fn spec_privilege_from_u16(value: u16) -> PrivilegeLevel {
    if value & 0x3 == 0 {
        PrivilegeLevel::Kernel
    } else if value & 0x3 == 1 {
        PrivilegeLevel::Supervisor
    } else {
        PrivilegeLevel::User
    }
}

impl PrivilegeLevel {
    /// Whether this ring may act on behalf of `target`: true exactly
    /// when it is at least as privileged (its ring number is no larger).
    pub fn can_access(&self, target: PrivilegeLevel) -> (r: bool)
        ensures
            r == (ring(*self) <= ring(target)),
    {
        self.to_u16() <= target.to_u16()
    }

    /// Decodes a privilege level from the low two bits of a word.
    pub fn from_u16(value: u16) -> (r: PrivilegeLevel)
        ensures
            r == spec_privilege_from_u16(value),
    {
        match value & 0x3 {
            0 => PrivilegeLevel::Kernel,
            1 => PrivilegeLevel::Supervisor,
            _ => PrivilegeLevel::User,
        }
    }

    /// The ring number as a word.
    pub fn to_u16(&self) -> (r: u16)
        ensures
            r == ring(*self),
    {
        match self {
            PrivilegeLevel::Kernel => 0,
            PrivilegeLevel::Supervisor => 1,
            PrivilegeLevel::User => 2,
        }
    }
}

/// The abstract state of the register file.
#[verifier::ext_equal]
pub ghost struct RegView {
    /// The sixteen general-purpose words; slot 0 is hardwired to zero.
    pub gp: Seq<u16>,
    pub pc: u16,
    /// The live stack pointer of the current ring.
    pub sp: u16,
    pub lr: u16,
    /// Status register: flag bits in the low byte, the last trap code in
    /// the high byte.
    pub sr: u16,
    pub kernel_sp: u16,
    pub supervisor_sp: u16,
    pub user_sp: u16,
    pub privilege: PrivilegeLevel,
    pub exception_handler: u16,
    pub interrupt_handler: u16,
    pub saved_pc: u16,
    pub saved_sr: u16,
    pub saved_privilege: PrivilegeLevel,
    pub code_base: u16,
    pub code_limit: u16,
    pub data_base: u16,
    pub data_limit: u16,
    pub stack_base: u16,
    pub stack_limit: u16,
    pub interrupts_enabled: bool,
    pub interrupt_mask: u16,
    pub console: ConsoleView,
}

/// Well-formedness: the register file holds exactly sixteen
/// general-purpose slots and slot 0 reads zero.
pub open spec fn reg_wf(v: RegView) -> bool {
    v.gp.len() == 16 && v.gp[0] == 0
}

/// The value read from general-purpose register `reg`: slot 0 and any
/// slot index past 15 read as zero.
pub open spec fn spec_read_gp(v: RegView, reg: u8) -> u16 {
    if reg == 0 || reg >= 16 {
        0
    } else {
        v.gp[reg as int]
    }
}

/// The register file after a write to general-purpose register `reg`:
/// writes to slot 0 and to slot indices past 15 are ignored.
pub open spec fn spec_write_gp(v: RegView, reg: u8, value: u16) -> RegView {
    if reg == 0 || reg >= 16 {
        v
    } else {
        RegView { gp: v.gp.update(reg as int, value), ..v }
    }
}

/// The register file after the live stack pointer is banked into the
/// slot of the current ring.
pub open spec fn bank_current(v: RegView) -> RegView {
    match v.privilege {
        PrivilegeLevel::Kernel => RegView { kernel_sp: v.sp, ..v },
        PrivilegeLevel::Supervisor => RegView { supervisor_sp: v.sp, ..v },
        PrivilegeLevel::User => RegView { user_sp: v.sp, ..v },
    }
}

/// The banked stack pointer stored for ring `p`.
pub open spec fn bank_slot(v: RegView, p: PrivilegeLevel) -> u16 {
    match p {
        PrivilegeLevel::Kernel => v.kernel_sp,
        PrivilegeLevel::Supervisor => v.supervisor_sp,
        PrivilegeLevel::User => v.user_sp,
    }
}

/// The status register with trap code `code` written into its high
/// byte, the flag byte kept.
pub open spec fn sr_with_code(sr: u16, code: u16) -> u16 {
    (sr & 0x00FF) | (code << 8)
}

/// The register file after a trap is delivered: the pre-trap program
/// counter, status register and privilege are saved, the trap code is
/// written into the high byte of the status register, the outgoing
/// ring's stack pointer is banked, and execution continues in the
/// kernel ring at `vector` on the kernel stack.
pub open spec fn trap_entry(v: RegView, code: u16, vector: u16) -> RegView {
    let b = bank_current(v);
    RegView {
        saved_pc: v.pc,
        saved_sr: v.sr,
        saved_privilege: v.privilege,
        sr: sr_with_code(v.sr, code),
        privilege: PrivilegeLevel::Kernel,
        sp: b.kernel_sp,
        pc: vector,
        ..b
    }
}

/// The register file after a return from trap (only legal in the kernel
/// ring): the saved program counter, status register and privilege are
/// restored, the kernel stack pointer is banked, and the stack pointer
/// of the restored ring is loaded.
pub open spec fn trap_return(v: RegView) -> RegView {
    let b = RegView { kernel_sp: v.sp, ..v };
    RegView {
        pc: v.saved_pc,
        sr: v.saved_sr,
        privilege: v.saved_privilege,
        sp: bank_slot(b, v.saved_privilege),
        ..b
    }
}

/// The register file after a voluntary drop to `target` (legal only
/// when `target` is a strictly less privileged ring): the outgoing
/// ring's stack pointer is banked, the target ring's is loaded.
pub open spec fn drop_to(v: RegView, target: PrivilegeLevel) -> RegView {
    let b = bank_current(v);
    RegView { sp: bank_slot(b, target), privilege: target, ..b }
}

/// Whether a data access to `address` is allowed from `ring`. The
/// kernel accesses everything; the kernel region `0x0000..0x0FFF` is
/// read-only to lower rings; the I/O region `0xF000..0xFFFF` is closed
/// to them; the supervisor may also use world memory
/// `0x2000..0x7FFF`; the user ring may use only the user heap
/// `0x8000..0xDFFF`.
pub open spec fn mem_access_allowed(p: PrivilegeLevel, address: u16, write: bool) -> bool {
    if p is Kernel {
        true
    } else if address < 0x1000 {
        !write
    } else if address >= 0xF000 {
        false
    } else if p is Supervisor {
        0x2000 <= address < 0x8000
    } else {
        0x8000 <= address < 0xE000
    }
}

/// The boot state of the register file: registers cleared, the kernel
/// ring live on its stack at `0xFFFE`, supervisor and user stacks at
/// `0xEFFE` and `0xDFFE`, vectors at `0x0010` and `0x0020`, code and
/// data segments spanning `[0x0000, 0xFFFF)`, the stack segment
/// `[0xD000, 0xFFFF)`, interrupts enabled and fully unmasked. The
/// console keeps whatever state it had.
pub open spec fn boot_regs(console: ConsoleView) -> RegView {
    RegView {
        gp: Seq::new(16, |i: int| 0u16),
        pc: 0,
        sp: 0xFFFE,
        lr: 0,
        sr: 0,
        kernel_sp: 0xFFFE,
        supervisor_sp: 0xEFFE,
        user_sp: 0xDFFE,
        privilege: PrivilegeLevel::Kernel,
        exception_handler: 0x0010,
        interrupt_handler: 0x0020,
        saved_pc: 0,
        saved_sr: 0,
        saved_privilege: PrivilegeLevel::Kernel,
        code_base: 0x0000,
        code_limit: 0xFFFF,
        data_base: 0x0000,
        data_limit: 0xFFFF,
        stack_base: 0xD000,
        stack_limit: 0xFFFF,
        interrupts_enabled: true,
        interrupt_mask: 0xFFFF,
        console: console,
    }
}

/// The register file: general-purpose and special registers, the three
/// banked stack pointers, the saved trap state, the segment bounds, the
/// interrupt gate, and the console the syscall layer prints to.
pub struct RegisterFile {
    pub gp_regs: Vec<u16>,
    pub pc: u16,
    pub sp: u16,
    pub lr: u16,
    pub sr: u16,
    pub kernel_sp: u16,
    pub supervisor_sp: u16,
    pub user_sp: u16,
    pub privilege: PrivilegeLevel,
    pub exception_handler: u16,
    pub interrupt_handler: u16,
    pub saved_pc: u16,
    pub saved_sr: u16,
    pub saved_privilege: PrivilegeLevel,
    pub code_base: u16,
    pub code_limit: u16,
    pub data_base: u16,
    pub data_limit: u16,
    pub stack_base: u16,
    pub stack_limit: u16,
    pub interrupts_enabled: bool,
    pub interrupt_mask: u16,
    pub console: Console,
}

impl View for RegisterFile {
    type V = RegView;

    open spec fn view(&self) -> RegView {
        RegView {
            gp: self.gp_regs@,
            pc: self.pc,
            sp: self.sp,
            lr: self.lr,
            sr: self.sr,
            kernel_sp: self.kernel_sp,
            supervisor_sp: self.supervisor_sp,
            user_sp: self.user_sp,
            privilege: self.privilege,
            exception_handler: self.exception_handler,
            interrupt_handler: self.interrupt_handler,
            saved_pc: self.saved_pc,
            saved_sr: self.saved_sr,
            saved_privilege: self.saved_privilege,
            code_base: self.code_base,
            code_limit: self.code_limit,
            data_base: self.data_base,
            data_limit: self.data_limit,
            stack_base: self.stack_base,
            stack_limit: self.stack_limit,
            interrupts_enabled: self.interrupts_enabled,
            interrupt_mask: self.interrupt_mask,
            console: self.console@,
        }
    }
}

/// Sixteen zeroed general-purpose slots.
fn zero_gp_regs() -> (r: Vec<u16>)
    ensures
        r@ == Seq::new(16, |i: int| 0u16),
{
    let r: Vec<u16> = vec![0, 0, 0, 0, 0, 0, 0, 0, 0, 0, 0, 0, 0, 0, 0, 0];
    proof {
        assert(r@ =~= Seq::new(16, |i: int| 0u16));
    }
    r
}

impl RegisterFile {
    /// Well-formedness of the sixteen-slot register array.
    pub open spec fn wf(&self) -> bool {
        reg_wf(self@)
    }

    /// A register file in the boot state, with a fresh console.
    pub fn new() -> (r: RegisterFile)
        ensures
            r.wf(),
            r@ == boot_regs(
                ConsoleView {
                    output: Seq::<char>::empty(),
                    input: Seq::<char>::empty(),
                    color: 7,
                    cursor_x: 0,
                    cursor_y: 0,
                },
            ),
    {
        let r = RegisterFile {
            gp_regs: zero_gp_regs(),
            pc: 0,
            sp: 0xFFFE,
            lr: 0,
            sr: 0,
            kernel_sp: 0xFFFE,
            supervisor_sp: 0xEFFE,
            user_sp: 0xDFFE,
            privilege: PrivilegeLevel::Kernel,
            exception_handler: 0x0010,
            interrupt_handler: 0x0020,
            saved_pc: 0,
            saved_sr: 0,
            saved_privilege: PrivilegeLevel::Kernel,
            code_base: 0x0000,
            code_limit: 0xFFFF,
            data_base: 0x0000,
            data_limit: 0xFFFF,
            stack_base: 0xD000,
            stack_limit: 0xFFFF,
            interrupts_enabled: true,
            interrupt_mask: 0xFFFF,
            console: Console::new(),
        };
        proof {
            assert(r@ =~= boot_regs(r@.console));
        }
        r
    }

    /// Reads a general-purpose register; slot 0 and out-of-range slots
    /// read zero.
    pub fn read_gp(&self, reg: u8) -> (r: u16)
        requires
            self.wf(),
        ensures
            r == spec_read_gp(self@, reg),
    {
        if reg >= 16 {
            return 0;
        }
        if reg == 0 {
            0
        } else {
            self.gp_regs[reg as usize]
        }
    }

    /// Writes a general-purpose register; writes to slot 0 and to
    /// out-of-range slots are ignored.
    pub fn write_gp(&mut self, reg: u8, value: u16)
        requires
            old(self).wf(),
        ensures
            final(self).wf(),
            final(self)@ == spec_write_gp(old(self)@, reg, value),
    {
        if reg >= 16 {
            return ;
        }
        if reg != 0 {
            self.gp_regs[reg as usize] = value;
        }
    }

    /// Escalates to the kernel ring, banking the outgoing ring's stack
    /// pointer and loading the kernel stack. Already in the kernel ring
    /// it is a no-op. Escalation is reserved to trap entry and the
    /// driver; guest code escalates only through traps.
    pub fn enter_kernel_mode(&mut self)
        ensures
            old(self)@.privilege is Kernel ==> final(self)@ == old(self)@,
            !(old(self)@.privilege is Kernel) ==> final(self)@ == (RegView {
                sp: old(self)@.kernel_sp,
                privilege: PrivilegeLevel::Kernel,
                ..bank_current(old(self)@)
            }),
    {
        if matches!(self.privilege, PrivilegeLevel::Kernel) {
            return ;
        }
        match self.privilege {
            PrivilegeLevel::Supervisor => {
                self.supervisor_sp = self.sp;
            },
            PrivilegeLevel::User => {
                self.user_sp = self.sp;
            },
            _ => {},
        }
        self.sp = self.kernel_sp;
        self.privilege = PrivilegeLevel::Kernel;
    }

    /// Moves to the supervisor ring. The kernel may drop into it; the
    /// supervisor is already there (a no-op); the user ring may not
    /// escalate and is refused with `PrivilegeViolation`.
    pub fn enter_supervisor_mode(&mut self) -> (r: Result<(), VmError>)
        ensures
            match old(self)@.privilege {
                PrivilegeLevel::Kernel => r is Ok && final(self)@ == drop_to(
                    old(self)@,
                    PrivilegeLevel::Supervisor,
                ),
                PrivilegeLevel::Supervisor => r is Ok && final(self)@ == old(self)@,
                PrivilegeLevel::User => r == Err::<(), VmError>(VmError::PrivilegeViolation)
                    && final(self)@ == old(self)@,
            },
    {
        match self.privilege {
            PrivilegeLevel::Kernel => {
                self.kernel_sp = self.sp;
                self.sp = self.supervisor_sp;
                self.privilege = PrivilegeLevel::Supervisor;
                Ok(())
            },
            PrivilegeLevel::User => Err(VmError::PrivilegeViolation),
            PrivilegeLevel::Supervisor => Ok(()),
        }
    }

    /// Drops to the user ring from any higher ring, banking the
    /// outgoing stack pointer and loading the user stack. Already in
    /// the user ring it is a no-op.
    pub fn enter_user_mode(&mut self)
        ensures
            old(self)@.privilege is User ==> final(self)@ == old(self)@,
            !(old(self)@.privilege is User) ==> final(self)@ == drop_to(
                old(self)@,
                PrivilegeLevel::User,
            ),
    {
        match self.privilege {
            PrivilegeLevel::Kernel => {
                self.kernel_sp = self.sp;
            },
            PrivilegeLevel::Supervisor => {
                self.supervisor_sp = self.sp;
            },
            PrivilegeLevel::User => {
                return ;
            },
        }
        self.sp = self.user_sp;
        self.privilege = PrivilegeLevel::User;
    }

    /// Drops privilege to `target`. Escalation (a target ring more
    /// privileged than the current one) is refused with
    /// `PrivilegeViolation`; the same ring is a no-op; a genuine drop
    /// banks the outgoing stack pointer and loads the target ring's.
    pub fn drop_privilege(&mut self, target: PrivilegeLevel) -> (r: Result<(), VmError>)
        ensures
            ring(old(self)@.privilege) > ring(target) ==> r == Err::<(), VmError>(
                VmError::PrivilegeViolation,
            ) && final(self)@ == old(self)@,
            ring(old(self)@.privilege) == ring(target) ==> r is Ok && final(self)@ == old(self)@,
            ring(old(self)@.privilege) < ring(target) ==> r is Ok && final(self)@ == drop_to(
                old(self)@,
                target,
            ),
    {
        let cur = self.privilege.to_u16();
        let tgt = target.to_u16();
        if cur > tgt {
            return Err(VmError::PrivilegeViolation);
        }
        if cur == tgt {
            return Ok(());
        }
        match self.privilege {
            PrivilegeLevel::Kernel => {
                self.kernel_sp = self.sp;
            },
            PrivilegeLevel::Supervisor => {
                self.supervisor_sp = self.sp;
            },
            PrivilegeLevel::User => {
                self.user_sp = self.sp;
            },
        }
        self.sp = match target {
            PrivilegeLevel::Kernel => self.kernel_sp,
            PrivilegeLevel::Supervisor => self.supervisor_sp,
            PrivilegeLevel::User => self.user_sp,
        };
        self.privilege = target;
        Ok(())
    }

    /// Delivers an exception: saves the program counter, status
    /// register and privilege, writes `exception_code` into the high
    /// byte of the status register, banks the outgoing stack pointer,
    /// and resumes in the kernel ring at the exception vector.
    pub fn raise_exception(&mut self, exception_code: u16)
        ensures
            final(self)@ == trap_entry(old(self)@, exception_code, old(self)@.exception_handler),
    {
        self.saved_pc = self.pc;
        self.saved_sr = self.sr;
        self.saved_privilege = self.privilege;
        self.sr = (self.sr & 0x00FF) | (exception_code << 8);
        match self.privilege {
            PrivilegeLevel::Kernel => {
                self.kernel_sp = self.sp;
            },
            PrivilegeLevel::Supervisor => {
                self.supervisor_sp = self.sp;
            },
            PrivilegeLevel::User => {
                self.user_sp = self.sp;
            },
        }
        self.privilege = PrivilegeLevel::Kernel;
        self.sp = self.kernel_sp;
        self.pc = self.exception_handler;
    }

    /// Delivers interrupt `irq` if interrupts are enabled and its mask
    /// bit is set, trapping to the interrupt vector with the request
    /// number as the trap code; a masked interrupt is dropped, not
    /// queued, and the register file is untouched.
    pub fn raise_interrupt(&mut self, irq: u16) -> (r: bool)
        requires
            irq < 16,
        ensures
            r == (old(self)@.interrupts_enabled && old(self)@.interrupt_mask & (1u16 << irq) != 0),
            r ==> final(self)@ == trap_entry(old(self)@, irq, old(self)@.interrupt_handler),
            !r ==> final(self)@ == old(self)@,
    {
        if !self.interrupts_enabled || (self.interrupt_mask & (1u16 << irq)) == 0 {
            return false;
        }
        self.saved_pc = self.pc;
        self.saved_sr = self.sr;
        self.saved_privilege = self.privilege;
        self.sr = (self.sr & 0x00FF) | (irq << 8);
        match self.privilege {
            PrivilegeLevel::Kernel => {
                self.kernel_sp = self.sp;
            },
            PrivilegeLevel::Supervisor => {
                self.supervisor_sp = self.sp;
            },
            PrivilegeLevel::User => {
                self.user_sp = self.sp;
            },
        }
        self.privilege = PrivilegeLevel::Kernel;
        self.sp = self.kernel_sp;
        self.pc = self.interrupt_handler;
        true
    }

    /// Returns from a trap: restores the saved program counter, status
    /// register and privilege, banks the kernel stack pointer and loads
    /// the restored ring's. Refused with `PrivilegeViolation` outside
    /// the kernel ring, so a trap never loses the saved state.
    pub fn return_from_exception(&mut self) -> (r: Result<(), VmError>)
        ensures
            old(self)@.privilege is Kernel ==> r is Ok && final(self)@ == trap_return(old(self)@),
            !(old(self)@.privilege is Kernel) ==> r == Err::<(), VmError>(
                VmError::PrivilegeViolation,
            ) && final(self)@ == old(self)@,
    {
        if !matches!(self.privilege, PrivilegeLevel::Kernel) {
            return Err(VmError::PrivilegeViolation);
        }
        self.pc = self.saved_pc;
        self.sr = self.saved_sr;
        self.kernel_sp = self.sp;
        self.privilege = self.saved_privilege;
        self.sp = match self.privilege {
            PrivilegeLevel::Kernel => self.kernel_sp,
            PrivilegeLevel::Supervisor => self.supervisor_sp,
            PrivilegeLevel::User => self.user_sp,
        };
        Ok(())
    }

    /// Checks the ring-gated data-access policy for `address`, read or
    /// write; a denial is `AccessViolation`.
    pub fn can_access_memory(&self, address: u16, write: bool) -> (r: Result<(), VmError>)
        ensures
            r == if mem_access_allowed(self@.privilege, address, write) {
                Ok::<(), VmError>(())
            } else {
                Err::<(), VmError>(VmError::AccessViolation)
            },
    {
        if matches!(self.privilege, PrivilegeLevel::Kernel) {
            return Ok(());
        }
        if address < 0x1000 {
            if write {
                return Err(VmError::AccessViolation);
            }
            return Ok(());
        }
        if address >= 0xF000 {
            return Err(VmError::AccessViolation);
        }
        if matches!(self.privilege, PrivilegeLevel::Supervisor) {
            if 0x2000 <= address && address < 0x8000 {
                return Ok(());
            }
            return Err(VmError::AccessViolation);
        }
        if 0x8000 <= address && address < 0xE000 {
            return Ok(());
        }
        Err(VmError::AccessViolation)
    }

    /// Checks that `address` lies inside the code segment; outside it,
    /// `ExecutionViolation`.
    pub fn can_execute(&self, address: u16) -> (r: Result<(), VmError>)
        ensures
            r == if self@.code_base <= address < self@.code_limit {
                Ok::<(), VmError>(())
            } else {
                Err::<(), VmError>(VmError::ExecutionViolation)
            },
    {
        if address < self.code_base || address >= self.code_limit {
            return Err(VmError::ExecutionViolation);
        }
        Ok(())
    }

    /// Whether the kernel ring is current.
    pub fn is_kernel_mode(&self) -> (r: bool)
        ensures
            r == (self@.privilege is Kernel),
    {
        matches!(self.privilege, PrivilegeLevel::Kernel)
    }

    /// Whether the supervisor ring is current.
    pub fn is_supervisor_mode(&self) -> (r: bool)
        ensures
            r == (self@.privilege is Supervisor),
    {
        matches!(self.privilege, PrivilegeLevel::Supervisor)
    }

    /// Whether the user ring is current.
    pub fn is_user_mode(&self) -> (r: bool)
        ensures
            r == (self@.privilege is User),
    {
        matches!(self.privilege, PrivilegeLevel::User)
    }

    /// The current privilege level.
    pub fn get_privilege_level(&self) -> (r: PrivilegeLevel)
        ensures
            r == self@.privilege,
    {
        self.privilege
    }

    /// The condition flags held in the low byte of the status register.
    pub fn get_flags(&self) -> (r: StatusFlags)
        ensures
            r == spec_flags_from_u16(self@.sr),
    {
        StatusFlags::from_u16(self.sr)
    }

    /// Replaces the flag byte of the status register, preserving the
    /// trap code in its high byte.
    pub fn set_flags(&mut self, flags: StatusFlags)
        ensures
            final(self)@ == (RegView {
                sr: (old(self)@.sr & 0xFF00) | (spec_flags_to_u16(flags) & 0x00FF),
                ..old(self)@
            }),
    {
        let upper = self.sr & 0xFF00;
        self.sr = upper | (flags.to_u16() & 0x00FF);
    }

    /// Returns the register file to the boot state; the console keeps
    /// its buffers.
    pub fn reset(&mut self)
        ensures
            final(self).wf(),
            final(self)@ == boot_regs(old(self)@.console),
    {
        self.gp_regs = zero_gp_regs();
        self.pc = 0;
        self.sp = 0xFFFE;
        self.lr = 0;
        self.sr = 0;
        self.kernel_sp = 0xFFFE;
        self.supervisor_sp = 0xEFFE;
        self.user_sp = 0xDFFE;
        self.privilege = PrivilegeLevel::Kernel;
        self.exception_handler = 0x0010;
        self.interrupt_handler = 0x0020;
        self.saved_pc = 0;
        self.saved_sr = 0;
        self.saved_privilege = PrivilegeLevel::Kernel;
        self.code_base = 0x0000;
        self.code_limit = 0xFFFF;
        self.data_base = 0x0000;
        self.data_limit = 0xFFFF;
        self.stack_base = 0xD000;
        self.stack_limit = 0xFFFF;
        self.interrupts_enabled = true;
        self.interrupt_mask = 0xFFFF;
        proof {
            assert(self@ =~= boot_regs(old(self)@.console));
        }
    }

    /// The state of every register, rendered for inspection.
    #[verifier::rlimit(100)]
    pub fn dump(&self) -> (r: String)
        requires
            self.wf(),
        ensures
            r@ == reg_dump_chars(self@),
    {
        let mut out = String::new();
        let mut i: usize = 0;
        proof {
            assert(out@ + gp_dump_chars(self@, 0) =~= gp_dump_chars(self@, 0));
        }
        while i < 16
            invariant
                self.wf(),
                i <= 16,
                out@ + gp_dump_chars(self@, i as nat) == gp_dump_chars(self@, 0),
            decreases 16 - i,
        {
            let ghost top = out@;
            out.append("R");
            out.append(hex_digit_str(i as u16));
            out.append(": 0x");
            push_hex4(&mut out, self.read_gp(i as u8));
            if i % 4 == 3 {
                out.append("\n");
            } else {
                out.append("  ");
            }
            proof {
                assert(out@ + gp_dump_chars(self@, (i + 1) as nat) =~= top + gp_dump_chars(
                    self@,
                    i as nat,
                ));
            }
            i += 1;
        }
        proof {
            assert(gp_dump_chars(self@, 16) =~= Seq::<char>::empty());
            assert(out@ =~= gp_dump_chars(self@, 0));
        }
        let flags = self.get_flags();
        out.append("PC: 0x");
        push_hex4(&mut out, self.pc);
        out.append("\nSP: 0x");
        push_hex4(&mut out, self.sp);
        out.append("\nLR: 0x");
        push_hex4(&mut out, self.lr);
        out.append("\nSR: 0x");
        push_hex4(&mut out, self.sr);
        out.append(" [Z=");
        out.append(if flags.zero { "1" } else { "0" });
        out.append(" N=");
        out.append(if flags.negative { "1" } else { "0" });
        out.append(" C=");
        out.append(if flags.carry { "1" } else { "0" });
        out.append(" V=");
        out.append(if flags.overflow { "1" } else { "0" });
        out.append("]\nRing: ");
        out.append(hex_digit_str(self.privilege.to_u16()));
        out.append("\nKSP: 0x");
        push_hex4(&mut out, self.kernel_sp);
        out.append("\nSSP: 0x");
        push_hex4(&mut out, self.supervisor_sp);
        out.append("\nUSP: 0x");
        push_hex4(&mut out, self.user_sp);
        out.append("\nCode: 0x");
        push_hex4(&mut out, self.code_base);
        out.append("-0x");
        push_hex4(&mut out, self.code_limit);
        out.append("\nData: 0x");
        push_hex4(&mut out, self.data_base);
        out.append("-0x");
        push_hex4(&mut out, self.data_limit);
        out.append("\nStack: 0x");
        push_hex4(&mut out, self.stack_base);
        out.append("-0x");
        push_hex4(&mut out, self.stack_limit);
        out.append("\n");
        proof {
            assert(out@ =~= reg_dump_chars(self@));
        }
        out
    }

    /// Everything the console has printed, as one string.
    pub fn get_console_output(&self) -> (r: String)
        ensures
            r@ == self@.console.output,
    {
        self.console.get_output()
    }

    /// Queues `input` behind any console input already waiting.
    pub fn queue_console_input(&mut self, input: &str)
        ensures
            final(self)@ == (RegView {
                console: ConsoleView {
                    input: old(self)@.console.input + input@,
                    ..old(self)@.console
                },
                ..old(self)@
            }),
    {
        self.console.queue_input(input);
    }
}

/// One general-purpose register cell of the state dump, for each slot
/// from `i` up: the register name, its value, and a line break after
/// every fourth slot.
pub open spec fn gp_dump_chars(v: RegView, i: nat) -> Seq<char>
    decreases 16 - i,
{
    if i >= 16 {
        Seq::<char>::empty()
    } else {
        "R"@ + seq![hex_digit(i as int)] + ": 0x"@ + hex4_chars(spec_read_gp(v, i as u8)) + (if i
            % 4 == 3 {
            "\n"@
        } else {
            "  "@
        }) + gp_dump_chars(v, i + 1)
    }
}

/// A one-character rendering of a flag bit.
pub open spec fn bit_chars(b: bool) -> Seq<char> {
    if b {
        "1"@
    } else {
        "0"@
    }
}

/// The state dump of a register file: the sixteen general-purpose
/// slots, the special registers with the flag bits spelled out, the
/// ring, the three banked stack pointers, and the segment bounds.
pub open spec fn reg_dump_chars(v: RegView) -> Seq<char> {
    let f = spec_flags_from_u16(v.sr);
    gp_dump_chars(v, 0) + "PC: 0x"@ + hex4_chars(v.pc) + "\nSP: 0x"@ + hex4_chars(v.sp)
        + "\nLR: 0x"@ + hex4_chars(v.lr) + "\nSR: 0x"@ + hex4_chars(v.sr) + " [Z="@ + bit_chars(
        f.zero,
    ) + " N="@ + bit_chars(f.negative) + " C="@ + bit_chars(f.carry) + " V="@ + bit_chars(
        f.overflow,
    ) + "]\nRing: "@ + seq![hex_digit(ring(v.privilege))] + "\nKSP: 0x"@ + hex4_chars(v.kernel_sp)
        + "\nSSP: 0x"@ + hex4_chars(v.supervisor_sp) + "\nUSP: 0x"@ + hex4_chars(v.user_sp)
        + "\nCode: 0x"@ + hex4_chars(v.code_base) + "-0x"@ + hex4_chars(v.code_limit)
        + "\nData: 0x"@ + hex4_chars(v.data_base) + "-0x"@ + hex4_chars(v.data_limit)
        + "\nStack: 0x"@ + hex4_chars(v.stack_base) + "-0x"@ + hex4_chars(v.stack_limit) + "\n"@
}

/// Reading general-purpose register 0 yields zero in every register
/// file state — no program and no number of cycles can disturb it.
pub proof fn lemma_r0_reads_zero(v: RegView)
    ensures
        spec_read_gp(v, 0) == 0,
{
}

/// A write to general-purpose register 0 leaves the register file
/// exactly as it was, so register 0 still reads zero after any
/// sequence of such writes.
pub proof fn lemma_r0_write_ignored(v: RegView, value: u16)
    ensures
        spec_write_gp(v, 0, value) == v,
        spec_read_gp(spec_write_gp(v, 0, value), 0) == 0,
{
}

/// Well-formedness survives every general-purpose write, and a write
/// to one slot is invisible to every other slot.
pub proof fn lemma_write_gp_frame(v: RegView, reg: u8, value: u16)
    requires
        reg_wf(v),
    ensures
        reg_wf(spec_write_gp(v, reg, value)),
        forall|other: u8|
            other != reg ==> spec_read_gp(spec_write_gp(v, reg, value), other) == spec_read_gp(
                v,
                other,
            ),
{
}

/// For a voluntary drop to a strictly lower ring: afterwards the live
/// stack pointer equals the bank stored for the target ring, and the
/// outgoing ring's bank holds the stack pointer live before the
/// transition.
pub proof fn lemma_drop_banks_sp(v: RegView, target: PrivilegeLevel)
    requires
        ring(v.privilege) < ring(target),
    ensures
        drop_to(v, target).privilege == target,
        drop_to(v, target).sp == bank_slot(v, target),
        bank_slot(drop_to(v, target), v.privilege) == v.sp,
{
}

/// For a forced transition into the kernel ring (trap entry): the live
/// stack pointer afterwards is the kernel bank after the outgoing ring
/// was banked, and the outgoing ring's bank holds the pre-trap stack
/// pointer.
pub proof fn lemma_trap_banks_sp(v: RegView, code: u16, vector: u16)
    ensures
        trap_entry(v, code, vector).privilege is Kernel,
        trap_entry(v, code, vector).sp == bank_slot(bank_current(v), PrivilegeLevel::Kernel),
        bank_slot(trap_entry(v, code, vector), v.privilege) == v.sp,
{
}

/// For a return from trap: the live stack pointer afterwards is the
/// bank loaded for the restored ring (after the kernel bank was
/// refreshed), and the kernel bank holds the stack pointer live before
/// the return.
pub proof fn lemma_trap_return_banks_sp(v: RegView)
    ensures
        trap_return(v).privilege == v.saved_privilege,
        trap_return(v).sp == bank_slot(RegView { kernel_sp: v.sp, ..v }, v.saved_privilege),
        bank_slot(trap_return(v), PrivilegeLevel::Kernel) == v.sp,
{
}

/// Trap entry saves exactly the program counter, status register and
/// privilege held immediately before it, and a return from the trap
/// restores all three exactly.
pub proof fn lemma_trap_round_trip(v: RegView, code: u16, vector: u16)
    ensures
        trap_entry(v, code, vector).saved_pc == v.pc,
        trap_entry(v, code, vector).saved_sr == v.sr,
        trap_entry(v, code, vector).saved_privilege == v.privilege,
        trap_return(trap_entry(v, code, vector)).pc == v.pc,
        trap_return(trap_entry(v, code, vector)).sr == v.sr,
        trap_return(trap_entry(v, code, vector)).privilege == v.privilege,
{
}

/// Resetting a register file twice leaves exactly the state one reset
/// leaves.
pub proof fn lemma_reset_idempotent(v: RegView)
    ensures
        boot_regs(boot_regs(v.console).console) == boot_regs(v.console),
{
}

} // verus!
