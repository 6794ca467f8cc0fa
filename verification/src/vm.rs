//! The virtual machine: fetch, decode, dispatch, flag updates, trap
//! delivery and the run loop.
//!
//! Faults raised while guest code runs are not returned to the caller:
//! they are delivered as traps through the exception vector, with the
//! fault code in the high byte of the status register, and execution
//! resumes at the handler. Only `step` on a halted machine is surfaced
//! as an error.
//!
//! The syscall ABI: the SYSCALL instruction (extended subcode `0x04`)
//! takes the call number in R1 and one argument in R2, and leaves any
//! result in R1. A call whose number group demands a more privileged
//! ring than the current one traps with `PrivilegeViolation`. The
//! console group is served by the machine's own console; the remaining
//! calls name hosts outside the machine and leave 0 in R1.

use vstd::prelude::*;

use crate::console::{console_after_char, console_after_chars, ConsoleView};
use crate::decoder::{
    spec_decode,
    DecodedInstruction,
    InstructionDecoder,
    InstructionFormat,
    Mnemonic,
};
use crate::flags::{spec_flags_from_u16, spec_flags_to_u16, StatusFlags};
use crate::memory::{word_at, word_write, words_fit, words_written, Memory};
use crate::registers::{
    boot_regs,
    reg_dump_chars,
    mem_access_allowed,
    reg_wf,
    ring,
    spec_read_gp,
    spec_write_gp,
    trap_entry,
    RegView,
    RegisterFile,
};
use crate::syscall::{spec_required_privilege, spec_syscall_from_u16, Syscall};
use crate::memory::dump_lines;
use crate::text::{dec_chars, hex4_chars, push_dec_u64};
use crate::VmError;
use vstd::string::StringExecFns;
use vstd::wrapping::u16_specs;

verus! {

/// The abstract state of the machine: registers, memory, the halted
/// flag, the cycle counter and the trace flag.
#[verifier::ext_equal]
pub ghost struct VmView {
    pub regs: RegView,
    pub mem: Seq<u8>,
    pub halted: bool,
    pub cycles: u64,
    pub trace: bool,
}

/// Well-formedness: a sound register file over a 64 KiB memory.
pub open spec fn vm_wf(v: VmView) -> bool {
    reg_wf(v.regs) && v.mem.len() == 65536
}

/// The machine after fault `e` is delivered as a trap through the
/// exception vector; memory, the halted flag and the counters are
/// untouched.
pub open spec fn vm_fault(v: VmView, e: VmError) -> VmView {
    VmView { regs: trap_entry(v.regs, e.spec_fault_code(), v.regs.exception_handler), ..v }
}

/// The status register after the flag byte is replaced, its high
/// (trap-code) byte kept.
pub open spec fn sr_set_flags(sr: u16, f: StatusFlags) -> u16 {
    (sr & 0xFF00) | (spec_flags_to_u16(f) & 0x00FF)
}

/// The status register after a logic result: zero and negative follow
/// the result, carry and overflow keep their old values.
pub open spec fn sr_after_logic(sr: u16, result: u16) -> u16 {
    sr_set_flags(
        sr,
        StatusFlags {
            zero: result == 0,
            negative: result & 0x8000 != 0,
            carry: spec_flags_from_u16(sr).carry,
            overflow: spec_flags_from_u16(sr).overflow,
        },
    )
}

/// The status register after an addition result: all four flags are
/// set.
pub open spec fn sr_after_arith(sr: u16, result: u16, carry: bool, overflow: bool) -> u16 {
    sr_set_flags(
        sr,
        StatusFlags { zero: result == 0, negative: result & 0x8000 != 0, carry, overflow },
    )
}

/// Signed two's-complement overflow of the addition `a + b == r`.
pub open spec fn add_overflow(a: u16, b: u16, r: u16) -> bool {
    ((a ^ r) & (b ^ r) & 0x8000) != 0
}

/// The 8-bit immediate sign-extended to a word.
pub open spec fn sext8(imm: u8) -> u16 {
    if imm & 0x80 != 0 {
        (imm as u16) | 0xFF00
    } else {
        imm as u16
    }
}

/// The register file after an R- or I-type result is committed: the
/// flag update named by `new_sr`, then the destination write.
pub open spec fn regs_with_result(v: RegView, rd: u8, result: u16, new_sr: u16) -> RegView {
    spec_write_gp(RegView { sr: new_sr, ..v }, rd, result)
}

/// The effect of an R-type instruction (no fault is possible; an alien
/// mnemonic in the format is an invalid opcode, handled by
/// `dispatch_fault`).
pub open spec fn r_type_apply(s: VmView, d: DecodedInstruction) -> VmView {
    let a = spec_read_gp(s.regs, d.rs);
    let b = spec_read_gp(s.regs, d.rt);
    match d.mnemonic {
        Mnemonic::Add => {
            let result = u16_specs::wrapping_add(a, b);
            let new_sr = sr_after_arith(s.regs.sr, result, a + b > 0xFFFF, add_overflow(a, b, result));
            VmView { regs: regs_with_result(s.regs, d.rd, result, new_sr), ..s }
        },
        Mnemonic::Sub => {
            let result = u16_specs::wrapping_sub(a, b);
            VmView {
                regs: regs_with_result(s.regs, d.rd, result, sr_after_logic(s.regs.sr, result)),
                ..s
            }
        },
        Mnemonic::And => {
            let result = a & b;
            VmView {
                regs: regs_with_result(s.regs, d.rd, result, sr_after_logic(s.regs.sr, result)),
                ..s
            }
        },
        Mnemonic::Or => {
            let result = a | b;
            VmView {
                regs: regs_with_result(s.regs, d.rd, result, sr_after_logic(s.regs.sr, result)),
                ..s
            }
        },
        Mnemonic::Xor => {
            let result = a ^ b;
            VmView {
                regs: regs_with_result(s.regs, d.rd, result, sr_after_logic(s.regs.sr, result)),
                ..s
            }
        },
        Mnemonic::Not => {
            let result = !a;
            VmView {
                regs: regs_with_result(s.regs, d.rd, result, sr_after_logic(s.regs.sr, result)),
                ..s
            }
        },
        Mnemonic::Shl => {
            let result = a << (b & 0xF);
            VmView {
                regs: regs_with_result(s.regs, d.rd, result, sr_after_logic(s.regs.sr, result)),
                ..s
            }
        },
        Mnemonic::Shr => {
            let result = a >> (b & 0xF);
            VmView {
                regs: regs_with_result(s.regs, d.rd, result, sr_after_logic(s.regs.sr, result)),
                ..s
            }
        },
        _ => s,
    }
}

/// The effect of an I-type instruction: ADDI adds the zero-extended
/// immediate to the destination with full flags; LOADI loads the
/// sign-extended immediate with no flag update.
pub open spec fn i_type_apply(s: VmView, d: DecodedInstruction) -> VmView {
    match d.mnemonic {
        Mnemonic::Addi => {
            let a = spec_read_gp(s.regs, d.rd);
            let b = d.imm8 as u16;
            let result = u16_specs::wrapping_add(a, b);
            let new_sr = sr_after_arith(s.regs.sr, result, a + b > 0xFFFF, add_overflow(a, b, result));
            VmView { regs: regs_with_result(s.regs, d.rd, result, new_sr), ..s }
        },
        Mnemonic::Loadi => VmView { regs: spec_write_gp(s.regs, d.rd, sext8(d.imm8)), ..s },
        _ => s,
    }
}

/// The effective address of an M-type instruction: the base register
/// plus the word-scaled 4-bit offset, wrapping.
pub open spec fn m_type_ea(s: VmView, d: DecodedInstruction) -> u16 {
    u16_specs::wrapping_add(spec_read_gp(s.regs, d.rs), (d.offset * 2) as u16)
}

/// The fault an M-type instruction raises, if any: the access policy is
/// consulted first, then the memory range.
pub open spec fn m_type_fault(s: VmView, d: DecodedInstruction) -> Option<VmError> {
    let ea = m_type_ea(s, d);
    match d.mnemonic {
        Mnemonic::Load | Mnemonic::Store => if !mem_access_allowed(
            s.regs.privilege,
            ea,
            d.mnemonic is Store,
        ) {
            Some(VmError::AccessViolation)
        } else if !(ea + 1 < s.mem.len()) {
            Some(VmError::OutOfRange)
        } else {
            None
        },
        _ => Some(VmError::InvalidOpcode),
    }
}

/// The effect of a faultless M-type instruction: LOAD reads the word at
/// the effective address into the destination; STORE writes the
/// destination register's value there.
pub open spec fn m_type_apply(s: VmView, d: DecodedInstruction) -> VmView {
    let ea = m_type_ea(s, d);
    match d.mnemonic {
        Mnemonic::Load => VmView {
            regs: spec_write_gp(s.regs, d.rd, word_at(s.mem, ea as int)),
            ..s
        },
        Mnemonic::Store => VmView {
            mem: word_write(s.mem, ea as int, spec_read_gp(s.regs, d.rd)),
            ..s
        },
        _ => s,
    }
}

/// The effect of a B-type instruction: the branch is taken on zero
/// (BEQ) or nonzero (BNE) of the condition register, displacing the
/// already-advanced program counter by the doubled sign-extended
/// offset.
pub open spec fn b_type_apply(s: VmView, d: DecodedInstruction) -> VmView {
    let rc = spec_read_gp(s.regs, d.rd);
    let taken = if d.mnemonic is Beq {
        rc == 0
    } else {
        rc != 0
    };
    if taken {
        let displaced = u16_specs::wrapping_add(
            s.regs.pc,
            u16_specs::wrapping_mul(sext8(d.imm8), 2),
        );
        VmView { regs: RegView { pc: displaced, ..s.regs }, ..s }
    } else {
        s
    }
}

/// The effect of an allowed syscall on the machine. `Exit` halts;
/// the console calls print to, colour or clear the machine's console;
/// `GetTime` leaves the low word of the cycle counter in R1; every
/// other allowed call names a host outside the machine and leaves 0 in
/// R1.
pub open spec fn syscall_apply(s: VmView, sc: Syscall) -> VmView {
    let arg = spec_read_gp(s.regs, 2);
    match sc {
        Syscall::Exit => VmView { halted: true, ..s },
        Syscall::PrintChar => VmView {
            regs: RegView {
                console: console_after_char(s.regs.console, (arg as u8) as char),
                ..s.regs
            },
            ..s
        },
        Syscall::PrintHex => VmView {
            regs: RegView {
                console: console_after_chars(s.regs.console, seq!['0', 'x'] + hex4_chars(arg)),
                ..s.regs
            },
            ..s
        },
        Syscall::ClearScreen => VmView {
            regs: RegView {
                console: ConsoleView {
                    output: Seq::<char>::empty(),
                    cursor_x: 0,
                    cursor_y: 0,
                    ..s.regs.console
                },
                ..s.regs
            },
            ..s
        },
        Syscall::SetColor => VmView {
            regs: RegView { console: ConsoleView { color: arg, ..s.regs.console }, ..s.regs },
            ..s
        },
        Syscall::GetTime => VmView { regs: spec_write_gp(s.regs, 1, s.cycles as u16), ..s },
        _ => VmView { regs: spec_write_gp(s.regs, 1, 0), ..s },
    }
}

/// The fault an extended instruction raises, if any. The second word of
/// a two-word instruction must lie in memory; PUSH and POP consult the
/// access policy and the memory range at the stack address; SYSCALL
/// from a ring less privileged than the call requires is a privilege
/// violation.
pub open spec fn ext_fault(s: VmView, d: DecodedInstruction) -> Option<VmError> {
    let pc = s.regs.pc;
    match d.mnemonic {
        Mnemonic::Call => if !(pc + 1 < s.mem.len()) {
            Some(VmError::OutOfRange)
        } else {
            None
        },
        Mnemonic::Ret => None,
        Mnemonic::Push => if !(pc + 1 < s.mem.len()) {
            Some(VmError::OutOfRange)
        } else {
            let ea = u16_specs::wrapping_sub(s.regs.sp, 2);
            if !mem_access_allowed(s.regs.privilege, ea, true) {
                Some(VmError::AccessViolation)
            } else if !(ea + 1 < s.mem.len()) {
                Some(VmError::OutOfRange)
            } else {
                None
            }
        },
        Mnemonic::Pop => if !(pc + 1 < s.mem.len()) {
            Some(VmError::OutOfRange)
        } else {
            let ea = s.regs.sp;
            if !mem_access_allowed(s.regs.privilege, ea, false) {
                Some(VmError::AccessViolation)
            } else if !(ea + 1 < s.mem.len()) {
                Some(VmError::OutOfRange)
            } else {
                None
            }
        },
        Mnemonic::Syscall => {
            let sc = spec_syscall_from_u16(spec_read_gp(s.regs, 1));
            if ring(s.regs.privilege) > ring(spec_required_privilege(sc)) {
                Some(VmError::PrivilegeViolation)
            } else {
                None
            }
        },
        _ => Some(VmError::InvalidOpcode),
    }
}

/// The effect of a faultless extended instruction. CALL leaves the
/// address of its own second word in the link register, as the
/// reference architecture prescribes, and jumps to that word's value;
/// RET jumps to the link register; PUSH decrements the stack pointer
/// by two and stores the register named by the top nibble of its
/// second word; POP loads that register from the stack and increments
/// the stack pointer; SYSCALL acts as `syscall_apply` says.
pub open spec fn ext_apply(s: VmView, d: DecodedInstruction) -> VmView {
    let pc = s.regs.pc;
    match d.mnemonic {
        Mnemonic::Call => VmView {
            regs: RegView { lr: pc, pc: word_at(s.mem, pc as int), ..s.regs },
            ..s
        },
        Mnemonic::Ret => VmView { regs: RegView { pc: s.regs.lr, ..s.regs }, ..s },
        Mnemonic::Push => {
            let w2 = word_at(s.mem, pc as int);
            let reg = (w2 >> 12) as u8;
            let value = spec_read_gp(s.regs, reg);
            let ea = u16_specs::wrapping_sub(s.regs.sp, 2);
            VmView {
                regs: RegView { pc: u16_specs::wrapping_add(pc, 2), sp: ea, ..s.regs },
                mem: word_write(s.mem, ea as int, value),
                ..s
            }
        },
        Mnemonic::Pop => {
            let w2 = word_at(s.mem, pc as int);
            let reg = (w2 >> 12) as u8;
            let value = word_at(s.mem, s.regs.sp as int);
            let moved = RegView {
                pc: u16_specs::wrapping_add(pc, 2),
                sp: u16_specs::wrapping_add(s.regs.sp, 2),
                ..s.regs
            };
            VmView { regs: spec_write_gp(moved, reg, value), ..s }
        },
        Mnemonic::Syscall => syscall_apply(
            s,
            spec_syscall_from_u16(spec_read_gp(s.regs, 1)),
        ),
        _ => s,
    }
}

/// The effect of a special instruction: NOP does nothing, HALT halts.
pub open spec fn special_apply(s: VmView, d: DecodedInstruction) -> VmView {
    match d.mnemonic {
        Mnemonic::Nop => s,
        Mnemonic::Halt => VmView { halted: true, ..s },
        _ => s,
    }
}

/// The fault the dispatch of a decoded instruction raises, if any, on
/// the post-fetch machine state `s`.
pub open spec fn dispatch_fault(s: VmView, d: DecodedInstruction) -> Option<VmError> {
    match d.format {
        InstructionFormat::RType => match d.mnemonic {
            Mnemonic::Add
            | Mnemonic::Sub
            | Mnemonic::And
            | Mnemonic::Or
            | Mnemonic::Xor
            | Mnemonic::Not
            | Mnemonic::Shl
            | Mnemonic::Shr => None,
            _ => Some(VmError::InvalidOpcode),
        },
        InstructionFormat::IType => match d.mnemonic {
            Mnemonic::Addi | Mnemonic::Loadi => None,
            _ => Some(VmError::InvalidOpcode),
        },
        InstructionFormat::MType => m_type_fault(s, d),
        InstructionFormat::JType => match d.mnemonic {
            Mnemonic::Jmp => None,
            _ => Some(VmError::InvalidOpcode),
        },
        InstructionFormat::BType => match d.mnemonic {
            Mnemonic::Beq | Mnemonic::Bne => None,
            _ => Some(VmError::InvalidOpcode),
        },
        InstructionFormat::Extended => ext_fault(s, d),
        InstructionFormat::Special => match d.mnemonic {
            Mnemonic::Nop | Mnemonic::Halt => None,
            _ => Some(VmError::InvalidOpcode),
        },
    }
}

/// The effect of a faultless decoded instruction on the post-fetch
/// machine state `s`.
pub open spec fn spec_dispatch(s: VmView, d: DecodedInstruction) -> VmView {
    match d.format {
        InstructionFormat::RType => r_type_apply(s, d),
        InstructionFormat::IType => i_type_apply(s, d),
        InstructionFormat::MType => m_type_apply(s, d),
        InstructionFormat::JType => VmView { regs: RegView { pc: d.addr12, ..s.regs }, ..s },
        InstructionFormat::BType => b_type_apply(s, d),
        InstructionFormat::Extended => ext_apply(s, d),
        InstructionFormat::Special => special_apply(s, d),
    }
}

/// One step of a machine that is not halted: the cycle counter moves
/// once; execution outside the code segment or a fetch off the end of
/// memory traps before any other effect; otherwise the word at the
/// program counter is fetched (the counter advancing by two, wrapping),
/// decoded and dispatched, and a fault in the dispatch traps on the
/// post-fetch state.
pub open spec fn spec_step(s: VmView) -> VmView {
    let counted = VmView { cycles: (s.cycles + 1) as u64, ..s };
    let pc = s.regs.pc;
    if !(s.regs.code_base <= pc < s.regs.code_limit) {
        vm_fault(counted, VmError::ExecutionViolation)
    } else if !(pc + 1 < s.mem.len()) {
        vm_fault(counted, VmError::OutOfRange)
    } else {
        let d = spec_decode(word_at(s.mem, pc as int));
        let fetched = VmView {
            regs: RegView { pc: u16_specs::wrapping_add(pc, 2), ..counted.regs },
            ..counted
        };
        match dispatch_fault(fetched, d) {
            Some(e) => vm_fault(fetched, e),
            None => spec_dispatch(fetched, d),
        }
    }
}

/// The machine after up to `fuel` steps, stopping early when halted.
pub open spec fn run_state(s: VmView, fuel: nat) -> VmView
    decreases fuel,
{
    if fuel == 0 || s.halted {
        s
    } else {
        run_state(spec_step(s), (fuel - 1) as nat)
    }
}

/// How many of up to `fuel` steps a machine takes before halting.
pub open spec fn steps_taken(s: VmView, fuel: nat) -> nat
    decreases fuel,
{
    if fuel == 0 || s.halted {
        0
    } else {
        1 + steps_taken(spec_step(s), (fuel - 1) as nat)
    }
}

/// The machine after a reset: registers at boot defaults (the console
/// keeping its buffers), memory zeroed, not halted, the cycle counter
/// cleared; the trace flag stays.
pub open spec fn vm_boot(v: VmView) -> VmView {
    VmView {
        regs: boot_regs(v.regs.console),
        mem: Seq::new(v.mem.len(), |i: int| 0u8),
        halted: false,
        cycles: 0,
        trace: v.trace,
    }
}

/// The virtual machine: the register file, 64 KiB of memory, the
/// halted flag, the cycle counter and the trace flag.
pub struct CVEREVM {
    pub registers: RegisterFile,
    pub memory: Memory,
    pub halted: bool,
    pub cycle_count: u64,
    pub trace_enabled: bool,
}

impl View for CVEREVM {
    type V = VmView;

    closed spec fn view(&self) -> VmView {
        VmView {
            regs: self.registers@,
            mem: self.memory@,
            halted: self.halted,
            cycles: self.cycle_count,
            trace: self.trace_enabled,
        }
    }
}

impl CVEREVM {
    /// Well-formedness: a sound register file over a 64 KiB memory.
    pub open spec fn wf(&self) -> bool {
        self.memory.wf() && vm_wf(self@)
    }

    /// A fresh machine: boot registers, zeroed 64 KiB memory, not
    /// halted, cycle counter at zero, trace off.
    pub fn new() -> (r: CVEREVM)
        ensures
            r.wf(),
            !r.halted,
            r.cycle_count == 0,
            r@ == (VmView {
                regs: boot_regs(
                    ConsoleView {
                        output: Seq::<char>::empty(),
                        input: Seq::<char>::empty(),
                        color: 7,
                        cursor_x: 0,
                        cursor_y: 0,
                    },
                ),
                mem: Seq::new(65536, |i: int| 0u8),
                halted: false,
                cycles: 0,
                trace: false,
            }),
    {
        let r = CVEREVM {
            registers: RegisterFile::new(),
            memory: Memory::new(65536),
            halted: false,
            cycle_count: 0,
            trace_enabled: false,
        };
        proof {
            assert(r@ =~= (VmView {
                regs: boot_regs(r@.regs.console),
                mem: Seq::new(65536, |i: int| 0u8),
                halted: false,
                cycles: 0,
                trace: false,
            }));
        }
        r
    }

    /// Loads `program` word by word, little-endian, from
    /// `start_address` upward; `OutOfRange` at the first word that does
    /// not fit (earlier words stay written). Nothing else changes.
    pub fn load_program(&mut self, program: &[u16], start_address: u16) -> (r: Result<
        (),
        VmError,
    >)
        requires
            old(self).wf(),
        ensures
            final(self).wf(),
            r == if words_fit(old(self)@.mem.len() as int, program@, start_address as int) {
                Ok::<(), VmError>(())
            } else {
                Err::<(), VmError>(VmError::OutOfRange)
            },
            final(self)@ == (VmView {
                mem: words_written(old(self)@.mem, program@, start_address as int),
                ..old(self)@
            }),
    {
        let r = self.memory.load_program(program, start_address as usize);
        proof {
            assert(final(self)@ =~= (VmView {
                mem: words_written(old(self)@.mem, program@, start_address as int),
                ..old(self)@
            }));
        }
        r
    }

    /// Replaces the zero and negative flags from `result`, carry and
    /// overflow untouched.
    fn update_flags(&mut self, result: u16)
        ensures
            final(self).memory == old(self).memory,
            final(self)@ == (VmView {
                regs: (RegView { sr: sr_after_logic(old(self)@.regs.sr, result), ..old(self)@.regs
                }),
                ..old(self)@
            }),
    {
        let mut flags = self.registers.get_flags();
        flags.zero = result == 0;
        flags.negative = (result & 0x8000) != 0;
        self.registers.set_flags(flags);
        proof {
            assert(final(self)@ =~= (VmView {
                regs: (RegView { sr: sr_after_logic(old(self)@.regs.sr, result), ..old(self)@.regs
                }),
                ..old(self)@
            }));
        }
    }

    /// Replaces all four flags from an addition result.
    fn update_flags_with_carry(&mut self, result: u16, carry: bool, overflow: bool)
        ensures
            final(self).memory == old(self).memory,
            final(self)@ == (VmView {
                regs: (RegView {
                    sr: sr_after_arith(old(self)@.regs.sr, result, carry, overflow),
                    ..old(self)@.regs
                }),
                ..old(self)@
            }),
    {
        let mut flags = self.registers.get_flags();
        flags.zero = result == 0;
        flags.negative = (result & 0x8000) != 0;
        flags.carry = carry;
        flags.overflow = overflow;
        self.registers.set_flags(flags);
        proof {
            assert(final(self)@ =~= (VmView {
                regs: (RegView {
                    sr: sr_after_arith(old(self)@.regs.sr, result, carry, overflow),
                    ..old(self)@.regs
                }),
                ..old(self)@
            }));
        }
    }

    /// Executes one R-type instruction against the post-fetch state.
    fn execute_r_type(&mut self, d: &DecodedInstruction) -> (r: Result<(), VmError>)
        requires
            old(self).wf(),
            d.format is RType,
        ensures
            final(self).wf(),
            match r {
                Ok(()) => dispatch_fault(old(self)@, *d) is None && final(self)@ == spec_dispatch(
                    old(self)@,
                    *d,
                ),
                Err(e) => dispatch_fault(old(self)@, *d) == Some(e) && final(self)@ == old(self)@,
            },
    {
        let a = self.registers.read_gp(d.rs);
        let b = self.registers.read_gp(d.rt);
        let result: u16;
        match d.mnemonic {
            Mnemonic::Add => {
                let sum: u32 = (a as u32) + (b as u32);
                let res = a.wrapping_add(b);
                let overflow = ((a ^ res) & (b ^ res) & 0x8000) != 0;
                self.update_flags_with_carry(res, sum > 0xFFFF, overflow);
                result = res;
            },
            Mnemonic::Sub => {
                let res = a.wrapping_sub(b);
                self.update_flags(res);
                result = res;
            },
            Mnemonic::And => {
                let res = a & b;
                self.update_flags(res);
                result = res;
            },
            Mnemonic::Or => {
                let res = a | b;
                self.update_flags(res);
                result = res;
            },
            Mnemonic::Xor => {
                let res = a ^ b;
                self.update_flags(res);
                result = res;
            },
            Mnemonic::Not => {
                let res = !a;
                self.update_flags(res);
                result = res;
            },
            Mnemonic::Shl => {
                let shift = b & 0xF;
                proof {
                    crate::text::lemma_nibbles_bounded(b, 0);
                }
                let res = a << shift;
                self.update_flags(res);
                result = res;
            },
            Mnemonic::Shr => {
                let shift = b & 0xF;
                proof {
                    crate::text::lemma_nibbles_bounded(b, 0);
                }
                let res = a >> shift;
                self.update_flags(res);
                result = res;
            },
            _ => {
                return Err(VmError::InvalidOpcode);
            },
        }
        self.registers.write_gp(d.rd, result);
        proof {
            assert(final(self)@ =~= spec_dispatch(old(self)@, *d));
        }
        Ok(())
    }

    /// Executes one I-type instruction against the post-fetch state.
    fn execute_i_type(&mut self, d: &DecodedInstruction) -> (r: Result<(), VmError>)
        requires
            old(self).wf(),
            d.format is IType,
        ensures
            final(self).wf(),
            match r {
                Ok(()) => dispatch_fault(old(self)@, *d) is None && final(self)@ == spec_dispatch(
                    old(self)@,
                    *d,
                ),
                Err(e) => dispatch_fault(old(self)@, *d) == Some(e) && final(self)@ == old(self)@,
            },
    {
        match d.mnemonic {
            Mnemonic::Addi => {
                let a = self.registers.read_gp(d.rd);
                let b = d.imm8 as u16;
                let sum: u32 = (a as u32) + (b as u32);
                let res = a.wrapping_add(b);
                let overflow = ((a ^ res) & (b ^ res) & 0x8000) != 0;
                self.update_flags_with_carry(res, sum > 0xFFFF, overflow);
                self.registers.write_gp(d.rd, res);
            },
            Mnemonic::Loadi => {
                let value = if d.imm8 & 0x80 != 0 {
                    (d.imm8 as u16) | 0xFF00
                } else {
                    d.imm8 as u16
                };
                self.registers.write_gp(d.rd, value);
            },
            _ => {
                return Err(VmError::InvalidOpcode);
            },
        }
        proof {
            assert(final(self)@ =~= spec_dispatch(old(self)@, *d));
        }
        Ok(())
    }

    /// Executes one M-type instruction against the post-fetch state:
    /// the access policy is consulted before the memory range, and a
    /// fault leaves registers and memory exactly as they were.
    fn execute_m_type(&mut self, d: &DecodedInstruction) -> (r: Result<(), VmError>)
        requires
            old(self).wf(),
            d.format is MType,
        ensures
            final(self).wf(),
            match r {
                Ok(()) => dispatch_fault(old(self)@, *d) is None && final(self)@ == spec_dispatch(
                    old(self)@,
                    *d,
                ),
                Err(e) => dispatch_fault(old(self)@, *d) == Some(e) && final(self)@ == old(self)@,
            },
    {
        let is_store = match d.mnemonic {
            Mnemonic::Store => true,
            Mnemonic::Load => false,
            _ => {
                return Err(VmError::InvalidOpcode);
            },
        };
        let rs_val = self.registers.read_gp(d.rs);
        let address = rs_val.wrapping_add((d.offset as u16) * 2);
        match self.registers.can_access_memory(address, is_store) {
            Ok(()) => {},
            Err(e) => {
                return Err(e);
            },
        }
        if is_store {
            let value = self.registers.read_gp(d.rd);
            match self.memory.write_word(address as usize, value) {
                Ok(()) => {},
                Err(e) => {
                    return Err(e);
                },
            }
        } else {
            let value = match self.memory.read_word(address as usize) {
                Ok(v) => v,
                Err(e) => {
                    return Err(e);
                },
            };
            self.registers.write_gp(d.rd, value);
        }
        proof {
            assert(final(self)@ =~= spec_dispatch(old(self)@, *d));
        }
        Ok(())
    }

    /// Executes one J-type instruction against the post-fetch state.
    fn execute_j_type(&mut self, d: &DecodedInstruction) -> (r: Result<(), VmError>)
        requires
            old(self).wf(),
            d.format is JType,
        ensures
            final(self).wf(),
            match r {
                Ok(()) => dispatch_fault(old(self)@, *d) is None && final(self)@ == spec_dispatch(
                    old(self)@,
                    *d,
                ),
                Err(e) => dispatch_fault(old(self)@, *d) == Some(e) && final(self)@ == old(self)@,
            },
    {
        match d.mnemonic {
            Mnemonic::Jmp => {
                self.registers.pc = d.addr12;
                proof {
                    assert(final(self)@ =~= spec_dispatch(old(self)@, *d));
                }
                Ok(())
            },
            _ => Err(VmError::InvalidOpcode),
        }
    }

    /// Executes one B-type instruction against the post-fetch state.
    fn execute_b_type(&mut self, d: &DecodedInstruction) -> (r: Result<(), VmError>)
        requires
            old(self).wf(),
            d.format is BType,
        ensures
            final(self).wf(),
            match r {
                Ok(()) => dispatch_fault(old(self)@, *d) is None && final(self)@ == spec_dispatch(
                    old(self)@,
                    *d,
                ),
                Err(e) => dispatch_fault(old(self)@, *d) == Some(e) && final(self)@ == old(self)@,
            },
    {
        let rc_val = self.registers.read_gp(d.rd);
        let should_branch = match d.mnemonic {
            Mnemonic::Beq => rc_val == 0,
            Mnemonic::Bne => rc_val != 0,
            _ => {
                return Err(VmError::InvalidOpcode);
            },
        };
        if should_branch {
            let offset = if d.imm8 & 0x80 != 0 {
                (d.imm8 as u16) | 0xFF00
            } else {
                d.imm8 as u16
            };
            self.registers.pc = self.registers.pc.wrapping_add(offset.wrapping_mul(2));
        }
        proof {
            assert(final(self)@ =~= spec_dispatch(old(self)@, *d));
        }
        Ok(())
    }

    /// Executes one extended instruction against the post-fetch state.
    /// A fault — the second word or the stack access out of range, the
    /// stack access denied by policy, or a syscall from too low a ring —
    /// leaves the machine exactly as it was.
    #[verifier::rlimit(100)]
    fn execute_extended(&mut self, d: &DecodedInstruction) -> (r: Result<(), VmError>)
        requires
            old(self).wf(),
            d.format is Extended,
        ensures
            final(self).wf(),
            match r {
                Ok(()) => dispatch_fault(old(self)@, *d) is None && final(self)@ == spec_dispatch(
                    old(self)@,
                    *d,
                ),
                Err(e) => dispatch_fault(old(self)@, *d) == Some(e) && final(self)@ == old(self)@,
            },
    {
        let pc = self.registers.pc;
        match d.mnemonic {
            Mnemonic::Call => {
                let target = match self.memory.read_word(pc as usize) {
                    Ok(w) => w,
                    Err(e) => {
                        return Err(e);
                    },
                };
                self.registers.lr = pc;
                self.registers.pc = target;
                proof {
                    assert(final(self)@ =~= spec_dispatch(old(self)@, *d));
                }
                Ok(())
            },
            Mnemonic::Ret => {
                self.registers.pc = self.registers.lr;
                proof {
                    assert(final(self)@ =~= spec_dispatch(old(self)@, *d));
                }
                Ok(())
            },
            Mnemonic::Push => {
                let value_word = match self.memory.read_word(pc as usize) {
                    Ok(w) => w,
                    Err(e) => {
                        return Err(e);
                    },
                };
                let reg = (value_word >> 12) as u8;
                let value = self.registers.read_gp(reg);
                let ea = self.registers.sp.wrapping_sub(2);
                match self.registers.can_access_memory(ea, true) {
                    Ok(()) => {},
                    Err(e) => {
                        return Err(e);
                    },
                }
                match self.memory.write_word(ea as usize, value) {
                    Ok(()) => {},
                    Err(e) => {
                        return Err(e);
                    },
                }
                self.registers.pc = pc.wrapping_add(2);
                self.registers.sp = ea;
                proof {
                    assert(final(self)@ =~= spec_dispatch(old(self)@, *d));
                }
                Ok(())
            },
            Mnemonic::Pop => {
                let value_word = match self.memory.read_word(pc as usize) {
                    Ok(w) => w,
                    Err(e) => {
                        return Err(e);
                    },
                };
                let reg = (value_word >> 12) as u8;
                let ea = self.registers.sp;
                match self.registers.can_access_memory(ea, false) {
                    Ok(()) => {},
                    Err(e) => {
                        return Err(e);
                    },
                }
                let value = match self.memory.read_word(ea as usize) {
                    Ok(v) => v,
                    Err(e) => {
                        return Err(e);
                    },
                };
                self.registers.pc = pc.wrapping_add(2);
                self.registers.sp = ea.wrapping_add(2);
                self.registers.write_gp(reg, value);
                proof {
                    assert(final(self)@ =~= spec_dispatch(old(self)@, *d));
                }
                Ok(())
            },
            Mnemonic::Syscall => {
                let number = self.registers.read_gp(1);
                let sc = Syscall::from_u16(number);
                let required = sc.required_privilege();
                if !self.registers.get_privilege_level().can_access(required) {
                    return Err(VmError::PrivilegeViolation);
                }
                let arg = self.registers.read_gp(2);
                match sc {
                    Syscall::Exit => {
                        self.halted = true;
                    },
                    Syscall::PrintChar => {
                        self.registers.console.print_char((arg as u8) as char);
                    },
                    Syscall::PrintHex => {
                        self.registers.console.print_hex(arg);
                    },
                    Syscall::ClearScreen => {
                        self.registers.console.clear_output();
                    },
                    Syscall::SetColor => {
                        self.registers.console.set_color(arg);
                    },
                    Syscall::GetTime => {
                        let t = self.cycle_count as u16;
                        self.registers.write_gp(1, t);
                    },
                    _ => {
                        self.registers.write_gp(1, 0);
                    },
                }
                proof {
                    assert(final(self)@ =~= spec_dispatch(old(self)@, *d));
                }
                Ok(())
            },
            _ => Err(VmError::InvalidOpcode),
        }
    }

    /// Executes one special instruction against the post-fetch state.
    fn execute_special(&mut self, d: &DecodedInstruction) -> (r: Result<(), VmError>)
        requires
            old(self).wf(),
            d.format is Special,
        ensures
            final(self).wf(),
            match r {
                Ok(()) => dispatch_fault(old(self)@, *d) is None && final(self)@ == spec_dispatch(
                    old(self)@,
                    *d,
                ),
                Err(e) => dispatch_fault(old(self)@, *d) == Some(e) && final(self)@ == old(self)@,
            },
    {
        match d.mnemonic {
            Mnemonic::Nop => Ok(()),
            Mnemonic::Halt => {
                self.halted = true;
                proof {
                    assert(final(self)@ =~= spec_dispatch(old(self)@, *d));
                }
                Ok(())
            },
            _ => Err(VmError::InvalidOpcode),
        }
    }

    /// Executes a single instruction, or reports `Halted` on a halted
    /// machine. A fault during the step is delivered as a trap through
    /// the exception vector, never surfaced here; the cycle counter
    /// moves exactly once per step, trapped steps included. On a fault
    /// inside a two-word instruction the saved program counter points
    /// after the first word.
    #[verifier::rlimit(100)]
    pub fn step(&mut self) -> (r: Result<(), VmError>)
        requires
            old(self).wf(),
            old(self).cycle_count < u64::MAX,
        ensures
            final(self).wf(),
            old(self).halted ==> r == Err::<(), VmError>(VmError::Halted) && final(self)@ == old(
                self,
            )@,
            !old(self).halted ==> r is Ok && final(self)@ == spec_step(old(self)@),
    {
        if self.halted {
            return Err(VmError::Halted);
        }
        self.cycle_count = self.cycle_count + 1;
        let pc_before = self.registers.pc;
        match self.registers.can_execute(pc_before) {
            Ok(()) => {},
            Err(e) => {
                let code = e.fault_code();
                self.registers.raise_exception(code);
                proof {
                    assert(final(self)@ =~= spec_step(old(self)@));
                }
                return Ok(());
            },
        }
        let instruction = match self.memory.read_word(pc_before as usize) {
            Ok(w) => w,
            Err(e) => {
                let code = e.fault_code();
                self.registers.raise_exception(code);
                proof {
                    assert(final(self)@ =~= spec_step(old(self)@));
                }
                return Ok(());
            },
        };
        self.registers.pc = pc_before.wrapping_add(2);
        let decoded = InstructionDecoder::decode(instruction);
        let outcome = match decoded.format {
            InstructionFormat::RType => self.execute_r_type(&decoded),
            InstructionFormat::IType => self.execute_i_type(&decoded),
            InstructionFormat::MType => self.execute_m_type(&decoded),
            InstructionFormat::JType => self.execute_j_type(&decoded),
            InstructionFormat::BType => self.execute_b_type(&decoded),
            InstructionFormat::Extended => self.execute_extended(&decoded),
            InstructionFormat::Special => self.execute_special(&decoded),
        };
        match outcome {
            Ok(()) => {
                proof {
                    assert(final(self)@ =~= spec_step(old(self)@));
                }
                Ok(())
            },
            Err(e) => {
                let code = e.fault_code();
                self.registers.raise_exception(code);
                proof {
                    assert(final(self)@ =~= spec_step(old(self)@));
                }
                Ok(())
            },
        }
    }

    /// Runs until the machine halts or `max_cycles` further steps have
    /// been taken, and reports how many steps ran. The caller observes
    /// a clean, resumable state.
    #[verifier::rlimit(100)]
    pub fn run(&mut self, max_cycles: u64) -> (r: Result<u64, VmError>)
        requires
            old(self).wf(),
            old(self).cycle_count + max_cycles <= u64::MAX,
        ensures
            final(self).wf(),
            final(self)@ == run_state(old(self)@, max_cycles as nat),
            r == Ok::<u64, VmError>(steps_taken(old(self)@, max_cycles as nat) as u64),
    {
        let start_cycle = self.cycle_count;
        while !self.halted && (self.cycle_count - start_cycle) < max_cycles
            invariant
                self.wf(),
                start_cycle == old(self).cycle_count,
                start_cycle <= self.cycle_count,
                self.cycle_count - start_cycle <= max_cycles,
                start_cycle + max_cycles <= u64::MAX,
                run_state(old(self)@, max_cycles as nat) == run_state(
                    self@,
                    (max_cycles - (self.cycle_count - start_cycle)) as nat,
                ),
                steps_taken(old(self)@, max_cycles as nat) == (self.cycle_count - start_cycle)
                    + steps_taken(self@, (max_cycles - (self.cycle_count - start_cycle)) as nat),
            decreases max_cycles - (self.cycle_count - start_cycle),
        {
            let ghost prev = self@;
            let ghost fuel = (max_cycles - (self.cycle_count - start_cycle)) as nat;
            self.step()?;
            proof {
                assert(self@ == spec_step(prev));
                assert(self@.cycles == prev.cycles + 1);
                assert(run_state(prev, fuel) == run_state(self@, (fuel - 1) as nat));
                assert(steps_taken(prev, fuel) == 1 + steps_taken(self@, (fuel - 1) as nat));
            }
        }
        Ok(self.cycle_count - start_cycle)
    }

    /// Returns the machine to its boot state: registers reinitialised
    /// (the console keeping its buffers), memory zeroed, not halted,
    /// the cycle counter cleared. The trace flag stays as set.
    pub fn reset(&mut self)
        requires
            old(self).wf(),
        ensures
            final(self).wf(),
            !final(self).halted,
            final(self).cycle_count == 0,
            final(self)@ == vm_boot(old(self)@),
    {
        self.registers.reset();
        self.memory.clear();
        self.halted = false;
        self.cycle_count = 0;
        proof {
            assert(final(self)@ =~= vm_boot(old(self)@));
        }
    }

    /// Switches per-instruction tracing on or off; the driver reads the
    /// flag back and prints disassembly itself.
    pub fn set_trace(&mut self, enabled: bool)
        ensures
            final(self)@ == (VmView { trace: enabled, ..old(self)@ }),
    {
        self.trace_enabled = enabled;
    }

    /// The machine state rendered for inspection: the register file,
    /// the cycle count and the halted flag.
    pub fn state_dump(&self) -> (r: String)
        requires
            self.wf(),
        ensures
            r@ == state_dump_chars(self@),
    {
        let mut out = String::new();
        out.append("=== CVERE VM State ===\n");
        let regs = self.registers.dump();
        out.append(regs.as_str());
        out.append("\nCycles: ");
        push_dec_u64(&mut out, self.cycle_count);
        out.append("\nHalted: ");
        out.append(if self.halted { "true" } else { "false" });
        out.append("\n");
        proof {
            assert(out@ =~= state_dump_chars(self@));
        }
        out
    }

    /// A hexadecimal dump of `length` bytes of memory from `start`
    /// (clipped to the end of memory), sixteen to a line.
    pub fn memory_dump(&self, start: u16, length: u16) -> (r: String)
        requires
            self.wf(),
        ensures
            ({
                let end = if start + length <= self@.mem.len() {
                    (start + length) as int
                } else {
                    self@.mem.len() as int
                };
                r@ == dump_lines(self@.mem, start as int, end)
            }),
    {
        self.memory.dump(start as usize, length as usize)
    }
}

/// The machine state rendered for inspection: the register dump, then
/// the cycle count in decimal and the halted flag.
pub open spec fn state_dump_chars(v: VmView) -> Seq<char> {
    "=== CVERE VM State ===\n"@ + reg_dump_chars(v.regs) + "\nCycles: "@ + dec_chars(
        v.cycles as nat,
    ) + "\nHalted: "@ + (if v.halted {
        "true"@
    } else {
        "false"@
    }) + "\n"@
}

/// One step never disturbs well-formedness: however an instruction or a
/// trap rewrites the machine, the register file keeps its sixteen slots
/// with slot 0 zero, and memory keeps its 64 KiB.
pub proof fn lemma_step_preserves_wf(s: VmView)
    requires
        vm_wf(s),
    ensures
        vm_wf(spec_step(s)),
{
}

/// Register 0 reads zero at every cycle of every program: the machine
/// stays well-formed step after step, and a well-formed register file
/// always reads zero from slot 0.
pub proof fn lemma_r0_zero_every_cycle(s: VmView, fuel: nat)
    requires
        vm_wf(s),
    ensures
        vm_wf(run_state(s, fuel)),
        spec_read_gp(run_state(s, fuel).regs, 0) == 0,
    decreases fuel,
{
    if fuel == 0 || s.halted {
    } else {
        lemma_step_preserves_wf(s);
        lemma_r0_zero_every_cycle(spec_step(s), (fuel - 1) as nat);
    }
}

/// A LOAD or STORE whose effective address the policy denies for the
/// current ring raises `AccessViolation`: the whole step is exactly a
/// trap through the exception vector on the post-fetch state, and
/// memory is left untouched.
pub proof fn lemma_denied_access_traps(s: VmView)
    requires
        !s.halted,
        s.regs.code_base <= s.regs.pc < s.regs.code_limit,
        s.regs.pc + 1 < s.mem.len(),
        ({
            let d = spec_decode(word_at(s.mem, s.regs.pc as int));
            &&& d.format is MType
            &&& (d.mnemonic is Load || d.mnemonic is Store)
            &&& !mem_access_allowed(s.regs.privilege, m_type_ea(s, d), d.mnemonic is Store)
        }),
    ensures
        spec_step(s).mem == s.mem,
        spec_step(s).regs.gp == s.regs.gp,
        ({
            let d = spec_decode(word_at(s.mem, s.regs.pc as int));
            let fetched = VmView {
                regs: RegView {
                    pc: u16_specs::wrapping_add(s.regs.pc, 2),
                    ..s.regs
                },
                cycles: (s.cycles + 1) as u64,
                ..s
            };
            &&& dispatch_fault(fetched, d) == Some(VmError::AccessViolation)
            &&& spec_step(s) == vm_fault(fetched, VmError::AccessViolation)
        }),
{
    let d = spec_decode(word_at(s.mem, s.regs.pc as int));
    let counted = VmView { cycles: (s.cycles + 1) as u64, ..s };
    let fetched = VmView {
        regs: RegView { pc: u16_specs::wrapping_add(s.regs.pc, 2), ..counted.regs },
        ..counted
    };
    assert(m_type_ea(fetched, d) == m_type_ea(s, d));
    assert(fetched =~= (VmView {
        regs: RegView { pc: u16_specs::wrapping_add(s.regs.pc, 2), ..s.regs },
        cycles: (s.cycles + 1) as u64,
        ..s
    }));
}

/// Resetting the machine twice leaves exactly the state one reset
/// leaves.
pub proof fn lemma_vm_reset_idempotent(v: VmView)
    ensures
        vm_boot(vm_boot(v)) == vm_boot(v),
{
    assert(vm_boot(vm_boot(v)) =~= vm_boot(v));
}

} // verus!
