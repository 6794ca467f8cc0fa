//! The instruction decoder: a pure, total function from a 16-bit
//! instruction word to its format class, mnemonic and operand fields.
//!
//! The top nibble selects the opcode class. `0x1`–`0x9` are the R-type
//! arithmetic, logic and shift group; `0x2` and `0xC` are the I-type
//! immediates; `0xA`/`0xB` the M-type memory group; `0xD` the J-type
//! jump; `0xE` branch-if-zero. Under the `0xF` class, `0xFFFF` is HALT,
//! the words `0xFF00`–`0xFFFE` are two-word extended instructions whose
//! low byte selects the operation (`0x00` CALL, `0x01` RET, `0x02`
//! PUSH, `0x03` POP, and `0x04`, the bit pattern this machine assigns
//! to SYSCALL), and everything else in the class is branch-if-nonzero.
//! `0x0000` is NOP. The decoder never fails: any other pattern decodes
//! to `Unknown`, which the interpreter reports as an invalid opcode.

use vstd::prelude::*;

verus! {

/// The format class of an instruction word.
#[derive(Debug, Clone, Copy, PartialEq, Eq, Structural)]
pub enum InstructionFormat {
    /// Three-register operations.
    RType,
    /// Register with an 8-bit immediate.
    IType,
    /// Memory access: register, base register and 4-bit word offset.
    MType,
    /// Jump to a 12-bit absolute address.
    JType,
    /// Conditional branch: condition register and signed 8-bit offset.
    BType,
    /// Two-word instructions selected by a subcode.
    Extended,
    /// NOP, HALT and undecodable words.
    Special,
}

/// The operation an instruction word names.
#[derive(Debug, Clone, Copy, PartialEq, Eq, Structural)]
pub enum Mnemonic {
    Add,
    Addi,
    Sub,
    And,
    Or,
    Xor,
    Not,
    Shl,
    Shr,
    Load,
    Store,
    Loadi,
    Jmp,
    Beq,
    Bne,
    Call,
    Ret,
    Push,
    Pop,
    Syscall,
    Halt,
    Nop,
    Unknown,
}

/// A decoded instruction: the format class, the mnemonic, and the
/// operand fields. Only the fields a format uses are meaningful; the
/// rest are left zero.
#[derive(Debug, Clone, Copy, PartialEq, Eq, Structural)]
pub struct DecodedInstruction {
    pub format: InstructionFormat,
    pub mnemonic: Mnemonic,
    pub rd: u8,
    pub rs: u8,
    pub rt: u8,
    pub imm8: u8,
    pub offset: u8,
    pub addr12: u16,
}

/// A decoded instruction with every operand field zero.
pub open spec fn blank_decoded(f: InstructionFormat, m: Mnemonic) -> DecodedInstruction {
    DecodedInstruction {
        format: f,
        mnemonic: m,
        rd: 0,
        rs: 0,
        rt: 0,
        imm8: 0,
        offset: 0,
        addr12: 0,
    }
}

/// The decoding of an instruction word, following the opcode table.
pub open spec fn spec_decode(w: u16) -> DecodedInstruction {
    let op = w >> 12;
    let rd = ((w >> 8) & 0xF) as u8;
    let rs = ((w >> 4) & 0xF) as u8;
    let rt = (w & 0xF) as u8;
    let imm8 = (w & 0xFF) as u8;
    if w == 0x0000 {
        blank_decoded(InstructionFormat::Special, Mnemonic::Nop)
    } else if op == 0x1 || op == 0x3 || op == 0x4 || op == 0x5 || op == 0x6 || op == 0x7 || op
        == 0x8 || op == 0x9 {
        let m = if op == 0x1 {
            Mnemonic::Add
        } else if op == 0x3 {
            Mnemonic::Sub
        } else if op == 0x4 {
            Mnemonic::And
        } else if op == 0x5 {
            Mnemonic::Or
        } else if op == 0x6 {
            Mnemonic::Xor
        } else if op == 0x7 {
            Mnemonic::Not
        } else if op == 0x8 {
            Mnemonic::Shl
        } else {
            Mnemonic::Shr
        };
        DecodedInstruction { rd: rd, rs: rs, rt: rt, ..blank_decoded(InstructionFormat::RType, m) }
    } else if op == 0x2 || op == 0xC {
        let m = if op == 0x2 {
            Mnemonic::Addi
        } else {
            Mnemonic::Loadi
        };
        DecodedInstruction { rd: rd, imm8: imm8, ..blank_decoded(InstructionFormat::IType, m) }
    } else if op == 0xA || op == 0xB {
        let m = if op == 0xA {
            Mnemonic::Load
        } else {
            Mnemonic::Store
        };
        DecodedInstruction {
            rd: rd,
            rs: rs,
            offset: rt,
            ..blank_decoded(InstructionFormat::MType, m)
        }
    } else if op == 0xD {
        DecodedInstruction {
            addr12: w & 0x0FFF,
            ..blank_decoded(InstructionFormat::JType, Mnemonic::Jmp)
        }
    } else if op == 0xE {
        DecodedInstruction {
            rd: rd,
            imm8: imm8,
            ..blank_decoded(InstructionFormat::BType, Mnemonic::Beq)
        }
    } else if op == 0xF {
        if w == 0xFFFF {
            blank_decoded(InstructionFormat::Special, Mnemonic::Halt)
        } else if (w >> 8) == 0xFF {
            let m = if w & 0xFF == 0x00 {
                Mnemonic::Call
            } else if w & 0xFF == 0x01 {
                Mnemonic::Ret
            } else if w & 0xFF == 0x02 {
                Mnemonic::Push
            } else if w & 0xFF == 0x03 {
                Mnemonic::Pop
            } else if w & 0xFF == 0x04 {
                Mnemonic::Syscall
            } else {
                Mnemonic::Unknown
            };
            blank_decoded(InstructionFormat::Extended, m)
        } else {
            DecodedInstruction {
                rd: rd,
                imm8: imm8,
                ..blank_decoded(InstructionFormat::BType, Mnemonic::Bne)
            }
        }
    } else {
        blank_decoded(InstructionFormat::Special, Mnemonic::Unknown)
    }
}

/// The stateless decoder.
pub struct InstructionDecoder;

impl InstructionDecoder {
    /// Decodes one instruction word. Total: unknown bit patterns come
    /// back with the `Unknown` mnemonic rather than an error.
    pub fn decode(word: u16) -> (r: DecodedInstruction)
        ensures
            r == spec_decode(word),
    {
        let op = word >> 12;
        let rd = ((word >> 8) & 0xF) as u8;
        let rs = ((word >> 4) & 0xF) as u8;
        let rt = (word & 0xF) as u8;
        let imm8 = (word & 0xFF) as u8;
        let blank = DecodedInstruction {
            format: InstructionFormat::Special,
            mnemonic: Mnemonic::Unknown,
            rd: 0,
            rs: 0,
            rt: 0,
            imm8: 0,
            offset: 0,
            addr12: 0,
        };
        if word == 0x0000 {
            return DecodedInstruction {
                format: InstructionFormat::Special,
                mnemonic: Mnemonic::Nop,
                ..blank
            };
        }
        match op {
            0x1 | 0x3 | 0x4 | 0x5 | 0x6 | 0x7 | 0x8 | 0x9 => {
                let m = match op {
                    0x1 => Mnemonic::Add,
                    0x3 => Mnemonic::Sub,
                    0x4 => Mnemonic::And,
                    0x5 => Mnemonic::Or,
                    0x6 => Mnemonic::Xor,
                    0x7 => Mnemonic::Not,
                    0x8 => Mnemonic::Shl,
                    _ => Mnemonic::Shr,
                };
                DecodedInstruction {
                    format: InstructionFormat::RType,
                    mnemonic: m,
                    rd,
                    rs,
                    rt,
                    ..blank
                }
            },
            0x2 | 0xC => {
                let m = if op == 0x2 {
                    Mnemonic::Addi
                } else {
                    Mnemonic::Loadi
                };
                DecodedInstruction { format: InstructionFormat::IType, mnemonic: m, rd, imm8, ..blank }
            },
            0xA | 0xB => {
                let m = if op == 0xA {
                    Mnemonic::Load
                } else {
                    Mnemonic::Store
                };
                DecodedInstruction {
                    format: InstructionFormat::MType,
                    mnemonic: m,
                    rd,
                    rs,
                    offset: rt,
                    ..blank
                }
            },
            0xD => DecodedInstruction {
                format: InstructionFormat::JType,
                mnemonic: Mnemonic::Jmp,
                addr12: word & 0x0FFF,
                ..blank
            },
            0xE => DecodedInstruction {
                format: InstructionFormat::BType,
                mnemonic: Mnemonic::Beq,
                rd,
                imm8,
                ..blank
            },
            0xF => {
                if word == 0xFFFF {
                    DecodedInstruction {
                        format: InstructionFormat::Special,
                        mnemonic: Mnemonic::Halt,
                        ..blank
                    }
                } else if (word >> 8) == 0xFF {
                    let m = match word & 0xFF {
                        0x00 => Mnemonic::Call,
                        0x01 => Mnemonic::Ret,
                        0x02 => Mnemonic::Push,
                        0x03 => Mnemonic::Pop,
                        0x04 => Mnemonic::Syscall,
                        _ => Mnemonic::Unknown,
                    };
                    DecodedInstruction { format: InstructionFormat::Extended, mnemonic: m, ..blank }
                } else {
                    DecodedInstruction {
                        format: InstructionFormat::BType,
                        mnemonic: Mnemonic::Bne,
                        rd,
                        imm8,
                        ..blank
                    }
                }
            },
            _ => blank,
        }
    }
}

} // verus!
