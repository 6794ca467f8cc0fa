//! The decoder against the opcode table.

use cvere::decoder::{InstructionDecoder, InstructionFormat, Mnemonic};

#[test]
fn test_decode_r_type() {
    let d = InstructionDecoder::decode(0x1312);
    assert_eq!(d.format, InstructionFormat::RType);
    assert_eq!(d.mnemonic, Mnemonic::Add);
    assert_eq!((d.rd, d.rs, d.rt), (3, 1, 2));

    assert_eq!(InstructionDecoder::decode(0x3421).mnemonic, Mnemonic::Sub);
    assert_eq!(InstructionDecoder::decode(0x4312).mnemonic, Mnemonic::And);
    assert_eq!(InstructionDecoder::decode(0x5412).mnemonic, Mnemonic::Or);
    assert_eq!(InstructionDecoder::decode(0x6512).mnemonic, Mnemonic::Xor);
    assert_eq!(InstructionDecoder::decode(0x7611).mnemonic, Mnemonic::Not);
    assert_eq!(InstructionDecoder::decode(0x8312).mnemonic, Mnemonic::Shl);
    assert_eq!(InstructionDecoder::decode(0x9412).mnemonic, Mnemonic::Shr);
}

#[test]
fn test_decode_i_type() {
    let d = InstructionDecoder::decode(0xC105);
    assert_eq!(d.format, InstructionFormat::IType);
    assert_eq!(d.mnemonic, Mnemonic::Loadi);
    assert_eq!((d.rd, d.imm8), (1, 0x05));

    let d = InstructionDecoder::decode(0x2AFF);
    assert_eq!(d.mnemonic, Mnemonic::Addi);
    assert_eq!((d.rd, d.imm8), (0xA, 0xFF));
}

#[test]
fn test_decode_m_type() {
    let d = InstructionDecoder::decode(0xA327);
    assert_eq!(d.format, InstructionFormat::MType);
    assert_eq!(d.mnemonic, Mnemonic::Load);
    assert_eq!((d.rd, d.rs, d.offset), (3, 2, 7));

    assert_eq!(InstructionDecoder::decode(0xB120).mnemonic, Mnemonic::Store);
}

#[test]
fn test_decode_jumps_and_branches() {
    let d = InstructionDecoder::decode(0xD123);
    assert_eq!(d.format, InstructionFormat::JType);
    assert_eq!(d.mnemonic, Mnemonic::Jmp);
    assert_eq!(d.addr12, 0x123);

    let d = InstructionDecoder::decode(0xE101);
    assert_eq!(d.format, InstructionFormat::BType);
    assert_eq!(d.mnemonic, Mnemonic::Beq);
    assert_eq!((d.rd, d.imm8), (1, 1));

    let d = InstructionDecoder::decode(0xF3FD);
    assert_eq!(d.format, InstructionFormat::BType);
    assert_eq!(d.mnemonic, Mnemonic::Bne);
    assert_eq!((d.rd, d.imm8), (3, 0xFD));

    // The whole 0xF0..0xFE high-byte range is BNE.
    assert_eq!(InstructionDecoder::decode(0xFE00).mnemonic, Mnemonic::Bne);
}

#[test]
fn test_decode_extended_and_special() {
    assert_eq!(InstructionDecoder::decode(0x0000).mnemonic, Mnemonic::Nop);
    assert_eq!(InstructionDecoder::decode(0x0000).format, InstructionFormat::Special);
    assert_eq!(InstructionDecoder::decode(0xFFFF).mnemonic, Mnemonic::Halt);
    assert_eq!(InstructionDecoder::decode(0xFFFF).format, InstructionFormat::Special);

    assert_eq!(InstructionDecoder::decode(0xFF00).mnemonic, Mnemonic::Call);
    assert_eq!(InstructionDecoder::decode(0xFF00).format, InstructionFormat::Extended);
    assert_eq!(InstructionDecoder::decode(0xFF01).mnemonic, Mnemonic::Ret);
    assert_eq!(InstructionDecoder::decode(0xFF02).mnemonic, Mnemonic::Push);
    assert_eq!(InstructionDecoder::decode(0xFF03).mnemonic, Mnemonic::Pop);
    assert_eq!(InstructionDecoder::decode(0xFF04).mnemonic, Mnemonic::Syscall);
}

#[test]
fn test_decode_unknown_patterns() {
    assert_eq!(InstructionDecoder::decode(0x0001).mnemonic, Mnemonic::Unknown);
    assert_eq!(InstructionDecoder::decode(0x0FFF).mnemonic, Mnemonic::Unknown);
    let d = InstructionDecoder::decode(0xFF05);
    assert_eq!(d.format, InstructionFormat::Extended);
    assert_eq!(d.mnemonic, Mnemonic::Unknown);
    assert_eq!(InstructionDecoder::decode(0xFFFE).mnemonic, Mnemonic::Unknown);
}
