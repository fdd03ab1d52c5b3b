use vstd::prelude::*;
use crate::address_mode::AddressMode;
use crate::cpu::{pulled, pushed, Reg, RunState, CPU};
use crate::memory::{byte_at, written8, Mem};
use crate::ops::{stored, Logic, Modify};
use crate::registers::Registers;
use crate::status::{Flags, StatusFlags};
use crate::word::{hi_byte, lo_byte, word};

verus! {

/// The instructions of the processor, by mnemonic.
#[derive(Clone, Copy, Debug, PartialEq, Eq, Structural)]
pub enum Instruction {
    Adc,
    And,
    Asl,
    Bcc,
    Bcs,
    Beq,
    Bit,
    Bmi,
    Bne,
    Bpl,
    Bra,
    Brk,
    Brl,
    Bvc,
    Bvs,
    Clc,
    Cld,
    Cli,
    Clv,
    Cmp,
    Cop,
    Cpx,
    Cpy,
    Dec,
    Dex,
    Dey,
    Eor,
    Inc,
    Inx,
    Iny,
    Jmp,
    Jsl,
    Jsr,
    Lda,
    Ldx,
    Ldy,
    Lsr,
    Mvn,
    Mvp,
    Nop,
    Ora,
    Pea,
    Pei,
    Per,
    Pha,
    Phb,
    Phd,
    Phk,
    Php,
    Phx,
    Phy,
    Pla,
    Plb,
    Pld,
    Plp,
    Plx,
    Ply,
    Rep,
    Rol,
    Ror,
    Rti,
    Rtl,
    Rts,
    Sbc,
    Sec,
    Sed,
    Sei,
    Sep,
    Sta,
    Stp,
    Stx,
    Sty,
    Stz,
    Tax,
    Tay,
    Tcd,
    Tcs,
    Tdc,
    Trb,
    Tsb,
    Tsc,
    Tsx,
    Txa,
    Txs,
    Txy,
    Tya,
    Tyx,
    Wai,
    Wdm,
    Xba,
    Xce,
}

/// One entry of the opcode table: the opcode byte, the instruction's length
/// in bytes with eight-bit registers, its base cycle count (eight-bit
/// registers, no page crossing, branch not taken), the instruction and the
/// addressing mode of its operand.
#[derive(Clone, Copy, Debug, PartialEq, Eq, Structural)]
pub struct OpCode {
    pub op: u8,
    pub len: u8,
    pub cycles: u8,
    pub instruction: Instruction,
    pub mode: AddressMode,
}

impl OpCode {
    pub fn new(op: u8, len: u8, cycles: u8, instruction: Instruction, mode: AddressMode) -> (r:
        OpCode)
        ensures
            r == (OpCode { op, len, cycles, instruction, mode }),
    {
        OpCode { op, len, cycles, instruction, mode }
    }

    /// The addressing mode is one that the instruction can use.
    pub open spec fn fits(self) -> bool {
        mode_fits(self.instruction, self.mode)
    }
}

/// `mode` is one that `ins` can use.
pub open spec fn mode_fits(ins: Instruction, mode: AddressMode) -> bool {
        match ins {
            Instruction::Adc | Instruction::And | Instruction::Bit | Instruction::Cmp
            | Instruction::Cpx | Instruction::Cpy | Instruction::Eor | Instruction::Lda
            | Instruction::Ldx | Instruction::Ldy | Instruction::Ora | Instruction::Sbc
            | Instruction::Sta | Instruction::Stx | Instruction::Sty | Instruction::Stz
            | Instruction::Trb | Instruction::Tsb => mode.is_data(),
            Instruction::Asl | Instruction::Dec | Instruction::Inc | Instruction::Lsr
            | Instruction::Rol | Instruction::Ror => mode is Accumulator || mode.is_data(),
            Instruction::Jmp | Instruction::Jsr => mode.has_address(),
            _ => true,
        }
}

/// Which of the dispatch groups runs an instruction.
pub open spec fn dispatch_group(ins: Instruction) -> int {
    match ins {
        Instruction::Adc | Instruction::And | Instruction::Asl | Instruction::Bcc
        | Instruction::Bcs | Instruction::Beq | Instruction::Bit | Instruction::Bmi
        | Instruction::Bne | Instruction::Bpl | Instruction::Bra | Instruction::Brk => 0,
        Instruction::Brl | Instruction::Bvc | Instruction::Bvs | Instruction::Clc
        | Instruction::Cld | Instruction::Cli | Instruction::Clv | Instruction::Cmp
        | Instruction::Cop | Instruction::Cpx | Instruction::Cpy | Instruction::Dec => 1,
        Instruction::Dex | Instruction::Dey | Instruction::Eor | Instruction::Inc
        | Instruction::Inx | Instruction::Iny | Instruction::Jmp | Instruction::Jsl
        | Instruction::Jsr | Instruction::Lda | Instruction::Ldx | Instruction::Ldy => 2,
        Instruction::Lsr | Instruction::Mvn | Instruction::Mvp | Instruction::Nop
        | Instruction::Ora | Instruction::Pea | Instruction::Pei | Instruction::Per
        | Instruction::Pha | Instruction::Phb | Instruction::Phd | Instruction::Phk => 3,
        Instruction::Php | Instruction::Phx | Instruction::Phy | Instruction::Pla
        | Instruction::Plb | Instruction::Pld | Instruction::Plp | Instruction::Plx
        | Instruction::Ply | Instruction::Rep | Instruction::Rol | Instruction::Ror => 4,
        Instruction::Rti | Instruction::Rtl | Instruction::Rts | Instruction::Sbc
        | Instruction::Sec | Instruction::Sed | Instruction::Sei | Instruction::Sep
        | Instruction::Sta | Instruction::Stp | Instruction::Stx | Instruction::Sty => 5,
        Instruction::Stz | Instruction::Tax | Instruction::Tay | Instruction::Tcd
        | Instruction::Tcs | Instruction::Tdc | Instruction::Trb | Instruction::Tsb
        | Instruction::Tsc | Instruction::Tsx | Instruction::Txa | Instruction::Txs => 6,
        Instruction::Txy | Instruction::Tya | Instruction::Tyx | Instruction::Wai
        | Instruction::Wdm | Instruction::Xba | Instruction::Xce => 7,
    }
}

/// The opcode table: every one of the 256 opcode bytes names an instruction.
pub open spec fn opcode_table(op: u8) -> OpCode {
    match op {
        0x00 => OpCode { op: 0x00, len: 2, cycles: 8, instruction: Instruction::Brk, mode: AddressMode::Immediate },
        0x01 => OpCode { op: 0x01, len: 2, cycles: 6, instruction: Instruction::Ora, mode: AddressMode::DirectIndexedIndirect },
        0x02 => OpCode { op: 0x02, len: 2, cycles: 8, instruction: Instruction::Cop, mode: AddressMode::Immediate },
        0x03 => OpCode { op: 0x03, len: 2, cycles: 4, instruction: Instruction::Ora, mode: AddressMode::StackRelative },
        0x04 => OpCode { op: 0x04, len: 2, cycles: 5, instruction: Instruction::Tsb, mode: AddressMode::Direct(0x04) },
        0x05 => OpCode { op: 0x05, len: 2, cycles: 3, instruction: Instruction::Ora, mode: AddressMode::Direct(0x05) },
        0x06 => OpCode { op: 0x06, len: 2, cycles: 5, instruction: Instruction::Asl, mode: AddressMode::Direct(0x06) },
        0x07 => OpCode { op: 0x07, len: 2, cycles: 6, instruction: Instruction::Ora, mode: AddressMode::DirectIndirectLong },
        0x08 => OpCode { op: 0x08, len: 1, cycles: 3, instruction: Instruction::Php, mode: AddressMode::Implied },
        0x09 => OpCode { op: 0x09, len: 2, cycles: 2, instruction: Instruction::Ora, mode: AddressMode::Immediate },
        0x0A => OpCode { op: 0x0A, len: 1, cycles: 2, instruction: Instruction::Asl, mode: AddressMode::Accumulator },
        0x0B => OpCode { op: 0x0B, len: 1, cycles: 4, instruction: Instruction::Phd, mode: AddressMode::Implied },
        0x0C => OpCode { op: 0x0C, len: 3, cycles: 6, instruction: Instruction::Tsb, mode: AddressMode::Absolute(0x0C) },
        0x0D => OpCode { op: 0x0D, len: 3, cycles: 4, instruction: Instruction::Ora, mode: AddressMode::Absolute(0x0D) },
        0x0E => OpCode { op: 0x0E, len: 3, cycles: 6, instruction: Instruction::Asl, mode: AddressMode::Absolute(0x0E) },
        0x0F => OpCode { op: 0x0F, len: 4, cycles: 5, instruction: Instruction::Ora, mode: AddressMode::AbsoluteLong },
        0x10 => OpCode { op: 0x10, len: 2, cycles: 2, instruction: Instruction::Bpl, mode: AddressMode::Relative8 },
        0x11 => OpCode { op: 0x11, len: 2, cycles: 5, instruction: Instruction::Ora, mode: AddressMode::DirectIndirectIndexed },
        0x12 => OpCode { op: 0x12, len: 2, cycles: 5, instruction: Instruction::Ora, mode: AddressMode::DirectIndirect },
        0x13 => OpCode { op: 0x13, len: 2, cycles: 7, instruction: Instruction::Ora, mode: AddressMode::StackRelativeIndirectIndexed },
        0x14 => OpCode { op: 0x14, len: 2, cycles: 5, instruction: Instruction::Trb, mode: AddressMode::Direct(0x14) },
        0x15 => OpCode { op: 0x15, len: 2, cycles: 4, instruction: Instruction::Ora, mode: AddressMode::DirectIndexedX },
        0x16 => OpCode { op: 0x16, len: 2, cycles: 6, instruction: Instruction::Asl, mode: AddressMode::DirectIndexedX },
        0x17 => OpCode { op: 0x17, len: 2, cycles: 6, instruction: Instruction::Ora, mode: AddressMode::DirectIndirectIndexedLong },
        0x18 => OpCode { op: 0x18, len: 1, cycles: 2, instruction: Instruction::Clc, mode: AddressMode::Implied },
        0x19 => OpCode { op: 0x19, len: 3, cycles: 4, instruction: Instruction::Ora, mode: AddressMode::AbsoluteIndexedY },
        0x1A => OpCode { op: 0x1A, len: 1, cycles: 2, instruction: Instruction::Inc, mode: AddressMode::Accumulator },
        0x1B => OpCode { op: 0x1B, len: 1, cycles: 2, instruction: Instruction::Tcs, mode: AddressMode::Implied },
        0x1C => OpCode { op: 0x1C, len: 3, cycles: 6, instruction: Instruction::Trb, mode: AddressMode::Absolute(0x1C) },
        0x1D => OpCode { op: 0x1D, len: 3, cycles: 4, instruction: Instruction::Ora, mode: AddressMode::AbsoluteIndexedX },
        0x1E => OpCode { op: 0x1E, len: 3, cycles: 7, instruction: Instruction::Asl, mode: AddressMode::AbsoluteIndexedX },
        0x1F => OpCode { op: 0x1F, len: 4, cycles: 5, instruction: Instruction::Ora, mode: AddressMode::AbsoluteLongIndexedX },
        0x20 => OpCode { op: 0x20, len: 3, cycles: 6, instruction: Instruction::Jsr, mode: AddressMode::Absolute(0x20) },
        0x21 => OpCode { op: 0x21, len: 2, cycles: 6, instruction: Instruction::And, mode: AddressMode::DirectIndexedIndirect },
        0x22 => OpCode { op: 0x22, len: 4, cycles: 8, instruction: Instruction::Jsl, mode: AddressMode::AbsoluteLong },
        0x23 => OpCode { op: 0x23, len: 2, cycles: 4, instruction: Instruction::And, mode: AddressMode::StackRelative },
        0x24 => OpCode { op: 0x24, len: 2, cycles: 3, instruction: Instruction::Bit, mode: AddressMode::Direct(0x24) },
        0x25 => OpCode { op: 0x25, len: 2, cycles: 3, instruction: Instruction::And, mode: AddressMode::Direct(0x25) },
        0x26 => OpCode { op: 0x26, len: 2, cycles: 5, instruction: Instruction::Rol, mode: AddressMode::Direct(0x26) },
        0x27 => OpCode { op: 0x27, len: 2, cycles: 6, instruction: Instruction::And, mode: AddressMode::DirectIndirectLong },
        0x28 => OpCode { op: 0x28, len: 1, cycles: 4, instruction: Instruction::Plp, mode: AddressMode::Implied },
        0x29 => OpCode { op: 0x29, len: 2, cycles: 2, instruction: Instruction::And, mode: AddressMode::Immediate },
        0x2A => OpCode { op: 0x2A, len: 1, cycles: 2, instruction: Instruction::Rol, mode: AddressMode::Accumulator },
        0x2B => OpCode { op: 0x2B, len: 1, cycles: 5, instruction: Instruction::Pld, mode: AddressMode::Implied },
        0x2C => OpCode { op: 0x2C, len: 3, cycles: 4, instruction: Instruction::Bit, mode: AddressMode::Absolute(0x2C) },
        0x2D => OpCode { op: 0x2D, len: 3, cycles: 4, instruction: Instruction::And, mode: AddressMode::Absolute(0x2D) },
        0x2E => OpCode { op: 0x2E, len: 3, cycles: 6, instruction: Instruction::Rol, mode: AddressMode::Absolute(0x2E) },
        0x2F => OpCode { op: 0x2F, len: 4, cycles: 5, instruction: Instruction::And, mode: AddressMode::AbsoluteLong },
        0x30 => OpCode { op: 0x30, len: 2, cycles: 2, instruction: Instruction::Bmi, mode: AddressMode::Relative8 },
        0x31 => OpCode { op: 0x31, len: 2, cycles: 5, instruction: Instruction::And, mode: AddressMode::DirectIndirectIndexed },
        0x32 => OpCode { op: 0x32, len: 2, cycles: 5, instruction: Instruction::And, mode: AddressMode::DirectIndirect },
        0x33 => OpCode { op: 0x33, len: 2, cycles: 7, instruction: Instruction::And, mode: AddressMode::StackRelativeIndirectIndexed },
        0x34 => OpCode { op: 0x34, len: 2, cycles: 4, instruction: Instruction::Bit, mode: AddressMode::DirectIndexedX },
        0x35 => OpCode { op: 0x35, len: 2, cycles: 4, instruction: Instruction::And, mode: AddressMode::DirectIndexedX },
        0x36 => OpCode { op: 0x36, len: 2, cycles: 6, instruction: Instruction::Rol, mode: AddressMode::DirectIndexedX },
        0x37 => OpCode { op: 0x37, len: 2, cycles: 6, instruction: Instruction::And, mode: AddressMode::DirectIndirectIndexedLong },
        0x38 => OpCode { op: 0x38, len: 1, cycles: 2, instruction: Instruction::Sec, mode: AddressMode::Implied },
        0x39 => OpCode { op: 0x39, len: 3, cycles: 4, instruction: Instruction::And, mode: AddressMode::AbsoluteIndexedY },
        0x3A => OpCode { op: 0x3A, len: 1, cycles: 2, instruction: Instruction::Dec, mode: AddressMode::Accumulator },
        0x3B => OpCode { op: 0x3B, len: 1, cycles: 2, instruction: Instruction::Tsc, mode: AddressMode::Implied },
        0x3C => OpCode { op: 0x3C, len: 3, cycles: 4, instruction: Instruction::Bit, mode: AddressMode::AbsoluteIndexedX },
        0x3D => OpCode { op: 0x3D, len: 3, cycles: 4, instruction: Instruction::And, mode: AddressMode::AbsoluteIndexedX },
        0x3E => OpCode { op: 0x3E, len: 3, cycles: 7, instruction: Instruction::Rol, mode: AddressMode::AbsoluteIndexedX },
        0x3F => OpCode { op: 0x3F, len: 4, cycles: 5, instruction: Instruction::And, mode: AddressMode::AbsoluteLongIndexedX },
        0x40 => OpCode { op: 0x40, len: 1, cycles: 7, instruction: Instruction::Rti, mode: AddressMode::Implied },
        0x41 => OpCode { op: 0x41, len: 2, cycles: 6, instruction: Instruction::Eor, mode: AddressMode::DirectIndexedIndirect },
        0x42 => OpCode { op: 0x42, len: 2, cycles: 2, instruction: Instruction::Wdm, mode: AddressMode::Immediate },
        0x43 => OpCode { op: 0x43, len: 2, cycles: 4, instruction: Instruction::Eor, mode: AddressMode::StackRelative },
        0x44 => OpCode { op: 0x44, len: 3, cycles: 7, instruction: Instruction::Mvp, mode: AddressMode::SourceDestination },
        0x45 => OpCode { op: 0x45, len: 2, cycles: 3, instruction: Instruction::Eor, mode: AddressMode::Direct(0x45) },
        0x46 => OpCode { op: 0x46, len: 2, cycles: 5, instruction: Instruction::Lsr, mode: AddressMode::Direct(0x46) },
        0x47 => OpCode { op: 0x47, len: 2, cycles: 6, instruction: Instruction::Eor, mode: AddressMode::DirectIndirectLong },
        0x48 => OpCode { op: 0x48, len: 1, cycles: 3, instruction: Instruction::Pha, mode: AddressMode::Implied },
        0x49 => OpCode { op: 0x49, len: 2, cycles: 2, instruction: Instruction::Eor, mode: AddressMode::Immediate },
        0x4A => OpCode { op: 0x4A, len: 1, cycles: 2, instruction: Instruction::Lsr, mode: AddressMode::Accumulator },
        0x4B => OpCode { op: 0x4B, len: 1, cycles: 3, instruction: Instruction::Phk, mode: AddressMode::Implied },
        0x4C => OpCode { op: 0x4C, len: 3, cycles: 3, instruction: Instruction::Jmp, mode: AddressMode::Absolute(0x4C) },
        0x4D => OpCode { op: 0x4D, len: 3, cycles: 4, instruction: Instruction::Eor, mode: AddressMode::Absolute(0x4D) },
        0x4E => OpCode { op: 0x4E, len: 3, cycles: 6, instruction: Instruction::Lsr, mode: AddressMode::Absolute(0x4E) },
        0x4F => OpCode { op: 0x4F, len: 4, cycles: 5, instruction: Instruction::Eor, mode: AddressMode::AbsoluteLong },
        0x50 => OpCode { op: 0x50, len: 2, cycles: 2, instruction: Instruction::Bvc, mode: AddressMode::Relative8 },
        0x51 => OpCode { op: 0x51, len: 2, cycles: 5, instruction: Instruction::Eor, mode: AddressMode::DirectIndirectIndexed },
        0x52 => OpCode { op: 0x52, len: 2, cycles: 5, instruction: Instruction::Eor, mode: AddressMode::DirectIndirect },
        0x53 => OpCode { op: 0x53, len: 2, cycles: 7, instruction: Instruction::Eor, mode: AddressMode::StackRelativeIndirectIndexed },
        0x54 => OpCode { op: 0x54, len: 3, cycles: 7, instruction: Instruction::Mvn, mode: AddressMode::SourceDestination },
        0x55 => OpCode { op: 0x55, len: 2, cycles: 4, instruction: Instruction::Eor, mode: AddressMode::DirectIndexedX },
        0x56 => OpCode { op: 0x56, len: 2, cycles: 6, instruction: Instruction::Lsr, mode: AddressMode::DirectIndexedX },
        0x57 => OpCode { op: 0x57, len: 2, cycles: 6, instruction: Instruction::Eor, mode: AddressMode::DirectIndirectIndexedLong },
        0x58 => OpCode { op: 0x58, len: 1, cycles: 2, instruction: Instruction::Cli, mode: AddressMode::Implied },
        0x59 => OpCode { op: 0x59, len: 3, cycles: 4, instruction: Instruction::Eor, mode: AddressMode::AbsoluteIndexedY },
        0x5A => OpCode { op: 0x5A, len: 1, cycles: 3, instruction: Instruction::Phy, mode: AddressMode::Implied },
        0x5B => OpCode { op: 0x5B, len: 1, cycles: 2, instruction: Instruction::Tcd, mode: AddressMode::Implied },
        0x5C => OpCode { op: 0x5C, len: 4, cycles: 4, instruction: Instruction::Jmp, mode: AddressMode::AbsoluteLong },
        0x5D => OpCode { op: 0x5D, len: 3, cycles: 4, instruction: Instruction::Eor, mode: AddressMode::AbsoluteIndexedX },
        0x5E => OpCode { op: 0x5E, len: 3, cycles: 7, instruction: Instruction::Lsr, mode: AddressMode::AbsoluteIndexedX },
        0x5F => OpCode { op: 0x5F, len: 4, cycles: 5, instruction: Instruction::Eor, mode: AddressMode::AbsoluteLongIndexedX },
        0x60 => OpCode { op: 0x60, len: 1, cycles: 6, instruction: Instruction::Rts, mode: AddressMode::Implied },
        0x61 => OpCode { op: 0x61, len: 2, cycles: 6, instruction: Instruction::Adc, mode: AddressMode::DirectIndexedIndirect },
        0x62 => OpCode { op: 0x62, len: 3, cycles: 6, instruction: Instruction::Per, mode: AddressMode::Relative16 },
        0x63 => OpCode { op: 0x63, len: 2, cycles: 4, instruction: Instruction::Adc, mode: AddressMode::StackRelative },
        0x64 => OpCode { op: 0x64, len: 2, cycles: 3, instruction: Instruction::Stz, mode: AddressMode::Direct(0x64) },
        0x65 => OpCode { op: 0x65, len: 2, cycles: 3, instruction: Instruction::Adc, mode: AddressMode::Direct(0x65) },
        0x66 => OpCode { op: 0x66, len: 2, cycles: 5, instruction: Instruction::Ror, mode: AddressMode::Direct(0x66) },
        0x67 => OpCode { op: 0x67, len: 2, cycles: 6, instruction: Instruction::Adc, mode: AddressMode::DirectIndirectLong },
        0x68 => OpCode { op: 0x68, len: 1, cycles: 4, instruction: Instruction::Pla, mode: AddressMode::Implied },
        0x69 => OpCode { op: 0x69, len: 2, cycles: 2, instruction: Instruction::Adc, mode: AddressMode::Immediate },
        0x6A => OpCode { op: 0x6A, len: 1, cycles: 2, instruction: Instruction::Ror, mode: AddressMode::Accumulator },
        0x6B => OpCode { op: 0x6B, len: 1, cycles: 6, instruction: Instruction::Rtl, mode: AddressMode::Implied },
        0x6C => OpCode { op: 0x6C, len: 3, cycles: 5, instruction: Instruction::Jmp, mode: AddressMode::AbsoluteIndirect },
        0x6D => OpCode { op: 0x6D, len: 3, cycles: 4, instruction: Instruction::Adc, mode: AddressMode::Absolute(0x6D) },
        0x6E => OpCode { op: 0x6E, len: 3, cycles: 6, instruction: Instruction::Ror, mode: AddressMode::Absolute(0x6E) },
        0x6F => OpCode { op: 0x6F, len: 4, cycles: 5, instruction: Instruction::Adc, mode: AddressMode::AbsoluteLong },
        0x70 => OpCode { op: 0x70, len: 2, cycles: 2, instruction: Instruction::Bvs, mode: AddressMode::Relative8 },
        0x71 => OpCode { op: 0x71, len: 2, cycles: 5, instruction: Instruction::Adc, mode: AddressMode::DirectIndirectIndexed },
        0x72 => OpCode { op: 0x72, len: 2, cycles: 5, instruction: Instruction::Adc, mode: AddressMode::DirectIndirect },
        0x73 => OpCode { op: 0x73, len: 2, cycles: 7, instruction: Instruction::Adc, mode: AddressMode::StackRelativeIndirectIndexed },
        0x74 => OpCode { op: 0x74, len: 2, cycles: 4, instruction: Instruction::Stz, mode: AddressMode::DirectIndexedX },
        0x75 => OpCode { op: 0x75, len: 2, cycles: 4, instruction: Instruction::Adc, mode: AddressMode::DirectIndexedX },
        0x76 => OpCode { op: 0x76, len: 2, cycles: 6, instruction: Instruction::Ror, mode: AddressMode::DirectIndexedX },
        0x77 => OpCode { op: 0x77, len: 2, cycles: 6, instruction: Instruction::Adc, mode: AddressMode::DirectIndirectIndexedLong },
        0x78 => OpCode { op: 0x78, len: 1, cycles: 2, instruction: Instruction::Sei, mode: AddressMode::Implied },
        0x79 => OpCode { op: 0x79, len: 3, cycles: 4, instruction: Instruction::Adc, mode: AddressMode::AbsoluteIndexedY },
        0x7A => OpCode { op: 0x7A, len: 1, cycles: 4, instruction: Instruction::Ply, mode: AddressMode::Implied },
        0x7B => OpCode { op: 0x7B, len: 1, cycles: 2, instruction: Instruction::Tdc, mode: AddressMode::Implied },
        0x7C => OpCode { op: 0x7C, len: 3, cycles: 6, instruction: Instruction::Jmp, mode: AddressMode::AbsoluteIndexedIndirect },
        0x7D => OpCode { op: 0x7D, len: 3, cycles: 4, instruction: Instruction::Adc, mode: AddressMode::AbsoluteIndexedX },
        0x7E => OpCode { op: 0x7E, len: 3, cycles: 7, instruction: Instruction::Ror, mode: AddressMode::AbsoluteIndexedX },
        0x7F => OpCode { op: 0x7F, len: 4, cycles: 5, instruction: Instruction::Adc, mode: AddressMode::AbsoluteLongIndexedX },
        0x80 => OpCode { op: 0x80, len: 2, cycles: 3, instruction: Instruction::Bra, mode: AddressMode::Relative8 },
        0x81 => OpCode { op: 0x81, len: 2, cycles: 6, instruction: Instruction::Sta, mode: AddressMode::DirectIndexedIndirect },
        0x82 => OpCode { op: 0x82, len: 3, cycles: 4, instruction: Instruction::Brl, mode: AddressMode::Relative16 },
        0x83 => OpCode { op: 0x83, len: 2, cycles: 4, instruction: Instruction::Sta, mode: AddressMode::StackRelative },
        0x84 => OpCode { op: 0x84, len: 2, cycles: 3, instruction: Instruction::Sty, mode: AddressMode::Direct(0x84) },
        0x85 => OpCode { op: 0x85, len: 2, cycles: 3, instruction: Instruction::Sta, mode: AddressMode::Direct(0x85) },
        0x86 => OpCode { op: 0x86, len: 2, cycles: 3, instruction: Instruction::Stx, mode: AddressMode::Direct(0x86) },
        0x87 => OpCode { op: 0x87, len: 2, cycles: 6, instruction: Instruction::Sta, mode: AddressMode::DirectIndirectLong },
        0x88 => OpCode { op: 0x88, len: 1, cycles: 2, instruction: Instruction::Dey, mode: AddressMode::Implied },
        0x89 => OpCode { op: 0x89, len: 2, cycles: 2, instruction: Instruction::Bit, mode: AddressMode::Immediate },
        0x8A => OpCode { op: 0x8A, len: 1, cycles: 2, instruction: Instruction::Txa, mode: AddressMode::Implied },
        0x8B => OpCode { op: 0x8B, len: 1, cycles: 3, instruction: Instruction::Phb, mode: AddressMode::Implied },
        0x8C => OpCode { op: 0x8C, len: 3, cycles: 4, instruction: Instruction::Sty, mode: AddressMode::Absolute(0x8C) },
        0x8D => OpCode { op: 0x8D, len: 3, cycles: 4, instruction: Instruction::Sta, mode: AddressMode::Absolute(0x8D) },
        0x8E => OpCode { op: 0x8E, len: 3, cycles: 4, instruction: Instruction::Stx, mode: AddressMode::Absolute(0x8E) },
        0x8F => OpCode { op: 0x8F, len: 4, cycles: 5, instruction: Instruction::Sta, mode: AddressMode::AbsoluteLong },
        0x90 => OpCode { op: 0x90, len: 2, cycles: 2, instruction: Instruction::Bcc, mode: AddressMode::Relative8 },
        0x91 => OpCode { op: 0x91, len: 2, cycles: 6, instruction: Instruction::Sta, mode: AddressMode::DirectIndirectIndexed },
        0x92 => OpCode { op: 0x92, len: 2, cycles: 5, instruction: Instruction::Sta, mode: AddressMode::DirectIndirect },
        0x93 => OpCode { op: 0x93, len: 2, cycles: 7, instruction: Instruction::Sta, mode: AddressMode::StackRelativeIndirectIndexed },
        0x94 => OpCode { op: 0x94, len: 2, cycles: 4, instruction: Instruction::Sty, mode: AddressMode::DirectIndexedX },
        0x95 => OpCode { op: 0x95, len: 2, cycles: 4, instruction: Instruction::Sta, mode: AddressMode::DirectIndexedX },
        0x96 => OpCode { op: 0x96, len: 2, cycles: 4, instruction: Instruction::Stx, mode: AddressMode::DirectIndexedY },
        0x97 => OpCode { op: 0x97, len: 2, cycles: 6, instruction: Instruction::Sta, mode: AddressMode::DirectIndirectIndexedLong },
        0x98 => OpCode { op: 0x98, len: 1, cycles: 2, instruction: Instruction::Tya, mode: AddressMode::Implied },
        0x99 => OpCode { op: 0x99, len: 3, cycles: 5, instruction: Instruction::Sta, mode: AddressMode::AbsoluteIndexedY },
        0x9A => OpCode { op: 0x9A, len: 1, cycles: 2, instruction: Instruction::Txs, mode: AddressMode::Implied },
        0x9B => OpCode { op: 0x9B, len: 1, cycles: 2, instruction: Instruction::Txy, mode: AddressMode::Implied },
        0x9C => OpCode { op: 0x9C, len: 3, cycles: 4, instruction: Instruction::Stz, mode: AddressMode::Absolute(0x9C) },
        0x9D => OpCode { op: 0x9D, len: 3, cycles: 5, instruction: Instruction::Sta, mode: AddressMode::AbsoluteIndexedX },
        0x9E => OpCode { op: 0x9E, len: 3, cycles: 5, instruction: Instruction::Stz, mode: AddressMode::AbsoluteIndexedX },
        0x9F => OpCode { op: 0x9F, len: 4, cycles: 5, instruction: Instruction::Sta, mode: AddressMode::AbsoluteLongIndexedX },
        0xA0 => OpCode { op: 0xA0, len: 2, cycles: 2, instruction: Instruction::Ldy, mode: AddressMode::Immediate },
        0xA1 => OpCode { op: 0xA1, len: 2, cycles: 6, instruction: Instruction::Lda, mode: AddressMode::DirectIndexedIndirect },
        0xA2 => OpCode { op: 0xA2, len: 2, cycles: 2, instruction: Instruction::Ldx, mode: AddressMode::Immediate },
        0xA3 => OpCode { op: 0xA3, len: 2, cycles: 4, instruction: Instruction::Lda, mode: AddressMode::StackRelative },
        0xA4 => OpCode { op: 0xA4, len: 2, cycles: 3, instruction: Instruction::Ldy, mode: AddressMode::Direct(0xA4) },
        0xA5 => OpCode { op: 0xA5, len: 2, cycles: 3, instruction: Instruction::Lda, mode: AddressMode::Direct(0xA5) },
        0xA6 => OpCode { op: 0xA6, len: 2, cycles: 3, instruction: Instruction::Ldx, mode: AddressMode::Direct(0xA6) },
        0xA7 => OpCode { op: 0xA7, len: 2, cycles: 6, instruction: Instruction::Lda, mode: AddressMode::DirectIndirectLong },
        0xA8 => OpCode { op: 0xA8, len: 1, cycles: 2, instruction: Instruction::Tay, mode: AddressMode::Implied },
        0xA9 => OpCode { op: 0xA9, len: 2, cycles: 2, instruction: Instruction::Lda, mode: AddressMode::Immediate },
        0xAA => OpCode { op: 0xAA, len: 1, cycles: 2, instruction: Instruction::Tax, mode: AddressMode::Implied },
        0xAB => OpCode { op: 0xAB, len: 1, cycles: 4, instruction: Instruction::Plb, mode: AddressMode::Implied },
        0xAC => OpCode { op: 0xAC, len: 3, cycles: 4, instruction: Instruction::Ldy, mode: AddressMode::Absolute(0xAC) },
        0xAD => OpCode { op: 0xAD, len: 3, cycles: 4, instruction: Instruction::Lda, mode: AddressMode::Absolute(0xAD) },
        0xAE => OpCode { op: 0xAE, len: 3, cycles: 4, instruction: Instruction::Ldx, mode: AddressMode::Absolute(0xAE) },
        0xAF => OpCode { op: 0xAF, len: 4, cycles: 5, instruction: Instruction::Lda, mode: AddressMode::AbsoluteLong },
        0xB0 => OpCode { op: 0xB0, len: 2, cycles: 2, instruction: Instruction::Bcs, mode: AddressMode::Relative8 },
        0xB1 => OpCode { op: 0xB1, len: 2, cycles: 5, instruction: Instruction::Lda, mode: AddressMode::DirectIndirectIndexed },
        0xB2 => OpCode { op: 0xB2, len: 2, cycles: 5, instruction: Instruction::Lda, mode: AddressMode::DirectIndirect },
        0xB3 => OpCode { op: 0xB3, len: 2, cycles: 7, instruction: Instruction::Lda, mode: AddressMode::StackRelativeIndirectIndexed },
        0xB4 => OpCode { op: 0xB4, len: 2, cycles: 4, instruction: Instruction::Ldy, mode: AddressMode::DirectIndexedX },
        0xB5 => OpCode { op: 0xB5, len: 2, cycles: 4, instruction: Instruction::Lda, mode: AddressMode::DirectIndexedX },
        0xB6 => OpCode { op: 0xB6, len: 2, cycles: 4, instruction: Instruction::Ldx, mode: AddressMode::DirectIndexedY },
        0xB7 => OpCode { op: 0xB7, len: 2, cycles: 6, instruction: Instruction::Lda, mode: AddressMode::DirectIndirectIndexedLong },
        0xB8 => OpCode { op: 0xB8, len: 1, cycles: 2, instruction: Instruction::Clv, mode: AddressMode::Implied },
        0xB9 => OpCode { op: 0xB9, len: 3, cycles: 4, instruction: Instruction::Lda, mode: AddressMode::AbsoluteIndexedY },
        0xBA => OpCode { op: 0xBA, len: 1, cycles: 2, instruction: Instruction::Tsx, mode: AddressMode::Implied },
        0xBB => OpCode { op: 0xBB, len: 1, cycles: 2, instruction: Instruction::Tyx, mode: AddressMode::Implied },
        0xBC => OpCode { op: 0xBC, len: 3, cycles: 4, instruction: Instruction::Ldy, mode: AddressMode::AbsoluteIndexedX },
        0xBD => OpCode { op: 0xBD, len: 3, cycles: 4, instruction: Instruction::Lda, mode: AddressMode::AbsoluteIndexedX },
        0xBE => OpCode { op: 0xBE, len: 3, cycles: 4, instruction: Instruction::Ldx, mode: AddressMode::AbsoluteIndexedY },
        0xBF => OpCode { op: 0xBF, len: 4, cycles: 5, instruction: Instruction::Lda, mode: AddressMode::AbsoluteLongIndexedX },
        0xC0 => OpCode { op: 0xC0, len: 2, cycles: 2, instruction: Instruction::Cpy, mode: AddressMode::Immediate },
        0xC1 => OpCode { op: 0xC1, len: 2, cycles: 6, instruction: Instruction::Cmp, mode: AddressMode::DirectIndexedIndirect },
        0xC2 => OpCode { op: 0xC2, len: 2, cycles: 3, instruction: Instruction::Rep, mode: AddressMode::Immediate },
        0xC3 => OpCode { op: 0xC3, len: 2, cycles: 4, instruction: Instruction::Cmp, mode: AddressMode::StackRelative },
        0xC4 => OpCode { op: 0xC4, len: 2, cycles: 3, instruction: Instruction::Cpy, mode: AddressMode::Direct(0xC4) },
        0xC5 => OpCode { op: 0xC5, len: 2, cycles: 3, instruction: Instruction::Cmp, mode: AddressMode::Direct(0xC5) },
        0xC6 => OpCode { op: 0xC6, len: 2, cycles: 5, instruction: Instruction::Dec, mode: AddressMode::Direct(0xC6) },
        0xC7 => OpCode { op: 0xC7, len: 2, cycles: 6, instruction: Instruction::Cmp, mode: AddressMode::DirectIndirectLong },
        0xC8 => OpCode { op: 0xC8, len: 1, cycles: 2, instruction: Instruction::Iny, mode: AddressMode::Implied },
        0xC9 => OpCode { op: 0xC9, len: 2, cycles: 2, instruction: Instruction::Cmp, mode: AddressMode::Immediate },
        0xCA => OpCode { op: 0xCA, len: 1, cycles: 2, instruction: Instruction::Dex, mode: AddressMode::Implied },
        0xCB => OpCode { op: 0xCB, len: 1, cycles: 3, instruction: Instruction::Wai, mode: AddressMode::Implied },
        0xCC => OpCode { op: 0xCC, len: 3, cycles: 4, instruction: Instruction::Cpy, mode: AddressMode::Absolute(0xCC) },
        0xCD => OpCode { op: 0xCD, len: 3, cycles: 4, instruction: Instruction::Cmp, mode: AddressMode::Absolute(0xCD) },
        0xCE => OpCode { op: 0xCE, len: 3, cycles: 6, instruction: Instruction::Dec, mode: AddressMode::Absolute(0xCE) },
        0xCF => OpCode { op: 0xCF, len: 4, cycles: 5, instruction: Instruction::Cmp, mode: AddressMode::AbsoluteLong },
        0xD0 => OpCode { op: 0xD0, len: 2, cycles: 2, instruction: Instruction::Bne, mode: AddressMode::Relative8 },
        0xD1 => OpCode { op: 0xD1, len: 2, cycles: 5, instruction: Instruction::Cmp, mode: AddressMode::DirectIndirectIndexed },
        0xD2 => OpCode { op: 0xD2, len: 2, cycles: 5, instruction: Instruction::Cmp, mode: AddressMode::DirectIndirect },
        0xD3 => OpCode { op: 0xD3, len: 2, cycles: 7, instruction: Instruction::Cmp, mode: AddressMode::StackRelativeIndirectIndexed },
        0xD4 => OpCode { op: 0xD4, len: 2, cycles: 6, instruction: Instruction::Pei, mode: AddressMode::Direct(0xD4) },
        0xD5 => OpCode { op: 0xD5, len: 2, cycles: 4, instruction: Instruction::Cmp, mode: AddressMode::DirectIndexedX },
        0xD6 => OpCode { op: 0xD6, len: 2, cycles: 6, instruction: Instruction::Dec, mode: AddressMode::DirectIndexedX },
        0xD7 => OpCode { op: 0xD7, len: 2, cycles: 6, instruction: Instruction::Cmp, mode: AddressMode::DirectIndirectIndexedLong },
        0xD8 => OpCode { op: 0xD8, len: 1, cycles: 2, instruction: Instruction::Cld, mode: AddressMode::Implied },
        0xD9 => OpCode { op: 0xD9, len: 3, cycles: 4, instruction: Instruction::Cmp, mode: AddressMode::AbsoluteIndexedY },
        0xDA => OpCode { op: 0xDA, len: 1, cycles: 3, instruction: Instruction::Phx, mode: AddressMode::Implied },
        0xDB => OpCode { op: 0xDB, len: 1, cycles: 3, instruction: Instruction::Stp, mode: AddressMode::Implied },
        0xDC => OpCode { op: 0xDC, len: 3, cycles: 6, instruction: Instruction::Jmp, mode: AddressMode::AbsoluteIndirectLong },
        0xDD => OpCode { op: 0xDD, len: 3, cycles: 4, instruction: Instruction::Cmp, mode: AddressMode::AbsoluteIndexedX },
        0xDE => OpCode { op: 0xDE, len: 3, cycles: 7, instruction: Instruction::Dec, mode: AddressMode::AbsoluteIndexedX },
        0xDF => OpCode { op: 0xDF, len: 4, cycles: 5, instruction: Instruction::Cmp, mode: AddressMode::AbsoluteLongIndexedX },
        0xE0 => OpCode { op: 0xE0, len: 2, cycles: 2, instruction: Instruction::Cpx, mode: AddressMode::Immediate },
        0xE1 => OpCode { op: 0xE1, len: 2, cycles: 6, instruction: Instruction::Sbc, mode: AddressMode::DirectIndexedIndirect },
        0xE2 => OpCode { op: 0xE2, len: 2, cycles: 3, instruction: Instruction::Sep, mode: AddressMode::Immediate },
        0xE3 => OpCode { op: 0xE3, len: 2, cycles: 4, instruction: Instruction::Sbc, mode: AddressMode::StackRelative },
        0xE4 => OpCode { op: 0xE4, len: 2, cycles: 3, instruction: Instruction::Cpx, mode: AddressMode::Direct(0xE4) },
        0xE5 => OpCode { op: 0xE5, len: 2, cycles: 3, instruction: Instruction::Sbc, mode: AddressMode::Direct(0xE5) },
        0xE6 => OpCode { op: 0xE6, len: 2, cycles: 5, instruction: Instruction::Inc, mode: AddressMode::Direct(0xE6) },
        0xE7 => OpCode { op: 0xE7, len: 2, cycles: 6, instruction: Instruction::Sbc, mode: AddressMode::DirectIndirectLong },
        0xE8 => OpCode { op: 0xE8, len: 1, cycles: 2, instruction: Instruction::Inx, mode: AddressMode::Implied },
        0xE9 => OpCode { op: 0xE9, len: 2, cycles: 2, instruction: Instruction::Sbc, mode: AddressMode::Immediate },
        0xEA => OpCode { op: 0xEA, len: 1, cycles: 2, instruction: Instruction::Nop, mode: AddressMode::Implied },
        0xEB => OpCode { op: 0xEB, len: 1, cycles: 3, instruction: Instruction::Xba, mode: AddressMode::Implied },
        0xEC => OpCode { op: 0xEC, len: 3, cycles: 4, instruction: Instruction::Cpx, mode: AddressMode::Absolute(0xEC) },
        0xED => OpCode { op: 0xED, len: 3, cycles: 4, instruction: Instruction::Sbc, mode: AddressMode::Absolute(0xED) },
        0xEE => OpCode { op: 0xEE, len: 3, cycles: 6, instruction: Instruction::Inc, mode: AddressMode::Absolute(0xEE) },
        0xEF => OpCode { op: 0xEF, len: 4, cycles: 5, instruction: Instruction::Sbc, mode: AddressMode::AbsoluteLong },
        0xF0 => OpCode { op: 0xF0, len: 2, cycles: 2, instruction: Instruction::Beq, mode: AddressMode::Relative8 },
        0xF1 => OpCode { op: 0xF1, len: 2, cycles: 5, instruction: Instruction::Sbc, mode: AddressMode::DirectIndirectIndexed },
        0xF2 => OpCode { op: 0xF2, len: 2, cycles: 5, instruction: Instruction::Sbc, mode: AddressMode::DirectIndirect },
        0xF3 => OpCode { op: 0xF3, len: 2, cycles: 7, instruction: Instruction::Sbc, mode: AddressMode::StackRelativeIndirectIndexed },
        0xF4 => OpCode { op: 0xF4, len: 3, cycles: 5, instruction: Instruction::Pea, mode: AddressMode::Immediate },
        0xF5 => OpCode { op: 0xF5, len: 2, cycles: 4, instruction: Instruction::Sbc, mode: AddressMode::DirectIndexedX },
        0xF6 => OpCode { op: 0xF6, len: 2, cycles: 6, instruction: Instruction::Inc, mode: AddressMode::DirectIndexedX },
        0xF7 => OpCode { op: 0xF7, len: 2, cycles: 6, instruction: Instruction::Sbc, mode: AddressMode::DirectIndirectIndexedLong },
        0xF8 => OpCode { op: 0xF8, len: 1, cycles: 2, instruction: Instruction::Sed, mode: AddressMode::Implied },
        0xF9 => OpCode { op: 0xF9, len: 3, cycles: 4, instruction: Instruction::Sbc, mode: AddressMode::AbsoluteIndexedY },
        0xFA => OpCode { op: 0xFA, len: 1, cycles: 4, instruction: Instruction::Plx, mode: AddressMode::Implied },
        0xFB => OpCode { op: 0xFB, len: 1, cycles: 2, instruction: Instruction::Xce, mode: AddressMode::Implied },
        0xFC => OpCode { op: 0xFC, len: 3, cycles: 8, instruction: Instruction::Jsr, mode: AddressMode::AbsoluteIndexedIndirect },
        0xFD => OpCode { op: 0xFD, len: 3, cycles: 4, instruction: Instruction::Sbc, mode: AddressMode::AbsoluteIndexedX },
        0xFE => OpCode { op: 0xFE, len: 3, cycles: 7, instruction: Instruction::Inc, mode: AddressMode::AbsoluteIndexedX },
        _ => OpCode { op: 0xFF, len: 4, cycles: 5, instruction: Instruction::Sbc, mode: AddressMode::AbsoluteLongIndexedX },
    }
}

fn decode_row_0(op: u8) -> (r: OpCode)
    requires
        0x00 <= op <= 0x0F,
    ensures
        r == opcode_table(op),
        r.fits(),
        r.cycles <= 8,
{
    match op {
        0x00 => OpCode::new(0x00, 2, 8, Instruction::Brk, AddressMode::Immediate),
        0x01 => OpCode::new(0x01, 2, 6, Instruction::Ora, AddressMode::DirectIndexedIndirect),
        0x02 => OpCode::new(0x02, 2, 8, Instruction::Cop, AddressMode::Immediate),
        0x03 => OpCode::new(0x03, 2, 4, Instruction::Ora, AddressMode::StackRelative),
        0x04 => OpCode::new(0x04, 2, 5, Instruction::Tsb, AddressMode::Direct(0x04)),
        0x05 => OpCode::new(0x05, 2, 3, Instruction::Ora, AddressMode::Direct(0x05)),
        0x06 => OpCode::new(0x06, 2, 5, Instruction::Asl, AddressMode::Direct(0x06)),
        0x07 => OpCode::new(0x07, 2, 6, Instruction::Ora, AddressMode::DirectIndirectLong),
        0x08 => OpCode::new(0x08, 1, 3, Instruction::Php, AddressMode::Implied),
        0x09 => OpCode::new(0x09, 2, 2, Instruction::Ora, AddressMode::Immediate),
        0x0A => OpCode::new(0x0A, 1, 2, Instruction::Asl, AddressMode::Accumulator),
        0x0B => OpCode::new(0x0B, 1, 4, Instruction::Phd, AddressMode::Implied),
        0x0C => OpCode::new(0x0C, 3, 6, Instruction::Tsb, AddressMode::Absolute(0x0C)),
        0x0D => OpCode::new(0x0D, 3, 4, Instruction::Ora, AddressMode::Absolute(0x0D)),
        0x0E => OpCode::new(0x0E, 3, 6, Instruction::Asl, AddressMode::Absolute(0x0E)),
        _ => OpCode::new(0x0F, 4, 5, Instruction::Ora, AddressMode::AbsoluteLong),
    }
}

fn decode_row_1(op: u8) -> (r: OpCode)
    requires
        0x10 <= op <= 0x1F,
    ensures
        r == opcode_table(op),
        r.fits(),
        r.cycles <= 8,
{
    match op {
        0x10 => OpCode::new(0x10, 2, 2, Instruction::Bpl, AddressMode::Relative8),
        0x11 => OpCode::new(0x11, 2, 5, Instruction::Ora, AddressMode::DirectIndirectIndexed),
        0x12 => OpCode::new(0x12, 2, 5, Instruction::Ora, AddressMode::DirectIndirect),
        0x13 => OpCode::new(0x13, 2, 7, Instruction::Ora, AddressMode::StackRelativeIndirectIndexed),
        0x14 => OpCode::new(0x14, 2, 5, Instruction::Trb, AddressMode::Direct(0x14)),
        0x15 => OpCode::new(0x15, 2, 4, Instruction::Ora, AddressMode::DirectIndexedX),
        0x16 => OpCode::new(0x16, 2, 6, Instruction::Asl, AddressMode::DirectIndexedX),
        0x17 => OpCode::new(0x17, 2, 6, Instruction::Ora, AddressMode::DirectIndirectIndexedLong),
        0x18 => OpCode::new(0x18, 1, 2, Instruction::Clc, AddressMode::Implied),
        0x19 => OpCode::new(0x19, 3, 4, Instruction::Ora, AddressMode::AbsoluteIndexedY),
        0x1A => OpCode::new(0x1A, 1, 2, Instruction::Inc, AddressMode::Accumulator),
        0x1B => OpCode::new(0x1B, 1, 2, Instruction::Tcs, AddressMode::Implied),
        0x1C => OpCode::new(0x1C, 3, 6, Instruction::Trb, AddressMode::Absolute(0x1C)),
        0x1D => OpCode::new(0x1D, 3, 4, Instruction::Ora, AddressMode::AbsoluteIndexedX),
        0x1E => OpCode::new(0x1E, 3, 7, Instruction::Asl, AddressMode::AbsoluteIndexedX),
        _ => OpCode::new(0x1F, 4, 5, Instruction::Ora, AddressMode::AbsoluteLongIndexedX),
    }
}

fn decode_row_2(op: u8) -> (r: OpCode)
    requires
        0x20 <= op <= 0x2F,
    ensures
        r == opcode_table(op),
        r.fits(),
        r.cycles <= 8,
{
    match op {
        0x20 => OpCode::new(0x20, 3, 6, Instruction::Jsr, AddressMode::Absolute(0x20)),
        0x21 => OpCode::new(0x21, 2, 6, Instruction::And, AddressMode::DirectIndexedIndirect),
        0x22 => OpCode::new(0x22, 4, 8, Instruction::Jsl, AddressMode::AbsoluteLong),
        0x23 => OpCode::new(0x23, 2, 4, Instruction::And, AddressMode::StackRelative),
        0x24 => OpCode::new(0x24, 2, 3, Instruction::Bit, AddressMode::Direct(0x24)),
        0x25 => OpCode::new(0x25, 2, 3, Instruction::And, AddressMode::Direct(0x25)),
        0x26 => OpCode::new(0x26, 2, 5, Instruction::Rol, AddressMode::Direct(0x26)),
        0x27 => OpCode::new(0x27, 2, 6, Instruction::And, AddressMode::DirectIndirectLong),
        0x28 => OpCode::new(0x28, 1, 4, Instruction::Plp, AddressMode::Implied),
        0x29 => OpCode::new(0x29, 2, 2, Instruction::And, AddressMode::Immediate),
        0x2A => OpCode::new(0x2A, 1, 2, Instruction::Rol, AddressMode::Accumulator),
        0x2B => OpCode::new(0x2B, 1, 5, Instruction::Pld, AddressMode::Implied),
        0x2C => OpCode::new(0x2C, 3, 4, Instruction::Bit, AddressMode::Absolute(0x2C)),
        0x2D => OpCode::new(0x2D, 3, 4, Instruction::And, AddressMode::Absolute(0x2D)),
        0x2E => OpCode::new(0x2E, 3, 6, Instruction::Rol, AddressMode::Absolute(0x2E)),
        _ => OpCode::new(0x2F, 4, 5, Instruction::And, AddressMode::AbsoluteLong),
    }
}

fn decode_row_3(op: u8) -> (r: OpCode)
    requires
        0x30 <= op <= 0x3F,
    ensures
        r == opcode_table(op),
        r.fits(),
        r.cycles <= 8,
{
    match op {
        0x30 => OpCode::new(0x30, 2, 2, Instruction::Bmi, AddressMode::Relative8),
        0x31 => OpCode::new(0x31, 2, 5, Instruction::And, AddressMode::DirectIndirectIndexed),
        0x32 => OpCode::new(0x32, 2, 5, Instruction::And, AddressMode::DirectIndirect),
        0x33 => OpCode::new(0x33, 2, 7, Instruction::And, AddressMode::StackRelativeIndirectIndexed),
        0x34 => OpCode::new(0x34, 2, 4, Instruction::Bit, AddressMode::DirectIndexedX),
        0x35 => OpCode::new(0x35, 2, 4, Instruction::And, AddressMode::DirectIndexedX),
        0x36 => OpCode::new(0x36, 2, 6, Instruction::Rol, AddressMode::DirectIndexedX),
        0x37 => OpCode::new(0x37, 2, 6, Instruction::And, AddressMode::DirectIndirectIndexedLong),
        0x38 => OpCode::new(0x38, 1, 2, Instruction::Sec, AddressMode::Implied),
        0x39 => OpCode::new(0x39, 3, 4, Instruction::And, AddressMode::AbsoluteIndexedY),
        0x3A => OpCode::new(0x3A, 1, 2, Instruction::Dec, AddressMode::Accumulator),
        0x3B => OpCode::new(0x3B, 1, 2, Instruction::Tsc, AddressMode::Implied),
        0x3C => OpCode::new(0x3C, 3, 4, Instruction::Bit, AddressMode::AbsoluteIndexedX),
        0x3D => OpCode::new(0x3D, 3, 4, Instruction::And, AddressMode::AbsoluteIndexedX),
        0x3E => OpCode::new(0x3E, 3, 7, Instruction::Rol, AddressMode::AbsoluteIndexedX),
        _ => OpCode::new(0x3F, 4, 5, Instruction::And, AddressMode::AbsoluteLongIndexedX),
    }
}

fn decode_row_4(op: u8) -> (r: OpCode)
    requires
        0x40 <= op <= 0x4F,
    ensures
        r == opcode_table(op),
        r.fits(),
        r.cycles <= 8,
{
    match op {
        0x40 => OpCode::new(0x40, 1, 7, Instruction::Rti, AddressMode::Implied),
        0x41 => OpCode::new(0x41, 2, 6, Instruction::Eor, AddressMode::DirectIndexedIndirect),
        0x42 => OpCode::new(0x42, 2, 2, Instruction::Wdm, AddressMode::Immediate),
        0x43 => OpCode::new(0x43, 2, 4, Instruction::Eor, AddressMode::StackRelative),
        0x44 => OpCode::new(0x44, 3, 7, Instruction::Mvp, AddressMode::SourceDestination),
        0x45 => OpCode::new(0x45, 2, 3, Instruction::Eor, AddressMode::Direct(0x45)),
        0x46 => OpCode::new(0x46, 2, 5, Instruction::Lsr, AddressMode::Direct(0x46)),
        0x47 => OpCode::new(0x47, 2, 6, Instruction::Eor, AddressMode::DirectIndirectLong),
        0x48 => OpCode::new(0x48, 1, 3, Instruction::Pha, AddressMode::Implied),
        0x49 => OpCode::new(0x49, 2, 2, Instruction::Eor, AddressMode::Immediate),
        0x4A => OpCode::new(0x4A, 1, 2, Instruction::Lsr, AddressMode::Accumulator),
        0x4B => OpCode::new(0x4B, 1, 3, Instruction::Phk, AddressMode::Implied),
        0x4C => OpCode::new(0x4C, 3, 3, Instruction::Jmp, AddressMode::Absolute(0x4C)),
        0x4D => OpCode::new(0x4D, 3, 4, Instruction::Eor, AddressMode::Absolute(0x4D)),
        0x4E => OpCode::new(0x4E, 3, 6, Instruction::Lsr, AddressMode::Absolute(0x4E)),
        _ => OpCode::new(0x4F, 4, 5, Instruction::Eor, AddressMode::AbsoluteLong),
    }
}

fn decode_row_5(op: u8) -> (r: OpCode)
    requires
        0x50 <= op <= 0x5F,
    ensures
        r == opcode_table(op),
        r.fits(),
        r.cycles <= 8,
{
    match op {
        0x50 => OpCode::new(0x50, 2, 2, Instruction::Bvc, AddressMode::Relative8),
        0x51 => OpCode::new(0x51, 2, 5, Instruction::Eor, AddressMode::DirectIndirectIndexed),
        0x52 => OpCode::new(0x52, 2, 5, Instruction::Eor, AddressMode::DirectIndirect),
        0x53 => OpCode::new(0x53, 2, 7, Instruction::Eor, AddressMode::StackRelativeIndirectIndexed),
        0x54 => OpCode::new(0x54, 3, 7, Instruction::Mvn, AddressMode::SourceDestination),
        0x55 => OpCode::new(0x55, 2, 4, Instruction::Eor, AddressMode::DirectIndexedX),
        0x56 => OpCode::new(0x56, 2, 6, Instruction::Lsr, AddressMode::DirectIndexedX),
        0x57 => OpCode::new(0x57, 2, 6, Instruction::Eor, AddressMode::DirectIndirectIndexedLong),
        0x58 => OpCode::new(0x58, 1, 2, Instruction::Cli, AddressMode::Implied),
        0x59 => OpCode::new(0x59, 3, 4, Instruction::Eor, AddressMode::AbsoluteIndexedY),
        0x5A => OpCode::new(0x5A, 1, 3, Instruction::Phy, AddressMode::Implied),
        0x5B => OpCode::new(0x5B, 1, 2, Instruction::Tcd, AddressMode::Implied),
        0x5C => OpCode::new(0x5C, 4, 4, Instruction::Jmp, AddressMode::AbsoluteLong),
        0x5D => OpCode::new(0x5D, 3, 4, Instruction::Eor, AddressMode::AbsoluteIndexedX),
        0x5E => OpCode::new(0x5E, 3, 7, Instruction::Lsr, AddressMode::AbsoluteIndexedX),
        _ => OpCode::new(0x5F, 4, 5, Instruction::Eor, AddressMode::AbsoluteLongIndexedX),
    }
}

fn decode_row_6(op: u8) -> (r: OpCode)
    requires
        0x60 <= op <= 0x6F,
    ensures
        r == opcode_table(op),
        r.fits(),
        r.cycles <= 8,
{
    match op {
        0x60 => OpCode::new(0x60, 1, 6, Instruction::Rts, AddressMode::Implied),
        0x61 => OpCode::new(0x61, 2, 6, Instruction::Adc, AddressMode::DirectIndexedIndirect),
        0x62 => OpCode::new(0x62, 3, 6, Instruction::Per, AddressMode::Relative16),
        0x63 => OpCode::new(0x63, 2, 4, Instruction::Adc, AddressMode::StackRelative),
        0x64 => OpCode::new(0x64, 2, 3, Instruction::Stz, AddressMode::Direct(0x64)),
        0x65 => OpCode::new(0x65, 2, 3, Instruction::Adc, AddressMode::Direct(0x65)),
        0x66 => OpCode::new(0x66, 2, 5, Instruction::Ror, AddressMode::Direct(0x66)),
        0x67 => OpCode::new(0x67, 2, 6, Instruction::Adc, AddressMode::DirectIndirectLong),
        0x68 => OpCode::new(0x68, 1, 4, Instruction::Pla, AddressMode::Implied),
        0x69 => OpCode::new(0x69, 2, 2, Instruction::Adc, AddressMode::Immediate),
        0x6A => OpCode::new(0x6A, 1, 2, Instruction::Ror, AddressMode::Accumulator),
        0x6B => OpCode::new(0x6B, 1, 6, Instruction::Rtl, AddressMode::Implied),
        0x6C => OpCode::new(0x6C, 3, 5, Instruction::Jmp, AddressMode::AbsoluteIndirect),
        0x6D => OpCode::new(0x6D, 3, 4, Instruction::Adc, AddressMode::Absolute(0x6D)),
        0x6E => OpCode::new(0x6E, 3, 6, Instruction::Ror, AddressMode::Absolute(0x6E)),
        _ => OpCode::new(0x6F, 4, 5, Instruction::Adc, AddressMode::AbsoluteLong),
    }
}

fn decode_row_7(op: u8) -> (r: OpCode)
    requires
        0x70 <= op <= 0x7F,
    ensures
        r == opcode_table(op),
        r.fits(),
        r.cycles <= 8,
{
    match op {
        0x70 => OpCode::new(0x70, 2, 2, Instruction::Bvs, AddressMode::Relative8),
        0x71 => OpCode::new(0x71, 2, 5, Instruction::Adc, AddressMode::DirectIndirectIndexed),
        0x72 => OpCode::new(0x72, 2, 5, Instruction::Adc, AddressMode::DirectIndirect),
        0x73 => OpCode::new(0x73, 2, 7, Instruction::Adc, AddressMode::StackRelativeIndirectIndexed),
        0x74 => OpCode::new(0x74, 2, 4, Instruction::Stz, AddressMode::DirectIndexedX),
        0x75 => OpCode::new(0x75, 2, 4, Instruction::Adc, AddressMode::DirectIndexedX),
        0x76 => OpCode::new(0x76, 2, 6, Instruction::Ror, AddressMode::DirectIndexedX),
        0x77 => OpCode::new(0x77, 2, 6, Instruction::Adc, AddressMode::DirectIndirectIndexedLong),
        0x78 => OpCode::new(0x78, 1, 2, Instruction::Sei, AddressMode::Implied),
        0x79 => OpCode::new(0x79, 3, 4, Instruction::Adc, AddressMode::AbsoluteIndexedY),
        0x7A => OpCode::new(0x7A, 1, 4, Instruction::Ply, AddressMode::Implied),
        0x7B => OpCode::new(0x7B, 1, 2, Instruction::Tdc, AddressMode::Implied),
        0x7C => OpCode::new(0x7C, 3, 6, Instruction::Jmp, AddressMode::AbsoluteIndexedIndirect),
        0x7D => OpCode::new(0x7D, 3, 4, Instruction::Adc, AddressMode::AbsoluteIndexedX),
        0x7E => OpCode::new(0x7E, 3, 7, Instruction::Ror, AddressMode::AbsoluteIndexedX),
        _ => OpCode::new(0x7F, 4, 5, Instruction::Adc, AddressMode::AbsoluteLongIndexedX),
    }
}

fn decode_row_8(op: u8) -> (r: OpCode)
    requires
        0x80 <= op <= 0x8F,
    ensures
        r == opcode_table(op),
        r.fits(),
        r.cycles <= 8,
{
    match op {
        0x80 => OpCode::new(0x80, 2, 3, Instruction::Bra, AddressMode::Relative8),
        0x81 => OpCode::new(0x81, 2, 6, Instruction::Sta, AddressMode::DirectIndexedIndirect),
        0x82 => OpCode::new(0x82, 3, 4, Instruction::Brl, AddressMode::Relative16),
        0x83 => OpCode::new(0x83, 2, 4, Instruction::Sta, AddressMode::StackRelative),
        0x84 => OpCode::new(0x84, 2, 3, Instruction::Sty, AddressMode::Direct(0x84)),
        0x85 => OpCode::new(0x85, 2, 3, Instruction::Sta, AddressMode::Direct(0x85)),
        0x86 => OpCode::new(0x86, 2, 3, Instruction::Stx, AddressMode::Direct(0x86)),
        0x87 => OpCode::new(0x87, 2, 6, Instruction::Sta, AddressMode::DirectIndirectLong),
        0x88 => OpCode::new(0x88, 1, 2, Instruction::Dey, AddressMode::Implied),
        0x89 => OpCode::new(0x89, 2, 2, Instruction::Bit, AddressMode::Immediate),
        0x8A => OpCode::new(0x8A, 1, 2, Instruction::Txa, AddressMode::Implied),
        0x8B => OpCode::new(0x8B, 1, 3, Instruction::Phb, AddressMode::Implied),
        0x8C => OpCode::new(0x8C, 3, 4, Instruction::Sty, AddressMode::Absolute(0x8C)),
        0x8D => OpCode::new(0x8D, 3, 4, Instruction::Sta, AddressMode::Absolute(0x8D)),
        0x8E => OpCode::new(0x8E, 3, 4, Instruction::Stx, AddressMode::Absolute(0x8E)),
        _ => OpCode::new(0x8F, 4, 5, Instruction::Sta, AddressMode::AbsoluteLong),
    }
}

fn decode_row_9(op: u8) -> (r: OpCode)
    requires
        0x90 <= op <= 0x9F,
    ensures
        r == opcode_table(op),
        r.fits(),
        r.cycles <= 8,
{
    match op {
        0x90 => OpCode::new(0x90, 2, 2, Instruction::Bcc, AddressMode::Relative8),
        0x91 => OpCode::new(0x91, 2, 6, Instruction::Sta, AddressMode::DirectIndirectIndexed),
        0x92 => OpCode::new(0x92, 2, 5, Instruction::Sta, AddressMode::DirectIndirect),
        0x93 => OpCode::new(0x93, 2, 7, Instruction::Sta, AddressMode::StackRelativeIndirectIndexed),
        0x94 => OpCode::new(0x94, 2, 4, Instruction::Sty, AddressMode::DirectIndexedX),
        0x95 => OpCode::new(0x95, 2, 4, Instruction::Sta, AddressMode::DirectIndexedX),
        0x96 => OpCode::new(0x96, 2, 4, Instruction::Stx, AddressMode::DirectIndexedY),
        0x97 => OpCode::new(0x97, 2, 6, Instruction::Sta, AddressMode::DirectIndirectIndexedLong),
        0x98 => OpCode::new(0x98, 1, 2, Instruction::Tya, AddressMode::Implied),
        0x99 => OpCode::new(0x99, 3, 5, Instruction::Sta, AddressMode::AbsoluteIndexedY),
        0x9A => OpCode::new(0x9A, 1, 2, Instruction::Txs, AddressMode::Implied),
        0x9B => OpCode::new(0x9B, 1, 2, Instruction::Txy, AddressMode::Implied),
        0x9C => OpCode::new(0x9C, 3, 4, Instruction::Stz, AddressMode::Absolute(0x9C)),
        0x9D => OpCode::new(0x9D, 3, 5, Instruction::Sta, AddressMode::AbsoluteIndexedX),
        0x9E => OpCode::new(0x9E, 3, 5, Instruction::Stz, AddressMode::AbsoluteIndexedX),
        _ => OpCode::new(0x9F, 4, 5, Instruction::Sta, AddressMode::AbsoluteLongIndexedX),
    }
}

fn decode_row_A(op: u8) -> (r: OpCode)
    requires
        0xA0 <= op <= 0xAF,
    ensures
        r == opcode_table(op),
        r.fits(),
        r.cycles <= 8,
{
    match op {
        0xA0 => OpCode::new(0xA0, 2, 2, Instruction::Ldy, AddressMode::Immediate),
        0xA1 => OpCode::new(0xA1, 2, 6, Instruction::Lda, AddressMode::DirectIndexedIndirect),
        0xA2 => OpCode::new(0xA2, 2, 2, Instruction::Ldx, AddressMode::Immediate),
        0xA3 => OpCode::new(0xA3, 2, 4, Instruction::Lda, AddressMode::StackRelative),
        0xA4 => OpCode::new(0xA4, 2, 3, Instruction::Ldy, AddressMode::Direct(0xA4)),
        0xA5 => OpCode::new(0xA5, 2, 3, Instruction::Lda, AddressMode::Direct(0xA5)),
        0xA6 => OpCode::new(0xA6, 2, 3, Instruction::Ldx, AddressMode::Direct(0xA6)),
        0xA7 => OpCode::new(0xA7, 2, 6, Instruction::Lda, AddressMode::DirectIndirectLong),
        0xA8 => OpCode::new(0xA8, 1, 2, Instruction::Tay, AddressMode::Implied),
        0xA9 => OpCode::new(0xA9, 2, 2, Instruction::Lda, AddressMode::Immediate),
        0xAA => OpCode::new(0xAA, 1, 2, Instruction::Tax, AddressMode::Implied),
        0xAB => OpCode::new(0xAB, 1, 4, Instruction::Plb, AddressMode::Implied),
        0xAC => OpCode::new(0xAC, 3, 4, Instruction::Ldy, AddressMode::Absolute(0xAC)),
        0xAD => OpCode::new(0xAD, 3, 4, Instruction::Lda, AddressMode::Absolute(0xAD)),
        0xAE => OpCode::new(0xAE, 3, 4, Instruction::Ldx, AddressMode::Absolute(0xAE)),
        _ => OpCode::new(0xAF, 4, 5, Instruction::Lda, AddressMode::AbsoluteLong),
    }
}

fn decode_row_B(op: u8) -> (r: OpCode)
    requires
        0xB0 <= op <= 0xBF,
    ensures
        r == opcode_table(op),
        r.fits(),
        r.cycles <= 8,
{
    match op {
        0xB0 => OpCode::new(0xB0, 2, 2, Instruction::Bcs, AddressMode::Relative8),
        0xB1 => OpCode::new(0xB1, 2, 5, Instruction::Lda, AddressMode::DirectIndirectIndexed),
        0xB2 => OpCode::new(0xB2, 2, 5, Instruction::Lda, AddressMode::DirectIndirect),
        0xB3 => OpCode::new(0xB3, 2, 7, Instruction::Lda, AddressMode::StackRelativeIndirectIndexed),
        0xB4 => OpCode::new(0xB4, 2, 4, Instruction::Ldy, AddressMode::DirectIndexedX),
        0xB5 => OpCode::new(0xB5, 2, 4, Instruction::Lda, AddressMode::DirectIndexedX),
        0xB6 => OpCode::new(0xB6, 2, 4, Instruction::Ldx, AddressMode::DirectIndexedY),
        0xB7 => OpCode::new(0xB7, 2, 6, Instruction::Lda, AddressMode::DirectIndirectIndexedLong),
        0xB8 => OpCode::new(0xB8, 1, 2, Instruction::Clv, AddressMode::Implied),
        0xB9 => OpCode::new(0xB9, 3, 4, Instruction::Lda, AddressMode::AbsoluteIndexedY),
        0xBA => OpCode::new(0xBA, 1, 2, Instruction::Tsx, AddressMode::Implied),
        0xBB => OpCode::new(0xBB, 1, 2, Instruction::Tyx, AddressMode::Implied),
        0xBC => OpCode::new(0xBC, 3, 4, Instruction::Ldy, AddressMode::AbsoluteIndexedX),
        0xBD => OpCode::new(0xBD, 3, 4, Instruction::Lda, AddressMode::AbsoluteIndexedX),
        0xBE => OpCode::new(0xBE, 3, 4, Instruction::Ldx, AddressMode::AbsoluteIndexedY),
        _ => OpCode::new(0xBF, 4, 5, Instruction::Lda, AddressMode::AbsoluteLongIndexedX),
    }
}

fn decode_row_C(op: u8) -> (r: OpCode)
    requires
        0xC0 <= op <= 0xCF,
    ensures
        r == opcode_table(op),
        r.fits(),
        r.cycles <= 8,
{
    match op {
        0xC0 => OpCode::new(0xC0, 2, 2, Instruction::Cpy, AddressMode::Immediate),
        0xC1 => OpCode::new(0xC1, 2, 6, Instruction::Cmp, AddressMode::DirectIndexedIndirect),
        0xC2 => OpCode::new(0xC2, 2, 3, Instruction::Rep, AddressMode::Immediate),
        0xC3 => OpCode::new(0xC3, 2, 4, Instruction::Cmp, AddressMode::StackRelative),
        0xC4 => OpCode::new(0xC4, 2, 3, Instruction::Cpy, AddressMode::Direct(0xC4)),
        0xC5 => OpCode::new(0xC5, 2, 3, Instruction::Cmp, AddressMode::Direct(0xC5)),
        0xC6 => OpCode::new(0xC6, 2, 5, Instruction::Dec, AddressMode::Direct(0xC6)),
        0xC7 => OpCode::new(0xC7, 2, 6, Instruction::Cmp, AddressMode::DirectIndirectLong),
        0xC8 => OpCode::new(0xC8, 1, 2, Instruction::Iny, AddressMode::Implied),
        0xC9 => OpCode::new(0xC9, 2, 2, Instruction::Cmp, AddressMode::Immediate),
        0xCA => OpCode::new(0xCA, 1, 2, Instruction::Dex, AddressMode::Implied),
        0xCB => OpCode::new(0xCB, 1, 3, Instruction::Wai, AddressMode::Implied),
        0xCC => OpCode::new(0xCC, 3, 4, Instruction::Cpy, AddressMode::Absolute(0xCC)),
        0xCD => OpCode::new(0xCD, 3, 4, Instruction::Cmp, AddressMode::Absolute(0xCD)),
        0xCE => OpCode::new(0xCE, 3, 6, Instruction::Dec, AddressMode::Absolute(0xCE)),
        _ => OpCode::new(0xCF, 4, 5, Instruction::Cmp, AddressMode::AbsoluteLong),
    }
}

fn decode_row_D(op: u8) -> (r: OpCode)
    requires
        0xD0 <= op <= 0xDF,
    ensures
        r == opcode_table(op),
        r.fits(),
        r.cycles <= 8,
{
    match op {
        0xD0 => OpCode::new(0xD0, 2, 2, Instruction::Bne, AddressMode::Relative8),
        0xD1 => OpCode::new(0xD1, 2, 5, Instruction::Cmp, AddressMode::DirectIndirectIndexed),
        0xD2 => OpCode::new(0xD2, 2, 5, Instruction::Cmp, AddressMode::DirectIndirect),
        0xD3 => OpCode::new(0xD3, 2, 7, Instruction::Cmp, AddressMode::StackRelativeIndirectIndexed),
        0xD4 => OpCode::new(0xD4, 2, 6, Instruction::Pei, AddressMode::Direct(0xD4)),
        0xD5 => OpCode::new(0xD5, 2, 4, Instruction::Cmp, AddressMode::DirectIndexedX),
        0xD6 => OpCode::new(0xD6, 2, 6, Instruction::Dec, AddressMode::DirectIndexedX),
        0xD7 => OpCode::new(0xD7, 2, 6, Instruction::Cmp, AddressMode::DirectIndirectIndexedLong),
        0xD8 => OpCode::new(0xD8, 1, 2, Instruction::Cld, AddressMode::Implied),
        0xD9 => OpCode::new(0xD9, 3, 4, Instruction::Cmp, AddressMode::AbsoluteIndexedY),
        0xDA => OpCode::new(0xDA, 1, 3, Instruction::Phx, AddressMode::Implied),
        0xDB => OpCode::new(0xDB, 1, 3, Instruction::Stp, AddressMode::Implied),
        0xDC => OpCode::new(0xDC, 3, 6, Instruction::Jmp, AddressMode::AbsoluteIndirectLong),
        0xDD => OpCode::new(0xDD, 3, 4, Instruction::Cmp, AddressMode::AbsoluteIndexedX),
        0xDE => OpCode::new(0xDE, 3, 7, Instruction::Dec, AddressMode::AbsoluteIndexedX),
        _ => OpCode::new(0xDF, 4, 5, Instruction::Cmp, AddressMode::AbsoluteLongIndexedX),
    }
}

fn decode_row_E(op: u8) -> (r: OpCode)
    requires
        0xE0 <= op <= 0xEF,
    ensures
        r == opcode_table(op),
        r.fits(),
        r.cycles <= 8,
{
    match op {
        0xE0 => OpCode::new(0xE0, 2, 2, Instruction::Cpx, AddressMode::Immediate),
        0xE1 => OpCode::new(0xE1, 2, 6, Instruction::Sbc, AddressMode::DirectIndexedIndirect),
        0xE2 => OpCode::new(0xE2, 2, 3, Instruction::Sep, AddressMode::Immediate),
        0xE3 => OpCode::new(0xE3, 2, 4, Instruction::Sbc, AddressMode::StackRelative),
        0xE4 => OpCode::new(0xE4, 2, 3, Instruction::Cpx, AddressMode::Direct(0xE4)),
        0xE5 => OpCode::new(0xE5, 2, 3, Instruction::Sbc, AddressMode::Direct(0xE5)),
        0xE6 => OpCode::new(0xE6, 2, 5, Instruction::Inc, AddressMode::Direct(0xE6)),
        0xE7 => OpCode::new(0xE7, 2, 6, Instruction::Sbc, AddressMode::DirectIndirectLong),
        0xE8 => OpCode::new(0xE8, 1, 2, Instruction::Inx, AddressMode::Implied),
        0xE9 => OpCode::new(0xE9, 2, 2, Instruction::Sbc, AddressMode::Immediate),
        0xEA => OpCode::new(0xEA, 1, 2, Instruction::Nop, AddressMode::Implied),
        0xEB => OpCode::new(0xEB, 1, 3, Instruction::Xba, AddressMode::Implied),
        0xEC => OpCode::new(0xEC, 3, 4, Instruction::Cpx, AddressMode::Absolute(0xEC)),
        0xED => OpCode::new(0xED, 3, 4, Instruction::Sbc, AddressMode::Absolute(0xED)),
        0xEE => OpCode::new(0xEE, 3, 6, Instruction::Inc, AddressMode::Absolute(0xEE)),
        _ => OpCode::new(0xEF, 4, 5, Instruction::Sbc, AddressMode::AbsoluteLong),
    }
}

fn decode_row_F(op: u8) -> (r: OpCode)
    requires
        0xF0 <= op <= 0xFF,
    ensures
        r == opcode_table(op),
        r.fits(),
        r.cycles <= 8,
{
    match op {
        0xF0 => OpCode::new(0xF0, 2, 2, Instruction::Beq, AddressMode::Relative8),
        0xF1 => OpCode::new(0xF1, 2, 5, Instruction::Sbc, AddressMode::DirectIndirectIndexed),
        0xF2 => OpCode::new(0xF2, 2, 5, Instruction::Sbc, AddressMode::DirectIndirect),
        0xF3 => OpCode::new(0xF3, 2, 7, Instruction::Sbc, AddressMode::StackRelativeIndirectIndexed),
        0xF4 => OpCode::new(0xF4, 3, 5, Instruction::Pea, AddressMode::Immediate),
        0xF5 => OpCode::new(0xF5, 2, 4, Instruction::Sbc, AddressMode::DirectIndexedX),
        0xF6 => OpCode::new(0xF6, 2, 6, Instruction::Inc, AddressMode::DirectIndexedX),
        0xF7 => OpCode::new(0xF7, 2, 6, Instruction::Sbc, AddressMode::DirectIndirectIndexedLong),
        0xF8 => OpCode::new(0xF8, 1, 2, Instruction::Sed, AddressMode::Implied),
        0xF9 => OpCode::new(0xF9, 3, 4, Instruction::Sbc, AddressMode::AbsoluteIndexedY),
        0xFA => OpCode::new(0xFA, 1, 4, Instruction::Plx, AddressMode::Implied),
        0xFB => OpCode::new(0xFB, 1, 2, Instruction::Xce, AddressMode::Implied),
        0xFC => OpCode::new(0xFC, 3, 8, Instruction::Jsr, AddressMode::AbsoluteIndexedIndirect),
        0xFD => OpCode::new(0xFD, 3, 4, Instruction::Sbc, AddressMode::AbsoluteIndexedX),
        0xFE => OpCode::new(0xFE, 3, 7, Instruction::Inc, AddressMode::AbsoluteIndexedX),
        _ => OpCode::new(0xFF, 4, 5, Instruction::Sbc, AddressMode::AbsoluteLongIndexedX),
    }
}

/// Decodes an opcode byte.
pub fn decode(op: u8) -> (r: OpCode)
    ensures
        r == opcode_table(op),
        r.fits(),
        r.cycles <= 8,
{
    if op <= 0x0F {
        decode_row_0(op)
    } else if op <= 0x1F {
        decode_row_1(op)
    } else if op <= 0x2F {
        decode_row_2(op)
    } else if op <= 0x3F {
        decode_row_3(op)
    } else if op <= 0x4F {
        decode_row_4(op)
    } else if op <= 0x5F {
        decode_row_5(op)
    } else if op <= 0x6F {
        decode_row_6(op)
    } else if op <= 0x7F {
        decode_row_7(op)
    } else if op <= 0x8F {
        decode_row_8(op)
    } else if op <= 0x9F {
        decode_row_9(op)
    } else if op <= 0xAF {
        decode_row_A(op)
    } else if op <= 0xBF {
        decode_row_B(op)
    } else if op <= 0xCF {
        decode_row_C(op)
    } else if op <= 0xDF {
        decode_row_D(op)
    } else if op <= 0xEF {
        decode_row_E(op)
    } else {
        decode_row_F(op)
    }
}

/// Executing `ins` with operand mode `mode` takes state `c` and memory `m0`
/// to state `c1` and memory `m1`.
#[verifier::opaque]
pub open spec fn executes<M: Mem>(
    ins: Instruction,
    mode: AddressMode,
    c: CPU,
    m0: M,
    c1: CPU,
    m1: M,
) -> bool {
    match ins {
        Instruction::Adc => {
            &&& c1 == c.after_adc(mode, m0)
            &&& m1 == m0
        },
        Instruction::And => {
            &&& c1 == c.after_logic(Logic::And, mode, m0)
            &&& m1 == m0
        },
        Instruction::Asl => {
            &&& c1 == c.after_modify(Modify::Asl, mode, m0)
            &&& mode is Accumulator ==> m1 == m0
            &&& !(mode is Accumulator) ==> stored(
                    m0,
                    m1,
                    c.target(mode, m0, c.wide(Reg::A)),
                    c.modify_result(Modify::Asl, mode, m0).0,
                    c.wide(Reg::A),
                )
        },
        Instruction::Bcc => {
            &&& c1 == c.after_branch(AddressMode::Relative8, !c.regs.p.carry, m0)
            &&& m1 == m0
        },
        Instruction::Bcs => {
            &&& c1 == c.after_branch(AddressMode::Relative8, c.regs.p.carry, m0)
            &&& m1 == m0
        },
        Instruction::Beq => {
            &&& c1 == c.after_branch(AddressMode::Relative8, c.regs.p.zero, m0)
            &&& m1 == m0
        },
        Instruction::Bit => {
            &&& c1 == c.after_bit(mode, m0)
            &&& m1 == m0
        },
        Instruction::Bmi => {
            &&& c1 == c.after_branch(AddressMode::Relative8, c.regs.p.negative, m0)
            &&& m1 == m0
        },
        Instruction::Bne => {
            &&& c1 == c.after_branch(AddressMode::Relative8, !c.regs.p.zero, m0)
            &&& m1 == m0
        },
        Instruction::Bpl => {
            &&& c1 == c.after_branch(AddressMode::Relative8, !c.regs.p.negative, m0)
            &&& m1 == m0
        },
        Instruction::Bra => {
            &&& c1 == c.after_branch(AddressMode::Relative8, true, m0)
            &&& m1 == m0
        },
        Instruction::Brk => {
            &&& c1 == c.after_interrupt(true)
            &&& pushed(
                    m0,
                    m1,
                    c.regs.sp,
                    c.emulation(),
                    c.interrupt_frame(true),
                )
        },
        Instruction::Brl => {
            &&& c1 == c.after_branch(AddressMode::Relative16, true, m0)
            &&& m1 == m0
        },
        Instruction::Bvc => {
            &&& c1 == c.after_branch(AddressMode::Relative8, !c.regs.p.overflow, m0)
            &&& m1 == m0
        },
        Instruction::Bvs => {
            &&& c1 == c.after_branch(AddressMode::Relative8, c.regs.p.overflow, m0)
            &&& m1 == m0
        },
        Instruction::Clc => {
            &&& c1 == c.with_flags(Flags { carry: false, ..c.regs.p })
            &&& m1 == m0
        },
        Instruction::Cld => {
            &&& c1 == c.with_flags(Flags { decimal_mode: false, ..c.regs.p })
            &&& m1 == m0
        },
        Instruction::Cli => {
            &&& c1 == c.with_flags(Flags { interrupt_disable: false, ..c.regs.p })
            &&& m1 == m0
        },
        Instruction::Clv => {
            &&& c1 == c.with_flags(Flags { overflow: false, ..c.regs.p })
            &&& m1 == m0
        },
        Instruction::Cmp => {
            &&& c1 == c.after_compare(Reg::A, mode, m0)
            &&& m1 == m0
        },
        Instruction::Cop => {
            &&& c1 == c.after_interrupt(false)
            &&& pushed(
                    m0,
                    m1,
                    c.regs.sp,
                    c.emulation(),
                    c.interrupt_frame(false),
                )
        },
        Instruction::Cpx => {
            &&& c1 == c.after_compare(Reg::X, mode, m0)
            &&& m1 == m0
        },
        Instruction::Cpy => {
            &&& c1 == c.after_compare(Reg::Y, mode, m0)
            &&& m1 == m0
        },
        Instruction::Dec => {
            &&& c1 == c.after_modify(Modify::Dec, mode, m0)
            &&& mode is Accumulator ==> m1 == m0
            &&& !(mode is Accumulator) ==> stored(
                    m0,
                    m1,
                    c.target(mode, m0, c.wide(Reg::A)),
                    c.modify_result(Modify::Dec, mode, m0).0,
                    c.wide(Reg::A),
                )
        },
        Instruction::Dex => {
            &&& c1 == c.after_count(Reg::X, Modify::Dec)
            &&& m1 == m0
        },
        Instruction::Dey => {
            &&& c1 == c.after_count(Reg::Y, Modify::Dec)
            &&& m1 == m0
        },
        Instruction::Eor => {
            &&& c1 == c.after_logic(Logic::Eor, mode, m0)
            &&& m1 == m0
        },
        Instruction::Inc => {
            &&& c1 == c.after_modify(Modify::Inc, mode, m0)
            &&& mode is Accumulator ==> m1 == m0
            &&& !(mode is Accumulator) ==> stored(
                    m0,
                    m1,
                    c.target(mode, m0, c.wide(Reg::A)),
                    c.modify_result(Modify::Inc, mode, m0).0,
                    c.wide(Reg::A),
                )
        },
        Instruction::Inx => {
            &&& c1 == c.after_count(Reg::X, Modify::Inc)
            &&& m1 == m0
        },
        Instruction::Iny => {
            &&& c1 == c.after_count(Reg::Y, Modify::Inc)
            &&& m1 == m0
        },
        Instruction::Jmp => {
            &&& c1 == c.advanced(mode.len()).jumped(mode.address(c, m0))
            &&& m1 == m0
        },
        Instruction::Jsl => {
            &&& c1 == c.after_jsl(m0)
            &&& pushed(
                    m0,
                    m1,
                    c.regs.sp,
                    c.emulation(),
                    seq![
                        c.regs.pbr,
                        hi_byte(c.advanced(3).return_address()),
                        lo_byte(c.advanced(3).return_address()),
                    ],
                )
        },
        Instruction::Jsr => {
            &&& c1 == c.after_jsr(mode, m0)
            &&& pushed(
                    m0,
                    m1,
                    c.regs.sp,
                    c.emulation(),
                    seq![
                        hi_byte(c.advanced(mode.len()).return_address()),
                        lo_byte(c.advanced(mode.len()).return_address()),
                    ],
                )
        },
        Instruction::Lda => {
            &&& c1 == c.after_load(Reg::A, mode, m0)
            &&& m1 == m0
        },
        Instruction::Ldx => {
            &&& c1 == c.after_load(Reg::X, mode, m0)
            &&& m1 == m0
        },
        Instruction::Ldy => {
            &&& c1 == c.after_load(Reg::Y, mode, m0)
            &&& m1 == m0
        },
        Instruction::Lsr => {
            &&& c1 == c.after_modify(Modify::Lsr, mode, m0)
            &&& mode is Accumulator ==> m1 == m0
            &&& !(mode is Accumulator) ==> stored(
                    m0,
                    m1,
                    c.target(mode, m0, c.wide(Reg::A)),
                    c.modify_result(Modify::Lsr, mode, m0).0,
                    c.wide(Reg::A),
                )
        },
        Instruction::Mvn => {
            &&& c1 == c.after_block_move(Modify::Inc, m0)
            &&& written8(
                    m0,
                    m1,
                    AddressMode::SourceDestination.pair(c, m0).1,
                    crate::memory::byte_at(m0, AddressMode::SourceDestination.pair(c, m0).0),
                )
        },
        Instruction::Mvp => {
            &&& c1 == c.after_block_move(Modify::Dec, m0)
            &&& written8(
                    m0,
                    m1,
                    AddressMode::SourceDestination.pair(c, m0).1,
                    crate::memory::byte_at(m0, AddressMode::SourceDestination.pair(c, m0).0),
                )
        },
        Instruction::Nop => {
            &&& c1 == c
            &&& m1 == m0
        },
        Instruction::Ora => {
            &&& c1 == c.after_logic(Logic::Ora, mode, m0)
            &&& m1 == m0
        },
        Instruction::Pea => {
            &&& pushed(
                    m0,
                    m1,
                    c.regs.sp,
                    c.emulation(),
                    CPU::push_bytes(c.read(AddressMode::Immediate, m0, true), true),
                )
            &&& c1 == c.advanced(2).pushed_sp(2)
        },
        Instruction::Pei => {
            &&& pushed(
                    m0,
                    m1,
                    c.regs.sp,
                    c.emulation(),
                    CPU::push_bytes(
                        c.read(AddressMode::Direct(crate::address_mode::PEI_OPCODE), m0, true),
                        true,
                    ),
                )
            &&& c1 == c.advanced(1).pushed_sp(2)
        },
        Instruction::Per => {
            &&& pushed(
                    m0,
                    m1,
                    c.regs.sp,
                    c.emulation(),
                    CPU::push_bytes(AddressMode::Relative16.address(c, m0).1, true),
                )
            &&& c1 == c.advanced(2).pushed_sp(2)
        },
        Instruction::Pha => {
            &&& pushed(
                    m0,
                    m1,
                    c.regs.sp,
                    c.emulation(),
                    CPU::push_bytes(c.reg(Reg::A), c.wide(Reg::A)),
                )
            &&& c1 == c.pushed_sp(CPU::push_len(c.wide(Reg::A)))
        },
        Instruction::Phb => {
            &&& pushed(
                    m0,
                    m1,
                    c.regs.sp,
                    c.emulation(),
                    CPU::push_bytes(c.regs.dbr as u16, false),
                )
            &&& c1 == c.pushed_sp(CPU::push_len(false))
        },
        Instruction::Phd => {
            &&& pushed(
                    m0,
                    m1,
                    c.regs.sp,
                    c.emulation(),
                    CPU::push_bytes(c.regs.d, true),
                )
            &&& c1 == c.pushed_sp(CPU::push_len(true))
        },
        Instruction::Phk => {
            &&& pushed(
                    m0,
                    m1,
                    c.regs.sp,
                    c.emulation(),
                    CPU::push_bytes(c.regs.pbr as u16, false),
                )
            &&& c1 == c.pushed_sp(CPU::push_len(false))
        },
        Instruction::Php => {
            &&& pushed(
                    m0,
                    m1,
                    c.regs.sp,
                    c.emulation(),
                    CPU::push_bytes(c.regs.p.status_byte() as u8 as u16, false),
                )
            &&& c1 == c.pushed_sp(CPU::push_len(false))
        },
        Instruction::Phx => {
            &&& pushed(
                    m0,
                    m1,
                    c.regs.sp,
                    c.emulation(),
                    CPU::push_bytes(c.reg(Reg::X), c.wide(Reg::X)),
                )
            &&& c1 == c.pushed_sp(CPU::push_len(c.wide(Reg::X)))
        },
        Instruction::Phy => {
            &&& pushed(
                    m0,
                    m1,
                    c.regs.sp,
                    c.emulation(),
                    CPU::push_bytes(c.reg(Reg::Y), c.wide(Reg::Y)),
                )
            &&& c1 == c.pushed_sp(CPU::push_len(c.wide(Reg::Y)))
        },
        Instruction::Pla => {
            &&& c1 == c.after_pull(Reg::A, m0)
            &&& m1 == m0
        },
        Instruction::Plb => {
            &&& c1 == ({
                    let v = c.pulled_value(m0, false);
                    let c = c.pulled_sp(1);
                    CPU { regs: Registers { dbr: v as u8, ..c.regs }, ..c }.nz(v, false)
                })
            &&& m1 == m0
        },
        Instruction::Pld => {
            &&& c1 == ({
                    let v = c.pulled_value(m0, true);
                    let c = c.pulled_sp(2);
                    CPU { regs: Registers { d: v, ..c.regs }, ..c }.nz(v, true)
                })
            &&& m1 == m0
        },
        Instruction::Plp => {
            &&& c1 == c.pulled_sp(1).with_flags(
                    c.regs.p.loaded(
                        StatusFlags { bits: pulled(m0, c.regs.sp, c.emulation(), 1) },
                    ),
                )
            &&& m1 == m0
        },
        Instruction::Plx => {
            &&& c1 == c.after_pull(Reg::X, m0)
            &&& m1 == m0
        },
        Instruction::Ply => {
            &&& c1 == c.after_pull(Reg::Y, m0)
            &&& m1 == m0
        },
        Instruction::Rep => {
            &&& c1 == c.after_mask(false, m0)
            &&& m1 == m0
        },
        Instruction::Rol => {
            &&& c1 == c.after_modify(Modify::Rol, mode, m0)
            &&& mode is Accumulator ==> m1 == m0
            &&& !(mode is Accumulator) ==> stored(
                    m0,
                    m1,
                    c.target(mode, m0, c.wide(Reg::A)),
                    c.modify_result(Modify::Rol, mode, m0).0,
                    c.wide(Reg::A),
                )
        },
        Instruction::Ror => {
            &&& c1 == c.after_modify(Modify::Ror, mode, m0)
            &&& mode is Accumulator ==> m1 == m0
            &&& !(mode is Accumulator) ==> stored(
                    m0,
                    m1,
                    c.target(mode, m0, c.wide(Reg::A)),
                    c.modify_result(Modify::Ror, mode, m0).0,
                    c.wide(Reg::A),
                )
        },
        Instruction::Rti => {
            &&& c1 == c.after_rti(m0)
            &&& m1 == m0
        },
        Instruction::Rtl => {
            &&& c1 == c.after_rtl(m0)
            &&& m1 == m0
        },
        Instruction::Rts => {
            &&& c1 == c.after_rts(m0)
            &&& m1 == m0
        },
        Instruction::Sbc => {
            &&& c1 == c.after_sbc(mode, m0)
            &&& m1 == m0
        },
        Instruction::Sec => {
            &&& c1 == c.with_flags(Flags { carry: true, ..c.regs.p })
            &&& m1 == m0
        },
        Instruction::Sed => {
            &&& c1 == c.with_flags(Flags { decimal_mode: true, ..c.regs.p })
            &&& m1 == m0
        },
        Instruction::Sei => {
            &&& c1 == c.with_flags(Flags { interrupt_disable: true, ..c.regs.p })
            &&& m1 == m0
        },
        Instruction::Sep => {
            &&& c1 == c.after_mask(true, m0)
            &&& m1 == m0
        },
        Instruction::Sta => {
            &&& stored(
                    m0,
                    m1,
                    c.target(mode, m0, c.wide(Reg::A)),
                    c.regs.a,
                    c.wide(Reg::A),
                )
            &&& c1 == c.past(mode, c.wide(Reg::A))
        },
        Instruction::Stp => {
            &&& c1 == (CPU { state: RunState::HaltedAwaitingInterrupt, ..c })
            &&& m1 == m0
        },
        Instruction::Stx => {
            &&& stored(
                    m0,
                    m1,
                    c.target(mode, m0, c.wide(Reg::X)),
                    c.regs.x,
                    c.wide(Reg::X),
                )
            &&& c1 == c.past(mode, c.wide(Reg::X))
        },
        Instruction::Sty => {
            &&& stored(
                    m0,
                    m1,
                    c.target(mode, m0, c.wide(Reg::Y)),
                    c.regs.y,
                    c.wide(Reg::Y),
                )
            &&& c1 == c.past(mode, c.wide(Reg::Y))
        },
        Instruction::Stz => {
            &&& stored(
                    m0,
                    m1,
                    c.target(mode, m0, c.wide(Reg::A)),
                    0,
                    c.wide(Reg::A),
                )
            &&& c1 == c.past(mode, c.wide(Reg::A))
        },
        Instruction::Tax => {
            &&& c1 == c.transferred(c.regs.a, Reg::X)
            &&& m1 == m0
        },
        Instruction::Tay => {
            &&& c1 == c.transferred(c.regs.a, Reg::Y)
            &&& m1 == m0
        },
        Instruction::Tcd => {
            &&& c1 == (CPU { regs: Registers { d: c.regs.a, ..c.regs }, ..c }).nz(c.regs.a, true)
            &&& m1 == m0
        },
        Instruction::Tcs => {
            &&& c1 == c.with_sp(c.stack_from(c.regs.a, false))
            &&& m1 == m0
        },
        Instruction::Tdc => {
            &&& c1 == c.set_reg(Reg::A, c.regs.d).nz(c.regs.d, true)
            &&& m1 == m0
        },
        Instruction::Trb => {
            &&& c1 == c.after_test_bits(mode, m0)
            &&& stored(
                    m0,
                    m1,
                    c.target(mode, m0, c.wide(Reg::A)),
                    c.test_bits_result(false, mode, m0),
                    c.wide(Reg::A),
                )
        },
        Instruction::Tsb => {
            &&& c1 == c.after_test_bits(mode, m0)
            &&& stored(
                    m0,
                    m1,
                    c.target(mode, m0, c.wide(Reg::A)),
                    c.test_bits_result(true, mode, m0),
                    c.wide(Reg::A),
                )
        },
        Instruction::Tsc => {
            &&& c1 == c.set_reg(Reg::A, c.regs.sp).nz(c.regs.sp, true)
            &&& m1 == m0
        },
        Instruction::Tsx => {
            &&& c1 == c.transferred(c.regs.sp, Reg::X)
            &&& m1 == m0
        },
        Instruction::Txa => {
            &&& c1 == c.transferred(c.regs.x, Reg::A)
            &&& m1 == m0
        },
        Instruction::Txs => {
            &&& c1 == c.with_sp(c.stack_from(c.regs.x, c.regs.p.index_width))
            &&& m1 == m0
        },
        Instruction::Txy => {
            &&& c1 == c.transferred(c.regs.x, Reg::Y)
            &&& m1 == m0
        },
        Instruction::Tya => {
            &&& c1 == c.transferred(c.regs.y, Reg::A)
            &&& m1 == m0
        },
        Instruction::Tyx => {
            &&& c1 == c.transferred(c.regs.y, Reg::X)
            &&& m1 == m0
        },
        Instruction::Wai => {
            &&& c1 == (CPU { state: RunState::HaltedAwaitingInterrupt, ..c })
            &&& m1 == m0
        },
        Instruction::Wdm => {
            &&& c1 == c.advanced(1)
            &&& m1 == m0
        },
        Instruction::Xba => {
            &&& c1 == c.set_reg(
                    Reg::A,
                    word(lo_byte(c.regs.a), hi_byte(c.regs.a)),
                ).nz(hi_byte(c.regs.a) as u16, false)
            &&& m1 == m0
        },
        Instruction::Xce => {
            &&& c1 == c.after_xce()
            &&& m1 == m0
        },
    }
}

} // verus!
