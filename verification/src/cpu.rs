//! The 6502 CPU core: one sub-cycle of work per `tick`, driven by a
//! per-instruction micro-program. Stage 1 fetches (or installs a pending
//! interrupt's micro-program); later stages run the addressing-mode state
//! machine and the instruction's handler.
use vstd::prelude::*;
use crate::mapper::spec_prg_read;
use crate::memory::{spec_ram_read, spec_ram_write};
use crate::ppu::spec_is_ppu_register;

verus! {

/// What the CPU can be asked to do between instructions.
#[derive(Debug, Clone, Copy, PartialEq, Eq, Structural)]
pub enum InterruptType {
    Idle,
    Reset,
    Nmi,
    Brk,
    Irq,
}

pub enum Flags {
    Negative,         // 0x80
    Overflow,         // 0x40
    BFlag1,           // 0x20
    BFlag2,           // 0x10
    Decimal,          // 0x08
    InterruptDisable, // 0x04
    Zero,             // 0x02
    Carry,            // 0x01
}

/// The bit each status flag occupies in P.
pub open spec fn spec_flag_mask(flag: Flags) -> u8 {
    match flag {
        Flags::Negative => 0x80,
        Flags::Overflow => 0x40,
        Flags::BFlag1 => 0x20,
        Flags::BFlag2 => 0x10,
        Flags::Decimal => 0x08,
        Flags::InterruptDisable => 0x04,
        Flags::Zero => 0x02,
        Flags::Carry => 0x01,
    }
}

impl Flags {
    fn to_int(&self) -> (mask: u8)
        ensures
            mask == spec_flag_mask(*self),
    {
        match *self {
            Flags::Negative => 0x80,
            Flags::Overflow => 0x40,
            Flags::BFlag1 => 0x20,
            Flags::BFlag2 => 0x10,
            Flags::Decimal => 0x08,
            Flags::InterruptDisable => 0x04,
            Flags::Zero => 0x02,
            Flags::Carry => 0x01,
        }
    }
}

/// What one CPU sub-cycle reports back to the frame driver.
#[derive(Debug, Clone, Copy, PartialEq, Eq, Structural)]
pub enum CycleResult {
    EndCycle,
    EndInstruction,
    Continue,
    Error,
}

/// The twelve addressing-mode state machines.
#[derive(Debug, Clone, Copy, PartialEq, Eq, Structural)]
pub enum AddressingMode {
    Accumulator,
    Immediate,
    ZeroPage,
    ZeroPageX,
    ZeroPageY,
    Absolute,
    AbsoluteX,
    AbsoluteY,
    AbsoluteIndirect,
    IndirectX,
    IndirectY,
    Relative,
}

/// How an instruction uses its effective address.
#[derive(Debug, Clone, Copy, PartialEq, Eq, Structural)]
pub enum InstructionType {
    Branching,
    Read,
    ReadModifyWrite,
    Write,
}

/// The decoded operation a micro-program belongs to, including the three
/// interrupt sequences that are installed instead of a fetched opcode.
#[derive(Debug, Clone, Copy, PartialEq, Eq, Structural)]
pub enum Op {
    Adc,
    Ahx,
    Alr,
    Anc,
    And,
    Arr,
    Asl,
    Axs,
    Bcc,
    Bcs,
    Beq,
    Bit,
    Bmi,
    Bne,
    Bpl,
    Brk,
    Bvc,
    Bvs,
    Clc,
    Cld,
    Cli,
    Clv,
    Cmp,
    Cpx,
    Cpy,
    Dcp,
    Dec,
    Dex,
    Dey,
    Eor,
    Inc,
    Inx,
    Iny,
    Irq,
    Isc,
    Jmp,
    Jsr,
    Las,
    Lax,
    Lda,
    Ldx,
    Ldy,
    Lsr,
    Nmi,
    Nop,
    Ora,
    Pha,
    Php,
    Pla,
    Plp,
    Rla,
    Rol,
    Ror,
    Rra,
    Rst,
    Rti,
    Rts,
    Sax,
    Sbc,
    Sec,
    Sed,
    Sei,
    Shx,
    Shy,
    Slo,
    Sre,
    Sta,
    Stp,
    Stx,
    Sty,
    Tas,
    Tax,
    Tay,
    Tsx,
    Txa,
    Txs,
    Tya,
    Xaa,
}

/// The standard 6502 opcode matrix: each opcode's addressing mode, access
/// type and operation.
pub open spec fn spec_decode(opcode: u8) -> (AddressingMode, InstructionType, Op) {
    match opcode {
        0x00 => (AddressingMode::Immediate, InstructionType::Branching, Op::Brk),
        0x01 => (AddressingMode::IndirectX, InstructionType::Read, Op::Ora),
        0x02 => (AddressingMode::Accumulator, InstructionType::Read, Op::Stp),
        0x03 => (AddressingMode::Accumulator, InstructionType::ReadModifyWrite, Op::Slo),
        0x04 => (AddressingMode::ZeroPage, InstructionType::Read, Op::Nop),
        0x05 => (AddressingMode::ZeroPage, InstructionType::Read, Op::Ora),
        0x06 => (AddressingMode::ZeroPage, InstructionType::ReadModifyWrite, Op::Asl),
        0x07 => (AddressingMode::Accumulator, InstructionType::ReadModifyWrite, Op::Slo),
        0x08 => (AddressingMode::Accumulator, InstructionType::Write, Op::Php),
        0x09 => (AddressingMode::Immediate, InstructionType::Read, Op::Ora),
        0x0A => (AddressingMode::Accumulator, InstructionType::ReadModifyWrite, Op::Asl),
        0x0B => (AddressingMode::Immediate, InstructionType::Read, Op::Anc),
        0x0C => (AddressingMode::Absolute, InstructionType::Read, Op::Nop),
        0x0D => (AddressingMode::Absolute, InstructionType::Read, Op::Ora),
        0x0E => (AddressingMode::Absolute, InstructionType::ReadModifyWrite, Op::Asl),
        0x0F => (AddressingMode::Accumulator, InstructionType::ReadModifyWrite, Op::Slo),
        0x10 => (AddressingMode::Relative, InstructionType::Branching, Op::Bpl),
        0x11 => (AddressingMode::IndirectY, InstructionType::Read, Op::Ora),
        0x12 => (AddressingMode::Accumulator, InstructionType::Read, Op::Stp),
        0x13 => (AddressingMode::Accumulator, InstructionType::ReadModifyWrite, Op::Slo),
        0x14 => (AddressingMode::ZeroPageX, InstructionType::Read, Op::Nop),
        0x15 => (AddressingMode::ZeroPageX, InstructionType::Read, Op::Ora),
        0x16 => (AddressingMode::ZeroPageX, InstructionType::ReadModifyWrite, Op::Asl),
        0x17 => (AddressingMode::Accumulator, InstructionType::ReadModifyWrite, Op::Slo),
        0x18 => (AddressingMode::Accumulator, InstructionType::Read, Op::Clc),
        0x19 => (AddressingMode::AbsoluteY, InstructionType::Read, Op::Ora),
        0x1A => (AddressingMode::Accumulator, InstructionType::Read, Op::Nop),
        0x1B => (AddressingMode::Accumulator, InstructionType::ReadModifyWrite, Op::Slo),
        0x1C => (AddressingMode::AbsoluteX, InstructionType::Read, Op::Nop),
        0x1D => (AddressingMode::AbsoluteX, InstructionType::Read, Op::Ora),
        0x1E => (AddressingMode::AbsoluteX, InstructionType::ReadModifyWrite, Op::Asl),
        0x1F => (AddressingMode::Accumulator, InstructionType::ReadModifyWrite, Op::Slo),
        0x20 => (AddressingMode::Absolute, InstructionType::Branching, Op::Jsr),
        0x21 => (AddressingMode::IndirectX, InstructionType::Read, Op::And),
        0x22 => (AddressingMode::Accumulator, InstructionType::Read, Op::Stp),
        0x23 => (AddressingMode::Accumulator, InstructionType::ReadModifyWrite, Op::Rla),
        0x24 => (AddressingMode::ZeroPage, InstructionType::Read, Op::Bit),
        0x25 => (AddressingMode::ZeroPage, InstructionType::Read, Op::And),
        0x26 => (AddressingMode::ZeroPage, InstructionType::ReadModifyWrite, Op::Rol),
        0x27 => (AddressingMode::Accumulator, InstructionType::ReadModifyWrite, Op::Rla),
        0x28 => (AddressingMode::Accumulator, InstructionType::Read, Op::Plp),
        0x29 => (AddressingMode::Immediate, InstructionType::Read, Op::And),
        0x2A => (AddressingMode::Accumulator, InstructionType::ReadModifyWrite, Op::Rol),
        0x2B => (AddressingMode::Accumulator, InstructionType::Read, Op::Anc),
        0x2C => (AddressingMode::Absolute, InstructionType::Read, Op::Bit),
        0x2D => (AddressingMode::Absolute, InstructionType::Read, Op::And),
        0x2E => (AddressingMode::Absolute, InstructionType::ReadModifyWrite, Op::Rol),
        0x2F => (AddressingMode::Accumulator, InstructionType::ReadModifyWrite, Op::Rla),
        0x30 => (AddressingMode::Relative, InstructionType::Branching, Op::Bmi),
        0x31 => (AddressingMode::IndirectY, InstructionType::Read, Op::And),
        0x32 => (AddressingMode::Accumulator, InstructionType::Read, Op::Stp),
        0x33 => (AddressingMode::Accumulator, InstructionType::ReadModifyWrite, Op::Rla),
        0x34 => (AddressingMode::ZeroPageX, InstructionType::Read, Op::Nop),
        0x35 => (AddressingMode::ZeroPageX, InstructionType::Read, Op::And),
        0x36 => (AddressingMode::ZeroPageX, InstructionType::ReadModifyWrite, Op::Rol),
        0x37 => (AddressingMode::Accumulator, InstructionType::ReadModifyWrite, Op::Rla),
        0x38 => (AddressingMode::Accumulator, InstructionType::Read, Op::Sec),
        0x39 => (AddressingMode::AbsoluteY, InstructionType::Read, Op::And),
        0x3A => (AddressingMode::Accumulator, InstructionType::Read, Op::Nop),
        0x3B => (AddressingMode::Accumulator, InstructionType::ReadModifyWrite, Op::Rla),
        0x3C => (AddressingMode::AbsoluteX, InstructionType::Read, Op::Nop),
        0x3D => (AddressingMode::AbsoluteX, InstructionType::Read, Op::And),
        0x3E => (AddressingMode::AbsoluteX, InstructionType::ReadModifyWrite, Op::Rol),
        0x3F => (AddressingMode::Accumulator, InstructionType::ReadModifyWrite, Op::Rla),
        0x40 => (AddressingMode::Accumulator, InstructionType::Branching, Op::Rti),
        0x41 => (AddressingMode::IndirectX, InstructionType::Read, Op::Eor),
        0x42 => (AddressingMode::Accumulator, InstructionType::Read, Op::Stp),
        0x43 => (AddressingMode::Accumulator, InstructionType::ReadModifyWrite, Op::Sre),
        0x44 => (AddressingMode::ZeroPage, InstructionType::Read, Op::Nop),
        0x45 => (AddressingMode::ZeroPage, InstructionType::Read, Op::Eor),
        0x46 => (AddressingMode::ZeroPage, InstructionType::ReadModifyWrite, Op::Lsr),
        0x47 => (AddressingMode::Accumulator, InstructionType::ReadModifyWrite, Op::Sre),
        0x48 => (AddressingMode::Accumulator, InstructionType::Write, Op::Pha),
        0x49 => (AddressingMode::Immediate, InstructionType::Read, Op::Eor),
        0x4A => (AddressingMode::Accumulator, InstructionType::ReadModifyWrite, Op::Lsr),
        0x4B => (AddressingMode::Accumulator, InstructionType::Read, Op::Alr),
        0x4C => (AddressingMode::Absolute, InstructionType::Branching, Op::Jmp),
        0x4D => (AddressingMode::Absolute, InstructionType::Read, Op::Eor),
        0x4E => (AddressingMode::Absolute, InstructionType::ReadModifyWrite, Op::Lsr),
        0x4F => (AddressingMode::Accumulator, InstructionType::ReadModifyWrite, Op::Sre),
        0x50 => (AddressingMode::Relative, InstructionType::Branching, Op::Bvc),
        0x51 => (AddressingMode::IndirectY, InstructionType::Read, Op::Eor),
        0x52 => (AddressingMode::Accumulator, InstructionType::Read, Op::Stp),
        0x53 => (AddressingMode::Accumulator, InstructionType::ReadModifyWrite, Op::Sre),
        0x54 => (AddressingMode::ZeroPageX, InstructionType::Read, Op::Nop),
        0x55 => (AddressingMode::ZeroPageX, InstructionType::Read, Op::Eor),
        0x56 => (AddressingMode::ZeroPageX, InstructionType::ReadModifyWrite, Op::Lsr),
        0x57 => (AddressingMode::Accumulator, InstructionType::ReadModifyWrite, Op::Sre),
        0x58 => (AddressingMode::Accumulator, InstructionType::Read, Op::Cli),
        0x59 => (AddressingMode::AbsoluteY, InstructionType::Read, Op::Eor),
        0x5A => (AddressingMode::Accumulator, InstructionType::Read, Op::Nop),
        0x5B => (AddressingMode::Accumulator, InstructionType::ReadModifyWrite, Op::Sre),
        0x5C => (AddressingMode::AbsoluteX, InstructionType::Read, Op::Nop),
        0x5D => (AddressingMode::AbsoluteX, InstructionType::Read, Op::Eor),
        0x5E => (AddressingMode::AbsoluteX, InstructionType::ReadModifyWrite, Op::Lsr),
        0x5F => (AddressingMode::Accumulator, InstructionType::ReadModifyWrite, Op::Sre),
        0x60 => (AddressingMode::Accumulator, InstructionType::Branching, Op::Rts),
        0x61 => (AddressingMode::IndirectX, InstructionType::Read, Op::Adc),
        0x62 => (AddressingMode::Accumulator, InstructionType::Read, Op::Stp),
        0x63 => (AddressingMode::Accumulator, InstructionType::ReadModifyWrite, Op::Rra),
        0x64 => (AddressingMode::ZeroPage, InstructionType::Read, Op::Nop),
        0x65 => (AddressingMode::ZeroPage, InstructionType::Read, Op::Adc),
        0x66 => (AddressingMode::ZeroPage, InstructionType::ReadModifyWrite, Op::Ror),
        0x67 => (AddressingMode::Accumulator, InstructionType::ReadModifyWrite, Op::Rra),
        0x68 => (AddressingMode::Accumulator, InstructionType::Read, Op::Pla),
        0x69 => (AddressingMode::Immediate, InstructionType::Read, Op::Adc),
        0x6A => (AddressingMode::Accumulator, InstructionType::ReadModifyWrite, Op::Ror),
        0x6B => (AddressingMode::Accumulator, InstructionType::Read, Op::Arr),
        0x6C => (AddressingMode::AbsoluteIndirect, InstructionType::Branching, Op::Jmp),
        0x6D => (AddressingMode::Absolute, InstructionType::Read, Op::Adc),
        0x6E => (AddressingMode::Absolute, InstructionType::ReadModifyWrite, Op::Ror),
        0x6F => (AddressingMode::Accumulator, InstructionType::ReadModifyWrite, Op::Rra),
        0x70 => (AddressingMode::Relative, InstructionType::Branching, Op::Bvs),
        0x71 => (AddressingMode::IndirectY, InstructionType::Read, Op::Adc),
        0x72 => (AddressingMode::Accumulator, InstructionType::Read, Op::Stp),
        0x73 => (AddressingMode::Accumulator, InstructionType::ReadModifyWrite, Op::Rra),
        0x74 => (AddressingMode::ZeroPageX, InstructionType::Read, Op::Nop),
        0x75 => (AddressingMode::ZeroPageX, InstructionType::Read, Op::Adc),
        0x76 => (AddressingMode::ZeroPageX, InstructionType::ReadModifyWrite, Op::Ror),
        0x77 => (AddressingMode::Accumulator, InstructionType::ReadModifyWrite, Op::Rra),
        0x78 => (AddressingMode::Accumulator, InstructionType::Read, Op::Sei),
        0x79 => (AddressingMode::AbsoluteY, InstructionType::Read, Op::Adc),
        0x7A => (AddressingMode::Accumulator, InstructionType::Read, Op::Nop),
        0x7B => (AddressingMode::Accumulator, InstructionType::ReadModifyWrite, Op::Rra),
        0x7C => (AddressingMode::AbsoluteX, InstructionType::Read, Op::Nop),
        0x7D => (AddressingMode::AbsoluteX, InstructionType::Read, Op::Adc),
        0x7E => (AddressingMode::AbsoluteX, InstructionType::ReadModifyWrite, Op::Ror),
        0x7F => (AddressingMode::Accumulator, InstructionType::ReadModifyWrite, Op::Rra),
        0x80 => (AddressingMode::Immediate, InstructionType::Read, Op::Nop),
        0x81 => (AddressingMode::IndirectX, InstructionType::Write, Op::Sta),
        0x82 => (AddressingMode::Immediate, InstructionType::Read, Op::Nop),
        0x83 => (AddressingMode::Accumulator, InstructionType::Write, Op::Sax),
        0x84 => (AddressingMode::ZeroPage, InstructionType::Write, Op::Sty),
        0x85 => (AddressingMode::ZeroPage, InstructionType::Write, Op::Sta),
        0x86 => (AddressingMode::ZeroPage, InstructionType::Write, Op::Stx),
        0x87 => (AddressingMode::Accumulator, InstructionType::Write, Op::Sax),
        0x88 => (AddressingMode::Accumulator, InstructionType::Read, Op::Dey),
        0x89 => (AddressingMode::Immediate, InstructionType::Read, Op::Nop),
        0x8A => (AddressingMode::Accumulator, InstructionType::Read, Op::Txa),
        0x8B => (AddressingMode::Accumulator, InstructionType::Read, Op::Xaa),
        0x8C => (AddressingMode::Absolute, InstructionType::Write, Op::Sty),
        0x8D => (AddressingMode::Absolute, InstructionType::Write, Op::Sta),
        0x8E => (AddressingMode::Absolute, InstructionType::Write, Op::Stx),
        0x8F => (AddressingMode::Accumulator, InstructionType::Write, Op::Sax),
        0x90 => (AddressingMode::Relative, InstructionType::Branching, Op::Bcc),
        0x91 => (AddressingMode::IndirectY, InstructionType::Write, Op::Sta),
        0x92 => (AddressingMode::Accumulator, InstructionType::Read, Op::Stp),
        0x93 => (AddressingMode::Accumulator, InstructionType::Read, Op::Ahx),
        0x94 => (AddressingMode::ZeroPageX, InstructionType::Write, Op::Sty),
        0x95 => (AddressingMode::ZeroPageX, InstructionType::Write, Op::Sta),
        0x96 => (AddressingMode::ZeroPageY, InstructionType::Write, Op::Stx),
        0x97 => (AddressingMode::Accumulator, InstructionType::Write, Op::Sax),
        0x98 => (AddressingMode::Accumulator, InstructionType::Read, Op::Tya),
        0x99 => (AddressingMode::AbsoluteY, InstructionType::Write, Op::Sta),
        0x9A => (AddressingMode::Accumulator, InstructionType::Read, Op::Txs),
        0x9B => (AddressingMode::Accumulator, InstructionType::Read, Op::Tas),
        0x9C => (AddressingMode::Accumulator, InstructionType::Read, Op::Shy),
        0x9D => (AddressingMode::AbsoluteX, InstructionType::Write, Op::Sta),
        0x9E => (AddressingMode::Accumulator, InstructionType::Write, Op::Shx),
        0x9F => (AddressingMode::Accumulator, InstructionType::Read, Op::Ahx),
        0xA0 => (AddressingMode::Immediate, InstructionType::Read, Op::Ldy),
        0xA1 => (AddressingMode::IndirectX, InstructionType::Read, Op::Lda),
        0xA2 => (AddressingMode::Immediate, InstructionType::Read, Op::Ldx),
        0xA3 => (AddressingMode::Accumulator, InstructionType::Read, Op::Lax),
        0xA4 => (AddressingMode::ZeroPage, InstructionType::Read, Op::Ldy),
        0xA5 => (AddressingMode::ZeroPage, InstructionType::Read, Op::Lda),
        0xA6 => (AddressingMode::ZeroPage, InstructionType::Read, Op::Ldx),
        0xA7 => (AddressingMode::Accumulator, InstructionType::Read, Op::Lax),
        0xA8 => (AddressingMode::Accumulator, InstructionType::Read, Op::Tay),
        0xA9 => (AddressingMode::Immediate, InstructionType::Read, Op::Lda),
        0xAA => (AddressingMode::Accumulator, InstructionType::Read, Op::Tax),
        0xAB => (AddressingMode::Accumulator, InstructionType::Read, Op::Lax),
        0xAC => (AddressingMode::Absolute, InstructionType::Read, Op::Ldy),
        0xAD => (AddressingMode::Absolute, InstructionType::Read, Op::Lda),
        0xAE => (AddressingMode::Absolute, InstructionType::Read, Op::Ldx),
        0xAF => (AddressingMode::Accumulator, InstructionType::Read, Op::Lax),
        0xB0 => (AddressingMode::Relative, InstructionType::Branching, Op::Bcs),
        0xB1 => (AddressingMode::IndirectY, InstructionType::Read, Op::Lda),
        0xB2 => (AddressingMode::Accumulator, InstructionType::Read, Op::Stp),
        0xB3 => (AddressingMode::Accumulator, InstructionType::Read, Op::Lax),
        0xB4 => (AddressingMode::ZeroPageX, InstructionType::Read, Op::Ldy),
        0xB5 => (AddressingMode::ZeroPageX, InstructionType::Read, Op::Lda),
        0xB6 => (AddressingMode::ZeroPageY, InstructionType::Read, Op::Ldx),
        0xB7 => (AddressingMode::Accumulator, InstructionType::Read, Op::Lax),
        0xB8 => (AddressingMode::Accumulator, InstructionType::Read, Op::Clv),
        0xB9 => (AddressingMode::AbsoluteY, InstructionType::Read, Op::Lda),
        0xBA => (AddressingMode::Accumulator, InstructionType::Read, Op::Tsx),
        0xBB => (AddressingMode::Accumulator, InstructionType::Read, Op::Las),
        0xBC => (AddressingMode::AbsoluteX, InstructionType::Read, Op::Ldy),
        0xBD => (AddressingMode::AbsoluteX, InstructionType::Read, Op::Lda),
        0xBE => (AddressingMode::AbsoluteY, InstructionType::Read, Op::Ldx),
        0xBF => (AddressingMode::Accumulator, InstructionType::Read, Op::Lax),
        0xC0 => (AddressingMode::Immediate, InstructionType::Read, Op::Cpy),
        0xC1 => (AddressingMode::IndirectX, InstructionType::Read, Op::Cmp),
        0xC2 => (AddressingMode::Immediate, InstructionType::Read, Op::Nop),
        0xC3 => (AddressingMode::Accumulator, InstructionType::ReadModifyWrite, Op::Dcp),
        0xC4 => (AddressingMode::ZeroPage, InstructionType::Read, Op::Cpy),
        0xC5 => (AddressingMode::ZeroPage, InstructionType::Read, Op::Cmp),
        0xC6 => (AddressingMode::ZeroPage, InstructionType::ReadModifyWrite, Op::Dec),
        0xC7 => (AddressingMode::Accumulator, InstructionType::ReadModifyWrite, Op::Dcp),
        0xC8 => (AddressingMode::Accumulator, InstructionType::Read, Op::Iny),
        0xC9 => (AddressingMode::Immediate, InstructionType::Read, Op::Cmp),
        0xCA => (AddressingMode::Accumulator, InstructionType::Read, Op::Dex),
        0xCB => (AddressingMode::Accumulator, InstructionType::Read, Op::Axs),
        0xCC => (AddressingMode::Absolute, InstructionType::Read, Op::Cpy),
        0xCD => (AddressingMode::Absolute, InstructionType::Read, Op::Cmp),
        0xCE => (AddressingMode::Absolute, InstructionType::ReadModifyWrite, Op::Dec),
        0xCF => (AddressingMode::Accumulator, InstructionType::ReadModifyWrite, Op::Dcp),
        0xD0 => (AddressingMode::Relative, InstructionType::Branching, Op::Bne),
        0xD1 => (AddressingMode::IndirectY, InstructionType::Read, Op::Cmp),
        0xD2 => (AddressingMode::Accumulator, InstructionType::Read, Op::Stp),
        0xD3 => (AddressingMode::Accumulator, InstructionType::ReadModifyWrite, Op::Dcp),
        0xD4 => (AddressingMode::ZeroPageX, InstructionType::Read, Op::Nop),
        0xD5 => (AddressingMode::ZeroPageX, InstructionType::Read, Op::Cmp),
        0xD6 => (AddressingMode::ZeroPageX, InstructionType::ReadModifyWrite, Op::Dec),
        0xD7 => (AddressingMode::Accumulator, InstructionType::ReadModifyWrite, Op::Dcp),
        0xD8 => (AddressingMode::Accumulator, InstructionType::Read, Op::Cld),
        0xD9 => (AddressingMode::AbsoluteY, InstructionType::Read, Op::Cmp),
        0xDA => (AddressingMode::Accumulator, InstructionType::Read, Op::Nop),
        0xDB => (AddressingMode::Accumulator, InstructionType::ReadModifyWrite, Op::Dcp),
        0xDC => (AddressingMode::AbsoluteX, InstructionType::Read, Op::Nop),
        0xDD => (AddressingMode::AbsoluteX, InstructionType::Read, Op::Cmp),
        0xDE => (AddressingMode::AbsoluteX, InstructionType::ReadModifyWrite, Op::Dec),
        0xDF => (AddressingMode::Accumulator, InstructionType::ReadModifyWrite, Op::Dcp),
        0xE0 => (AddressingMode::Immediate, InstructionType::Read, Op::Cpx),
        0xE1 => (AddressingMode::IndirectX, InstructionType::Read, Op::Sbc),
        0xE2 => (AddressingMode::Immediate, InstructionType::Read, Op::Nop),
        0xE3 => (AddressingMode::Accumulator, InstructionType::Read, Op::Isc),
        0xE4 => (AddressingMode::ZeroPage, InstructionType::Read, Op::Cpx),
        0xE5 => (AddressingMode::ZeroPage, InstructionType::Read, Op::Sbc),
        0xE6 => (AddressingMode::ZeroPage, InstructionType::ReadModifyWrite, Op::Inc),
        0xE7 => (AddressingMode::Accumulator, InstructionType::Read, Op::Isc),
        0xE8 => (AddressingMode::Accumulator, InstructionType::Read, Op::Inx),
        0xE9 => (AddressingMode::Immediate, InstructionType::Read, Op::Sbc),
        0xEA => (AddressingMode::Accumulator, InstructionType::Read, Op::Nop),
        0xEB => (AddressingMode::Immediate, InstructionType::Read, Op::Sbc),
        0xEC => (AddressingMode::Absolute, InstructionType::Read, Op::Cpx),
        0xED => (AddressingMode::Absolute, InstructionType::Read, Op::Sbc),
        0xEE => (AddressingMode::Absolute, InstructionType::ReadModifyWrite, Op::Inc),
        0xEF => (AddressingMode::Accumulator, InstructionType::Read, Op::Isc),
        0xF0 => (AddressingMode::Relative, InstructionType::Branching, Op::Beq),
        0xF1 => (AddressingMode::IndirectY, InstructionType::Read, Op::Sbc),
        0xF2 => (AddressingMode::Accumulator, InstructionType::Read, Op::Stp),
        0xF3 => (AddressingMode::Accumulator, InstructionType::Read, Op::Isc),
        0xF4 => (AddressingMode::ZeroPageX, InstructionType::Read, Op::Nop),
        0xF5 => (AddressingMode::ZeroPageX, InstructionType::Read, Op::Sbc),
        0xF6 => (AddressingMode::ZeroPageX, InstructionType::ReadModifyWrite, Op::Inc),
        0xF7 => (AddressingMode::Accumulator, InstructionType::Read, Op::Isc),
        0xF8 => (AddressingMode::Accumulator, InstructionType::Read, Op::Sed),
        0xF9 => (AddressingMode::AbsoluteY, InstructionType::Read, Op::Sbc),
        0xFA => (AddressingMode::Accumulator, InstructionType::Read, Op::Nop),
        0xFB => (AddressingMode::Accumulator, InstructionType::Read, Op::Isc),
        0xFC => (AddressingMode::AbsoluteX, InstructionType::Read, Op::Slo),
        0xFD => (AddressingMode::AbsoluteX, InstructionType::Read, Op::Sbc),
        0xFE => (AddressingMode::AbsoluteX, InstructionType::ReadModifyWrite, Op::Inc),
        _ => (AddressingMode::Accumulator, InstructionType::Read, Op::Isc),
    }
}

/// The bus as the CPU sees it. Work RAM (below 0x2000) obeys plain
/// load/store laws over the `ram` view; the two PRG windows at 0x8000 and
/// 0xC000 read from the cartridge view through the bank offsets; writes to
/// the sprite-memory registers drive the `oam` view. Reads elsewhere reach
/// other devices and may return anything.
pub trait BusOps {
    spec fn ram(&self) -> Seq<u8>;

    /// Whatever structural invariant the bus's devices maintain; every bus
    /// operation preserves it.
    spec fn inv(&self) -> bool;

    /// The video clock behind the bus, where the bus carries one: only the
    /// picture unit's own tick moves it, never a bus read or write.
    spec fn frame_clock(&self) -> int;

    /// The frame-ready flag behind the bus: bus reads and writes never
    /// raise or consume it.
    spec fn frame_pending(&self) -> bool;

    /// The cartridge's 256 KiB PRG space; no bus operation changes it.
    spec fn prg(&self) -> Seq<u8>;

    /// The two 16 KiB PRG window offsets; only cartridge writes (0x8000 and
    /// up) can move them.
    spec fn prg_banks(&self) -> (int, int);

    /// The picture unit's 256 bytes of sprite memory and its address
    /// register, driven by the OAMADDR/OAMDATA registers.
    spec fn oam(&self) -> Seq<u8>;

    spec fn oam_addr(&self) -> u8;

    fn read(&mut self, address: u16) -> (data: u8)
        ensures
            old(self).inv() ==> final(self).inv(),
            final(self).frame_clock() == old(self).frame_clock(),
            final(self).frame_pending() == old(self).frame_pending(),
            final(self).ram() == old(self).ram(),
            final(self).prg() == old(self).prg(),
            final(self).prg_banks() == old(self).prg_banks(),
            final(self).oam() == old(self).oam(),
            final(self).oam_addr() == old(self).oam_addr(),
            address < 0x2000 ==> data == spec_ram_read(old(self).ram(), address),
            address & 0xC000 == 0x8000 ==> data == spec_prg_read(
                old(self).prg(), old(self).prg_banks().0, address),
            address & 0xC000 == 0xC000 ==> data == spec_prg_read(
                old(self).prg(), old(self).prg_banks().1, address);

    fn write(&mut self, address: u16, data: u8)
        ensures
            old(self).inv() ==> final(self).inv(),
            final(self).frame_clock() == old(self).frame_clock(),
            final(self).frame_pending() == old(self).frame_pending(),
            final(self).ram() == spec_ram_write(old(self).ram(), address, data),
            final(self).prg() == old(self).prg(),
            address < 0x8000 ==> final(self).prg_banks() == old(self).prg_banks(),
            spec_is_ppu_register(address) && address % 8 == 3 ==>
                final(self).oam() == old(self).oam() && final(self).oam_addr() == data,
            spec_is_ppu_register(address) && address % 8 == 4 ==>
                final(self).oam() == old(self).oam().update(old(self).oam_addr() as int, data)
                && final(self).oam_addr() == old(self).oam_addr().wrapping_add(1),
            !(spec_is_ppu_register(address) && (address % 8 == 3 || address % 8 == 4)) ==>
                final(self).oam() == old(self).oam() && final(self).oam_addr() == old(self).oam_addr();
}

pub struct Cpu6502 {
    pub a: u8,
    pub x: u8,
    pub y: u8,
    pub pc: u16,
    pub sp: u8,
    pub sr: u8,
    pub value: u8,
    pub address: u16,
    pub stage: u8,

    pub interrupt_type: InterruptType,
    pub addressing_mode: AddressingMode,
    pub instruction_type: InstructionType,
    pub op: Op,
}

/// P with one flag bit forced on or off.
pub open spec fn spec_set_flag(sr: u8, mask: u8, enabled: bool) -> u8 {
    if enabled {
        sr | mask
    } else {
        sr & !mask
    }
}

/// P with Z and N refreshed from a destination value: Z iff the value is
/// zero, N iff its bit 7 is set.
pub open spec fn spec_nz(sr: u8, value: u8) -> u8 {
    spec_set_flag(spec_set_flag(sr, 0x02, value == 0), 0x80, value & 0x80 != 0)
}

/// P as a pull from the stack leaves it: bit 5 forced to 1, bit 4 to 0.
pub open spec fn spec_pull_status(pulled: u8) -> u8 {
    spec_set_flag(spec_set_flag(pulled, 0x20, true), 0x10, false)
}

/// Where in page one the stack pointer points.
pub open spec fn spec_stack_address(sp: u8) -> u16 {
    (0x100 + sp) as u16
}

/// ADC: (new P, new A). Carry out iff A + M + C overflows a byte; overflow
/// iff both addends share a sign bit that differs from the result's.
pub open spec fn spec_adc(sr: u8, a: u8, m: u8) -> (u8, u8) {
    let carry: int = if sr & 0x01 != 0 { 1 } else { 0 };
    let total: int = a + m + carry;
    let value = (total % 256) as u8;
    let sr1 = spec_set_flag(sr, 0x01, total > 0xFF);
    let sr2 = spec_set_flag(sr1, 0x02, value == 0);
    let sr3 = spec_set_flag(sr2, 0x40, (a & 0x80) == (m & 0x80) && (m & 0x80) != (value & 0x80));
    let sr4 = spec_set_flag(sr3, 0x80, value & 0x80 != 0);
    (sr4, value)
}

/// SBC: ADC with the operand inverted bitwise.
pub open spec fn spec_sbc(sr: u8, a: u8, m: u8) -> (u8, u8) {
    let not_m = !m;
    let carry: int = if sr & 0x01 != 0 { 1 } else { 0 };
    let total: int = a + not_m + carry;
    let value = (total % 256) as u8;
    let sr1 = spec_set_flag(sr, 0x01, total > 0xFF);
    let sr2 = spec_set_flag(sr1, 0x02, value == 0);
    let sr3 = spec_set_flag(sr2, 0x40, (a & 0x80) == (not_m & 0x80) && (a & 0x80) != (value & 0x80));
    let sr4 = spec_set_flag(sr3, 0x80, value & 0x80 != 0);
    (sr4, value)
}

/// CMP/CPX/CPY: C iff register >= memory, Z iff equal, N from bit 7 of the
/// wrapped difference.
pub open spec fn spec_cmp(sr: u8, reg: u8, m: u8) -> u8 {
    let diff = reg.wrapping_sub(m);
    let sr1 = spec_set_flag(sr, 0x01, reg >= m);
    let sr2 = spec_set_flag(sr1, 0x02, reg == m);
    spec_set_flag(sr2, 0x80, diff & 0x80 != 0)
}

/// BIT: Z from A & M, V and N copied from bits 6 and 7 of M.
pub open spec fn spec_bit(sr: u8, a: u8, m: u8) -> u8 {
    let sr1 = spec_set_flag(sr, 0x02, a & m == 0);
    let sr2 = spec_set_flag(sr1, 0x40, m & 0x40 != 0);
    spec_set_flag(sr2, 0x80, m & 0x80 != 0)
}

/// Flags after a shift or rotate: C is the bit shifted out, Z and N from the
/// shifted value.
pub open spec fn spec_shift_flags(sr: u8, carry: bool, value: u8) -> u8 {
    let sr1 = spec_set_flag(sr, 0x01, carry);
    let sr2 = spec_set_flag(sr1, 0x02, value == 0);
    spec_set_flag(sr2, 0x80, value & 0x80 != 0)
}

/// A branch offset sign-extended to sixteen bits.
pub open spec fn spec_sign_extend(offset: u8) -> u16 {
    if offset >= 0x80 {
        (0xFF00 + offset) as u16
    } else {
        offset as u16
    }
}

/// Where a taken branch lands, from the program counter after the operand
/// fetch.
pub open spec fn spec_branch_target(pc: u16, offset: u8) -> u16 {
    pc.wrapping_add(spec_sign_extend(offset))
}

/// Whether a taken branch leaves its page, which costs one more sub-cycle.
pub open spec fn spec_branch_crossed(pc: u16, offset: u8) -> bool {
    (pc & 0xFF00) != (spec_branch_target(pc, offset) & 0xFF00)
}

/// Everything an addressing-mode sub-cycle leaves alone: the registers, the
/// flags, the stage, and the decoded instruction.
pub open spec fn spec_frame(pre: Cpu6502, post: Cpu6502) -> bool {
    &&& post.a == pre.a
    &&& post.x == pre.x
    &&& post.y == pre.y
    &&& post.sp == pre.sp
    &&& post.sr == pre.sr
    &&& post.stage == pre.stage
    &&& post.addressing_mode == pre.addressing_mode
    &&& post.instruction_type == pre.instruction_type
    &&& post.op == pre.op
    &&& post.interrupt_type == pre.interrupt_type
}

/// The addressing modes whose read-modify-write micro-code leaves the value
/// and address latches untouched on the handler's final sub-cycle.
pub open spec fn spec_rmw_mode(mode: AddressingMode) -> bool {
    ||| mode is Accumulator
    ||| mode is Absolute
    ||| mode is AbsoluteX
    ||| mode is AbsoluteY
    ||| mode is ZeroPage
    ||| mode is ZeroPageX
    ||| mode is ZeroPageY
    ||| mode is IndirectX
    ||| mode is IndirectY
}

/// Whether one bus transaction's worth of change separates two RAM states:
/// they are equal, or one store apart. Every CPU sub-cycle obeys this.
pub open spec fn spec_at_most_one_store(pre: Seq<u8>, post: Seq<u8>) -> bool {
    post == pre || exists|address: u16, data: u8| post == #[trigger] spec_ram_write(pre, address, data)
}

/// The micro-program a pending interrupt installs.
pub open spec fn spec_interrupt_op(interrupt: InterruptType) -> Op {
    match interrupt {
        InterruptType::Brk => Op::Brk,
        InterruptType::Reset => Op::Rst,
        InterruptType::Nmi => Op::Nmi,
        InterruptType::Irq => Op::Irq,
        InterruptType::Idle => Op::Nop,
    }
}

impl Cpu6502 {
    pub fn new() -> (cpu: Cpu6502)
        ensures
            cpu == (Cpu6502 {
                a: 0u8, x: 0u8, y: 0u8, pc: 0u16, sp: 0u8, sr: 0u8,
                value: 0u8, address: 0u16, stage: 1u8,
                interrupt_type: InterruptType::Idle,
                addressing_mode: AddressingMode::Accumulator,
                instruction_type: InstructionType::Read,
                op: Op::Nop,
            }),
    {
        Cpu6502 {
            a: 0,
            x: 0,
            y: 0,
            pc: 0,
            sp: 0,
            sr: 0,
            value: 0,
            address: 0,
            stage: 1,
            interrupt_type: InterruptType::Idle,
            addressing_mode: AddressingMode::Accumulator,
            instruction_type: InstructionType::Read,
            op: Op::Nop,
        }
    }

    /// Arm the reset sequence: SP and P take their architectural reset
    /// values and the reset micro-program is latched.
    pub fn reset(&mut self)
        ensures
            *final(self) == (Cpu6502 {
                sp: 0xFDu8,
                sr: 0x24u8,
                interrupt_type: InterruptType::Reset,
                ..*old(self)
            }),
    {
        self.sp = 0xFD;
        self.sr = 0x24;
        self.interrupt_type = InterruptType::Reset;
    }

    /// Latch a non-maskable interrupt; it is honoured at the next fetch.
    pub fn set_nmi(&mut self)
        ensures
            *final(self) == (Cpu6502 { interrupt_type: InterruptType::Nmi, ..*old(self) }),
    {
        self.interrupt_type = InterruptType::Nmi;
    }

    /// One CPU sub-cycle. At stage 1 it fetches an opcode (or installs a
    /// pending interrupt's micro-program) and always ends the cycle; at
    /// later stages it advances the current micro-program, incrementing the
    /// stage on `EndCycle` and rewinding it to 1 on `EndInstruction`.
    #[verifier::rlimit(100)]
    pub fn tick<B: BusOps>(&mut self, bus: &mut B) -> (result: CycleResult)
        ensures
            old(bus).inv() ==> final(bus).inv(),
            final(bus).frame_clock() == old(bus).frame_clock(),
            final(bus).frame_pending() == old(bus).frame_pending(),
            final(bus).prg() == old(bus).prg(),
            old(self).stage == 1 ==> result is EndCycle && final(self).stage == 2
                && final(self).a == old(self).a && final(self).x == old(self).x
                && final(self).y == old(self).y && final(self).sp == old(self).sp
                && final(self).sr == old(self).sr && final(self).interrupt_type is Idle
                && final(bus).ram() == old(bus).ram(),
            old(self).stage == 1 && old(self).interrupt_type is Idle ==>
                final(self).pc == old(self).pc.wrapping_add(1),
            old(self).stage == 1 && !(old(self).interrupt_type is Idle) ==>
                final(self).pc == old(self).pc
                && final(self).op == spec_interrupt_op(old(self).interrupt_type),
            old(self).stage != 1 && result is EndInstruction ==> final(self).stage == 1,
            old(self).stage != 1 && result is EndCycle ==>
                old(self).stage <= 8 && final(self).stage == old(self).stage + 1,
            !(result is Continue),
            spec_at_most_one_store(old(bus).ram(), final(bus).ram()),
            old(self).stage == 1 ==> final(bus).prg_banks() == old(bus).prg_banks()
                && final(bus).oam() == old(bus).oam() && final(bus).oam_addr() == old(bus).oam_addr(),
            old(self).stage == 1 && old(self).interrupt_type is Idle && old(self).pc < 0x2000 ==>
                (final(self).addressing_mode, final(self).instruction_type, final(self).op)
                    == spec_decode(spec_ram_read(old(bus).ram(), old(self).pc)),
            old(self).stage == 1 && old(self).interrupt_type is Idle && old(self).pc & 0xC000 == 0x8000 ==>
                (final(self).addressing_mode, final(self).instruction_type, final(self).op)
                    == spec_decode(spec_prg_read(old(bus).prg(), old(bus).prg_banks().0, old(self).pc)),
            old(self).stage == 1 && old(self).interrupt_type is Idle && old(self).pc & 0xC000 == 0xC000 ==>
                (final(self).addressing_mode, final(self).instruction_type, final(self).op)
                    == spec_decode(spec_prg_read(old(bus).prg(), old(bus).prg_banks().1, old(self).pc)),
            old(self).stage != 1 && old(self).op is Adc ==> ({
                &&& (final(self).addressing_mode == old(self).addressing_mode)
                &&& (final(self).instruction_type == old(self).instruction_type)
                &&& (final(self).op == old(self).op)
                &&& (final(self).interrupt_type == old(self).interrupt_type)
                &&& (old(self).instruction_type is Read ==> final(bus).ram() == old(bus).ram())
                &&& (result is EndInstruction && !(old(self).addressing_mode is Relative) ==> final(self).sr == spec_adc(old(self).sr, old(self).a, final(self).value).0 && final(self).a == spec_adc(old(self).sr, old(self).a, final(self).value).1 && final(self).x == old(self).x && final(self).y == old(self).y && final(self).sp == old(self).sp)
                &&& (!(result is EndInstruction) ==> final(self).a == old(self).a && final(self).sr == old(self).sr && final(self).x == old(self).x && final(self).y == old(self).y && final(self).sp == old(self).sp)
            }),
            old(self).stage != 1 && old(self).op is Ahx ==> ({
                &&& (result is Error)
                &&& (*final(self) == *old(self))
                &&& (*final(bus) == *old(bus))
            }),
            old(self).stage != 1 && old(self).op is Alr ==> ({
                &&& (result is Error)
                &&& (*final(self) == *old(self))
                &&& (*final(bus) == *old(bus))
            }),
            old(self).stage != 1 && old(self).op is Anc ==> ({
                &&& (result is Error)
                &&& (*final(self) == *old(self))
                &&& (*final(bus) == *old(bus))
            }),
            old(self).stage != 1 && old(self).op is And ==> ({
                &&& (final(self).addressing_mode == old(self).addressing_mode)
                &&& (final(self).instruction_type == old(self).instruction_type)
                &&& (final(self).op == old(self).op)
                &&& (final(self).interrupt_type == old(self).interrupt_type)
                &&& (old(self).instruction_type is Read ==> final(bus).ram() == old(bus).ram())
                &&& (result is EndInstruction && !(old(self).addressing_mode is Relative) ==> final(self).a == (old(self).a & final(self).value) && final(self).sr == spec_nz(old(self).sr, old(self).a & final(self).value) && final(self).x == old(self).x && final(self).y == old(self).y && final(self).sp == old(self).sp)
                &&& (!(result is EndInstruction) ==> final(self).a == old(self).a && final(self).sr == old(self).sr && final(self).x == old(self).x && final(self).y == old(self).y && final(self).sp == old(self).sp)
            }),
            old(self).stage != 1 && old(self).op is Arr ==> ({
                &&& (result is Error)
                &&& (*final(self) == *old(self))
                &&& (*final(bus) == *old(bus))
            }),
            old(self).stage != 1 && old(self).op is Asl ==> ({
                &&& (final(self).addressing_mode == old(self).addressing_mode)
                &&& (final(self).instruction_type == old(self).instruction_type)
                &&& (final(self).op == old(self).op)
                &&& (final(self).interrupt_type == old(self).interrupt_type)
                &&& (final(self).x == old(self).x && final(self).y == old(self).y && final(self).sp == old(self).sp)
                &&& (result is EndInstruction && old(self).addressing_mode is Accumulator ==>
                final(self).a == (old(self).a << 1u32)
                && final(self).sr == spec_shift_flags(old(self).sr, (old(self).a & 0x80) != 0, (old(self).a << 1u32))
                && final(bus).ram() == old(bus).ram())
                &&& (result is EndInstruction && !(old(self).addressing_mode is Accumulator)
                && spec_rmw_mode(old(self).addressing_mode)
                && old(self).instruction_type is ReadModifyWrite ==>
                final(self).value == (old(self).value << 1u32)
                && final(self).a == old(self).a
                && final(self).sr == spec_shift_flags(old(self).sr, (old(self).value & 0x80) != 0, (old(self).value << 1u32))
                && final(bus).ram() == spec_ram_write(old(bus).ram(), old(self).address, (old(self).value << 1u32)))
                &&& (!(result is EndInstruction) ==> final(self).a == old(self).a && final(self).sr == old(self).sr)
            }),
            old(self).stage != 1 && old(self).op is Axs ==> ({
                &&& (result is Error)
                &&& (*final(self) == *old(self))
                &&& (*final(bus) == *old(bus))
            }),
            old(self).stage != 1 && old(self).op is Bcc ==> ({
                &&& (final(self).addressing_mode == old(self).addressing_mode)
                &&& (final(self).instruction_type == old(self).instruction_type)
                &&& (final(self).op == old(self).op)
                &&& (final(self).interrupt_type == old(self).interrupt_type)
                &&& (final(self).a == old(self).a && final(self).x == old(self).x && final(self).y == old(self).y
                && final(self).sp == old(self).sp && final(self).sr == old(self).sr)
                &&& (old(self).instruction_type is Branching ==> final(bus).ram() == old(bus).ram())
                &&& (old(self).addressing_mode is Relative && old(self).stage == 2 ==>
                final(self).pc == old(self).pc.wrapping_add(1)
                && (result is EndCycle <==> old(self).sr & 0x01 == 0)
                && (result is EndInstruction <==> !(old(self).sr & 0x01 == 0)))
                &&& (old(self).addressing_mode is Relative && old(self).stage == 3 ==>
                (if spec_branch_crossed(old(self).pc, old(self).value) {
                    result is EndCycle && final(self).pc == old(self).pc
                } else {
                    result is EndInstruction
                        && final(self).pc == spec_branch_target(old(self).pc, old(self).value)
                }))
                &&& (old(self).addressing_mode is Relative && old(self).stage == 4 ==>
                result is EndInstruction
                && final(self).pc == spec_branch_target(old(self).pc, old(self).value))
                &&& (old(self).addressing_mode is Relative && !(2 <= old(self).stage <= 4) ==> result is Error)
            }),
            old(self).stage != 1 && old(self).op is Bcs ==> ({
                &&& (final(self).addressing_mode == old(self).addressing_mode)
                &&& (final(self).instruction_type == old(self).instruction_type)
                &&& (final(self).op == old(self).op)
                &&& (final(self).interrupt_type == old(self).interrupt_type)
                &&& (final(self).a == old(self).a && final(self).x == old(self).x && final(self).y == old(self).y
                && final(self).sp == old(self).sp && final(self).sr == old(self).sr)
                &&& (old(self).instruction_type is Branching ==> final(bus).ram() == old(bus).ram())
                &&& (old(self).addressing_mode is Relative && old(self).stage == 2 ==>
                final(self).pc == old(self).pc.wrapping_add(1)
                && (result is EndCycle <==> old(self).sr & 0x01 != 0)
                && (result is EndInstruction <==> !(old(self).sr & 0x01 != 0)))
                &&& (old(self).addressing_mode is Relative && old(self).stage == 3 ==>
                (if spec_branch_crossed(old(self).pc, old(self).value) {
                    result is EndCycle && final(self).pc == old(self).pc
                } else {
                    result is EndInstruction
                        && final(self).pc == spec_branch_target(old(self).pc, old(self).value)
                }))
                &&& (old(self).addressing_mode is Relative && old(self).stage == 4 ==>
                result is EndInstruction
                && final(self).pc == spec_branch_target(old(self).pc, old(self).value))
                &&& (old(self).addressing_mode is Relative && !(2 <= old(self).stage <= 4) ==> result is Error)
            }),
            old(self).stage != 1 && old(self).op is Beq ==> ({
                &&& (final(self).addressing_mode == old(self).addressing_mode)
                &&& (final(self).instruction_type == old(self).instruction_type)
                &&& (final(self).op == old(self).op)
                &&& (final(self).interrupt_type == old(self).interrupt_type)
                &&& (final(self).a == old(self).a && final(self).x == old(self).x && final(self).y == old(self).y
                && final(self).sp == old(self).sp && final(self).sr == old(self).sr)
                &&& (old(self).instruction_type is Branching ==> final(bus).ram() == old(bus).ram())
                &&& (old(self).addressing_mode is Relative && old(self).stage == 2 ==>
                final(self).pc == old(self).pc.wrapping_add(1)
                && (result is EndCycle <==> old(self).sr & 0x02 != 0)
                && (result is EndInstruction <==> !(old(self).sr & 0x02 != 0)))
                &&& (old(self).addressing_mode is Relative && old(self).stage == 3 ==>
                (if spec_branch_crossed(old(self).pc, old(self).value) {
                    result is EndCycle && final(self).pc == old(self).pc
                } else {
                    result is EndInstruction
                        && final(self).pc == spec_branch_target(old(self).pc, old(self).value)
                }))
                &&& (old(self).addressing_mode is Relative && old(self).stage == 4 ==>
                result is EndInstruction
                && final(self).pc == spec_branch_target(old(self).pc, old(self).value))
                &&& (old(self).addressing_mode is Relative && !(2 <= old(self).stage <= 4) ==> result is Error)
            }),
            old(self).stage != 1 && old(self).op is Bit ==> ({
                &&& (final(self).addressing_mode == old(self).addressing_mode)
                &&& (final(self).instruction_type == old(self).instruction_type)
                &&& (final(self).op == old(self).op)
                &&& (final(self).interrupt_type == old(self).interrupt_type)
                &&& (old(self).instruction_type is Read ==> final(bus).ram() == old(bus).ram())
                &&& (result is EndInstruction && !(old(self).addressing_mode is Relative) ==> final(self).sr == spec_bit(old(self).sr, old(self).a, final(self).value) && final(self).a == old(self).a && final(self).x == old(self).x && final(self).y == old(self).y && final(self).sp == old(self).sp)
                &&& (!(result is EndInstruction) ==> final(self).a == old(self).a && final(self).sr == old(self).sr && final(self).x == old(self).x && final(self).y == old(self).y && final(self).sp == old(self).sp)
            }),
            old(self).stage != 1 && old(self).op is Bmi ==> ({
                &&& (final(self).addressing_mode == old(self).addressing_mode)
                &&& (final(self).instruction_type == old(self).instruction_type)
                &&& (final(self).op == old(self).op)
                &&& (final(self).interrupt_type == old(self).interrupt_type)
                &&& (final(self).a == old(self).a && final(self).x == old(self).x && final(self).y == old(self).y
                && final(self).sp == old(self).sp && final(self).sr == old(self).sr)
                &&& (old(self).instruction_type is Branching ==> final(bus).ram() == old(bus).ram())
                &&& (old(self).addressing_mode is Relative && old(self).stage == 2 ==>
                final(self).pc == old(self).pc.wrapping_add(1)
                && (result is EndCycle <==> old(self).sr & 0x80 != 0)
                && (result is EndInstruction <==> !(old(self).sr & 0x80 != 0)))
                &&& (old(self).addressing_mode is Relative && old(self).stage == 3 ==>
                (if spec_branch_crossed(old(self).pc, old(self).value) {
                    result is EndCycle && final(self).pc == old(self).pc
                } else {
                    result is EndInstruction
                        && final(self).pc == spec_branch_target(old(self).pc, old(self).value)
                }))
                &&& (old(self).addressing_mode is Relative && old(self).stage == 4 ==>
                result is EndInstruction
                && final(self).pc == spec_branch_target(old(self).pc, old(self).value))
                &&& (old(self).addressing_mode is Relative && !(2 <= old(self).stage <= 4) ==> result is Error)
            }),
            old(self).stage != 1 && old(self).op is Bne ==> ({
                &&& (final(self).addressing_mode == old(self).addressing_mode)
                &&& (final(self).instruction_type == old(self).instruction_type)
                &&& (final(self).op == old(self).op)
                &&& (final(self).interrupt_type == old(self).interrupt_type)
                &&& (final(self).a == old(self).a && final(self).x == old(self).x && final(self).y == old(self).y
                && final(self).sp == old(self).sp && final(self).sr == old(self).sr)
                &&& (old(self).instruction_type is Branching ==> final(bus).ram() == old(bus).ram())
                &&& (old(self).addressing_mode is Relative && old(self).stage == 2 ==>
                final(self).pc == old(self).pc.wrapping_add(1)
                && (result is EndCycle <==> old(self).sr & 0x02 == 0)
                && (result is EndInstruction <==> !(old(self).sr & 0x02 == 0)))
                &&& (old(self).addressing_mode is Relative && old(self).stage == 3 ==>
                (if spec_branch_crossed(old(self).pc, old(self).value) {
                    result is EndCycle && final(self).pc == old(self).pc
                } else {
                    result is EndInstruction
                        && final(self).pc == spec_branch_target(old(self).pc, old(self).value)
                }))
                &&& (old(self).addressing_mode is Relative && old(self).stage == 4 ==>
                result is EndInstruction
                && final(self).pc == spec_branch_target(old(self).pc, old(self).value))
                &&& (old(self).addressing_mode is Relative && !(2 <= old(self).stage <= 4) ==> result is Error)
            }),
            old(self).stage != 1 && old(self).op is Bpl ==> ({
                &&& (final(self).addressing_mode == old(self).addressing_mode)
                &&& (final(self).instruction_type == old(self).instruction_type)
                &&& (final(self).op == old(self).op)
                &&& (final(self).interrupt_type == old(self).interrupt_type)
                &&& (final(self).a == old(self).a && final(self).x == old(self).x && final(self).y == old(self).y
                && final(self).sp == old(self).sp && final(self).sr == old(self).sr)
                &&& (old(self).instruction_type is Branching ==> final(bus).ram() == old(bus).ram())
                &&& (old(self).addressing_mode is Relative && old(self).stage == 2 ==>
                final(self).pc == old(self).pc.wrapping_add(1)
                && (result is EndCycle <==> old(self).sr & 0x80 == 0)
                && (result is EndInstruction <==> !(old(self).sr & 0x80 == 0)))
                &&& (old(self).addressing_mode is Relative && old(self).stage == 3 ==>
                (if spec_branch_crossed(old(self).pc, old(self).value) {
                    result is EndCycle && final(self).pc == old(self).pc
                } else {
                    result is EndInstruction
                        && final(self).pc == spec_branch_target(old(self).pc, old(self).value)
                }))
                &&& (old(self).addressing_mode is Relative && old(self).stage == 4 ==>
                result is EndInstruction
                && final(self).pc == spec_branch_target(old(self).pc, old(self).value))
                &&& (old(self).addressing_mode is Relative && !(2 <= old(self).stage <= 4) ==> result is Error)
            }),
            old(self).stage != 1 && old(self).op is Brk ==> ({
                &&& (final(bus).prg_banks() == old(bus).prg_banks())
                &&& (final(bus).oam() == old(bus).oam())
                &&& (final(bus).oam_addr() == old(bus).oam_addr())
                &&& (final(self).addressing_mode == old(self).addressing_mode)
                &&& (final(self).instruction_type == old(self).instruction_type)
                &&& (final(self).op == old(self).op)
                &&& (final(self).interrupt_type == old(self).interrupt_type)
                &&& (final(self).a == old(self).a && final(self).x == old(self).x && final(self).y == old(self).y)
                &&& (old(self).stage == 2 ==> result is EndCycle && final(self).pc == old(self).pc.wrapping_add(1)
                && final(self).sp == old(self).sp && final(self).sr == old(self).sr
                && final(bus).ram() == old(bus).ram())
                &&& (old(self).stage == 3 ==> result is EndCycle && final(self).pc == old(self).pc
                && final(self).sp == old(self).sp.wrapping_sub(1) && final(self).sr == old(self).sr
                && final(bus).ram() == spec_ram_write(old(bus).ram(), spec_stack_address(old(self).sp), (old(self).pc >> 8u32) as u8))
                &&& (old(self).stage == 4 ==> result is EndCycle && final(self).pc == old(self).pc
                && final(self).sp == old(self).sp.wrapping_sub(1) && final(self).sr == old(self).sr
                && final(bus).ram() == spec_ram_write(old(bus).ram(), spec_stack_address(old(self).sp), (old(self).pc & 0xFF) as u8))
                &&& (old(self).stage == 5 ==> result is EndCycle && final(self).pc == old(self).pc
                && final(self).sp == old(self).sp.wrapping_sub(1)
                && final(self).sr == spec_set_flag(old(self).sr, 0x04, true)
                && final(bus).ram() == spec_ram_write(old(bus).ram(), spec_stack_address(old(self).sp),
                    old(self).sr | 0x30))
                &&& (old(self).stage == 6 ==> result is EndCycle && final(self).sp == old(self).sp
                && final(self).sr == old(self).sr && final(bus).ram() == old(bus).ram()
                && final(self).pc == (old(self).pc & 0xFF00)
                    | spec_prg_read(old(bus).prg(), old(bus).prg_banks().1, 0xFFFE) as u16)
                &&& (old(self).stage == 7 ==> result is EndInstruction && final(self).sp == old(self).sp
                && final(self).sr == old(self).sr && final(bus).ram() == old(bus).ram()
                && final(self).pc == ((spec_prg_read(old(bus).prg(), old(bus).prg_banks().1, 0xFFFF) as u16) << 8u32)
                    | (old(self).pc & 0xFF))
                &&& (!(2 <= old(self).stage <= 7) ==> result is Error)
            }),
            old(self).stage != 1 && old(self).op is Bvc ==> ({
                &&& (final(self).addressing_mode == old(self).addressing_mode)
                &&& (final(self).instruction_type == old(self).instruction_type)
                &&& (final(self).op == old(self).op)
                &&& (final(self).interrupt_type == old(self).interrupt_type)
                &&& (final(self).a == old(self).a && final(self).x == old(self).x && final(self).y == old(self).y
                && final(self).sp == old(self).sp && final(self).sr == old(self).sr)
                &&& (old(self).instruction_type is Branching ==> final(bus).ram() == old(bus).ram())
                &&& (old(self).addressing_mode is Relative && old(self).stage == 2 ==>
                final(self).pc == old(self).pc.wrapping_add(1)
                && (result is EndCycle <==> old(self).sr & 0x40 == 0)
                && (result is EndInstruction <==> !(old(self).sr & 0x40 == 0)))
                &&& (old(self).addressing_mode is Relative && old(self).stage == 3 ==>
                (if spec_branch_crossed(old(self).pc, old(self).value) {
                    result is EndCycle && final(self).pc == old(self).pc
                } else {
                    result is EndInstruction
                        && final(self).pc == spec_branch_target(old(self).pc, old(self).value)
                }))
                &&& (old(self).addressing_mode is Relative && old(self).stage == 4 ==>
                result is EndInstruction
                && final(self).pc == spec_branch_target(old(self).pc, old(self).value))
                &&& (old(self).addressing_mode is Relative && !(2 <= old(self).stage <= 4) ==> result is Error)
            }),
            old(self).stage != 1 && old(self).op is Bvs ==> ({
                &&& (final(self).addressing_mode == old(self).addressing_mode)
                &&& (final(self).instruction_type == old(self).instruction_type)
                &&& (final(self).op == old(self).op)
                &&& (final(self).interrupt_type == old(self).interrupt_type)
                &&& (final(self).a == old(self).a && final(self).x == old(self).x && final(self).y == old(self).y
                && final(self).sp == old(self).sp && final(self).sr == old(self).sr)
                &&& (old(self).instruction_type is Branching ==> final(bus).ram() == old(bus).ram())
                &&& (old(self).addressing_mode is Relative && old(self).stage == 2 ==>
                final(self).pc == old(self).pc.wrapping_add(1)
                && (result is EndCycle <==> old(self).sr & 0x40 != 0)
                && (result is EndInstruction <==> !(old(self).sr & 0x40 != 0)))
                &&& (old(self).addressing_mode is Relative && old(self).stage == 3 ==>
                (if spec_branch_crossed(old(self).pc, old(self).value) {
                    result is EndCycle && final(self).pc == old(self).pc
                } else {
                    result is EndInstruction
                        && final(self).pc == spec_branch_target(old(self).pc, old(self).value)
                }))
                &&& (old(self).addressing_mode is Relative && old(self).stage == 4 ==>
                result is EndInstruction
                && final(self).pc == spec_branch_target(old(self).pc, old(self).value))
                &&& (old(self).addressing_mode is Relative && !(2 <= old(self).stage <= 4) ==> result is Error)
            }),
            old(self).stage != 1 && old(self).op is Clc ==> ({
                &&& (result is EndInstruction)
                &&& (*final(self) == (Cpu6502 { sr: spec_set_flag(old(self).sr, 0x01, false), stage: final(self).stage, ..*old(self) }))
                &&& (*final(bus) == *old(bus))
            }),
            old(self).stage != 1 && old(self).op is Cld ==> ({
                &&& (result is EndInstruction)
                &&& (*final(self) == (Cpu6502 { sr: spec_set_flag(old(self).sr, 0x08, false), stage: final(self).stage, ..*old(self) }))
                &&& (*final(bus) == *old(bus))
            }),
            old(self).stage != 1 && old(self).op is Cli ==> ({
                &&& (result is EndInstruction)
                &&& (*final(self) == (Cpu6502 { sr: spec_set_flag(old(self).sr, 0x04, false), stage: final(self).stage, ..*old(self) }))
                &&& (*final(bus) == *old(bus))
            }),
            old(self).stage != 1 && old(self).op is Clv ==> ({
                &&& (result is EndInstruction)
                &&& (*final(self) == (Cpu6502 { sr: spec_set_flag(old(self).sr, 0x40, false), stage: final(self).stage, ..*old(self) }))
                &&& (*final(bus) == *old(bus))
            }),
            old(self).stage != 1 && old(self).op is Cmp ==> ({
                &&& (final(self).addressing_mode == old(self).addressing_mode)
                &&& (final(self).instruction_type == old(self).instruction_type)
                &&& (final(self).op == old(self).op)
                &&& (final(self).interrupt_type == old(self).interrupt_type)
                &&& (old(self).instruction_type is Read ==> final(bus).ram() == old(bus).ram())
                &&& (result is EndInstruction && !(old(self).addressing_mode is Relative) ==> final(self).sr == spec_cmp(old(self).sr, old(self).a, final(self).value) && final(self).a == old(self).a && final(self).x == old(self).x && final(self).y == old(self).y && final(self).sp == old(self).sp)
                &&& (!(result is EndInstruction) ==> final(self).a == old(self).a && final(self).sr == old(self).sr && final(self).x == old(self).x && final(self).y == old(self).y && final(self).sp == old(self).sp)
            }),
            old(self).stage != 1 && old(self).op is Cpx ==> ({
                &&& (final(self).addressing_mode == old(self).addressing_mode)
                &&& (final(self).instruction_type == old(self).instruction_type)
                &&& (final(self).op == old(self).op)
                &&& (final(self).interrupt_type == old(self).interrupt_type)
                &&& (old(self).instruction_type is Read ==> final(bus).ram() == old(bus).ram())
                &&& (result is EndInstruction && !(old(self).addressing_mode is Relative) ==> final(self).sr == spec_cmp(old(self).sr, old(self).x, final(self).value) && final(self).a == old(self).a && final(self).x == old(self).x && final(self).y == old(self).y && final(self).sp == old(self).sp)
                &&& (!(result is EndInstruction) ==> final(self).a == old(self).a && final(self).sr == old(self).sr && final(self).x == old(self).x && final(self).y == old(self).y && final(self).sp == old(self).sp)
            }),
            old(self).stage != 1 && old(self).op is Cpy ==> ({
                &&& (final(self).addressing_mode == old(self).addressing_mode)
                &&& (final(self).instruction_type == old(self).instruction_type)
                &&& (final(self).op == old(self).op)
                &&& (final(self).interrupt_type == old(self).interrupt_type)
                &&& (old(self).instruction_type is Read ==> final(bus).ram() == old(bus).ram())
                &&& (result is EndInstruction && !(old(self).addressing_mode is Relative) ==> final(self).sr == spec_cmp(old(self).sr, old(self).y, final(self).value) && final(self).a == old(self).a && final(self).x == old(self).x && final(self).y == old(self).y && final(self).sp == old(self).sp)
                &&& (!(result is EndInstruction) ==> final(self).a == old(self).a && final(self).sr == old(self).sr && final(self).x == old(self).x && final(self).y == old(self).y && final(self).sp == old(self).sp)
            }),
            old(self).stage != 1 && old(self).op is Dcp ==> ({
                &&& (result is Error)
                &&& (*final(self) == *old(self))
                &&& (*final(bus) == *old(bus))
            }),
            old(self).stage != 1 && old(self).op is Dec ==> ({
                &&& (final(self).addressing_mode == old(self).addressing_mode)
                &&& (final(self).instruction_type == old(self).instruction_type)
                &&& (final(self).op == old(self).op)
                &&& (final(self).interrupt_type == old(self).interrupt_type)
                &&& (final(self).a == old(self).a && final(self).x == old(self).x
                && final(self).y == old(self).y && final(self).sp == old(self).sp)
                &&& (result is EndInstruction && spec_rmw_mode(old(self).addressing_mode)
                && old(self).instruction_type is ReadModifyWrite ==>
                final(self).value == old(self).value.wrapping_sub(1)
                && final(self).sr == spec_nz(old(self).sr, old(self).value.wrapping_sub(1))
                && final(bus).ram() == spec_ram_write(old(bus).ram(), old(self).address, old(self).value.wrapping_sub(1)))
                &&& (result is EndInstruction && !(old(self).addressing_mode is Relative) ==> final(self).sr == spec_nz(old(self).sr, final(self).value)
                && final(bus).ram() == spec_ram_write(old(bus).ram(), final(self).address, final(self).value))
                &&& (!(result is EndInstruction) ==> final(self).sr == old(self).sr)
            }),
            old(self).stage != 1 && old(self).op is Dex ==> ({
                &&& (result is EndInstruction)
                &&& (*final(self) == (Cpu6502 { x: old(self).x.wrapping_sub(1), sr: spec_nz(old(self).sr, old(self).x.wrapping_sub(1)), stage: final(self).stage, ..*old(self) }))
                &&& (*final(bus) == *old(bus))
            }),
            old(self).stage != 1 && old(self).op is Dey ==> ({
                &&& (result is EndInstruction)
                &&& (*final(self) == (Cpu6502 { y: old(self).y.wrapping_sub(1), sr: spec_nz(old(self).sr, old(self).y.wrapping_sub(1)), stage: final(self).stage, ..*old(self) }))
                &&& (*final(bus) == *old(bus))
            }),
            old(self).stage != 1 && old(self).op is Eor ==> ({
                &&& (final(self).addressing_mode == old(self).addressing_mode)
                &&& (final(self).instruction_type == old(self).instruction_type)
                &&& (final(self).op == old(self).op)
                &&& (final(self).interrupt_type == old(self).interrupt_type)
                &&& (old(self).instruction_type is Read ==> final(bus).ram() == old(bus).ram())
                &&& (result is EndInstruction && !(old(self).addressing_mode is Relative) ==> final(self).a == (old(self).a ^ final(self).value) && final(self).sr == spec_nz(old(self).sr, old(self).a ^ final(self).value) && final(self).x == old(self).x && final(self).y == old(self).y && final(self).sp == old(self).sp)
                &&& (!(result is EndInstruction) ==> final(self).a == old(self).a && final(self).sr == old(self).sr && final(self).x == old(self).x && final(self).y == old(self).y && final(self).sp == old(self).sp)
            }),
            old(self).stage != 1 && old(self).op is Inc ==> ({
                &&& (final(self).addressing_mode == old(self).addressing_mode)
                &&& (final(self).instruction_type == old(self).instruction_type)
                &&& (final(self).op == old(self).op)
                &&& (final(self).interrupt_type == old(self).interrupt_type)
                &&& (final(self).a == old(self).a && final(self).x == old(self).x
                && final(self).y == old(self).y && final(self).sp == old(self).sp)
                &&& (result is EndInstruction && spec_rmw_mode(old(self).addressing_mode)
                && old(self).instruction_type is ReadModifyWrite ==>
                final(self).value == old(self).value.wrapping_add(1)
                && final(self).sr == spec_nz(old(self).sr, old(self).value.wrapping_add(1))
                && final(bus).ram() == spec_ram_write(old(bus).ram(), old(self).address, old(self).value.wrapping_add(1)))
                &&& (result is EndInstruction && !(old(self).addressing_mode is Relative) ==> final(self).sr == spec_nz(old(self).sr, final(self).value)
                && final(bus).ram() == spec_ram_write(old(bus).ram(), final(self).address, final(self).value))
                &&& (!(result is EndInstruction) ==> final(self).sr == old(self).sr)
            }),
            old(self).stage != 1 && old(self).op is Inx ==> ({
                &&& (result is EndInstruction)
                &&& (*final(self) == (Cpu6502 { x: old(self).x.wrapping_add(1), sr: spec_nz(old(self).sr, old(self).x.wrapping_add(1)), stage: final(self).stage, ..*old(self) }))
                &&& (*final(bus) == *old(bus))
            }),
            old(self).stage != 1 && old(self).op is Iny ==> ({
                &&& (result is EndInstruction)
                &&& (*final(self) == (Cpu6502 { y: old(self).y.wrapping_add(1), sr: spec_nz(old(self).sr, old(self).y.wrapping_add(1)), stage: final(self).stage, ..*old(self) }))
                &&& (*final(bus) == *old(bus))
            }),
            old(self).stage != 1 && old(self).op is Irq ==> ({
                &&& (final(bus).prg_banks() == old(bus).prg_banks())
                &&& (final(bus).oam() == old(bus).oam())
                &&& (final(bus).oam_addr() == old(bus).oam_addr())
                &&& (final(self).addressing_mode == old(self).addressing_mode)
                &&& (final(self).instruction_type == old(self).instruction_type)
                &&& (final(self).op == old(self).op)
                &&& (final(self).interrupt_type == old(self).interrupt_type)
                &&& (final(self).a == old(self).a && final(self).x == old(self).x && final(self).y == old(self).y)
                &&& (old(self).stage == 2 ==> result is EndCycle && final(self).pc == old(self).pc
                && final(self).sp == old(self).sp && final(self).sr == old(self).sr
                && final(bus).ram() == old(bus).ram())
                &&& (old(self).stage == 3 ==> result is EndCycle && final(self).pc == old(self).pc
                && final(self).sp == old(self).sp.wrapping_sub(1) && final(self).sr == old(self).sr
                && final(bus).ram() == spec_ram_write(old(bus).ram(), spec_stack_address(old(self).sp), (old(self).pc >> 8u32) as u8))
                &&& (old(self).stage == 4 ==> result is EndCycle && final(self).pc == old(self).pc
                && final(self).sp == old(self).sp.wrapping_sub(1) && final(self).sr == old(self).sr
                && final(bus).ram() == spec_ram_write(old(bus).ram(), spec_stack_address(old(self).sp), (old(self).pc & 0xFF) as u8))
                &&& (old(self).stage == 5 ==> result is EndCycle && final(self).pc == old(self).pc
                && final(self).sp == old(self).sp.wrapping_sub(1)
                && final(self).sr == spec_set_flag(old(self).sr, 0x04, true)
                && final(bus).ram() == spec_ram_write(old(bus).ram(), spec_stack_address(old(self).sp),
                    spec_set_flag(spec_set_flag(old(self).sr, 0x20, true), 0x10, false)))
                &&& (old(self).stage == 6 ==> result is EndCycle && final(self).sp == old(self).sp
                && final(self).sr == old(self).sr && final(bus).ram() == old(bus).ram()
                && final(self).pc == (old(self).pc & 0xFF00)
                    | spec_prg_read(old(bus).prg(), old(bus).prg_banks().1, 0xFFFE) as u16)
                &&& (old(self).stage == 7 ==> result is EndInstruction && final(self).sp == old(self).sp
                && final(self).sr == old(self).sr && final(bus).ram() == old(bus).ram()
                && final(self).pc == ((spec_prg_read(old(bus).prg(), old(bus).prg_banks().1, 0xFFFF) as u16) << 8u32)
                    | (old(self).pc & 0xFF))
                &&& (!(2 <= old(self).stage <= 7) ==> result is Error)
            }),
            old(self).stage != 1 && old(self).op is Isc ==> ({
                &&& (result is Error)
                &&& (*final(self) == *old(self))
                &&& (*final(bus) == *old(bus))
            }),
            old(self).stage != 1 && old(self).op is Jmp ==> ({
                &&& (final(self).addressing_mode == old(self).addressing_mode)
                &&& (final(self).instruction_type == old(self).instruction_type)
                &&& (final(self).op == old(self).op)
                &&& (final(self).interrupt_type == old(self).interrupt_type)
                &&& (old(self).instruction_type is Read ==> final(bus).ram() == old(bus).ram())
                &&& (result is EndInstruction && !(old(self).addressing_mode is Relative) ==> final(self).pc == final(self).address && final(self).a == old(self).a && final(self).sr == old(self).sr && final(self).x == old(self).x && final(self).y == old(self).y && final(self).sp == old(self).sp)
                &&& (!(result is EndInstruction) ==> final(self).a == old(self).a && final(self).sr == old(self).sr && final(self).x == old(self).x && final(self).y == old(self).y && final(self).sp == old(self).sp)
            }),
            old(self).stage != 1 && old(self).op is Jsr ==> ({
                &&& (final(bus).prg_banks() == old(bus).prg_banks())
                &&& (final(bus).oam() == old(bus).oam())
                &&& (final(bus).oam_addr() == old(bus).oam_addr())
                &&& (final(self).addressing_mode == old(self).addressing_mode)
                &&& (final(self).instruction_type == old(self).instruction_type)
                &&& (final(self).op == old(self).op)
                &&& (final(self).interrupt_type == old(self).interrupt_type)
                &&& (final(self).a == old(self).a && final(self).x == old(self).x && final(self).y == old(self).y
                && final(self).sr == old(self).sr)
                &&& (old(self).stage == 2 ==> result is EndCycle && final(self).pc == old(self).pc.wrapping_add(1)
                && final(self).sp == old(self).sp && final(bus).ram() == old(bus).ram()
                && (old(self).pc < 0x2000 ==> final(self).address
                    == (old(self).address & 0xFF00) | spec_ram_read(old(bus).ram(), old(self).pc) as u16))
                &&& (old(self).stage == 3 ==> result is EndCycle && final(self).pc == old(self).pc
                && final(self).sp == old(self).sp && final(bus).ram() == old(bus).ram())
                &&& (old(self).stage == 4 ==> result is EndCycle && final(self).pc == old(self).pc
                && final(self).sp == old(self).sp.wrapping_sub(1)
                && final(bus).ram() == spec_ram_write(old(bus).ram(), spec_stack_address(old(self).sp), (old(self).pc >> 8u32) as u8))
                &&& (old(self).stage == 5 ==> result is EndCycle && final(self).pc == old(self).pc
                && final(self).sp == old(self).sp.wrapping_sub(1)
                && final(bus).ram() == spec_ram_write(old(bus).ram(), spec_stack_address(old(self).sp), (old(self).pc & 0xFF) as u8))
                &&& (old(self).stage == 6 ==> result is EndInstruction && final(self).sp == old(self).sp
                && final(bus).ram() == old(bus).ram()
                && (old(self).pc < 0x2000 ==> final(self).pc
                    == ((spec_ram_read(old(bus).ram(), old(self).pc) as u16) << 8u32) | (old(self).address & 0xFF)))
                &&& (!(2 <= old(self).stage <= 6) ==> result is Error)
            }),
            old(self).stage != 1 && old(self).op is Las ==> ({
                &&& (result is Error)
                &&& (*final(self) == *old(self))
                &&& (*final(bus) == *old(bus))
            }),
            old(self).stage != 1 && old(self).op is Lax ==> ({
                &&& (result is Error)
                &&& (*final(self) == *old(self))
                &&& (*final(bus) == *old(bus))
            }),
            old(self).stage != 1 && old(self).op is Lda ==> ({
                &&& (final(self).addressing_mode == old(self).addressing_mode)
                &&& (final(self).instruction_type == old(self).instruction_type)
                &&& (final(self).op == old(self).op)
                &&& (final(self).interrupt_type == old(self).interrupt_type)
                &&& (old(self).instruction_type is Read ==> final(bus).ram() == old(bus).ram())
                &&& (result is EndInstruction && !(old(self).addressing_mode is Relative) ==> final(self).a == final(self).value && final(self).sr == spec_nz(old(self).sr, final(self).value) && final(self).x == old(self).x && final(self).y == old(self).y && final(self).sp == old(self).sp)
                &&& (!(result is EndInstruction) ==> final(self).a == old(self).a && final(self).sr == old(self).sr && final(self).x == old(self).x && final(self).y == old(self).y && final(self).sp == old(self).sp)
            }),
            old(self).stage != 1 && old(self).op is Ldx ==> ({
                &&& (final(self).addressing_mode == old(self).addressing_mode)
                &&& (final(self).instruction_type == old(self).instruction_type)
                &&& (final(self).op == old(self).op)
                &&& (final(self).interrupt_type == old(self).interrupt_type)
                &&& (old(self).instruction_type is Read ==> final(bus).ram() == old(bus).ram())
                &&& (result is EndInstruction && !(old(self).addressing_mode is Relative) ==> final(self).x == final(self).value && final(self).sr == spec_nz(old(self).sr, final(self).value) && final(self).a == old(self).a && final(self).y == old(self).y && final(self).sp == old(self).sp)
                &&& (!(result is EndInstruction) ==> final(self).a == old(self).a && final(self).sr == old(self).sr && final(self).x == old(self).x && final(self).y == old(self).y && final(self).sp == old(self).sp)
            }),
            old(self).stage != 1 && old(self).op is Ldy ==> ({
                &&& (final(self).addressing_mode == old(self).addressing_mode)
                &&& (final(self).instruction_type == old(self).instruction_type)
                &&& (final(self).op == old(self).op)
                &&& (final(self).interrupt_type == old(self).interrupt_type)
                &&& (old(self).instruction_type is Read ==> final(bus).ram() == old(bus).ram())
                &&& (result is EndInstruction && !(old(self).addressing_mode is Relative) ==> final(self).y == final(self).value && final(self).sr == spec_nz(old(self).sr, final(self).value) && final(self).a == old(self).a && final(self).x == old(self).x && final(self).sp == old(self).sp)
                &&& (!(result is EndInstruction) ==> final(self).a == old(self).a && final(self).sr == old(self).sr && final(self).x == old(self).x && final(self).y == old(self).y && final(self).sp == old(self).sp)
            }),
            old(self).stage != 1 && old(self).op is Lsr ==> ({
                &&& (final(self).addressing_mode == old(self).addressing_mode)
                &&& (final(self).instruction_type == old(self).instruction_type)
                &&& (final(self).op == old(self).op)
                &&& (final(self).interrupt_type == old(self).interrupt_type)
                &&& (final(self).x == old(self).x && final(self).y == old(self).y && final(self).sp == old(self).sp)
                &&& (result is EndInstruction && old(self).addressing_mode is Accumulator ==>
                final(self).a == (old(self).a >> 1u32)
                && final(self).sr == spec_shift_flags(old(self).sr, (old(self).a & 0x01) != 0, (old(self).a >> 1u32))
                && final(bus).ram() == old(bus).ram())
                &&& (result is EndInstruction && !(old(self).addressing_mode is Accumulator)
                && spec_rmw_mode(old(self).addressing_mode)
                && old(self).instruction_type is ReadModifyWrite ==>
                final(self).value == (old(self).value >> 1u32)
                && final(self).a == old(self).a
                && final(self).sr == spec_shift_flags(old(self).sr, (old(self).value & 0x01) != 0, (old(self).value >> 1u32))
                && final(bus).ram() == spec_ram_write(old(bus).ram(), old(self).address, (old(self).value >> 1u32)))
                &&& (!(result is EndInstruction) ==> final(self).a == old(self).a && final(self).sr == old(self).sr)
            }),
            old(self).stage != 1 && old(self).op is Nmi ==> ({
                &&& (final(bus).prg_banks() == old(bus).prg_banks())
                &&& (final(bus).oam() == old(bus).oam())
                &&& (final(bus).oam_addr() == old(bus).oam_addr())
                &&& (final(self).addressing_mode == old(self).addressing_mode)
                &&& (final(self).instruction_type == old(self).instruction_type)
                &&& (final(self).op == old(self).op)
                &&& (final(self).interrupt_type == old(self).interrupt_type)
                &&& (final(self).a == old(self).a && final(self).x == old(self).x && final(self).y == old(self).y)
                &&& (old(self).stage == 2 ==> result is EndCycle && final(self).pc == old(self).pc
                && final(self).sp == old(self).sp && final(self).sr == old(self).sr
                && final(bus).ram() == old(bus).ram())
                &&& (old(self).stage == 3 ==> result is EndCycle && final(self).pc == old(self).pc
                && final(self).sp == old(self).sp.wrapping_sub(1) && final(self).sr == old(self).sr
                && final(bus).ram() == spec_ram_write(old(bus).ram(), spec_stack_address(old(self).sp), (old(self).pc >> 8u32) as u8))
                &&& (old(self).stage == 4 ==> result is EndCycle && final(self).pc == old(self).pc
                && final(self).sp == old(self).sp.wrapping_sub(1) && final(self).sr == old(self).sr
                && final(bus).ram() == spec_ram_write(old(bus).ram(), spec_stack_address(old(self).sp), (old(self).pc & 0xFF) as u8))
                &&& (old(self).stage == 5 ==> result is EndCycle && final(self).pc == old(self).pc
                && final(self).sp == old(self).sp.wrapping_sub(1)
                && final(self).sr == spec_set_flag(old(self).sr, 0x04, true)
                && final(bus).ram() == spec_ram_write(old(bus).ram(), spec_stack_address(old(self).sp),
                    spec_set_flag(spec_set_flag(old(self).sr, 0x20, true), 0x10, false)))
                &&& (old(self).stage == 6 ==> result is EndCycle && final(self).sp == old(self).sp
                && final(self).sr == old(self).sr && final(bus).ram() == old(bus).ram()
                && final(self).pc == (old(self).pc & 0xFF00)
                    | spec_prg_read(old(bus).prg(), old(bus).prg_banks().1, 0xFFFA) as u16)
                &&& (old(self).stage == 7 ==> result is EndInstruction && final(self).sp == old(self).sp
                && final(self).sr == old(self).sr && final(bus).ram() == old(bus).ram()
                && final(self).pc == ((spec_prg_read(old(bus).prg(), old(bus).prg_banks().1, 0xFFFB) as u16) << 8u32)
                    | (old(self).pc & 0xFF))
                &&& (!(2 <= old(self).stage <= 7) ==> result is Error)
            }),
            old(self).stage != 1 && old(self).op is Nop ==> ({
                &&& (final(self).addressing_mode == old(self).addressing_mode)
                &&& (final(self).instruction_type == old(self).instruction_type)
                &&& (final(self).op == old(self).op)
                &&& (final(self).interrupt_type == old(self).interrupt_type)
                &&& (old(self).instruction_type is Read ==> final(bus).ram() == old(bus).ram())
                &&& (final(self).a == old(self).a && final(self).sr == old(self).sr && final(self).x == old(self).x
                && final(self).y == old(self).y && final(self).sp == old(self).sp)
            }),
            old(self).stage != 1 && old(self).op is Ora ==> ({
                &&& (final(self).addressing_mode == old(self).addressing_mode)
                &&& (final(self).instruction_type == old(self).instruction_type)
                &&& (final(self).op == old(self).op)
                &&& (final(self).interrupt_type == old(self).interrupt_type)
                &&& (old(self).instruction_type is Read ==> final(bus).ram() == old(bus).ram())
                &&& (result is EndInstruction && !(old(self).addressing_mode is Relative) ==> final(self).a == (old(self).a | final(self).value) && final(self).sr == spec_nz(old(self).sr, old(self).a | final(self).value) && final(self).x == old(self).x && final(self).y == old(self).y && final(self).sp == old(self).sp)
                &&& (!(result is EndInstruction) ==> final(self).a == old(self).a && final(self).sr == old(self).sr && final(self).x == old(self).x && final(self).y == old(self).y && final(self).sp == old(self).sp)
            }),
            old(self).stage != 1 && old(self).op is Pha ==> ({
                &&& (final(bus).prg_banks() == old(bus).prg_banks())
                &&& (final(bus).oam() == old(bus).oam())
                &&& (final(bus).oam_addr() == old(bus).oam_addr())
                &&& (final(self).addressing_mode == old(self).addressing_mode)
                &&& (final(self).instruction_type == old(self).instruction_type)
                &&& (final(self).op == old(self).op)
                &&& (final(self).interrupt_type == old(self).interrupt_type)
                &&& (final(self).a == old(self).a && final(self).x == old(self).x && final(self).y == old(self).y
                && final(self).sr == old(self).sr && final(self).pc == old(self).pc)
                &&& (old(self).stage == 2 ==> result is EndCycle && final(self).sp == old(self).sp
                && final(bus).ram() == old(bus).ram())
                &&& (old(self).stage == 3 ==> result is EndInstruction
                && final(self).sp == old(self).sp.wrapping_sub(1)
                && final(bus).ram() == spec_ram_write(old(bus).ram(), spec_stack_address(old(self).sp), old(self).a))
                &&& (!(2 <= old(self).stage <= 3) ==> result is Error && final(bus).ram() == old(bus).ram())
            }),
            old(self).stage != 1 && old(self).op is Php ==> ({
                &&& (final(bus).prg_banks() == old(bus).prg_banks())
                &&& (final(bus).oam() == old(bus).oam())
                &&& (final(bus).oam_addr() == old(bus).oam_addr())
                &&& (final(self).addressing_mode == old(self).addressing_mode)
                &&& (final(self).instruction_type == old(self).instruction_type)
                &&& (final(self).op == old(self).op)
                &&& (final(self).interrupt_type == old(self).interrupt_type)
                &&& (final(self).a == old(self).a && final(self).x == old(self).x && final(self).y == old(self).y
                && final(self).sr == old(self).sr && final(self).pc == old(self).pc)
                &&& (old(self).stage == 2 ==> result is EndCycle && final(self).sp == old(self).sp
                && final(bus).ram() == old(bus).ram())
                &&& (old(self).stage == 3 ==> result is EndInstruction
                && final(self).sp == old(self).sp.wrapping_sub(1)
                && final(bus).ram() == spec_ram_write(old(bus).ram(), spec_stack_address(old(self).sp), old(self).sr | 0x30))
                &&& (!(2 <= old(self).stage <= 3) ==> result is Error && final(bus).ram() == old(bus).ram())
            }),
            old(self).stage != 1 && old(self).op is Pla ==> ({
                &&& (final(bus).prg_banks() == old(bus).prg_banks())
                &&& (final(bus).oam() == old(bus).oam())
                &&& (final(bus).oam_addr() == old(bus).oam_addr())
                &&& (final(self).addressing_mode == old(self).addressing_mode)
                &&& (final(self).instruction_type == old(self).instruction_type)
                &&& (final(self).op == old(self).op)
                &&& (final(self).interrupt_type == old(self).interrupt_type)
                &&& (final(self).x == old(self).x && final(self).y == old(self).y && final(self).pc == old(self).pc)
                &&& (final(bus).ram() == old(bus).ram())
                &&& (old(self).stage == 2 ==> result is EndCycle && final(self).sp == old(self).sp
                && final(self).a == old(self).a && final(self).sr == old(self).sr)
                &&& (old(self).stage == 3 ==> result is EndCycle && final(self).sp == old(self).sp.wrapping_add(1)
                && final(self).a == old(self).a && final(self).sr == old(self).sr)
                &&& (old(self).stage == 4 ==> result is EndInstruction && final(self).sp == old(self).sp
                && final(self).a == spec_ram_read(old(bus).ram(), spec_stack_address(old(self).sp))
                && final(self).sr == spec_nz(old(self).sr, spec_ram_read(old(bus).ram(), spec_stack_address(old(self).sp))))
                &&& (!(2 <= old(self).stage <= 4) ==> result is Error)
            }),
            old(self).stage != 1 && old(self).op is Plp ==> ({
                &&& (final(bus).prg_banks() == old(bus).prg_banks())
                &&& (final(bus).oam() == old(bus).oam())
                &&& (final(bus).oam_addr() == old(bus).oam_addr())
                &&& (final(self).addressing_mode == old(self).addressing_mode)
                &&& (final(self).instruction_type == old(self).instruction_type)
                &&& (final(self).op == old(self).op)
                &&& (final(self).interrupt_type == old(self).interrupt_type)
                &&& (final(self).a == old(self).a && final(self).x == old(self).x && final(self).y == old(self).y
                && final(self).pc == old(self).pc)
                &&& (final(bus).ram() == old(bus).ram())
                &&& (old(self).stage == 2 ==> result is EndCycle && final(self).sp == old(self).sp
                && final(self).sr == old(self).sr)
                &&& (old(self).stage == 3 ==> result is EndCycle && final(self).sp == old(self).sp.wrapping_add(1)
                && final(self).sr == old(self).sr)
                &&& (old(self).stage == 4 ==> result is EndInstruction && final(self).sp == old(self).sp
                && final(self).sr == spec_pull_status(spec_ram_read(old(bus).ram(), spec_stack_address(old(self).sp))))
                &&& (!(2 <= old(self).stage <= 4) ==> result is Error)
            }),
            old(self).stage != 1 && old(self).op is Rla ==> ({
                &&& (result is Error)
                &&& (*final(self) == *old(self))
                &&& (*final(bus) == *old(bus))
            }),
            old(self).stage != 1 && old(self).op is Rol ==> ({
                &&& (final(self).addressing_mode == old(self).addressing_mode)
                &&& (final(self).instruction_type == old(self).instruction_type)
                &&& (final(self).op == old(self).op)
                &&& (final(self).interrupt_type == old(self).interrupt_type)
                &&& (final(self).x == old(self).x && final(self).y == old(self).y && final(self).sp == old(self).sp)
                &&& (result is EndInstruction && old(self).addressing_mode is Accumulator ==>
                final(self).a == ((old(self).a << 1u32) | (if old(self).sr & 0x01 != 0 { 1u8 } else { 0u8 }))
                && final(self).sr == spec_shift_flags(old(self).sr, (old(self).a & 0x80) != 0, ((old(self).a << 1u32) | (if old(self).sr & 0x01 != 0 { 1u8 } else { 0u8 })))
                && final(bus).ram() == old(bus).ram())
                &&& (result is EndInstruction && !(old(self).addressing_mode is Accumulator)
                && spec_rmw_mode(old(self).addressing_mode)
                && old(self).instruction_type is ReadModifyWrite ==>
                final(self).value == ((old(self).value << 1u32) | (if old(self).sr & 0x01 != 0 { 1u8 } else { 0u8 }))
                && final(self).a == old(self).a
                && final(self).sr == spec_shift_flags(old(self).sr, (old(self).value & 0x80) != 0, ((old(self).value << 1u32) | (if old(self).sr & 0x01 != 0 { 1u8 } else { 0u8 })))
                && final(bus).ram() == spec_ram_write(old(bus).ram(), old(self).address, ((old(self).value << 1u32) | (if old(self).sr & 0x01 != 0 { 1u8 } else { 0u8 }))))
                &&& (!(result is EndInstruction) ==> final(self).a == old(self).a && final(self).sr == old(self).sr)
            }),
            old(self).stage != 1 && old(self).op is Ror ==> ({
                &&& (final(self).addressing_mode == old(self).addressing_mode)
                &&& (final(self).instruction_type == old(self).instruction_type)
                &&& (final(self).op == old(self).op)
                &&& (final(self).interrupt_type == old(self).interrupt_type)
                &&& (final(self).x == old(self).x && final(self).y == old(self).y && final(self).sp == old(self).sp)
                &&& (result is EndInstruction && old(self).addressing_mode is Accumulator ==>
                final(self).a == ((old(self).a >> 1u32) | (if old(self).sr & 0x01 != 0 { 0x80u8 } else { 0u8 }))
                && final(self).sr == spec_shift_flags(old(self).sr, (old(self).a & 0x01) != 0, ((old(self).a >> 1u32) | (if old(self).sr & 0x01 != 0 { 0x80u8 } else { 0u8 })))
                && final(bus).ram() == old(bus).ram())
                &&& (result is EndInstruction && !(old(self).addressing_mode is Accumulator)
                && spec_rmw_mode(old(self).addressing_mode)
                && old(self).instruction_type is ReadModifyWrite ==>
                final(self).value == ((old(self).value >> 1u32) | (if old(self).sr & 0x01 != 0 { 0x80u8 } else { 0u8 }))
                && final(self).a == old(self).a
                && final(self).sr == spec_shift_flags(old(self).sr, (old(self).value & 0x01) != 0, ((old(self).value >> 1u32) | (if old(self).sr & 0x01 != 0 { 0x80u8 } else { 0u8 })))
                && final(bus).ram() == spec_ram_write(old(bus).ram(), old(self).address, ((old(self).value >> 1u32) | (if old(self).sr & 0x01 != 0 { 0x80u8 } else { 0u8 }))))
                &&& (!(result is EndInstruction) ==> final(self).a == old(self).a && final(self).sr == old(self).sr)
            }),
            old(self).stage != 1 && old(self).op is Rra ==> ({
                &&& (result is Error)
                &&& (*final(self) == *old(self))
                &&& (*final(bus) == *old(bus))
            }),
            old(self).stage != 1 && old(self).op is Rst ==> ({
                &&& (final(bus).prg_banks() == old(bus).prg_banks())
                &&& (final(bus).oam() == old(bus).oam())
                &&& (final(bus).oam_addr() == old(bus).oam_addr())
                &&& (final(self).addressing_mode == old(self).addressing_mode)
                &&& (final(self).instruction_type == old(self).instruction_type)
                &&& (final(self).op == old(self).op)
                &&& (final(self).interrupt_type == old(self).interrupt_type)
                &&& (final(self).a == old(self).a && final(self).x == old(self).x && final(self).y == old(self).y
                && final(self).sp == old(self).sp && final(self).sr == old(self).sr)
                &&& (final(bus).ram() == old(bus).ram())
                &&& (1 <= old(self).stage <= 6 ==> result is EndCycle)
                &&& (old(self).stage == 7 ==> result is EndInstruction)
                &&& (old(self).stage == 6 ==> final(self).pc == (old(self).pc & 0xFF00)
                | spec_prg_read(old(bus).prg(), old(bus).prg_banks().1, 0xFFFC) as u16)
                &&& (old(self).stage == 7 ==> final(self).pc
                == ((spec_prg_read(old(bus).prg(), old(bus).prg_banks().1, 0xFFFD) as u16) << 8u32)
                | (old(self).pc & 0xFF))
                &&& (!(1 <= old(self).stage <= 7) ==> result is Error)
                &&& (1 <= old(self).stage <= 5 ==> final(self).pc == old(self).pc)
            }),
            old(self).stage != 1 && old(self).op is Rti ==> ({
                &&& (final(bus).prg_banks() == old(bus).prg_banks())
                &&& (final(bus).oam() == old(bus).oam())
                &&& (final(bus).oam_addr() == old(bus).oam_addr())
                &&& (final(self).addressing_mode == old(self).addressing_mode)
                &&& (final(self).instruction_type == old(self).instruction_type)
                &&& (final(self).op == old(self).op)
                &&& (final(self).interrupt_type == old(self).interrupt_type)
                &&& (final(self).a == old(self).a && final(self).x == old(self).x && final(self).y == old(self).y)
                &&& (final(bus).ram() == old(bus).ram())
                &&& (old(self).stage == 2 ==> result is EndCycle && final(self).pc == old(self).pc
                && final(self).sp == old(self).sp && final(self).sr == old(self).sr)
                &&& (old(self).stage == 3 ==> result is EndCycle && final(self).pc == old(self).pc
                && final(self).sp == old(self).sp.wrapping_add(1) && final(self).sr == old(self).sr)
                &&& (old(self).stage == 4 ==> result is EndCycle && final(self).pc == old(self).pc
                && final(self).sp == old(self).sp.wrapping_add(1)
                && final(self).sr == spec_pull_status(spec_ram_read(old(bus).ram(), spec_stack_address(old(self).sp))))
                &&& (old(self).stage == 5 ==> result is EndCycle
                && final(self).pc == (old(self).pc & 0xFF00) | spec_ram_read(old(bus).ram(), spec_stack_address(old(self).sp)) as u16
                && final(self).sp == old(self).sp.wrapping_add(1) && final(self).sr == old(self).sr)
                &&& (old(self).stage == 6 ==> result is EndInstruction
                && final(self).pc == ((spec_ram_read(old(bus).ram(), spec_stack_address(old(self).sp)) as u16) << 8u32) | (old(self).pc & 0xFF)
                && final(self).sp == old(self).sp && final(self).sr == old(self).sr)
                &&& (!(2 <= old(self).stage <= 6) ==> result is Error)
            }),
            old(self).stage != 1 && old(self).op is Rts ==> ({
                &&& (final(bus).prg_banks() == old(bus).prg_banks())
                &&& (final(bus).oam() == old(bus).oam())
                &&& (final(bus).oam_addr() == old(bus).oam_addr())
                &&& (final(self).addressing_mode == old(self).addressing_mode)
                &&& (final(self).instruction_type == old(self).instruction_type)
                &&& (final(self).op == old(self).op)
                &&& (final(self).interrupt_type == old(self).interrupt_type)
                &&& (final(self).a == old(self).a && final(self).x == old(self).x && final(self).y == old(self).y
                && final(self).sr == old(self).sr)
                &&& (final(bus).ram() == old(bus).ram())
                &&& (old(self).stage == 2 ==> result is EndCycle && final(self).pc == old(self).pc
                && final(self).sp == old(self).sp)
                &&& (old(self).stage == 3 ==> result is EndCycle && final(self).pc == old(self).pc
                && final(self).sp == old(self).sp.wrapping_add(1))
                &&& (old(self).stage == 4 ==> result is EndCycle
                && final(self).pc == (old(self).pc & 0xFF00) | spec_ram_read(old(bus).ram(), spec_stack_address(old(self).sp)) as u16
                && final(self).sp == old(self).sp.wrapping_add(1))
                &&& (old(self).stage == 5 ==> result is EndCycle
                && final(self).pc == ((spec_ram_read(old(bus).ram(), spec_stack_address(old(self).sp)) as u16) << 8u32) | (old(self).pc & 0xFF)
                && final(self).sp == old(self).sp)
                &&& (old(self).stage == 6 ==> result is EndInstruction
                && final(self).pc == old(self).pc.wrapping_add(1) && final(self).sp == old(self).sp)
                &&& (!(2 <= old(self).stage <= 6) ==> result is Error)
            }),
            old(self).stage != 1 && old(self).op is Sax ==> ({
                &&& (result is Error)
                &&& (*final(self) == *old(self))
                &&& (*final(bus) == *old(bus))
            }),
            old(self).stage != 1 && old(self).op is Sbc ==> ({
                &&& (final(self).addressing_mode == old(self).addressing_mode)
                &&& (final(self).instruction_type == old(self).instruction_type)
                &&& (final(self).op == old(self).op)
                &&& (final(self).interrupt_type == old(self).interrupt_type)
                &&& (old(self).instruction_type is Read ==> final(bus).ram() == old(bus).ram())
                &&& (result is EndInstruction && !(old(self).addressing_mode is Relative) ==> final(self).sr == spec_sbc(old(self).sr, old(self).a, final(self).value).0 && final(self).a == spec_sbc(old(self).sr, old(self).a, final(self).value).1 && final(self).x == old(self).x && final(self).y == old(self).y && final(self).sp == old(self).sp)
                &&& (!(result is EndInstruction) ==> final(self).a == old(self).a && final(self).sr == old(self).sr && final(self).x == old(self).x && final(self).y == old(self).y && final(self).sp == old(self).sp)
            }),
            old(self).stage != 1 && old(self).op is Sec ==> ({
                &&& (result is EndInstruction)
                &&& (*final(self) == (Cpu6502 { sr: spec_set_flag(old(self).sr, 0x01, true), stage: final(self).stage, ..*old(self) }))
                &&& (*final(bus) == *old(bus))
            }),
            old(self).stage != 1 && old(self).op is Sed ==> ({
                &&& (result is EndInstruction)
                &&& (*final(self) == (Cpu6502 { sr: spec_set_flag(old(self).sr, 0x08, true), stage: final(self).stage, ..*old(self) }))
                &&& (*final(bus) == *old(bus))
            }),
            old(self).stage != 1 && old(self).op is Sei ==> ({
                &&& (result is EndInstruction)
                &&& (*final(self) == (Cpu6502 { sr: spec_set_flag(old(self).sr, 0x04, true), stage: final(self).stage, ..*old(self) }))
                &&& (*final(bus) == *old(bus))
            }),
            old(self).stage != 1 && old(self).op is Shx ==> ({
                &&& (result is Error)
                &&& (*final(self) == *old(self))
                &&& (*final(bus) == *old(bus))
            }),
            old(self).stage != 1 && old(self).op is Shy ==> ({
                &&& (result is Error)
                &&& (*final(self) == *old(self))
                &&& (*final(bus) == *old(bus))
            }),
            old(self).stage != 1 && old(self).op is Slo ==> ({
                &&& (result is Error)
                &&& (*final(self) == *old(self))
                &&& (*final(bus) == *old(bus))
            }),
            old(self).stage != 1 && old(self).op is Sre ==> ({
                &&& (result is Error)
                &&& (*final(self) == *old(self))
                &&& (*final(bus) == *old(bus))
            }),
            old(self).stage != 1 && old(self).op is Sta ==> ({
                &&& (final(self).addressing_mode == old(self).addressing_mode)
                &&& (final(self).instruction_type == old(self).instruction_type)
                &&& (final(self).op == old(self).op)
                &&& (final(self).interrupt_type == old(self).interrupt_type)
                &&& (result is EndInstruction && !(old(self).addressing_mode is Relative) ==> final(bus).ram() == spec_ram_write(old(bus).ram(), final(self).address, old(self).a) && final(self).a == old(self).a && final(self).sr == old(self).sr && final(self).x == old(self).x && final(self).y == old(self).y && final(self).sp == old(self).sp)
                &&& (!(result is EndInstruction) ==> final(self).a == old(self).a && final(self).sr == old(self).sr && final(self).x == old(self).x && final(self).y == old(self).y && final(self).sp == old(self).sp)
            }),
            old(self).stage != 1 && old(self).op is Stp ==> ({
                &&& (result is Error)
                &&& (*final(self) == *old(self))
                &&& (*final(bus) == *old(bus))
            }),
            old(self).stage != 1 && old(self).op is Stx ==> ({
                &&& (final(self).addressing_mode == old(self).addressing_mode)
                &&& (final(self).instruction_type == old(self).instruction_type)
                &&& (final(self).op == old(self).op)
                &&& (final(self).interrupt_type == old(self).interrupt_type)
                &&& (result is EndInstruction && !(old(self).addressing_mode is Relative) ==> final(bus).ram() == spec_ram_write(old(bus).ram(), final(self).address, old(self).x) && final(self).a == old(self).a && final(self).sr == old(self).sr && final(self).x == old(self).x && final(self).y == old(self).y && final(self).sp == old(self).sp)
                &&& (!(result is EndInstruction) ==> final(self).a == old(self).a && final(self).sr == old(self).sr && final(self).x == old(self).x && final(self).y == old(self).y && final(self).sp == old(self).sp)
            }),
            old(self).stage != 1 && old(self).op is Sty ==> ({
                &&& (final(self).addressing_mode == old(self).addressing_mode)
                &&& (final(self).instruction_type == old(self).instruction_type)
                &&& (final(self).op == old(self).op)
                &&& (final(self).interrupt_type == old(self).interrupt_type)
                &&& (result is EndInstruction && !(old(self).addressing_mode is Relative) ==> final(bus).ram() == spec_ram_write(old(bus).ram(), final(self).address, old(self).y) && final(self).a == old(self).a && final(self).sr == old(self).sr && final(self).x == old(self).x && final(self).y == old(self).y && final(self).sp == old(self).sp)
                &&& (!(result is EndInstruction) ==> final(self).a == old(self).a && final(self).sr == old(self).sr && final(self).x == old(self).x && final(self).y == old(self).y && final(self).sp == old(self).sp)
            }),
            old(self).stage != 1 && old(self).op is Tas ==> ({
                &&& (result is Error)
                &&& (*final(self) == *old(self))
                &&& (*final(bus) == *old(bus))
            }),
            old(self).stage != 1 && old(self).op is Tax ==> ({
                &&& (result is EndInstruction)
                &&& (*final(self) == (Cpu6502 { x: old(self).a, sr: spec_nz(old(self).sr, old(self).a), stage: final(self).stage, ..*old(self) }))
                &&& (*final(bus) == *old(bus))
            }),
            old(self).stage != 1 && old(self).op is Tay ==> ({
                &&& (result is EndInstruction)
                &&& (*final(self) == (Cpu6502 { y: old(self).a, sr: spec_nz(old(self).sr, old(self).a), stage: final(self).stage, ..*old(self) }))
                &&& (*final(bus) == *old(bus))
            }),
            old(self).stage != 1 && old(self).op is Tsx ==> ({
                &&& (result is EndInstruction)
                &&& (*final(self) == (Cpu6502 { x: old(self).sp, sr: spec_nz(old(self).sr, old(self).sp), stage: final(self).stage, ..*old(self) }))
                &&& (*final(bus) == *old(bus))
            }),
            old(self).stage != 1 && old(self).op is Txa ==> ({
                &&& (result is EndInstruction)
                &&& (*final(self) == (Cpu6502 { a: old(self).x, sr: spec_nz(old(self).sr, old(self).x), stage: final(self).stage, ..*old(self) }))
                &&& (*final(bus) == *old(bus))
            }),
            old(self).stage != 1 && old(self).op is Txs ==> ({
                &&& (result is EndInstruction)
                &&& (*final(self) == (Cpu6502 { sp: old(self).x, stage: final(self).stage, ..*old(self) }))
                &&& (*final(bus) == *old(bus))
            }),
            old(self).stage != 1 && old(self).op is Tya ==> ({
                &&& (result is EndInstruction)
                &&& (*final(self) == (Cpu6502 { a: old(self).y, sr: spec_nz(old(self).sr, old(self).y), stage: final(self).stage, ..*old(self) }))
                &&& (*final(bus) == *old(bus))
            }),
            old(self).stage != 1 && old(self).op is Xaa ==> ({
                &&& (result is Error)
                &&& (*final(self) == *old(self))
                &&& (*final(bus) == *old(bus))
            }),
    {
        if self.stage == 1 {
            if let InterruptType::Idle = self.interrupt_type {
                let opcode = self.read_memory(bus, self.pc);
                self.pc = self.pc.wrapping_add(1);
                self.stage = self.stage + 1;
                self.fetch_instruction(opcode);
                return CycleResult::EndCycle;
            } else {
                self.load_interrupt();
            }
            return CycleResult::EndCycle;
        }

        let result = self.step_instruction(bus);
        match result {
            CycleResult::EndInstruction => {
                self.stage = 1;
                result
            }
            CycleResult::EndCycle => {
                self.stage = self.stage + 1;
                result
            }
            _ => CycleResult::Error,
        }
    }

    /// Swap the pending interrupt for its micro-program and consume it.
    fn load_interrupt(&mut self)
        requires
            old(self).stage < 255,
        ensures
            *final(self) == (Cpu6502 {
                op: spec_interrupt_op(old(self).interrupt_type),
                interrupt_type: InterruptType::Idle,
                stage: (old(self).stage + 1) as u8,
                ..*old(self)
            }),
    {
        self.op = match self.interrupt_type {
            InterruptType::Brk => Op::Brk,
            InterruptType::Reset => Op::Rst,
            InterruptType::Nmi => Op::Nmi,
            InterruptType::Irq => Op::Irq,
            InterruptType::Idle => Op::Nop,
        };

        self.interrupt_type = InterruptType::Idle;
        self.stage = self.stage + 1;
    }

    fn read_memory<B: BusOps>(&mut self, bus: &mut B, memory_address: u16) -> (data: u8)
        ensures
            old(bus).inv() ==> final(bus).inv(),
            final(bus).frame_clock() == old(bus).frame_clock(),
            final(bus).frame_pending() == old(bus).frame_pending(),
            final(bus).prg() == old(bus).prg(),
            final(bus).prg_banks() == old(bus).prg_banks(),
            final(bus).oam() == old(bus).oam(),
            final(bus).oam_addr() == old(bus).oam_addr(),
            *final(self) == *old(self),
            final(bus).ram() == old(bus).ram(),
            memory_address < 0x2000 ==> data == spec_ram_read(old(bus).ram(), memory_address),
            memory_address & 0xC000 == 0x8000 ==> data == spec_prg_read(
                old(bus).prg(), old(bus).prg_banks().0, memory_address),
            memory_address & 0xC000 == 0xC000 ==> data == spec_prg_read(
                old(bus).prg(), old(bus).prg_banks().1, memory_address),
    {
        return bus.read(memory_address);
    }

    fn write_memory<B: BusOps>(&mut self, bus: &mut B, memory_address: u16, data: u8)
        ensures
            old(bus).inv() ==> final(bus).inv(),
            final(bus).frame_clock() == old(bus).frame_clock(),
            final(bus).frame_pending() == old(bus).frame_pending(),
            final(bus).prg() == old(bus).prg(),
            *final(self) == *old(self),
            final(bus).ram() == spec_ram_write(old(bus).ram(), memory_address, data),
            memory_address < 0x8000 ==> final(bus).prg_banks() == old(bus).prg_banks(),
            memory_address < 0x2000 ==> final(bus).oam() == old(bus).oam()
                && final(bus).oam_addr() == old(bus).oam_addr(),
    {
        proof {
            assert(memory_address < 0x2000 ==> !(memory_address & 0xE000 == 0x2000)) by (bit_vector);
        }
        bus.write(memory_address, data);
    }

    /// A stack read: always from page one, 0x100 + SP, which is work RAM.
    fn read_stack<B: BusOps>(&mut self, bus: &mut B) -> (data: u8)
        ensures
            old(bus).inv() ==> final(bus).inv(),
            final(bus).frame_clock() == old(bus).frame_clock(),
            final(bus).frame_pending() == old(bus).frame_pending(),
            final(bus).prg() == old(bus).prg(),
            final(bus).prg_banks() == old(bus).prg_banks(),
            final(bus).oam() == old(bus).oam(),
            final(bus).oam_addr() == old(bus).oam_addr(),
            *final(self) == *old(self),
            final(bus).ram() == old(bus).ram(),
            data == spec_ram_read(old(bus).ram(), spec_stack_address(old(self).sp)),
    {
        let stack_base = 0x100u16;
        let stack_address = stack_base + self.sp as u16;
        return self.read_memory(bus, stack_address);
    }

    /// A stack write: always to page one, 0x100 + SP, which is work RAM.
    fn write_stack<B: BusOps>(&mut self, bus: &mut B, data: u8)
        ensures
            old(bus).inv() ==> final(bus).inv(),
            final(bus).frame_clock() == old(bus).frame_clock(),
            final(bus).frame_pending() == old(bus).frame_pending(),
            final(bus).prg() == old(bus).prg(),
            final(bus).prg_banks() == old(bus).prg_banks(),
            final(bus).oam() == old(bus).oam(),
            final(bus).oam_addr() == old(bus).oam_addr(),
            *final(self) == *old(self),
            final(bus).ram() == spec_ram_write(old(bus).ram(), spec_stack_address(old(self).sp), data),
    {
        let stack_base = 0x100u16;
        let stack_address = stack_base + self.sp as u16;
        self.write_memory(bus, stack_address, data);
    }

    fn is_flag_set(&self, flag: Flags) -> (set: bool)
        ensures
            set == (self.sr & spec_flag_mask(flag) != 0),
    {
        let flag = flag.to_int();
        (self.sr & flag) != 0
    }

    fn set_flag(&mut self, flag: Flags, enabled: bool)
        ensures
            *final(self) == (Cpu6502 {
                sr: spec_set_flag(old(self).sr, spec_flag_mask(flag), enabled),
                ..*old(self)
            }),
    {
        let flag = flag.to_int();
        if enabled {
            self.sr = self.sr | flag;
        } else {
            self.sr = self.sr & !flag;
        }
    }

    /// Decode an opcode into its addressing mode, access type and operation,
    /// following the standard 6502 opcode matrix; nothing else changes.
    #[verifier::rlimit(100)]
    fn fetch_instruction(&mut self, opcode: u8)
        ensures
            *final(self) == (Cpu6502 {
                addressing_mode: spec_decode(opcode).0,
                instruction_type: spec_decode(opcode).1,
                op: spec_decode(opcode).2,
                ..*old(self)
            }),
    {
        let (addressing_mode, instruction_type, op) = match opcode {
        0x00 => (AddressingMode::Immediate, InstructionType::Branching, Op::Brk),
        0x01 => (AddressingMode::IndirectX, InstructionType::Read, Op::Ora),
        0x02 => (AddressingMode::Accumulator, InstructionType::Read, Op::Stp),
        0x03 => (AddressingMode::Accumulator, InstructionType::ReadModifyWrite, Op::Slo),
        0x04 => (AddressingMode::ZeroPage, InstructionType::Read, Op::Nop),
        0x05 => (AddressingMode::ZeroPage, InstructionType::Read, Op::Ora),
        0x06 => (AddressingMode::ZeroPage, InstructionType::ReadModifyWrite, Op::Asl),
        0x07 => (AddressingMode::Accumulator, InstructionType::ReadModifyWrite, Op::Slo),
        0x08 => (AddressingMode::Accumulator, InstructionType::Write, Op::Php),
        0x09 => (AddressingMode::Immediate, InstructionType::Read, Op::Ora),
        0x0A => (AddressingMode::Accumulator, InstructionType::ReadModifyWrite, Op::Asl),
        0x0B => (AddressingMode::Immediate, InstructionType::Read, Op::Anc),
        0x0C => (AddressingMode::Absolute, InstructionType::Read, Op::Nop),
        0x0D => (AddressingMode::Absolute, InstructionType::Read, Op::Ora),
        0x0E => (AddressingMode::Absolute, InstructionType::ReadModifyWrite, Op::Asl),
        0x0F => (AddressingMode::Accumulator, InstructionType::ReadModifyWrite, Op::Slo),
        0x10 => (AddressingMode::Relative, InstructionType::Branching, Op::Bpl),
        0x11 => (AddressingMode::IndirectY, InstructionType::Read, Op::Ora),
        0x12 => (AddressingMode::Accumulator, InstructionType::Read, Op::Stp),
        0x13 => (AddressingMode::Accumulator, InstructionType::ReadModifyWrite, Op::Slo),
        0x14 => (AddressingMode::ZeroPageX, InstructionType::Read, Op::Nop),
        0x15 => (AddressingMode::ZeroPageX, InstructionType::Read, Op::Ora),
        0x16 => (AddressingMode::ZeroPageX, InstructionType::ReadModifyWrite, Op::Asl),
        0x17 => (AddressingMode::Accumulator, InstructionType::ReadModifyWrite, Op::Slo),
        0x18 => (AddressingMode::Accumulator, InstructionType::Read, Op::Clc),
        0x19 => (AddressingMode::AbsoluteY, InstructionType::Read, Op::Ora),
        0x1A => (AddressingMode::Accumulator, InstructionType::Read, Op::Nop),
        0x1B => (AddressingMode::Accumulator, InstructionType::ReadModifyWrite, Op::Slo),
        0x1C => (AddressingMode::AbsoluteX, InstructionType::Read, Op::Nop),
        0x1D => (AddressingMode::AbsoluteX, InstructionType::Read, Op::Ora),
        0x1E => (AddressingMode::AbsoluteX, InstructionType::ReadModifyWrite, Op::Asl),
        0x1F => (AddressingMode::Accumulator, InstructionType::ReadModifyWrite, Op::Slo),
        0x20 => (AddressingMode::Absolute, InstructionType::Branching, Op::Jsr),
        0x21 => (AddressingMode::IndirectX, InstructionType::Read, Op::And),
        0x22 => (AddressingMode::Accumulator, InstructionType::Read, Op::Stp),
        0x23 => (AddressingMode::Accumulator, InstructionType::ReadModifyWrite, Op::Rla),
        0x24 => (AddressingMode::ZeroPage, InstructionType::Read, Op::Bit),
        0x25 => (AddressingMode::ZeroPage, InstructionType::Read, Op::And),
        0x26 => (AddressingMode::ZeroPage, InstructionType::ReadModifyWrite, Op::Rol),
        0x27 => (AddressingMode::Accumulator, InstructionType::ReadModifyWrite, Op::Rla),
        0x28 => (AddressingMode::Accumulator, InstructionType::Read, Op::Plp),
        0x29 => (AddressingMode::Immediate, InstructionType::Read, Op::And),
        0x2A => (AddressingMode::Accumulator, InstructionType::ReadModifyWrite, Op::Rol),
        0x2B => (AddressingMode::Accumulator, InstructionType::Read, Op::Anc),
        0x2C => (AddressingMode::Absolute, InstructionType::Read, Op::Bit),
        0x2D => (AddressingMode::Absolute, InstructionType::Read, Op::And),
        0x2E => (AddressingMode::Absolute, InstructionType::ReadModifyWrite, Op::Rol),
        0x2F => (AddressingMode::Accumulator, InstructionType::ReadModifyWrite, Op::Rla),
        0x30 => (AddressingMode::Relative, InstructionType::Branching, Op::Bmi),
        0x31 => (AddressingMode::IndirectY, InstructionType::Read, Op::And),
        0x32 => (AddressingMode::Accumulator, InstructionType::Read, Op::Stp),
        0x33 => (AddressingMode::Accumulator, InstructionType::ReadModifyWrite, Op::Rla),
        0x34 => (AddressingMode::ZeroPageX, InstructionType::Read, Op::Nop),
        0x35 => (AddressingMode::ZeroPageX, InstructionType::Read, Op::And),
        0x36 => (AddressingMode::ZeroPageX, InstructionType::ReadModifyWrite, Op::Rol),
        0x37 => (AddressingMode::Accumulator, InstructionType::ReadModifyWrite, Op::Rla),
        0x38 => (AddressingMode::Accumulator, InstructionType::Read, Op::Sec),
        0x39 => (AddressingMode::AbsoluteY, InstructionType::Read, Op::And),
        0x3A => (AddressingMode::Accumulator, InstructionType::Read, Op::Nop),
        0x3B => (AddressingMode::Accumulator, InstructionType::ReadModifyWrite, Op::Rla),
        0x3C => (AddressingMode::AbsoluteX, InstructionType::Read, Op::Nop),
        0x3D => (AddressingMode::AbsoluteX, InstructionType::Read, Op::And),
        0x3E => (AddressingMode::AbsoluteX, InstructionType::ReadModifyWrite, Op::Rol),
        0x3F => (AddressingMode::Accumulator, InstructionType::ReadModifyWrite, Op::Rla),
        0x40 => (AddressingMode::Accumulator, InstructionType::Branching, Op::Rti),
        0x41 => (AddressingMode::IndirectX, InstructionType::Read, Op::Eor),
        0x42 => (AddressingMode::Accumulator, InstructionType::Read, Op::Stp),
        0x43 => (AddressingMode::Accumulator, InstructionType::ReadModifyWrite, Op::Sre),
        0x44 => (AddressingMode::ZeroPage, InstructionType::Read, Op::Nop),
        0x45 => (AddressingMode::ZeroPage, InstructionType::Read, Op::Eor),
        0x46 => (AddressingMode::ZeroPage, InstructionType::ReadModifyWrite, Op::Lsr),
        0x47 => (AddressingMode::Accumulator, InstructionType::ReadModifyWrite, Op::Sre),
        0x48 => (AddressingMode::Accumulator, InstructionType::Write, Op::Pha),
        0x49 => (AddressingMode::Immediate, InstructionType::Read, Op::Eor),
        0x4A => (AddressingMode::Accumulator, InstructionType::ReadModifyWrite, Op::Lsr),
        0x4B => (AddressingMode::Accumulator, InstructionType::Read, Op::Alr),
        0x4C => (AddressingMode::Absolute, InstructionType::Branching, Op::Jmp),
        0x4D => (AddressingMode::Absolute, InstructionType::Read, Op::Eor),
        0x4E => (AddressingMode::Absolute, InstructionType::ReadModifyWrite, Op::Lsr),
        0x4F => (AddressingMode::Accumulator, InstructionType::ReadModifyWrite, Op::Sre),
        0x50 => (AddressingMode::Relative, InstructionType::Branching, Op::Bvc),
        0x51 => (AddressingMode::IndirectY, InstructionType::Read, Op::Eor),
        0x52 => (AddressingMode::Accumulator, InstructionType::Read, Op::Stp),
        0x53 => (AddressingMode::Accumulator, InstructionType::ReadModifyWrite, Op::Sre),
        0x54 => (AddressingMode::ZeroPageX, InstructionType::Read, Op::Nop),
        0x55 => (AddressingMode::ZeroPageX, InstructionType::Read, Op::Eor),
        0x56 => (AddressingMode::ZeroPageX, InstructionType::ReadModifyWrite, Op::Lsr),
        0x57 => (AddressingMode::Accumulator, InstructionType::ReadModifyWrite, Op::Sre),
        0x58 => (AddressingMode::Accumulator, InstructionType::Read, Op::Cli),
        0x59 => (AddressingMode::AbsoluteY, InstructionType::Read, Op::Eor),
        0x5A => (AddressingMode::Accumulator, InstructionType::Read, Op::Nop),
        0x5B => (AddressingMode::Accumulator, InstructionType::ReadModifyWrite, Op::Sre),
        0x5C => (AddressingMode::AbsoluteX, InstructionType::Read, Op::Nop),
        0x5D => (AddressingMode::AbsoluteX, InstructionType::Read, Op::Eor),
        0x5E => (AddressingMode::AbsoluteX, InstructionType::ReadModifyWrite, Op::Lsr),
        0x5F => (AddressingMode::Accumulator, InstructionType::ReadModifyWrite, Op::Sre),
        0x60 => (AddressingMode::Accumulator, InstructionType::Branching, Op::Rts),
        0x61 => (AddressingMode::IndirectX, InstructionType::Read, Op::Adc),
        0x62 => (AddressingMode::Accumulator, InstructionType::Read, Op::Stp),
        0x63 => (AddressingMode::Accumulator, InstructionType::ReadModifyWrite, Op::Rra),
        0x64 => (AddressingMode::ZeroPage, InstructionType::Read, Op::Nop),
        0x65 => (AddressingMode::ZeroPage, InstructionType::Read, Op::Adc),
        0x66 => (AddressingMode::ZeroPage, InstructionType::ReadModifyWrite, Op::Ror),
        0x67 => (AddressingMode::Accumulator, InstructionType::ReadModifyWrite, Op::Rra),
        0x68 => (AddressingMode::Accumulator, InstructionType::Read, Op::Pla),
        0x69 => (AddressingMode::Immediate, InstructionType::Read, Op::Adc),
        0x6A => (AddressingMode::Accumulator, InstructionType::ReadModifyWrite, Op::Ror),
        0x6B => (AddressingMode::Accumulator, InstructionType::Read, Op::Arr),
        0x6C => (AddressingMode::AbsoluteIndirect, InstructionType::Branching, Op::Jmp),
        0x6D => (AddressingMode::Absolute, InstructionType::Read, Op::Adc),
        0x6E => (AddressingMode::Absolute, InstructionType::ReadModifyWrite, Op::Ror),
        0x6F => (AddressingMode::Accumulator, InstructionType::ReadModifyWrite, Op::Rra),
        0x70 => (AddressingMode::Relative, InstructionType::Branching, Op::Bvs),
        0x71 => (AddressingMode::IndirectY, InstructionType::Read, Op::Adc),
        0x72 => (AddressingMode::Accumulator, InstructionType::Read, Op::Stp),
        0x73 => (AddressingMode::Accumulator, InstructionType::ReadModifyWrite, Op::Rra),
        0x74 => (AddressingMode::ZeroPageX, InstructionType::Read, Op::Nop),
        0x75 => (AddressingMode::ZeroPageX, InstructionType::Read, Op::Adc),
        0x76 => (AddressingMode::ZeroPageX, InstructionType::ReadModifyWrite, Op::Ror),
        0x77 => (AddressingMode::Accumulator, InstructionType::ReadModifyWrite, Op::Rra),
        0x78 => (AddressingMode::Accumulator, InstructionType::Read, Op::Sei),
        0x79 => (AddressingMode::AbsoluteY, InstructionType::Read, Op::Adc),
        0x7A => (AddressingMode::Accumulator, InstructionType::Read, Op::Nop),
        0x7B => (AddressingMode::Accumulator, InstructionType::ReadModifyWrite, Op::Rra),
        0x7C => (AddressingMode::AbsoluteX, InstructionType::Read, Op::Nop),
        0x7D => (AddressingMode::AbsoluteX, InstructionType::Read, Op::Adc),
        0x7E => (AddressingMode::AbsoluteX, InstructionType::ReadModifyWrite, Op::Ror),
        0x7F => (AddressingMode::Accumulator, InstructionType::ReadModifyWrite, Op::Rra),
        0x80 => (AddressingMode::Immediate, InstructionType::Read, Op::Nop),
        0x81 => (AddressingMode::IndirectX, InstructionType::Write, Op::Sta),
        0x82 => (AddressingMode::Immediate, InstructionType::Read, Op::Nop),
        0x83 => (AddressingMode::Accumulator, InstructionType::Write, Op::Sax),
        0x84 => (AddressingMode::ZeroPage, InstructionType::Write, Op::Sty),
        0x85 => (AddressingMode::ZeroPage, InstructionType::Write, Op::Sta),
        0x86 => (AddressingMode::ZeroPage, InstructionType::Write, Op::Stx),
        0x87 => (AddressingMode::Accumulator, InstructionType::Write, Op::Sax),
        0x88 => (AddressingMode::Accumulator, InstructionType::Read, Op::Dey),
        0x89 => (AddressingMode::Immediate, InstructionType::Read, Op::Nop),
        0x8A => (AddressingMode::Accumulator, InstructionType::Read, Op::Txa),
        0x8B => (AddressingMode::Accumulator, InstructionType::Read, Op::Xaa),
        0x8C => (AddressingMode::Absolute, InstructionType::Write, Op::Sty),
        0x8D => (AddressingMode::Absolute, InstructionType::Write, Op::Sta),
        0x8E => (AddressingMode::Absolute, InstructionType::Write, Op::Stx),
        0x8F => (AddressingMode::Accumulator, InstructionType::Write, Op::Sax),
        0x90 => (AddressingMode::Relative, InstructionType::Branching, Op::Bcc),
        0x91 => (AddressingMode::IndirectY, InstructionType::Write, Op::Sta),
        0x92 => (AddressingMode::Accumulator, InstructionType::Read, Op::Stp),
        0x93 => (AddressingMode::Accumulator, InstructionType::Read, Op::Ahx),
        0x94 => (AddressingMode::ZeroPageX, InstructionType::Write, Op::Sty),
        0x95 => (AddressingMode::ZeroPageX, InstructionType::Write, Op::Sta),
        0x96 => (AddressingMode::ZeroPageY, InstructionType::Write, Op::Stx),
        0x97 => (AddressingMode::Accumulator, InstructionType::Write, Op::Sax),
        0x98 => (AddressingMode::Accumulator, InstructionType::Read, Op::Tya),
        0x99 => (AddressingMode::AbsoluteY, InstructionType::Write, Op::Sta),
        0x9A => (AddressingMode::Accumulator, InstructionType::Read, Op::Txs),
        0x9B => (AddressingMode::Accumulator, InstructionType::Read, Op::Tas),
        0x9C => (AddressingMode::Accumulator, InstructionType::Read, Op::Shy),
        0x9D => (AddressingMode::AbsoluteX, InstructionType::Write, Op::Sta),
        0x9E => (AddressingMode::Accumulator, InstructionType::Write, Op::Shx),
        0x9F => (AddressingMode::Accumulator, InstructionType::Read, Op::Ahx),
        0xA0 => (AddressingMode::Immediate, InstructionType::Read, Op::Ldy),
        0xA1 => (AddressingMode::IndirectX, InstructionType::Read, Op::Lda),
        0xA2 => (AddressingMode::Immediate, InstructionType::Read, Op::Ldx),
        0xA3 => (AddressingMode::Accumulator, InstructionType::Read, Op::Lax),
        0xA4 => (AddressingMode::ZeroPage, InstructionType::Read, Op::Ldy),
        0xA5 => (AddressingMode::ZeroPage, InstructionType::Read, Op::Lda),
        0xA6 => (AddressingMode::ZeroPage, InstructionType::Read, Op::Ldx),
        0xA7 => (AddressingMode::Accumulator, InstructionType::Read, Op::Lax),
        0xA8 => (AddressingMode::Accumulator, InstructionType::Read, Op::Tay),
        0xA9 => (AddressingMode::Immediate, InstructionType::Read, Op::Lda),
        0xAA => (AddressingMode::Accumulator, InstructionType::Read, Op::Tax),
        0xAB => (AddressingMode::Accumulator, InstructionType::Read, Op::Lax),
        0xAC => (AddressingMode::Absolute, InstructionType::Read, Op::Ldy),
        0xAD => (AddressingMode::Absolute, InstructionType::Read, Op::Lda),
        0xAE => (AddressingMode::Absolute, InstructionType::Read, Op::Ldx),
        0xAF => (AddressingMode::Accumulator, InstructionType::Read, Op::Lax),
        0xB0 => (AddressingMode::Relative, InstructionType::Branching, Op::Bcs),
        0xB1 => (AddressingMode::IndirectY, InstructionType::Read, Op::Lda),
        0xB2 => (AddressingMode::Accumulator, InstructionType::Read, Op::Stp),
        0xB3 => (AddressingMode::Accumulator, InstructionType::Read, Op::Lax),
        0xB4 => (AddressingMode::ZeroPageX, InstructionType::Read, Op::Ldy),
        0xB5 => (AddressingMode::ZeroPageX, InstructionType::Read, Op::Lda),
        0xB6 => (AddressingMode::ZeroPageY, InstructionType::Read, Op::Ldx),
        0xB7 => (AddressingMode::Accumulator, InstructionType::Read, Op::Lax),
        0xB8 => (AddressingMode::Accumulator, InstructionType::Read, Op::Clv),
        0xB9 => (AddressingMode::AbsoluteY, InstructionType::Read, Op::Lda),
        0xBA => (AddressingMode::Accumulator, InstructionType::Read, Op::Tsx),
        0xBB => (AddressingMode::Accumulator, InstructionType::Read, Op::Las),
        0xBC => (AddressingMode::AbsoluteX, InstructionType::Read, Op::Ldy),
        0xBD => (AddressingMode::AbsoluteX, InstructionType::Read, Op::Lda),
        0xBE => (AddressingMode::AbsoluteY, InstructionType::Read, Op::Ldx),
        0xBF => (AddressingMode::Accumulator, InstructionType::Read, Op::Lax),
        0xC0 => (AddressingMode::Immediate, InstructionType::Read, Op::Cpy),
        0xC1 => (AddressingMode::IndirectX, InstructionType::Read, Op::Cmp),
        0xC2 => (AddressingMode::Immediate, InstructionType::Read, Op::Nop),
        0xC3 => (AddressingMode::Accumulator, InstructionType::ReadModifyWrite, Op::Dcp),
        0xC4 => (AddressingMode::ZeroPage, InstructionType::Read, Op::Cpy),
        0xC5 => (AddressingMode::ZeroPage, InstructionType::Read, Op::Cmp),
        0xC6 => (AddressingMode::ZeroPage, InstructionType::ReadModifyWrite, Op::Dec),
        0xC7 => (AddressingMode::Accumulator, InstructionType::ReadModifyWrite, Op::Dcp),
        0xC8 => (AddressingMode::Accumulator, InstructionType::Read, Op::Iny),
        0xC9 => (AddressingMode::Immediate, InstructionType::Read, Op::Cmp),
        0xCA => (AddressingMode::Accumulator, InstructionType::Read, Op::Dex),
        0xCB => (AddressingMode::Accumulator, InstructionType::Read, Op::Axs),
        0xCC => (AddressingMode::Absolute, InstructionType::Read, Op::Cpy),
        0xCD => (AddressingMode::Absolute, InstructionType::Read, Op::Cmp),
        0xCE => (AddressingMode::Absolute, InstructionType::ReadModifyWrite, Op::Dec),
        0xCF => (AddressingMode::Accumulator, InstructionType::ReadModifyWrite, Op::Dcp),
        0xD0 => (AddressingMode::Relative, InstructionType::Branching, Op::Bne),
        0xD1 => (AddressingMode::IndirectY, InstructionType::Read, Op::Cmp),
        0xD2 => (AddressingMode::Accumulator, InstructionType::Read, Op::Stp),
        0xD3 => (AddressingMode::Accumulator, InstructionType::ReadModifyWrite, Op::Dcp),
        0xD4 => (AddressingMode::ZeroPageX, InstructionType::Read, Op::Nop),
        0xD5 => (AddressingMode::ZeroPageX, InstructionType::Read, Op::Cmp),
        0xD6 => (AddressingMode::ZeroPageX, InstructionType::ReadModifyWrite, Op::Dec),
        0xD7 => (AddressingMode::Accumulator, InstructionType::ReadModifyWrite, Op::Dcp),
        0xD8 => (AddressingMode::Accumulator, InstructionType::Read, Op::Cld),
        0xD9 => (AddressingMode::AbsoluteY, InstructionType::Read, Op::Cmp),
        0xDA => (AddressingMode::Accumulator, InstructionType::Read, Op::Nop),
        0xDB => (AddressingMode::Accumulator, InstructionType::ReadModifyWrite, Op::Dcp),
        0xDC => (AddressingMode::AbsoluteX, InstructionType::Read, Op::Nop),
        0xDD => (AddressingMode::AbsoluteX, InstructionType::Read, Op::Cmp),
        0xDE => (AddressingMode::AbsoluteX, InstructionType::ReadModifyWrite, Op::Dec),
        0xDF => (AddressingMode::Accumulator, InstructionType::ReadModifyWrite, Op::Dcp),
        0xE0 => (AddressingMode::Immediate, InstructionType::Read, Op::Cpx),
        0xE1 => (AddressingMode::IndirectX, InstructionType::Read, Op::Sbc),
        0xE2 => (AddressingMode::Immediate, InstructionType::Read, Op::Nop),
        0xE3 => (AddressingMode::Accumulator, InstructionType::Read, Op::Isc),
        0xE4 => (AddressingMode::ZeroPage, InstructionType::Read, Op::Cpx),
        0xE5 => (AddressingMode::ZeroPage, InstructionType::Read, Op::Sbc),
        0xE6 => (AddressingMode::ZeroPage, InstructionType::ReadModifyWrite, Op::Inc),
        0xE7 => (AddressingMode::Accumulator, InstructionType::Read, Op::Isc),
        0xE8 => (AddressingMode::Accumulator, InstructionType::Read, Op::Inx),
        0xE9 => (AddressingMode::Immediate, InstructionType::Read, Op::Sbc),
        0xEA => (AddressingMode::Accumulator, InstructionType::Read, Op::Nop),
        0xEB => (AddressingMode::Immediate, InstructionType::Read, Op::Sbc),
        0xEC => (AddressingMode::Absolute, InstructionType::Read, Op::Cpx),
        0xED => (AddressingMode::Absolute, InstructionType::Read, Op::Sbc),
        0xEE => (AddressingMode::Absolute, InstructionType::ReadModifyWrite, Op::Inc),
        0xEF => (AddressingMode::Accumulator, InstructionType::Read, Op::Isc),
        0xF0 => (AddressingMode::Relative, InstructionType::Branching, Op::Beq),
        0xF1 => (AddressingMode::IndirectY, InstructionType::Read, Op::Sbc),
        0xF2 => (AddressingMode::Accumulator, InstructionType::Read, Op::Stp),
        0xF3 => (AddressingMode::Accumulator, InstructionType::Read, Op::Isc),
        0xF4 => (AddressingMode::ZeroPageX, InstructionType::Read, Op::Nop),
        0xF5 => (AddressingMode::ZeroPageX, InstructionType::Read, Op::Sbc),
        0xF6 => (AddressingMode::ZeroPageX, InstructionType::ReadModifyWrite, Op::Inc),
        0xF7 => (AddressingMode::Accumulator, InstructionType::Read, Op::Isc),
        0xF8 => (AddressingMode::Accumulator, InstructionType::Read, Op::Sed),
        0xF9 => (AddressingMode::AbsoluteY, InstructionType::Read, Op::Sbc),
        0xFA => (AddressingMode::Accumulator, InstructionType::Read, Op::Nop),
        0xFB => (AddressingMode::Accumulator, InstructionType::Read, Op::Isc),
        0xFC => (AddressingMode::AbsoluteX, InstructionType::Read, Op::Slo),
        0xFD => (AddressingMode::AbsoluteX, InstructionType::Read, Op::Sbc),
        0xFE => (AddressingMode::AbsoluteX, InstructionType::ReadModifyWrite, Op::Inc),
        _ => (AddressingMode::Accumulator, InstructionType::Read, Op::Isc),
        };
        self.addressing_mode = addressing_mode;
        self.instruction_type = instruction_type;
        self.op = op;
    }

    /// Run one sub-cycle of the current micro-program. The stage is never
    /// touched here (the driver advances it), the result is never
    /// `Continue`, and a cycle only continues from stages a micro-program
    /// can still extend.
    #[verifier::rlimit(100)]
    fn step_instruction<B: BusOps>(&mut self, bus: &mut B) -> (result: CycleResult)
        ensures
            old(bus).inv() ==> final(bus).inv(),
            final(bus).frame_clock() == old(bus).frame_clock(),
            final(bus).frame_pending() == old(bus).frame_pending(),
            final(bus).prg() == old(bus).prg(),
            final(self).stage == old(self).stage,
            !(result is Continue),
            spec_at_most_one_store(old(bus).ram(), final(bus).ram()),
            result is EndCycle ==> old(self).stage <= 8,
            old(self).op is Adc ==> (final(self).stage == old(self).stage
            ),
            old(self).op is Adc ==> (final(self).addressing_mode == old(self).addressing_mode
            ),
            old(self).op is Adc ==> (final(self).instruction_type == old(self).instruction_type
            ),
            old(self).op is Adc ==> (final(self).op == old(self).op
            ),
            old(self).op is Adc ==> (final(self).interrupt_type == old(self).interrupt_type
            ),
            old(self).op is Adc ==> (old(self).instruction_type is Read ==> final(bus).ram() == old(bus).ram()
            ),
            old(self).op is Adc ==> (result is EndInstruction && !(old(self).addressing_mode is Relative) ==> final(self).sr == spec_adc(old(self).sr, old(self).a, final(self).value).0 && final(self).a == spec_adc(old(self).sr, old(self).a, final(self).value).1 && final(self).x == old(self).x && final(self).y == old(self).y && final(self).sp == old(self).sp
            ),
            old(self).op is Adc ==> (!(result is EndInstruction) ==> final(self).a == old(self).a && final(self).sr == old(self).sr && final(self).x == old(self).x && final(self).y == old(self).y && final(self).sp == old(self).sp
            ),
            old(self).op is Ahx ==> (result is Error
            ),
            old(self).op is Ahx ==> (*final(self) == *old(self)
            ),
            old(self).op is Ahx ==> (*final(bus) == *old(bus)
            ),
            old(self).op is Alr ==> (result is Error
            ),
            old(self).op is Alr ==> (*final(self) == *old(self)
            ),
            old(self).op is Alr ==> (*final(bus) == *old(bus)
            ),
            old(self).op is Anc ==> (result is Error
            ),
            old(self).op is Anc ==> (*final(self) == *old(self)
            ),
            old(self).op is Anc ==> (*final(bus) == *old(bus)
            ),
            old(self).op is And ==> (final(self).stage == old(self).stage
            ),
            old(self).op is And ==> (final(self).addressing_mode == old(self).addressing_mode
            ),
            old(self).op is And ==> (final(self).instruction_type == old(self).instruction_type
            ),
            old(self).op is And ==> (final(self).op == old(self).op
            ),
            old(self).op is And ==> (final(self).interrupt_type == old(self).interrupt_type
            ),
            old(self).op is And ==> (old(self).instruction_type is Read ==> final(bus).ram() == old(bus).ram()
            ),
            old(self).op is And ==> (result is EndInstruction && !(old(self).addressing_mode is Relative) ==> final(self).a == (old(self).a & final(self).value) && final(self).sr == spec_nz(old(self).sr, old(self).a & final(self).value) && final(self).x == old(self).x && final(self).y == old(self).y && final(self).sp == old(self).sp
            ),
            old(self).op is And ==> (!(result is EndInstruction) ==> final(self).a == old(self).a && final(self).sr == old(self).sr && final(self).x == old(self).x && final(self).y == old(self).y && final(self).sp == old(self).sp
            ),
            old(self).op is Arr ==> (result is Error
            ),
            old(self).op is Arr ==> (*final(self) == *old(self)
            ),
            old(self).op is Arr ==> (*final(bus) == *old(bus)
            ),
            old(self).op is Asl ==> (final(self).stage == old(self).stage
            ),
            old(self).op is Asl ==> (final(self).addressing_mode == old(self).addressing_mode
            ),
            old(self).op is Asl ==> (final(self).instruction_type == old(self).instruction_type
            ),
            old(self).op is Asl ==> (final(self).op == old(self).op
            ),
            old(self).op is Asl ==> (final(self).interrupt_type == old(self).interrupt_type
            ),
            old(self).op is Asl ==> (final(self).x == old(self).x && final(self).y == old(self).y && final(self).sp == old(self).sp
            ),
            old(self).op is Asl ==> (result is EndInstruction && old(self).addressing_mode is Accumulator ==>
                final(self).a == (old(self).a << 1u32)
                && final(self).sr == spec_shift_flags(old(self).sr, (old(self).a & 0x80) != 0, (old(self).a << 1u32))
                && final(bus).ram() == old(bus).ram()
            ),
            old(self).op is Asl ==> (result is EndInstruction && !(old(self).addressing_mode is Accumulator)
                && spec_rmw_mode(old(self).addressing_mode)
                && old(self).instruction_type is ReadModifyWrite ==>
                final(self).value == (old(self).value << 1u32)
                && final(self).a == old(self).a
                && final(self).sr == spec_shift_flags(old(self).sr, (old(self).value & 0x80) != 0, (old(self).value << 1u32))
                && final(bus).ram() == spec_ram_write(old(bus).ram(), old(self).address, (old(self).value << 1u32))
            ),
            old(self).op is Asl ==> (!(result is EndInstruction) ==> final(self).a == old(self).a && final(self).sr == old(self).sr
            ),
            old(self).op is Axs ==> (result is Error
            ),
            old(self).op is Axs ==> (*final(self) == *old(self)
            ),
            old(self).op is Axs ==> (*final(bus) == *old(bus)
            ),
            old(self).op is Bcc ==> (final(self).stage == old(self).stage
            ),
            old(self).op is Bcc ==> (final(self).addressing_mode == old(self).addressing_mode
            ),
            old(self).op is Bcc ==> (final(self).instruction_type == old(self).instruction_type
            ),
            old(self).op is Bcc ==> (final(self).op == old(self).op
            ),
            old(self).op is Bcc ==> (final(self).interrupt_type == old(self).interrupt_type
            ),
            old(self).op is Bcc ==> (final(self).a == old(self).a && final(self).x == old(self).x && final(self).y == old(self).y
                && final(self).sp == old(self).sp && final(self).sr == old(self).sr
            ),
            old(self).op is Bcc ==> (old(self).instruction_type is Branching ==> final(bus).ram() == old(bus).ram()
            ),
            old(self).op is Bcc ==> (old(self).addressing_mode is Relative && old(self).stage == 2 ==>
                final(self).pc == old(self).pc.wrapping_add(1)
                && (result is EndCycle <==> old(self).sr & 0x01 == 0)
                && (result is EndInstruction <==> !(old(self).sr & 0x01 == 0))
            ),
            old(self).op is Bcc ==> (old(self).addressing_mode is Relative && old(self).stage == 3 ==>
                (if spec_branch_crossed(old(self).pc, old(self).value) {
                    result is EndCycle && final(self).pc == old(self).pc
                } else {
                    result is EndInstruction
                        && final(self).pc == spec_branch_target(old(self).pc, old(self).value)
                })
            ),
            old(self).op is Bcc ==> (old(self).addressing_mode is Relative && old(self).stage == 4 ==>
                result is EndInstruction
                && final(self).pc == spec_branch_target(old(self).pc, old(self).value)
            ),
            old(self).op is Bcc ==> (old(self).addressing_mode is Relative && !(2 <= old(self).stage <= 4) ==> result is Error
            ),
            old(self).op is Bcs ==> (final(self).stage == old(self).stage
            ),
            old(self).op is Bcs ==> (final(self).addressing_mode == old(self).addressing_mode
            ),
            old(self).op is Bcs ==> (final(self).instruction_type == old(self).instruction_type
            ),
            old(self).op is Bcs ==> (final(self).op == old(self).op
            ),
            old(self).op is Bcs ==> (final(self).interrupt_type == old(self).interrupt_type
            ),
            old(self).op is Bcs ==> (final(self).a == old(self).a && final(self).x == old(self).x && final(self).y == old(self).y
                && final(self).sp == old(self).sp && final(self).sr == old(self).sr
            ),
            old(self).op is Bcs ==> (old(self).instruction_type is Branching ==> final(bus).ram() == old(bus).ram()
            ),
            old(self).op is Bcs ==> (old(self).addressing_mode is Relative && old(self).stage == 2 ==>
                final(self).pc == old(self).pc.wrapping_add(1)
                && (result is EndCycle <==> old(self).sr & 0x01 != 0)
                && (result is EndInstruction <==> !(old(self).sr & 0x01 != 0))
            ),
            old(self).op is Bcs ==> (old(self).addressing_mode is Relative && old(self).stage == 3 ==>
                (if spec_branch_crossed(old(self).pc, old(self).value) {
                    result is EndCycle && final(self).pc == old(self).pc
                } else {
                    result is EndInstruction
                        && final(self).pc == spec_branch_target(old(self).pc, old(self).value)
                })
            ),
            old(self).op is Bcs ==> (old(self).addressing_mode is Relative && old(self).stage == 4 ==>
                result is EndInstruction
                && final(self).pc == spec_branch_target(old(self).pc, old(self).value)
            ),
            old(self).op is Bcs ==> (old(self).addressing_mode is Relative && !(2 <= old(self).stage <= 4) ==> result is Error
            ),
            old(self).op is Beq ==> (final(self).stage == old(self).stage
            ),
            old(self).op is Beq ==> (final(self).addressing_mode == old(self).addressing_mode
            ),
            old(self).op is Beq ==> (final(self).instruction_type == old(self).instruction_type
            ),
            old(self).op is Beq ==> (final(self).op == old(self).op
            ),
            old(self).op is Beq ==> (final(self).interrupt_type == old(self).interrupt_type
            ),
            old(self).op is Beq ==> (final(self).a == old(self).a && final(self).x == old(self).x && final(self).y == old(self).y
                && final(self).sp == old(self).sp && final(self).sr == old(self).sr
            ),
            old(self).op is Beq ==> (old(self).instruction_type is Branching ==> final(bus).ram() == old(bus).ram()
            ),
            old(self).op is Beq ==> (old(self).addressing_mode is Relative && old(self).stage == 2 ==>
                final(self).pc == old(self).pc.wrapping_add(1)
                && (result is EndCycle <==> old(self).sr & 0x02 != 0)
                && (result is EndInstruction <==> !(old(self).sr & 0x02 != 0))
            ),
            old(self).op is Beq ==> (old(self).addressing_mode is Relative && old(self).stage == 3 ==>
                (if spec_branch_crossed(old(self).pc, old(self).value) {
                    result is EndCycle && final(self).pc == old(self).pc
                } else {
                    result is EndInstruction
                        && final(self).pc == spec_branch_target(old(self).pc, old(self).value)
                })
            ),
            old(self).op is Beq ==> (old(self).addressing_mode is Relative && old(self).stage == 4 ==>
                result is EndInstruction
                && final(self).pc == spec_branch_target(old(self).pc, old(self).value)
            ),
            old(self).op is Beq ==> (old(self).addressing_mode is Relative && !(2 <= old(self).stage <= 4) ==> result is Error
            ),
            old(self).op is Bit ==> (final(self).stage == old(self).stage
            ),
            old(self).op is Bit ==> (final(self).addressing_mode == old(self).addressing_mode
            ),
            old(self).op is Bit ==> (final(self).instruction_type == old(self).instruction_type
            ),
            old(self).op is Bit ==> (final(self).op == old(self).op
            ),
            old(self).op is Bit ==> (final(self).interrupt_type == old(self).interrupt_type
            ),
            old(self).op is Bit ==> (old(self).instruction_type is Read ==> final(bus).ram() == old(bus).ram()
            ),
            old(self).op is Bit ==> (result is EndInstruction && !(old(self).addressing_mode is Relative) ==> final(self).sr == spec_bit(old(self).sr, old(self).a, final(self).value) && final(self).a == old(self).a && final(self).x == old(self).x && final(self).y == old(self).y && final(self).sp == old(self).sp
            ),
            old(self).op is Bit ==> (!(result is EndInstruction) ==> final(self).a == old(self).a && final(self).sr == old(self).sr && final(self).x == old(self).x && final(self).y == old(self).y && final(self).sp == old(self).sp
            ),
            old(self).op is Bmi ==> (final(self).stage == old(self).stage
            ),
            old(self).op is Bmi ==> (final(self).addressing_mode == old(self).addressing_mode
            ),
            old(self).op is Bmi ==> (final(self).instruction_type == old(self).instruction_type
            ),
            old(self).op is Bmi ==> (final(self).op == old(self).op
            ),
            old(self).op is Bmi ==> (final(self).interrupt_type == old(self).interrupt_type
            ),
            old(self).op is Bmi ==> (final(self).a == old(self).a && final(self).x == old(self).x && final(self).y == old(self).y
                && final(self).sp == old(self).sp && final(self).sr == old(self).sr
            ),
            old(self).op is Bmi ==> (old(self).instruction_type is Branching ==> final(bus).ram() == old(bus).ram()
            ),
            old(self).op is Bmi ==> (old(self).addressing_mode is Relative && old(self).stage == 2 ==>
                final(self).pc == old(self).pc.wrapping_add(1)
                && (result is EndCycle <==> old(self).sr & 0x80 != 0)
                && (result is EndInstruction <==> !(old(self).sr & 0x80 != 0))
            ),
            old(self).op is Bmi ==> (old(self).addressing_mode is Relative && old(self).stage == 3 ==>
                (if spec_branch_crossed(old(self).pc, old(self).value) {
                    result is EndCycle && final(self).pc == old(self).pc
                } else {
                    result is EndInstruction
                        && final(self).pc == spec_branch_target(old(self).pc, old(self).value)
                })
            ),
            old(self).op is Bmi ==> (old(self).addressing_mode is Relative && old(self).stage == 4 ==>
                result is EndInstruction
                && final(self).pc == spec_branch_target(old(self).pc, old(self).value)
            ),
            old(self).op is Bmi ==> (old(self).addressing_mode is Relative && !(2 <= old(self).stage <= 4) ==> result is Error
            ),
            old(self).op is Bne ==> (final(self).stage == old(self).stage
            ),
            old(self).op is Bne ==> (final(self).addressing_mode == old(self).addressing_mode
            ),
            old(self).op is Bne ==> (final(self).instruction_type == old(self).instruction_type
            ),
            old(self).op is Bne ==> (final(self).op == old(self).op
            ),
            old(self).op is Bne ==> (final(self).interrupt_type == old(self).interrupt_type
            ),
            old(self).op is Bne ==> (final(self).a == old(self).a && final(self).x == old(self).x && final(self).y == old(self).y
                && final(self).sp == old(self).sp && final(self).sr == old(self).sr
            ),
            old(self).op is Bne ==> (old(self).instruction_type is Branching ==> final(bus).ram() == old(bus).ram()
            ),
            old(self).op is Bne ==> (old(self).addressing_mode is Relative && old(self).stage == 2 ==>
                final(self).pc == old(self).pc.wrapping_add(1)
                && (result is EndCycle <==> old(self).sr & 0x02 == 0)
                && (result is EndInstruction <==> !(old(self).sr & 0x02 == 0))
            ),
            old(self).op is Bne ==> (old(self).addressing_mode is Relative && old(self).stage == 3 ==>
                (if spec_branch_crossed(old(self).pc, old(self).value) {
                    result is EndCycle && final(self).pc == old(self).pc
                } else {
                    result is EndInstruction
                        && final(self).pc == spec_branch_target(old(self).pc, old(self).value)
                })
            ),
            old(self).op is Bne ==> (old(self).addressing_mode is Relative && old(self).stage == 4 ==>
                result is EndInstruction
                && final(self).pc == spec_branch_target(old(self).pc, old(self).value)
            ),
            old(self).op is Bne ==> (old(self).addressing_mode is Relative && !(2 <= old(self).stage <= 4) ==> result is Error
            ),
            old(self).op is Bpl ==> (final(self).stage == old(self).stage
            ),
            old(self).op is Bpl ==> (final(self).addressing_mode == old(self).addressing_mode
            ),
            old(self).op is Bpl ==> (final(self).instruction_type == old(self).instruction_type
            ),
            old(self).op is Bpl ==> (final(self).op == old(self).op
            ),
            old(self).op is Bpl ==> (final(self).interrupt_type == old(self).interrupt_type
            ),
            old(self).op is Bpl ==> (final(self).a == old(self).a && final(self).x == old(self).x && final(self).y == old(self).y
                && final(self).sp == old(self).sp && final(self).sr == old(self).sr
            ),
            old(self).op is Bpl ==> (old(self).instruction_type is Branching ==> final(bus).ram() == old(bus).ram()
            ),
            old(self).op is Bpl ==> (old(self).addressing_mode is Relative && old(self).stage == 2 ==>
                final(self).pc == old(self).pc.wrapping_add(1)
                && (result is EndCycle <==> old(self).sr & 0x80 == 0)
                && (result is EndInstruction <==> !(old(self).sr & 0x80 == 0))
            ),
            old(self).op is Bpl ==> (old(self).addressing_mode is Relative && old(self).stage == 3 ==>
                (if spec_branch_crossed(old(self).pc, old(self).value) {
                    result is EndCycle && final(self).pc == old(self).pc
                } else {
                    result is EndInstruction
                        && final(self).pc == spec_branch_target(old(self).pc, old(self).value)
                })
            ),
            old(self).op is Bpl ==> (old(self).addressing_mode is Relative && old(self).stage == 4 ==>
                result is EndInstruction
                && final(self).pc == spec_branch_target(old(self).pc, old(self).value)
            ),
            old(self).op is Bpl ==> (old(self).addressing_mode is Relative && !(2 <= old(self).stage <= 4) ==> result is Error
            ),
            old(self).op is Brk ==> (final(bus).prg_banks() == old(bus).prg_banks()
            ),
            old(self).op is Brk ==> (final(bus).oam() == old(bus).oam()
            ),
            old(self).op is Brk ==> (final(bus).oam_addr() == old(bus).oam_addr()
            ),
            old(self).op is Brk ==> (final(self).stage == old(self).stage
            ),
            old(self).op is Brk ==> (final(self).addressing_mode == old(self).addressing_mode
            ),
            old(self).op is Brk ==> (final(self).instruction_type == old(self).instruction_type
            ),
            old(self).op is Brk ==> (final(self).op == old(self).op
            ),
            old(self).op is Brk ==> (final(self).interrupt_type == old(self).interrupt_type
            ),
            old(self).op is Brk ==> (final(self).a == old(self).a && final(self).x == old(self).x && final(self).y == old(self).y
            ),
            old(self).op is Brk ==> (old(self).stage == 2 ==> result is EndCycle && final(self).pc == old(self).pc.wrapping_add(1)
                && final(self).sp == old(self).sp && final(self).sr == old(self).sr
                && final(bus).ram() == old(bus).ram()
            ),
            old(self).op is Brk ==> (old(self).stage == 3 ==> result is EndCycle && final(self).pc == old(self).pc
                && final(self).sp == old(self).sp.wrapping_sub(1) && final(self).sr == old(self).sr
                && final(bus).ram() == spec_ram_write(old(bus).ram(), spec_stack_address(old(self).sp), (old(self).pc >> 8u32) as u8)
            ),
            old(self).op is Brk ==> (old(self).stage == 4 ==> result is EndCycle && final(self).pc == old(self).pc
                && final(self).sp == old(self).sp.wrapping_sub(1) && final(self).sr == old(self).sr
                && final(bus).ram() == spec_ram_write(old(bus).ram(), spec_stack_address(old(self).sp), (old(self).pc & 0xFF) as u8)
            ),
            old(self).op is Brk ==> (old(self).stage == 5 ==> result is EndCycle && final(self).pc == old(self).pc
                && final(self).sp == old(self).sp.wrapping_sub(1)
                && final(self).sr == spec_set_flag(old(self).sr, 0x04, true)
                && final(bus).ram() == spec_ram_write(old(bus).ram(), spec_stack_address(old(self).sp),
                    old(self).sr | 0x30)
            ),
            old(self).op is Brk ==> (old(self).stage == 6 ==> result is EndCycle && final(self).sp == old(self).sp
                && final(self).sr == old(self).sr && final(bus).ram() == old(bus).ram()
                && final(self).pc == (old(self).pc & 0xFF00)
                    | spec_prg_read(old(bus).prg(), old(bus).prg_banks().1, 0xFFFE) as u16
            ),
            old(self).op is Brk ==> (old(self).stage == 7 ==> result is EndInstruction && final(self).sp == old(self).sp
                && final(self).sr == old(self).sr && final(bus).ram() == old(bus).ram()
                && final(self).pc == ((spec_prg_read(old(bus).prg(), old(bus).prg_banks().1, 0xFFFF) as u16) << 8u32)
                    | (old(self).pc & 0xFF)
            ),
            old(self).op is Brk ==> (!(2 <= old(self).stage <= 7) ==> result is Error
            ),
            old(self).op is Bvc ==> (final(self).stage == old(self).stage
            ),
            old(self).op is Bvc ==> (final(self).addressing_mode == old(self).addressing_mode
            ),
            old(self).op is Bvc ==> (final(self).instruction_type == old(self).instruction_type
            ),
            old(self).op is Bvc ==> (final(self).op == old(self).op
            ),
            old(self).op is Bvc ==> (final(self).interrupt_type == old(self).interrupt_type
            ),
            old(self).op is Bvc ==> (final(self).a == old(self).a && final(self).x == old(self).x && final(self).y == old(self).y
                && final(self).sp == old(self).sp && final(self).sr == old(self).sr
            ),
            old(self).op is Bvc ==> (old(self).instruction_type is Branching ==> final(bus).ram() == old(bus).ram()
            ),
            old(self).op is Bvc ==> (old(self).addressing_mode is Relative && old(self).stage == 2 ==>
                final(self).pc == old(self).pc.wrapping_add(1)
                && (result is EndCycle <==> old(self).sr & 0x40 == 0)
                && (result is EndInstruction <==> !(old(self).sr & 0x40 == 0))
            ),
            old(self).op is Bvc ==> (old(self).addressing_mode is Relative && old(self).stage == 3 ==>
                (if spec_branch_crossed(old(self).pc, old(self).value) {
                    result is EndCycle && final(self).pc == old(self).pc
                } else {
                    result is EndInstruction
                        && final(self).pc == spec_branch_target(old(self).pc, old(self).value)
                })
            ),
            old(self).op is Bvc ==> (old(self).addressing_mode is Relative && old(self).stage == 4 ==>
                result is EndInstruction
                && final(self).pc == spec_branch_target(old(self).pc, old(self).value)
            ),
            old(self).op is Bvc ==> (old(self).addressing_mode is Relative && !(2 <= old(self).stage <= 4) ==> result is Error
            ),
            old(self).op is Bvs ==> (final(self).stage == old(self).stage
            ),
            old(self).op is Bvs ==> (final(self).addressing_mode == old(self).addressing_mode
            ),
            old(self).op is Bvs ==> (final(self).instruction_type == old(self).instruction_type
            ),
            old(self).op is Bvs ==> (final(self).op == old(self).op
            ),
            old(self).op is Bvs ==> (final(self).interrupt_type == old(self).interrupt_type
            ),
            old(self).op is Bvs ==> (final(self).a == old(self).a && final(self).x == old(self).x && final(self).y == old(self).y
                && final(self).sp == old(self).sp && final(self).sr == old(self).sr
            ),
            old(self).op is Bvs ==> (old(self).instruction_type is Branching ==> final(bus).ram() == old(bus).ram()
            ),
            old(self).op is Bvs ==> (old(self).addressing_mode is Relative && old(self).stage == 2 ==>
                final(self).pc == old(self).pc.wrapping_add(1)
                && (result is EndCycle <==> old(self).sr & 0x40 != 0)
                && (result is EndInstruction <==> !(old(self).sr & 0x40 != 0))
            ),
            old(self).op is Bvs ==> (old(self).addressing_mode is Relative && old(self).stage == 3 ==>
                (if spec_branch_crossed(old(self).pc, old(self).value) {
                    result is EndCycle && final(self).pc == old(self).pc
                } else {
                    result is EndInstruction
                        && final(self).pc == spec_branch_target(old(self).pc, old(self).value)
                })
            ),
            old(self).op is Bvs ==> (old(self).addressing_mode is Relative && old(self).stage == 4 ==>
                result is EndInstruction
                && final(self).pc == spec_branch_target(old(self).pc, old(self).value)
            ),
            old(self).op is Bvs ==> (old(self).addressing_mode is Relative && !(2 <= old(self).stage <= 4) ==> result is Error
            ),
            old(self).op is Clc ==> (result is EndInstruction
            ),
            old(self).op is Clc ==> (*final(self) == (Cpu6502 { sr: spec_set_flag(old(self).sr, 0x01, false), ..*old(self) })
            ),
            old(self).op is Clc ==> (*final(bus) == *old(bus)
            ),
            old(self).op is Cld ==> (result is EndInstruction
            ),
            old(self).op is Cld ==> (*final(self) == (Cpu6502 { sr: spec_set_flag(old(self).sr, 0x08, false), ..*old(self) })
            ),
            old(self).op is Cld ==> (*final(bus) == *old(bus)
            ),
            old(self).op is Cli ==> (result is EndInstruction
            ),
            old(self).op is Cli ==> (*final(self) == (Cpu6502 { sr: spec_set_flag(old(self).sr, 0x04, false), ..*old(self) })
            ),
            old(self).op is Cli ==> (*final(bus) == *old(bus)
            ),
            old(self).op is Clv ==> (result is EndInstruction
            ),
            old(self).op is Clv ==> (*final(self) == (Cpu6502 { sr: spec_set_flag(old(self).sr, 0x40, false), ..*old(self) })
            ),
            old(self).op is Clv ==> (*final(bus) == *old(bus)
            ),
            old(self).op is Cmp ==> (final(self).stage == old(self).stage
            ),
            old(self).op is Cmp ==> (final(self).addressing_mode == old(self).addressing_mode
            ),
            old(self).op is Cmp ==> (final(self).instruction_type == old(self).instruction_type
            ),
            old(self).op is Cmp ==> (final(self).op == old(self).op
            ),
            old(self).op is Cmp ==> (final(self).interrupt_type == old(self).interrupt_type
            ),
            old(self).op is Cmp ==> (old(self).instruction_type is Read ==> final(bus).ram() == old(bus).ram()
            ),
            old(self).op is Cmp ==> (result is EndInstruction && !(old(self).addressing_mode is Relative) ==> final(self).sr == spec_cmp(old(self).sr, old(self).a, final(self).value) && final(self).a == old(self).a && final(self).x == old(self).x && final(self).y == old(self).y && final(self).sp == old(self).sp
            ),
            old(self).op is Cmp ==> (!(result is EndInstruction) ==> final(self).a == old(self).a && final(self).sr == old(self).sr && final(self).x == old(self).x && final(self).y == old(self).y && final(self).sp == old(self).sp
            ),
            old(self).op is Cpx ==> (final(self).stage == old(self).stage
            ),
            old(self).op is Cpx ==> (final(self).addressing_mode == old(self).addressing_mode
            ),
            old(self).op is Cpx ==> (final(self).instruction_type == old(self).instruction_type
            ),
            old(self).op is Cpx ==> (final(self).op == old(self).op
            ),
            old(self).op is Cpx ==> (final(self).interrupt_type == old(self).interrupt_type
            ),
            old(self).op is Cpx ==> (old(self).instruction_type is Read ==> final(bus).ram() == old(bus).ram()
            ),
            old(self).op is Cpx ==> (result is EndInstruction && !(old(self).addressing_mode is Relative) ==> final(self).sr == spec_cmp(old(self).sr, old(self).x, final(self).value) && final(self).a == old(self).a && final(self).x == old(self).x && final(self).y == old(self).y && final(self).sp == old(self).sp
            ),
            old(self).op is Cpx ==> (!(result is EndInstruction) ==> final(self).a == old(self).a && final(self).sr == old(self).sr && final(self).x == old(self).x && final(self).y == old(self).y && final(self).sp == old(self).sp
            ),
            old(self).op is Cpy ==> (final(self).stage == old(self).stage
            ),
            old(self).op is Cpy ==> (final(self).addressing_mode == old(self).addressing_mode
            ),
            old(self).op is Cpy ==> (final(self).instruction_type == old(self).instruction_type
            ),
            old(self).op is Cpy ==> (final(self).op == old(self).op
            ),
            old(self).op is Cpy ==> (final(self).interrupt_type == old(self).interrupt_type
            ),
            old(self).op is Cpy ==> (old(self).instruction_type is Read ==> final(bus).ram() == old(bus).ram()
            ),
            old(self).op is Cpy ==> (result is EndInstruction && !(old(self).addressing_mode is Relative) ==> final(self).sr == spec_cmp(old(self).sr, old(self).y, final(self).value) && final(self).a == old(self).a && final(self).x == old(self).x && final(self).y == old(self).y && final(self).sp == old(self).sp
            ),
            old(self).op is Cpy ==> (!(result is EndInstruction) ==> final(self).a == old(self).a && final(self).sr == old(self).sr && final(self).x == old(self).x && final(self).y == old(self).y && final(self).sp == old(self).sp
            ),
            old(self).op is Dcp ==> (result is Error
            ),
            old(self).op is Dcp ==> (*final(self) == *old(self)
            ),
            old(self).op is Dcp ==> (*final(bus) == *old(bus)
            ),
            old(self).op is Dec ==> (final(self).stage == old(self).stage
            ),
            old(self).op is Dec ==> (final(self).addressing_mode == old(self).addressing_mode
            ),
            old(self).op is Dec ==> (final(self).instruction_type == old(self).instruction_type
            ),
            old(self).op is Dec ==> (final(self).op == old(self).op
            ),
            old(self).op is Dec ==> (final(self).interrupt_type == old(self).interrupt_type
            ),
            old(self).op is Dec ==> (final(self).a == old(self).a && final(self).x == old(self).x
                && final(self).y == old(self).y && final(self).sp == old(self).sp
            ),
            old(self).op is Dec ==> (result is EndInstruction && spec_rmw_mode(old(self).addressing_mode)
                && old(self).instruction_type is ReadModifyWrite ==>
                final(self).value == old(self).value.wrapping_sub(1)
                && final(self).sr == spec_nz(old(self).sr, old(self).value.wrapping_sub(1))
                && final(bus).ram() == spec_ram_write(old(bus).ram(), old(self).address, old(self).value.wrapping_sub(1))
            ),
            old(self).op is Dec ==> (result is EndInstruction && !(old(self).addressing_mode is Relative) ==> final(self).sr == spec_nz(old(self).sr, final(self).value)
                && final(bus).ram() == spec_ram_write(old(bus).ram(), final(self).address, final(self).value)
            ),
            old(self).op is Dec ==> (!(result is EndInstruction) ==> final(self).sr == old(self).sr
            ),
            old(self).op is Dex ==> (result is EndInstruction
            ),
            old(self).op is Dex ==> (*final(self) == (Cpu6502 { x: old(self).x.wrapping_sub(1), sr: spec_nz(old(self).sr, old(self).x.wrapping_sub(1)), ..*old(self) })
            ),
            old(self).op is Dex ==> (*final(bus) == *old(bus)
            ),
            old(self).op is Dey ==> (result is EndInstruction
            ),
            old(self).op is Dey ==> (*final(self) == (Cpu6502 { y: old(self).y.wrapping_sub(1), sr: spec_nz(old(self).sr, old(self).y.wrapping_sub(1)), ..*old(self) })
            ),
            old(self).op is Dey ==> (*final(bus) == *old(bus)
            ),
            old(self).op is Eor ==> (final(self).stage == old(self).stage
            ),
            old(self).op is Eor ==> (final(self).addressing_mode == old(self).addressing_mode
            ),
            old(self).op is Eor ==> (final(self).instruction_type == old(self).instruction_type
            ),
            old(self).op is Eor ==> (final(self).op == old(self).op
            ),
            old(self).op is Eor ==> (final(self).interrupt_type == old(self).interrupt_type
            ),
            old(self).op is Eor ==> (old(self).instruction_type is Read ==> final(bus).ram() == old(bus).ram()
            ),
            old(self).op is Eor ==> (result is EndInstruction && !(old(self).addressing_mode is Relative) ==> final(self).a == (old(self).a ^ final(self).value) && final(self).sr == spec_nz(old(self).sr, old(self).a ^ final(self).value) && final(self).x == old(self).x && final(self).y == old(self).y && final(self).sp == old(self).sp
            ),
            old(self).op is Eor ==> (!(result is EndInstruction) ==> final(self).a == old(self).a && final(self).sr == old(self).sr && final(self).x == old(self).x && final(self).y == old(self).y && final(self).sp == old(self).sp
            ),
            old(self).op is Inc ==> (final(self).stage == old(self).stage
            ),
            old(self).op is Inc ==> (final(self).addressing_mode == old(self).addressing_mode
            ),
            old(self).op is Inc ==> (final(self).instruction_type == old(self).instruction_type
            ),
            old(self).op is Inc ==> (final(self).op == old(self).op
            ),
            old(self).op is Inc ==> (final(self).interrupt_type == old(self).interrupt_type
            ),
            old(self).op is Inc ==> (final(self).a == old(self).a && final(self).x == old(self).x
                && final(self).y == old(self).y && final(self).sp == old(self).sp
            ),
            old(self).op is Inc ==> (result is EndInstruction && spec_rmw_mode(old(self).addressing_mode)
                && old(self).instruction_type is ReadModifyWrite ==>
                final(self).value == old(self).value.wrapping_add(1)
                && final(self).sr == spec_nz(old(self).sr, old(self).value.wrapping_add(1))
                && final(bus).ram() == spec_ram_write(old(bus).ram(), old(self).address, old(self).value.wrapping_add(1))
            ),
            old(self).op is Inc ==> (result is EndInstruction && !(old(self).addressing_mode is Relative) ==> final(self).sr == spec_nz(old(self).sr, final(self).value)
                && final(bus).ram() == spec_ram_write(old(bus).ram(), final(self).address, final(self).value)
            ),
            old(self).op is Inc ==> (!(result is EndInstruction) ==> final(self).sr == old(self).sr
            ),
            old(self).op is Inx ==> (result is EndInstruction
            ),
            old(self).op is Inx ==> (*final(self) == (Cpu6502 { x: old(self).x.wrapping_add(1), sr: spec_nz(old(self).sr, old(self).x.wrapping_add(1)), ..*old(self) })
            ),
            old(self).op is Inx ==> (*final(bus) == *old(bus)
            ),
            old(self).op is Iny ==> (result is EndInstruction
            ),
            old(self).op is Iny ==> (*final(self) == (Cpu6502 { y: old(self).y.wrapping_add(1), sr: spec_nz(old(self).sr, old(self).y.wrapping_add(1)), ..*old(self) })
            ),
            old(self).op is Iny ==> (*final(bus) == *old(bus)
            ),
            old(self).op is Irq ==> (final(bus).prg_banks() == old(bus).prg_banks()
            ),
            old(self).op is Irq ==> (final(bus).oam() == old(bus).oam()
            ),
            old(self).op is Irq ==> (final(bus).oam_addr() == old(bus).oam_addr()
            ),
            old(self).op is Irq ==> (final(self).stage == old(self).stage
            ),
            old(self).op is Irq ==> (final(self).addressing_mode == old(self).addressing_mode
            ),
            old(self).op is Irq ==> (final(self).instruction_type == old(self).instruction_type
            ),
            old(self).op is Irq ==> (final(self).op == old(self).op
            ),
            old(self).op is Irq ==> (final(self).interrupt_type == old(self).interrupt_type
            ),
            old(self).op is Irq ==> (final(self).a == old(self).a && final(self).x == old(self).x && final(self).y == old(self).y
            ),
            old(self).op is Irq ==> (old(self).stage == 2 ==> result is EndCycle && final(self).pc == old(self).pc
                && final(self).sp == old(self).sp && final(self).sr == old(self).sr
                && final(bus).ram() == old(bus).ram()
            ),
            old(self).op is Irq ==> (old(self).stage == 3 ==> result is EndCycle && final(self).pc == old(self).pc
                && final(self).sp == old(self).sp.wrapping_sub(1) && final(self).sr == old(self).sr
                && final(bus).ram() == spec_ram_write(old(bus).ram(), spec_stack_address(old(self).sp), (old(self).pc >> 8u32) as u8)
            ),
            old(self).op is Irq ==> (old(self).stage == 4 ==> result is EndCycle && final(self).pc == old(self).pc
                && final(self).sp == old(self).sp.wrapping_sub(1) && final(self).sr == old(self).sr
                && final(bus).ram() == spec_ram_write(old(bus).ram(), spec_stack_address(old(self).sp), (old(self).pc & 0xFF) as u8)
            ),
            old(self).op is Irq ==> (old(self).stage == 5 ==> result is EndCycle && final(self).pc == old(self).pc
                && final(self).sp == old(self).sp.wrapping_sub(1)
                && final(self).sr == spec_set_flag(old(self).sr, 0x04, true)
                && final(bus).ram() == spec_ram_write(old(bus).ram(), spec_stack_address(old(self).sp),
                    spec_set_flag(spec_set_flag(old(self).sr, 0x20, true), 0x10, false))
            ),
            old(self).op is Irq ==> (old(self).stage == 6 ==> result is EndCycle && final(self).sp == old(self).sp
                && final(self).sr == old(self).sr && final(bus).ram() == old(bus).ram()
                && final(self).pc == (old(self).pc & 0xFF00)
                    | spec_prg_read(old(bus).prg(), old(bus).prg_banks().1, 0xFFFE) as u16
            ),
            old(self).op is Irq ==> (old(self).stage == 7 ==> result is EndInstruction && final(self).sp == old(self).sp
                && final(self).sr == old(self).sr && final(bus).ram() == old(bus).ram()
                && final(self).pc == ((spec_prg_read(old(bus).prg(), old(bus).prg_banks().1, 0xFFFF) as u16) << 8u32)
                    | (old(self).pc & 0xFF)
            ),
            old(self).op is Irq ==> (!(2 <= old(self).stage <= 7) ==> result is Error
            ),
            old(self).op is Isc ==> (result is Error
            ),
            old(self).op is Isc ==> (*final(self) == *old(self)
            ),
            old(self).op is Isc ==> (*final(bus) == *old(bus)
            ),
            old(self).op is Jmp ==> (final(self).stage == old(self).stage
            ),
            old(self).op is Jmp ==> (final(self).addressing_mode == old(self).addressing_mode
            ),
            old(self).op is Jmp ==> (final(self).instruction_type == old(self).instruction_type
            ),
            old(self).op is Jmp ==> (final(self).op == old(self).op
            ),
            old(self).op is Jmp ==> (final(self).interrupt_type == old(self).interrupt_type
            ),
            old(self).op is Jmp ==> (old(self).instruction_type is Read ==> final(bus).ram() == old(bus).ram()
            ),
            old(self).op is Jmp ==> (result is EndInstruction && !(old(self).addressing_mode is Relative) ==> final(self).pc == final(self).address && final(self).a == old(self).a && final(self).sr == old(self).sr && final(self).x == old(self).x && final(self).y == old(self).y && final(self).sp == old(self).sp
            ),
            old(self).op is Jmp ==> (!(result is EndInstruction) ==> final(self).a == old(self).a && final(self).sr == old(self).sr && final(self).x == old(self).x && final(self).y == old(self).y && final(self).sp == old(self).sp
            ),
            old(self).op is Jsr ==> (final(bus).prg_banks() == old(bus).prg_banks()
            ),
            old(self).op is Jsr ==> (final(bus).oam() == old(bus).oam()
            ),
            old(self).op is Jsr ==> (final(bus).oam_addr() == old(bus).oam_addr()
            ),
            old(self).op is Jsr ==> (final(self).stage == old(self).stage
            ),
            old(self).op is Jsr ==> (final(self).addressing_mode == old(self).addressing_mode
            ),
            old(self).op is Jsr ==> (final(self).instruction_type == old(self).instruction_type
            ),
            old(self).op is Jsr ==> (final(self).op == old(self).op
            ),
            old(self).op is Jsr ==> (final(self).interrupt_type == old(self).interrupt_type
            ),
            old(self).op is Jsr ==> (final(self).a == old(self).a && final(self).x == old(self).x && final(self).y == old(self).y
                && final(self).sr == old(self).sr
            ),
            old(self).op is Jsr ==> (old(self).stage == 2 ==> result is EndCycle && final(self).pc == old(self).pc.wrapping_add(1)
                && final(self).sp == old(self).sp && final(bus).ram() == old(bus).ram()
                && (old(self).pc < 0x2000 ==> final(self).address
                    == (old(self).address & 0xFF00) | spec_ram_read(old(bus).ram(), old(self).pc) as u16)
            ),
            old(self).op is Jsr ==> (old(self).stage == 3 ==> result is EndCycle && final(self).pc == old(self).pc
                && final(self).sp == old(self).sp && final(bus).ram() == old(bus).ram()
            ),
            old(self).op is Jsr ==> (old(self).stage == 4 ==> result is EndCycle && final(self).pc == old(self).pc
                && final(self).sp == old(self).sp.wrapping_sub(1)
                && final(bus).ram() == spec_ram_write(old(bus).ram(), spec_stack_address(old(self).sp), (old(self).pc >> 8u32) as u8)
            ),
            old(self).op is Jsr ==> (old(self).stage == 5 ==> result is EndCycle && final(self).pc == old(self).pc
                && final(self).sp == old(self).sp.wrapping_sub(1)
                && final(bus).ram() == spec_ram_write(old(bus).ram(), spec_stack_address(old(self).sp), (old(self).pc & 0xFF) as u8)
            ),
            old(self).op is Jsr ==> (old(self).stage == 6 ==> result is EndInstruction && final(self).sp == old(self).sp
                && final(bus).ram() == old(bus).ram()
                && (old(self).pc < 0x2000 ==> final(self).pc
                    == ((spec_ram_read(old(bus).ram(), old(self).pc) as u16) << 8u32) | (old(self).address & 0xFF))
            ),
            old(self).op is Jsr ==> (!(2 <= old(self).stage <= 6) ==> result is Error
            ),
            old(self).op is Las ==> (result is Error
            ),
            old(self).op is Las ==> (*final(self) == *old(self)
            ),
            old(self).op is Las ==> (*final(bus) == *old(bus)
            ),
            old(self).op is Lax ==> (result is Error
            ),
            old(self).op is Lax ==> (*final(self) == *old(self)
            ),
            old(self).op is Lax ==> (*final(bus) == *old(bus)
            ),
            old(self).op is Lda ==> (final(self).stage == old(self).stage
            ),
            old(self).op is Lda ==> (final(self).addressing_mode == old(self).addressing_mode
            ),
            old(self).op is Lda ==> (final(self).instruction_type == old(self).instruction_type
            ),
            old(self).op is Lda ==> (final(self).op == old(self).op
            ),
            old(self).op is Lda ==> (final(self).interrupt_type == old(self).interrupt_type
            ),
            old(self).op is Lda ==> (old(self).instruction_type is Read ==> final(bus).ram() == old(bus).ram()
            ),
            old(self).op is Lda ==> (result is EndInstruction && !(old(self).addressing_mode is Relative) ==> final(self).a == final(self).value && final(self).sr == spec_nz(old(self).sr, final(self).value) && final(self).x == old(self).x && final(self).y == old(self).y && final(self).sp == old(self).sp
            ),
            old(self).op is Lda ==> (!(result is EndInstruction) ==> final(self).a == old(self).a && final(self).sr == old(self).sr && final(self).x == old(self).x && final(self).y == old(self).y && final(self).sp == old(self).sp
            ),
            old(self).op is Ldx ==> (final(self).stage == old(self).stage
            ),
            old(self).op is Ldx ==> (final(self).addressing_mode == old(self).addressing_mode
            ),
            old(self).op is Ldx ==> (final(self).instruction_type == old(self).instruction_type
            ),
            old(self).op is Ldx ==> (final(self).op == old(self).op
            ),
            old(self).op is Ldx ==> (final(self).interrupt_type == old(self).interrupt_type
            ),
            old(self).op is Ldx ==> (old(self).instruction_type is Read ==> final(bus).ram() == old(bus).ram()
            ),
            old(self).op is Ldx ==> (result is EndInstruction && !(old(self).addressing_mode is Relative) ==> final(self).x == final(self).value && final(self).sr == spec_nz(old(self).sr, final(self).value) && final(self).a == old(self).a && final(self).y == old(self).y && final(self).sp == old(self).sp
            ),
            old(self).op is Ldx ==> (!(result is EndInstruction) ==> final(self).a == old(self).a && final(self).sr == old(self).sr && final(self).x == old(self).x && final(self).y == old(self).y && final(self).sp == old(self).sp
            ),
            old(self).op is Ldy ==> (final(self).stage == old(self).stage
            ),
            old(self).op is Ldy ==> (final(self).addressing_mode == old(self).addressing_mode
            ),
            old(self).op is Ldy ==> (final(self).instruction_type == old(self).instruction_type
            ),
            old(self).op is Ldy ==> (final(self).op == old(self).op
            ),
            old(self).op is Ldy ==> (final(self).interrupt_type == old(self).interrupt_type
            ),
            old(self).op is Ldy ==> (old(self).instruction_type is Read ==> final(bus).ram() == old(bus).ram()
            ),
            old(self).op is Ldy ==> (result is EndInstruction && !(old(self).addressing_mode is Relative) ==> final(self).y == final(self).value && final(self).sr == spec_nz(old(self).sr, final(self).value) && final(self).a == old(self).a && final(self).x == old(self).x && final(self).sp == old(self).sp
            ),
            old(self).op is Ldy ==> (!(result is EndInstruction) ==> final(self).a == old(self).a && final(self).sr == old(self).sr && final(self).x == old(self).x && final(self).y == old(self).y && final(self).sp == old(self).sp
            ),
            old(self).op is Lsr ==> (final(self).stage == old(self).stage
            ),
            old(self).op is Lsr ==> (final(self).addressing_mode == old(self).addressing_mode
            ),
            old(self).op is Lsr ==> (final(self).instruction_type == old(self).instruction_type
            ),
            old(self).op is Lsr ==> (final(self).op == old(self).op
            ),
            old(self).op is Lsr ==> (final(self).interrupt_type == old(self).interrupt_type
            ),
            old(self).op is Lsr ==> (final(self).x == old(self).x && final(self).y == old(self).y && final(self).sp == old(self).sp
            ),
            old(self).op is Lsr ==> (result is EndInstruction && old(self).addressing_mode is Accumulator ==>
                final(self).a == (old(self).a >> 1u32)
                && final(self).sr == spec_shift_flags(old(self).sr, (old(self).a & 0x01) != 0, (old(self).a >> 1u32))
                && final(bus).ram() == old(bus).ram()
            ),
            old(self).op is Lsr ==> (result is EndInstruction && !(old(self).addressing_mode is Accumulator)
                && spec_rmw_mode(old(self).addressing_mode)
                && old(self).instruction_type is ReadModifyWrite ==>
                final(self).value == (old(self).value >> 1u32)
                && final(self).a == old(self).a
                && final(self).sr == spec_shift_flags(old(self).sr, (old(self).value & 0x01) != 0, (old(self).value >> 1u32))
                && final(bus).ram() == spec_ram_write(old(bus).ram(), old(self).address, (old(self).value >> 1u32))
            ),
            old(self).op is Lsr ==> (!(result is EndInstruction) ==> final(self).a == old(self).a && final(self).sr == old(self).sr
            ),
            old(self).op is Nmi ==> (final(bus).prg_banks() == old(bus).prg_banks()
            ),
            old(self).op is Nmi ==> (final(bus).oam() == old(bus).oam()
            ),
            old(self).op is Nmi ==> (final(bus).oam_addr() == old(bus).oam_addr()
            ),
            old(self).op is Nmi ==> (final(self).stage == old(self).stage
            ),
            old(self).op is Nmi ==> (final(self).addressing_mode == old(self).addressing_mode
            ),
            old(self).op is Nmi ==> (final(self).instruction_type == old(self).instruction_type
            ),
            old(self).op is Nmi ==> (final(self).op == old(self).op
            ),
            old(self).op is Nmi ==> (final(self).interrupt_type == old(self).interrupt_type
            ),
            old(self).op is Nmi ==> (final(self).a == old(self).a && final(self).x == old(self).x && final(self).y == old(self).y
            ),
            old(self).op is Nmi ==> (old(self).stage == 2 ==> result is EndCycle && final(self).pc == old(self).pc
                && final(self).sp == old(self).sp && final(self).sr == old(self).sr
                && final(bus).ram() == old(bus).ram()
            ),
            old(self).op is Nmi ==> (old(self).stage == 3 ==> result is EndCycle && final(self).pc == old(self).pc
                && final(self).sp == old(self).sp.wrapping_sub(1) && final(self).sr == old(self).sr
                && final(bus).ram() == spec_ram_write(old(bus).ram(), spec_stack_address(old(self).sp), (old(self).pc >> 8u32) as u8)
            ),
            old(self).op is Nmi ==> (old(self).stage == 4 ==> result is EndCycle && final(self).pc == old(self).pc
                && final(self).sp == old(self).sp.wrapping_sub(1) && final(self).sr == old(self).sr
                && final(bus).ram() == spec_ram_write(old(bus).ram(), spec_stack_address(old(self).sp), (old(self).pc & 0xFF) as u8)
            ),
            old(self).op is Nmi ==> (old(self).stage == 5 ==> result is EndCycle && final(self).pc == old(self).pc
                && final(self).sp == old(self).sp.wrapping_sub(1)
                && final(self).sr == spec_set_flag(old(self).sr, 0x04, true)
                && final(bus).ram() == spec_ram_write(old(bus).ram(), spec_stack_address(old(self).sp),
                    spec_set_flag(spec_set_flag(old(self).sr, 0x20, true), 0x10, false))
            ),
            old(self).op is Nmi ==> (old(self).stage == 6 ==> result is EndCycle && final(self).sp == old(self).sp
                && final(self).sr == old(self).sr && final(bus).ram() == old(bus).ram()
                && final(self).pc == (old(self).pc & 0xFF00)
                    | spec_prg_read(old(bus).prg(), old(bus).prg_banks().1, 0xFFFA) as u16
            ),
            old(self).op is Nmi ==> (old(self).stage == 7 ==> result is EndInstruction && final(self).sp == old(self).sp
                && final(self).sr == old(self).sr && final(bus).ram() == old(bus).ram()
                && final(self).pc == ((spec_prg_read(old(bus).prg(), old(bus).prg_banks().1, 0xFFFB) as u16) << 8u32)
                    | (old(self).pc & 0xFF)
            ),
            old(self).op is Nmi ==> (!(2 <= old(self).stage <= 7) ==> result is Error
            ),
            old(self).op is Nop ==> (final(self).stage == old(self).stage
            ),
            old(self).op is Nop ==> (final(self).addressing_mode == old(self).addressing_mode
            ),
            old(self).op is Nop ==> (final(self).instruction_type == old(self).instruction_type
            ),
            old(self).op is Nop ==> (final(self).op == old(self).op
            ),
            old(self).op is Nop ==> (final(self).interrupt_type == old(self).interrupt_type
            ),
            old(self).op is Nop ==> (old(self).instruction_type is Read ==> final(bus).ram() == old(bus).ram()
            ),
            old(self).op is Nop ==> (final(self).a == old(self).a && final(self).sr == old(self).sr && final(self).x == old(self).x
                && final(self).y == old(self).y && final(self).sp == old(self).sp
            ),
            old(self).op is Ora ==> (final(self).stage == old(self).stage
            ),
            old(self).op is Ora ==> (final(self).addressing_mode == old(self).addressing_mode
            ),
            old(self).op is Ora ==> (final(self).instruction_type == old(self).instruction_type
            ),
            old(self).op is Ora ==> (final(self).op == old(self).op
            ),
            old(self).op is Ora ==> (final(self).interrupt_type == old(self).interrupt_type
            ),
            old(self).op is Ora ==> (old(self).instruction_type is Read ==> final(bus).ram() == old(bus).ram()
            ),
            old(self).op is Ora ==> (result is EndInstruction && !(old(self).addressing_mode is Relative) ==> final(self).a == (old(self).a | final(self).value) && final(self).sr == spec_nz(old(self).sr, old(self).a | final(self).value) && final(self).x == old(self).x && final(self).y == old(self).y && final(self).sp == old(self).sp
            ),
            old(self).op is Ora ==> (!(result is EndInstruction) ==> final(self).a == old(self).a && final(self).sr == old(self).sr && final(self).x == old(self).x && final(self).y == old(self).y && final(self).sp == old(self).sp
            ),
            old(self).op is Pha ==> (final(bus).prg_banks() == old(bus).prg_banks()
            ),
            old(self).op is Pha ==> (final(bus).oam() == old(bus).oam()
            ),
            old(self).op is Pha ==> (final(bus).oam_addr() == old(bus).oam_addr()
            ),
            old(self).op is Pha ==> (final(self).stage == old(self).stage
            ),
            old(self).op is Pha ==> (final(self).addressing_mode == old(self).addressing_mode
            ),
            old(self).op is Pha ==> (final(self).instruction_type == old(self).instruction_type
            ),
            old(self).op is Pha ==> (final(self).op == old(self).op
            ),
            old(self).op is Pha ==> (final(self).interrupt_type == old(self).interrupt_type
            ),
            old(self).op is Pha ==> (final(self).a == old(self).a && final(self).x == old(self).x && final(self).y == old(self).y
                && final(self).sr == old(self).sr && final(self).pc == old(self).pc
            ),
            old(self).op is Pha ==> (old(self).stage == 2 ==> result is EndCycle && final(self).sp == old(self).sp
                && final(bus).ram() == old(bus).ram()
            ),
            old(self).op is Pha ==> (old(self).stage == 3 ==> result is EndInstruction
                && final(self).sp == old(self).sp.wrapping_sub(1)
                && final(bus).ram() == spec_ram_write(old(bus).ram(), spec_stack_address(old(self).sp), old(self).a)
            ),
            old(self).op is Pha ==> (!(2 <= old(self).stage <= 3) ==> result is Error && final(bus).ram() == old(bus).ram()
            ),
            old(self).op is Php ==> (final(bus).prg_banks() == old(bus).prg_banks()
            ),
            old(self).op is Php ==> (final(bus).oam() == old(bus).oam()
            ),
            old(self).op is Php ==> (final(bus).oam_addr() == old(bus).oam_addr()
            ),
            old(self).op is Php ==> (final(self).stage == old(self).stage
            ),
            old(self).op is Php ==> (final(self).addressing_mode == old(self).addressing_mode
            ),
            old(self).op is Php ==> (final(self).instruction_type == old(self).instruction_type
            ),
            old(self).op is Php ==> (final(self).op == old(self).op
            ),
            old(self).op is Php ==> (final(self).interrupt_type == old(self).interrupt_type
            ),
            old(self).op is Php ==> (final(self).a == old(self).a && final(self).x == old(self).x && final(self).y == old(self).y
                && final(self).sr == old(self).sr && final(self).pc == old(self).pc
            ),
            old(self).op is Php ==> (old(self).stage == 2 ==> result is EndCycle && final(self).sp == old(self).sp
                && final(bus).ram() == old(bus).ram()
            ),
            old(self).op is Php ==> (old(self).stage == 3 ==> result is EndInstruction
                && final(self).sp == old(self).sp.wrapping_sub(1)
                && final(bus).ram() == spec_ram_write(old(bus).ram(), spec_stack_address(old(self).sp), old(self).sr | 0x30)
            ),
            old(self).op is Php ==> (!(2 <= old(self).stage <= 3) ==> result is Error && final(bus).ram() == old(bus).ram()
            ),
            old(self).op is Pla ==> (final(bus).prg_banks() == old(bus).prg_banks()
            ),
            old(self).op is Pla ==> (final(bus).oam() == old(bus).oam()
            ),
            old(self).op is Pla ==> (final(bus).oam_addr() == old(bus).oam_addr()
            ),
            old(self).op is Pla ==> (final(self).stage == old(self).stage
            ),
            old(self).op is Pla ==> (final(self).addressing_mode == old(self).addressing_mode
            ),
            old(self).op is Pla ==> (final(self).instruction_type == old(self).instruction_type
            ),
            old(self).op is Pla ==> (final(self).op == old(self).op
            ),
            old(self).op is Pla ==> (final(self).interrupt_type == old(self).interrupt_type
            ),
            old(self).op is Pla ==> (final(self).x == old(self).x && final(self).y == old(self).y && final(self).pc == old(self).pc
            ),
            old(self).op is Pla ==> (final(bus).ram() == old(bus).ram()
            ),
            old(self).op is Pla ==> (old(self).stage == 2 ==> result is EndCycle && final(self).sp == old(self).sp
                && final(self).a == old(self).a && final(self).sr == old(self).sr
            ),
            old(self).op is Pla ==> (old(self).stage == 3 ==> result is EndCycle && final(self).sp == old(self).sp.wrapping_add(1)
                && final(self).a == old(self).a && final(self).sr == old(self).sr
            ),
            old(self).op is Pla ==> (old(self).stage == 4 ==> result is EndInstruction && final(self).sp == old(self).sp
                && final(self).a == spec_ram_read(old(bus).ram(), spec_stack_address(old(self).sp))
                && final(self).sr == spec_nz(old(self).sr, spec_ram_read(old(bus).ram(), spec_stack_address(old(self).sp)))
            ),
            old(self).op is Pla ==> (!(2 <= old(self).stage <= 4) ==> result is Error
            ),
            old(self).op is Plp ==> (final(bus).prg_banks() == old(bus).prg_banks()
            ),
            old(self).op is Plp ==> (final(bus).oam() == old(bus).oam()
            ),
            old(self).op is Plp ==> (final(bus).oam_addr() == old(bus).oam_addr()
            ),
            old(self).op is Plp ==> (final(self).stage == old(self).stage
            ),
            old(self).op is Plp ==> (final(self).addressing_mode == old(self).addressing_mode
            ),
            old(self).op is Plp ==> (final(self).instruction_type == old(self).instruction_type
            ),
            old(self).op is Plp ==> (final(self).op == old(self).op
            ),
            old(self).op is Plp ==> (final(self).interrupt_type == old(self).interrupt_type
            ),
            old(self).op is Plp ==> (final(self).a == old(self).a && final(self).x == old(self).x && final(self).y == old(self).y
                && final(self).pc == old(self).pc
            ),
            old(self).op is Plp ==> (final(bus).ram() == old(bus).ram()
            ),
            old(self).op is Plp ==> (old(self).stage == 2 ==> result is EndCycle && final(self).sp == old(self).sp
                && final(self).sr == old(self).sr
            ),
            old(self).op is Plp ==> (old(self).stage == 3 ==> result is EndCycle && final(self).sp == old(self).sp.wrapping_add(1)
                && final(self).sr == old(self).sr
            ),
            old(self).op is Plp ==> (old(self).stage == 4 ==> result is EndInstruction && final(self).sp == old(self).sp
                && final(self).sr == spec_pull_status(spec_ram_read(old(bus).ram(), spec_stack_address(old(self).sp)))
            ),
            old(self).op is Plp ==> (!(2 <= old(self).stage <= 4) ==> result is Error
            ),
            old(self).op is Rla ==> (result is Error
            ),
            old(self).op is Rla ==> (*final(self) == *old(self)
            ),
            old(self).op is Rla ==> (*final(bus) == *old(bus)
            ),
            old(self).op is Rol ==> (final(self).stage == old(self).stage
            ),
            old(self).op is Rol ==> (final(self).addressing_mode == old(self).addressing_mode
            ),
            old(self).op is Rol ==> (final(self).instruction_type == old(self).instruction_type
            ),
            old(self).op is Rol ==> (final(self).op == old(self).op
            ),
            old(self).op is Rol ==> (final(self).interrupt_type == old(self).interrupt_type
            ),
            old(self).op is Rol ==> (final(self).x == old(self).x && final(self).y == old(self).y && final(self).sp == old(self).sp
            ),
            old(self).op is Rol ==> (result is EndInstruction && old(self).addressing_mode is Accumulator ==>
                final(self).a == ((old(self).a << 1u32) | (if old(self).sr & 0x01 != 0 { 1u8 } else { 0u8 }))
                && final(self).sr == spec_shift_flags(old(self).sr, (old(self).a & 0x80) != 0, ((old(self).a << 1u32) | (if old(self).sr & 0x01 != 0 { 1u8 } else { 0u8 })))
                && final(bus).ram() == old(bus).ram()
            ),
            old(self).op is Rol ==> (result is EndInstruction && !(old(self).addressing_mode is Accumulator)
                && spec_rmw_mode(old(self).addressing_mode)
                && old(self).instruction_type is ReadModifyWrite ==>
                final(self).value == ((old(self).value << 1u32) | (if old(self).sr & 0x01 != 0 { 1u8 } else { 0u8 }))
                && final(self).a == old(self).a
                && final(self).sr == spec_shift_flags(old(self).sr, (old(self).value & 0x80) != 0, ((old(self).value << 1u32) | (if old(self).sr & 0x01 != 0 { 1u8 } else { 0u8 })))
                && final(bus).ram() == spec_ram_write(old(bus).ram(), old(self).address, ((old(self).value << 1u32) | (if old(self).sr & 0x01 != 0 { 1u8 } else { 0u8 })))
            ),
            old(self).op is Rol ==> (!(result is EndInstruction) ==> final(self).a == old(self).a && final(self).sr == old(self).sr
            ),
            old(self).op is Ror ==> (final(self).stage == old(self).stage
            ),
            old(self).op is Ror ==> (final(self).addressing_mode == old(self).addressing_mode
            ),
            old(self).op is Ror ==> (final(self).instruction_type == old(self).instruction_type
            ),
            old(self).op is Ror ==> (final(self).op == old(self).op
            ),
            old(self).op is Ror ==> (final(self).interrupt_type == old(self).interrupt_type
            ),
            old(self).op is Ror ==> (final(self).x == old(self).x && final(self).y == old(self).y && final(self).sp == old(self).sp
            ),
            old(self).op is Ror ==> (result is EndInstruction && old(self).addressing_mode is Accumulator ==>
                final(self).a == ((old(self).a >> 1u32) | (if old(self).sr & 0x01 != 0 { 0x80u8 } else { 0u8 }))
                && final(self).sr == spec_shift_flags(old(self).sr, (old(self).a & 0x01) != 0, ((old(self).a >> 1u32) | (if old(self).sr & 0x01 != 0 { 0x80u8 } else { 0u8 })))
                && final(bus).ram() == old(bus).ram()
            ),
            old(self).op is Ror ==> (result is EndInstruction && !(old(self).addressing_mode is Accumulator)
                && spec_rmw_mode(old(self).addressing_mode)
                && old(self).instruction_type is ReadModifyWrite ==>
                final(self).value == ((old(self).value >> 1u32) | (if old(self).sr & 0x01 != 0 { 0x80u8 } else { 0u8 }))
                && final(self).a == old(self).a
                && final(self).sr == spec_shift_flags(old(self).sr, (old(self).value & 0x01) != 0, ((old(self).value >> 1u32) | (if old(self).sr & 0x01 != 0 { 0x80u8 } else { 0u8 })))
                && final(bus).ram() == spec_ram_write(old(bus).ram(), old(self).address, ((old(self).value >> 1u32) | (if old(self).sr & 0x01 != 0 { 0x80u8 } else { 0u8 })))
            ),
            old(self).op is Ror ==> (!(result is EndInstruction) ==> final(self).a == old(self).a && final(self).sr == old(self).sr
            ),
            old(self).op is Rra ==> (result is Error
            ),
            old(self).op is Rra ==> (*final(self) == *old(self)
            ),
            old(self).op is Rra ==> (*final(bus) == *old(bus)
            ),
            old(self).op is Rst ==> (final(bus).prg_banks() == old(bus).prg_banks()
            ),
            old(self).op is Rst ==> (final(bus).oam() == old(bus).oam()
            ),
            old(self).op is Rst ==> (final(bus).oam_addr() == old(bus).oam_addr()
            ),
            old(self).op is Rst ==> (final(self).stage == old(self).stage
            ),
            old(self).op is Rst ==> (final(self).addressing_mode == old(self).addressing_mode
            ),
            old(self).op is Rst ==> (final(self).instruction_type == old(self).instruction_type
            ),
            old(self).op is Rst ==> (final(self).op == old(self).op
            ),
            old(self).op is Rst ==> (final(self).interrupt_type == old(self).interrupt_type
            ),
            old(self).op is Rst ==> (final(self).a == old(self).a && final(self).x == old(self).x && final(self).y == old(self).y
                && final(self).sp == old(self).sp && final(self).sr == old(self).sr
            ),
            old(self).op is Rst ==> (final(bus).ram() == old(bus).ram()
            ),
            old(self).op is Rst ==> (1 <= old(self).stage <= 6 ==> result is EndCycle
            ),
            old(self).op is Rst ==> (old(self).stage == 7 ==> result is EndInstruction
            ),
            old(self).op is Rst ==> (old(self).stage == 6 ==> final(self).pc == (old(self).pc & 0xFF00)
                | spec_prg_read(old(bus).prg(), old(bus).prg_banks().1, 0xFFFC) as u16
            ),
            old(self).op is Rst ==> (old(self).stage == 7 ==> final(self).pc
                == ((spec_prg_read(old(bus).prg(), old(bus).prg_banks().1, 0xFFFD) as u16) << 8u32)
                | (old(self).pc & 0xFF)
            ),
            old(self).op is Rst ==> (!(1 <= old(self).stage <= 7) ==> result is Error
            ),
            old(self).op is Rst ==> (1 <= old(self).stage <= 5 ==> final(self).pc == old(self).pc
            ),
            old(self).op is Rti ==> (final(bus).prg_banks() == old(bus).prg_banks()
            ),
            old(self).op is Rti ==> (final(bus).oam() == old(bus).oam()
            ),
            old(self).op is Rti ==> (final(bus).oam_addr() == old(bus).oam_addr()
            ),
            old(self).op is Rti ==> (final(self).stage == old(self).stage
            ),
            old(self).op is Rti ==> (final(self).addressing_mode == old(self).addressing_mode
            ),
            old(self).op is Rti ==> (final(self).instruction_type == old(self).instruction_type
            ),
            old(self).op is Rti ==> (final(self).op == old(self).op
            ),
            old(self).op is Rti ==> (final(self).interrupt_type == old(self).interrupt_type
            ),
            old(self).op is Rti ==> (final(self).a == old(self).a && final(self).x == old(self).x && final(self).y == old(self).y
            ),
            old(self).op is Rti ==> (final(bus).ram() == old(bus).ram()
            ),
            old(self).op is Rti ==> (old(self).stage == 2 ==> result is EndCycle && final(self).pc == old(self).pc
                && final(self).sp == old(self).sp && final(self).sr == old(self).sr
            ),
            old(self).op is Rti ==> (old(self).stage == 3 ==> result is EndCycle && final(self).pc == old(self).pc
                && final(self).sp == old(self).sp.wrapping_add(1) && final(self).sr == old(self).sr
            ),
            old(self).op is Rti ==> (old(self).stage == 4 ==> result is EndCycle && final(self).pc == old(self).pc
                && final(self).sp == old(self).sp.wrapping_add(1)
                && final(self).sr == spec_pull_status(spec_ram_read(old(bus).ram(), spec_stack_address(old(self).sp)))
            ),
            old(self).op is Rti ==> (old(self).stage == 5 ==> result is EndCycle
                && final(self).pc == (old(self).pc & 0xFF00) | spec_ram_read(old(bus).ram(), spec_stack_address(old(self).sp)) as u16
                && final(self).sp == old(self).sp.wrapping_add(1) && final(self).sr == old(self).sr
            ),
            old(self).op is Rti ==> (old(self).stage == 6 ==> result is EndInstruction
                && final(self).pc == ((spec_ram_read(old(bus).ram(), spec_stack_address(old(self).sp)) as u16) << 8u32) | (old(self).pc & 0xFF)
                && final(self).sp == old(self).sp && final(self).sr == old(self).sr
            ),
            old(self).op is Rti ==> (!(2 <= old(self).stage <= 6) ==> result is Error
            ),
            old(self).op is Rts ==> (final(bus).prg_banks() == old(bus).prg_banks()
            ),
            old(self).op is Rts ==> (final(bus).oam() == old(bus).oam()
            ),
            old(self).op is Rts ==> (final(bus).oam_addr() == old(bus).oam_addr()
            ),
            old(self).op is Rts ==> (final(self).stage == old(self).stage
            ),
            old(self).op is Rts ==> (final(self).addressing_mode == old(self).addressing_mode
            ),
            old(self).op is Rts ==> (final(self).instruction_type == old(self).instruction_type
            ),
            old(self).op is Rts ==> (final(self).op == old(self).op
            ),
            old(self).op is Rts ==> (final(self).interrupt_type == old(self).interrupt_type
            ),
            old(self).op is Rts ==> (final(self).a == old(self).a && final(self).x == old(self).x && final(self).y == old(self).y
                && final(self).sr == old(self).sr
            ),
            old(self).op is Rts ==> (final(bus).ram() == old(bus).ram()
            ),
            old(self).op is Rts ==> (old(self).stage == 2 ==> result is EndCycle && final(self).pc == old(self).pc
                && final(self).sp == old(self).sp
            ),
            old(self).op is Rts ==> (old(self).stage == 3 ==> result is EndCycle && final(self).pc == old(self).pc
                && final(self).sp == old(self).sp.wrapping_add(1)
            ),
            old(self).op is Rts ==> (old(self).stage == 4 ==> result is EndCycle
                && final(self).pc == (old(self).pc & 0xFF00) | spec_ram_read(old(bus).ram(), spec_stack_address(old(self).sp)) as u16
                && final(self).sp == old(self).sp.wrapping_add(1)
            ),
            old(self).op is Rts ==> (old(self).stage == 5 ==> result is EndCycle
                && final(self).pc == ((spec_ram_read(old(bus).ram(), spec_stack_address(old(self).sp)) as u16) << 8u32) | (old(self).pc & 0xFF)
                && final(self).sp == old(self).sp
            ),
            old(self).op is Rts ==> (old(self).stage == 6 ==> result is EndInstruction
                && final(self).pc == old(self).pc.wrapping_add(1) && final(self).sp == old(self).sp
            ),
            old(self).op is Rts ==> (!(2 <= old(self).stage <= 6) ==> result is Error
            ),
            old(self).op is Sax ==> (result is Error
            ),
            old(self).op is Sax ==> (*final(self) == *old(self)
            ),
            old(self).op is Sax ==> (*final(bus) == *old(bus)
            ),
            old(self).op is Sbc ==> (final(self).stage == old(self).stage
            ),
            old(self).op is Sbc ==> (final(self).addressing_mode == old(self).addressing_mode
            ),
            old(self).op is Sbc ==> (final(self).instruction_type == old(self).instruction_type
            ),
            old(self).op is Sbc ==> (final(self).op == old(self).op
            ),
            old(self).op is Sbc ==> (final(self).interrupt_type == old(self).interrupt_type
            ),
            old(self).op is Sbc ==> (old(self).instruction_type is Read ==> final(bus).ram() == old(bus).ram()
            ),
            old(self).op is Sbc ==> (result is EndInstruction && !(old(self).addressing_mode is Relative) ==> final(self).sr == spec_sbc(old(self).sr, old(self).a, final(self).value).0 && final(self).a == spec_sbc(old(self).sr, old(self).a, final(self).value).1 && final(self).x == old(self).x && final(self).y == old(self).y && final(self).sp == old(self).sp
            ),
            old(self).op is Sbc ==> (!(result is EndInstruction) ==> final(self).a == old(self).a && final(self).sr == old(self).sr && final(self).x == old(self).x && final(self).y == old(self).y && final(self).sp == old(self).sp
            ),
            old(self).op is Sec ==> (result is EndInstruction
            ),
            old(self).op is Sec ==> (*final(self) == (Cpu6502 { sr: spec_set_flag(old(self).sr, 0x01, true), ..*old(self) })
            ),
            old(self).op is Sec ==> (*final(bus) == *old(bus)
            ),
            old(self).op is Sed ==> (result is EndInstruction
            ),
            old(self).op is Sed ==> (*final(self) == (Cpu6502 { sr: spec_set_flag(old(self).sr, 0x08, true), ..*old(self) })
            ),
            old(self).op is Sed ==> (*final(bus) == *old(bus)
            ),
            old(self).op is Sei ==> (result is EndInstruction
            ),
            old(self).op is Sei ==> (*final(self) == (Cpu6502 { sr: spec_set_flag(old(self).sr, 0x04, true), ..*old(self) })
            ),
            old(self).op is Sei ==> (*final(bus) == *old(bus)
            ),
            old(self).op is Shx ==> (result is Error
            ),
            old(self).op is Shx ==> (*final(self) == *old(self)
            ),
            old(self).op is Shx ==> (*final(bus) == *old(bus)
            ),
            old(self).op is Shy ==> (result is Error
            ),
            old(self).op is Shy ==> (*final(self) == *old(self)
            ),
            old(self).op is Shy ==> (*final(bus) == *old(bus)
            ),
            old(self).op is Slo ==> (result is Error
            ),
            old(self).op is Slo ==> (*final(self) == *old(self)
            ),
            old(self).op is Slo ==> (*final(bus) == *old(bus)
            ),
            old(self).op is Sre ==> (result is Error
            ),
            old(self).op is Sre ==> (*final(self) == *old(self)
            ),
            old(self).op is Sre ==> (*final(bus) == *old(bus)
            ),
            old(self).op is Sta ==> (final(self).stage == old(self).stage
            ),
            old(self).op is Sta ==> (final(self).addressing_mode == old(self).addressing_mode
            ),
            old(self).op is Sta ==> (final(self).instruction_type == old(self).instruction_type
            ),
            old(self).op is Sta ==> (final(self).op == old(self).op
            ),
            old(self).op is Sta ==> (final(self).interrupt_type == old(self).interrupt_type
            ),
            old(self).op is Sta ==> (result is EndInstruction && !(old(self).addressing_mode is Relative) ==> final(bus).ram() == spec_ram_write(old(bus).ram(), final(self).address, old(self).a) && final(self).a == old(self).a && final(self).sr == old(self).sr && final(self).x == old(self).x && final(self).y == old(self).y && final(self).sp == old(self).sp
            ),
            old(self).op is Sta ==> (!(result is EndInstruction) ==> final(self).a == old(self).a && final(self).sr == old(self).sr && final(self).x == old(self).x && final(self).y == old(self).y && final(self).sp == old(self).sp
            ),
            old(self).op is Stp ==> (result is Error
            ),
            old(self).op is Stp ==> (*final(self) == *old(self)
            ),
            old(self).op is Stp ==> (*final(bus) == *old(bus)
            ),
            old(self).op is Stx ==> (final(self).stage == old(self).stage
            ),
            old(self).op is Stx ==> (final(self).addressing_mode == old(self).addressing_mode
            ),
            old(self).op is Stx ==> (final(self).instruction_type == old(self).instruction_type
            ),
            old(self).op is Stx ==> (final(self).op == old(self).op
            ),
            old(self).op is Stx ==> (final(self).interrupt_type == old(self).interrupt_type
            ),
            old(self).op is Stx ==> (result is EndInstruction && !(old(self).addressing_mode is Relative) ==> final(bus).ram() == spec_ram_write(old(bus).ram(), final(self).address, old(self).x) && final(self).a == old(self).a && final(self).sr == old(self).sr && final(self).x == old(self).x && final(self).y == old(self).y && final(self).sp == old(self).sp
            ),
            old(self).op is Stx ==> (!(result is EndInstruction) ==> final(self).a == old(self).a && final(self).sr == old(self).sr && final(self).x == old(self).x && final(self).y == old(self).y && final(self).sp == old(self).sp
            ),
            old(self).op is Sty ==> (final(self).stage == old(self).stage
            ),
            old(self).op is Sty ==> (final(self).addressing_mode == old(self).addressing_mode
            ),
            old(self).op is Sty ==> (final(self).instruction_type == old(self).instruction_type
            ),
            old(self).op is Sty ==> (final(self).op == old(self).op
            ),
            old(self).op is Sty ==> (final(self).interrupt_type == old(self).interrupt_type
            ),
            old(self).op is Sty ==> (result is EndInstruction && !(old(self).addressing_mode is Relative) ==> final(bus).ram() == spec_ram_write(old(bus).ram(), final(self).address, old(self).y) && final(self).a == old(self).a && final(self).sr == old(self).sr && final(self).x == old(self).x && final(self).y == old(self).y && final(self).sp == old(self).sp
            ),
            old(self).op is Sty ==> (!(result is EndInstruction) ==> final(self).a == old(self).a && final(self).sr == old(self).sr && final(self).x == old(self).x && final(self).y == old(self).y && final(self).sp == old(self).sp
            ),
            old(self).op is Tas ==> (result is Error
            ),
            old(self).op is Tas ==> (*final(self) == *old(self)
            ),
            old(self).op is Tas ==> (*final(bus) == *old(bus)
            ),
            old(self).op is Tax ==> (result is EndInstruction
            ),
            old(self).op is Tax ==> (*final(self) == (Cpu6502 { x: old(self).a, sr: spec_nz(old(self).sr, old(self).a), ..*old(self) })
            ),
            old(self).op is Tax ==> (*final(bus) == *old(bus)
            ),
            old(self).op is Tay ==> (result is EndInstruction
            ),
            old(self).op is Tay ==> (*final(self) == (Cpu6502 { y: old(self).a, sr: spec_nz(old(self).sr, old(self).a), ..*old(self) })
            ),
            old(self).op is Tay ==> (*final(bus) == *old(bus)
            ),
            old(self).op is Tsx ==> (result is EndInstruction
            ),
            old(self).op is Tsx ==> (*final(self) == (Cpu6502 { x: old(self).sp, sr: spec_nz(old(self).sr, old(self).sp), ..*old(self) })
            ),
            old(self).op is Tsx ==> (*final(bus) == *old(bus)
            ),
            old(self).op is Txa ==> (result is EndInstruction
            ),
            old(self).op is Txa ==> (*final(self) == (Cpu6502 { a: old(self).x, sr: spec_nz(old(self).sr, old(self).x), ..*old(self) })
            ),
            old(self).op is Txa ==> (*final(bus) == *old(bus)
            ),
            old(self).op is Txs ==> (result is EndInstruction
            ),
            old(self).op is Txs ==> (*final(self) == (Cpu6502 { sp: old(self).x, ..*old(self) })
            ),
            old(self).op is Txs ==> (*final(bus) == *old(bus)
            ),
            old(self).op is Tya ==> (result is EndInstruction
            ),
            old(self).op is Tya ==> (*final(self) == (Cpu6502 { a: old(self).y, sr: spec_nz(old(self).sr, old(self).y), ..*old(self) })
            ),
            old(self).op is Tya ==> (*final(bus) == *old(bus)
            ),
            old(self).op is Xaa ==> (result is Error
            ),
            old(self).op is Xaa ==> (*final(self) == *old(self)
            ),
            old(self).op is Xaa ==> (*final(bus) == *old(bus)
            ),
    {
        match self.op {
            Op::Adc => self.adc(bus),
            Op::Ahx => self.ahx(bus),
            Op::Alr => self.alr(bus),
            Op::Anc => self.anc(bus),
            Op::And => self.and(bus),
            Op::Arr => self.arr(bus),
            Op::Asl => self.asl(bus),
            Op::Axs => self.axs(bus),
            Op::Bcc => self.bcc(bus),
            Op::Bcs => self.bcs(bus),
            Op::Beq => self.beq(bus),
            Op::Bit => self.bit(bus),
            Op::Bmi => self.bmi(bus),
            Op::Bne => self.bne(bus),
            Op::Bpl => self.bpl(bus),
            Op::Brk => self.brk(bus),
            Op::Bvc => self.bvc(bus),
            Op::Bvs => self.bvs(bus),
            Op::Clc => self.clc(bus),
            Op::Cld => self.cld(bus),
            _ => self.step_instruction_b(bus),
        }
    }

    /// A further slice of the micro-program dispatch.
    #[verifier::rlimit(100)]
    fn step_instruction_b<B: BusOps>(&mut self, bus: &mut B) -> (result: CycleResult)
        ensures
            old(bus).inv() ==> final(bus).inv(),
            final(bus).frame_clock() == old(bus).frame_clock(),
            final(bus).frame_pending() == old(bus).frame_pending(),
            final(bus).prg() == old(bus).prg(),
            final(self).stage == old(self).stage,
            !(result is Continue),
            spec_at_most_one_store(old(bus).ram(), final(bus).ram()),
            result is EndCycle ==> old(self).stage <= 8,
            old(self).op is Cli ==> (result is EndInstruction
            ),
            old(self).op is Cli ==> (*final(self) == (Cpu6502 { sr: spec_set_flag(old(self).sr, 0x04, false), ..*old(self) })
            ),
            old(self).op is Cli ==> (*final(bus) == *old(bus)
            ),
            old(self).op is Clv ==> (result is EndInstruction
            ),
            old(self).op is Clv ==> (*final(self) == (Cpu6502 { sr: spec_set_flag(old(self).sr, 0x40, false), ..*old(self) })
            ),
            old(self).op is Clv ==> (*final(bus) == *old(bus)
            ),
            old(self).op is Cmp ==> (final(self).stage == old(self).stage
            ),
            old(self).op is Cmp ==> (final(self).addressing_mode == old(self).addressing_mode
            ),
            old(self).op is Cmp ==> (final(self).instruction_type == old(self).instruction_type
            ),
            old(self).op is Cmp ==> (final(self).op == old(self).op
            ),
            old(self).op is Cmp ==> (final(self).interrupt_type == old(self).interrupt_type
            ),
            old(self).op is Cmp ==> (old(self).instruction_type is Read ==> final(bus).ram() == old(bus).ram()
            ),
            old(self).op is Cmp ==> (result is EndInstruction && !(old(self).addressing_mode is Relative) ==> final(self).sr == spec_cmp(old(self).sr, old(self).a, final(self).value) && final(self).a == old(self).a && final(self).x == old(self).x && final(self).y == old(self).y && final(self).sp == old(self).sp
            ),
            old(self).op is Cmp ==> (!(result is EndInstruction) ==> final(self).a == old(self).a && final(self).sr == old(self).sr && final(self).x == old(self).x && final(self).y == old(self).y && final(self).sp == old(self).sp
            ),
            old(self).op is Cpx ==> (final(self).stage == old(self).stage
            ),
            old(self).op is Cpx ==> (final(self).addressing_mode == old(self).addressing_mode
            ),
            old(self).op is Cpx ==> (final(self).instruction_type == old(self).instruction_type
            ),
            old(self).op is Cpx ==> (final(self).op == old(self).op
            ),
            old(self).op is Cpx ==> (final(self).interrupt_type == old(self).interrupt_type
            ),
            old(self).op is Cpx ==> (old(self).instruction_type is Read ==> final(bus).ram() == old(bus).ram()
            ),
            old(self).op is Cpx ==> (result is EndInstruction && !(old(self).addressing_mode is Relative) ==> final(self).sr == spec_cmp(old(self).sr, old(self).x, final(self).value) && final(self).a == old(self).a && final(self).x == old(self).x && final(self).y == old(self).y && final(self).sp == old(self).sp
            ),
            old(self).op is Cpx ==> (!(result is EndInstruction) ==> final(self).a == old(self).a && final(self).sr == old(self).sr && final(self).x == old(self).x && final(self).y == old(self).y && final(self).sp == old(self).sp
            ),
            old(self).op is Cpy ==> (final(self).stage == old(self).stage
            ),
            old(self).op is Cpy ==> (final(self).addressing_mode == old(self).addressing_mode
            ),
            old(self).op is Cpy ==> (final(self).instruction_type == old(self).instruction_type
            ),
            old(self).op is Cpy ==> (final(self).op == old(self).op
            ),
            old(self).op is Cpy ==> (final(self).interrupt_type == old(self).interrupt_type
            ),
            old(self).op is Cpy ==> (old(self).instruction_type is Read ==> final(bus).ram() == old(bus).ram()
            ),
            old(self).op is Cpy ==> (result is EndInstruction && !(old(self).addressing_mode is Relative) ==> final(self).sr == spec_cmp(old(self).sr, old(self).y, final(self).value) && final(self).a == old(self).a && final(self).x == old(self).x && final(self).y == old(self).y && final(self).sp == old(self).sp
            ),
            old(self).op is Cpy ==> (!(result is EndInstruction) ==> final(self).a == old(self).a && final(self).sr == old(self).sr && final(self).x == old(self).x && final(self).y == old(self).y && final(self).sp == old(self).sp
            ),
            old(self).op is Dcp ==> (result is Error
            ),
            old(self).op is Dcp ==> (*final(self) == *old(self)
            ),
            old(self).op is Dcp ==> (*final(bus) == *old(bus)
            ),
            old(self).op is Dec ==> (final(self).stage == old(self).stage
            ),
            old(self).op is Dec ==> (final(self).addressing_mode == old(self).addressing_mode
            ),
            old(self).op is Dec ==> (final(self).instruction_type == old(self).instruction_type
            ),
            old(self).op is Dec ==> (final(self).op == old(self).op
            ),
            old(self).op is Dec ==> (final(self).interrupt_type == old(self).interrupt_type
            ),
            old(self).op is Dec ==> (final(self).a == old(self).a && final(self).x == old(self).x
                && final(self).y == old(self).y && final(self).sp == old(self).sp
            ),
            old(self).op is Dec ==> (result is EndInstruction && spec_rmw_mode(old(self).addressing_mode)
                && old(self).instruction_type is ReadModifyWrite ==>
                final(self).value == old(self).value.wrapping_sub(1)
                && final(self).sr == spec_nz(old(self).sr, old(self).value.wrapping_sub(1))
                && final(bus).ram() == spec_ram_write(old(bus).ram(), old(self).address, old(self).value.wrapping_sub(1))
            ),
            old(self).op is Dec ==> (result is EndInstruction && !(old(self).addressing_mode is Relative) ==> final(self).sr == spec_nz(old(self).sr, final(self).value)
                && final(bus).ram() == spec_ram_write(old(bus).ram(), final(self).address, final(self).value)
            ),
            old(self).op is Dec ==> (!(result is EndInstruction) ==> final(self).sr == old(self).sr
            ),
            old(self).op is Dex ==> (result is EndInstruction
            ),
            old(self).op is Dex ==> (*final(self) == (Cpu6502 { x: old(self).x.wrapping_sub(1), sr: spec_nz(old(self).sr, old(self).x.wrapping_sub(1)), ..*old(self) })
            ),
            old(self).op is Dex ==> (*final(bus) == *old(bus)
            ),
            old(self).op is Dey ==> (result is EndInstruction
            ),
            old(self).op is Dey ==> (*final(self) == (Cpu6502 { y: old(self).y.wrapping_sub(1), sr: spec_nz(old(self).sr, old(self).y.wrapping_sub(1)), ..*old(self) })
            ),
            old(self).op is Dey ==> (*final(bus) == *old(bus)
            ),
            old(self).op is Eor ==> (final(self).stage == old(self).stage
            ),
            old(self).op is Eor ==> (final(self).addressing_mode == old(self).addressing_mode
            ),
            old(self).op is Eor ==> (final(self).instruction_type == old(self).instruction_type
            ),
            old(self).op is Eor ==> (final(self).op == old(self).op
            ),
            old(self).op is Eor ==> (final(self).interrupt_type == old(self).interrupt_type
            ),
            old(self).op is Eor ==> (old(self).instruction_type is Read ==> final(bus).ram() == old(bus).ram()
            ),
            old(self).op is Eor ==> (result is EndInstruction && !(old(self).addressing_mode is Relative) ==> final(self).a == (old(self).a ^ final(self).value) && final(self).sr == spec_nz(old(self).sr, old(self).a ^ final(self).value) && final(self).x == old(self).x && final(self).y == old(self).y && final(self).sp == old(self).sp
            ),
            old(self).op is Eor ==> (!(result is EndInstruction) ==> final(self).a == old(self).a && final(self).sr == old(self).sr && final(self).x == old(self).x && final(self).y == old(self).y && final(self).sp == old(self).sp
            ),
            old(self).op is Inc ==> (final(self).stage == old(self).stage
            ),
            old(self).op is Inc ==> (final(self).addressing_mode == old(self).addressing_mode
            ),
            old(self).op is Inc ==> (final(self).instruction_type == old(self).instruction_type
            ),
            old(self).op is Inc ==> (final(self).op == old(self).op
            ),
            old(self).op is Inc ==> (final(self).interrupt_type == old(self).interrupt_type
            ),
            old(self).op is Inc ==> (final(self).a == old(self).a && final(self).x == old(self).x
                && final(self).y == old(self).y && final(self).sp == old(self).sp
            ),
            old(self).op is Inc ==> (result is EndInstruction && spec_rmw_mode(old(self).addressing_mode)
                && old(self).instruction_type is ReadModifyWrite ==>
                final(self).value == old(self).value.wrapping_add(1)
                && final(self).sr == spec_nz(old(self).sr, old(self).value.wrapping_add(1))
                && final(bus).ram() == spec_ram_write(old(bus).ram(), old(self).address, old(self).value.wrapping_add(1))
            ),
            old(self).op is Inc ==> (result is EndInstruction && !(old(self).addressing_mode is Relative) ==> final(self).sr == spec_nz(old(self).sr, final(self).value)
                && final(bus).ram() == spec_ram_write(old(bus).ram(), final(self).address, final(self).value)
            ),
            old(self).op is Inc ==> (!(result is EndInstruction) ==> final(self).sr == old(self).sr
            ),
            old(self).op is Inx ==> (result is EndInstruction
            ),
            old(self).op is Inx ==> (*final(self) == (Cpu6502 { x: old(self).x.wrapping_add(1), sr: spec_nz(old(self).sr, old(self).x.wrapping_add(1)), ..*old(self) })
            ),
            old(self).op is Inx ==> (*final(bus) == *old(bus)
            ),
            old(self).op is Iny ==> (result is EndInstruction
            ),
            old(self).op is Iny ==> (*final(self) == (Cpu6502 { y: old(self).y.wrapping_add(1), sr: spec_nz(old(self).sr, old(self).y.wrapping_add(1)), ..*old(self) })
            ),
            old(self).op is Iny ==> (*final(bus) == *old(bus)
            ),
            old(self).op is Irq ==> (final(bus).prg_banks() == old(bus).prg_banks()
            ),
            old(self).op is Irq ==> (final(bus).oam() == old(bus).oam()
            ),
            old(self).op is Irq ==> (final(bus).oam_addr() == old(bus).oam_addr()
            ),
            old(self).op is Irq ==> (final(self).stage == old(self).stage
            ),
            old(self).op is Irq ==> (final(self).addressing_mode == old(self).addressing_mode
            ),
            old(self).op is Irq ==> (final(self).instruction_type == old(self).instruction_type
            ),
            old(self).op is Irq ==> (final(self).op == old(self).op
            ),
            old(self).op is Irq ==> (final(self).interrupt_type == old(self).interrupt_type
            ),
            old(self).op is Irq ==> (final(self).a == old(self).a && final(self).x == old(self).x && final(self).y == old(self).y
            ),
            old(self).op is Irq ==> (old(self).stage == 2 ==> result is EndCycle && final(self).pc == old(self).pc
                && final(self).sp == old(self).sp && final(self).sr == old(self).sr
                && final(bus).ram() == old(bus).ram()
            ),
            old(self).op is Irq ==> (old(self).stage == 3 ==> result is EndCycle && final(self).pc == old(self).pc
                && final(self).sp == old(self).sp.wrapping_sub(1) && final(self).sr == old(self).sr
                && final(bus).ram() == spec_ram_write(old(bus).ram(), spec_stack_address(old(self).sp), (old(self).pc >> 8u32) as u8)
            ),
            old(self).op is Irq ==> (old(self).stage == 4 ==> result is EndCycle && final(self).pc == old(self).pc
                && final(self).sp == old(self).sp.wrapping_sub(1) && final(self).sr == old(self).sr
                && final(bus).ram() == spec_ram_write(old(bus).ram(), spec_stack_address(old(self).sp), (old(self).pc & 0xFF) as u8)
            ),
            old(self).op is Irq ==> (old(self).stage == 5 ==> result is EndCycle && final(self).pc == old(self).pc
                && final(self).sp == old(self).sp.wrapping_sub(1)
                && final(self).sr == spec_set_flag(old(self).sr, 0x04, true)
                && final(bus).ram() == spec_ram_write(old(bus).ram(), spec_stack_address(old(self).sp),
                    spec_set_flag(spec_set_flag(old(self).sr, 0x20, true), 0x10, false))
            ),
            old(self).op is Irq ==> (old(self).stage == 6 ==> result is EndCycle && final(self).sp == old(self).sp
                && final(self).sr == old(self).sr && final(bus).ram() == old(bus).ram()
                && final(self).pc == (old(self).pc & 0xFF00)
                    | spec_prg_read(old(bus).prg(), old(bus).prg_banks().1, 0xFFFE) as u16
            ),
            old(self).op is Irq ==> (old(self).stage == 7 ==> result is EndInstruction && final(self).sp == old(self).sp
                && final(self).sr == old(self).sr && final(bus).ram() == old(bus).ram()
                && final(self).pc == ((spec_prg_read(old(bus).prg(), old(bus).prg_banks().1, 0xFFFF) as u16) << 8u32)
                    | (old(self).pc & 0xFF)
            ),
            old(self).op is Irq ==> (!(2 <= old(self).stage <= 7) ==> result is Error
            ),
            old(self).op is Isc ==> (result is Error
            ),
            old(self).op is Isc ==> (*final(self) == *old(self)
            ),
            old(self).op is Isc ==> (*final(bus) == *old(bus)
            ),
            old(self).op is Jmp ==> (final(self).stage == old(self).stage
            ),
            old(self).op is Jmp ==> (final(self).addressing_mode == old(self).addressing_mode
            ),
            old(self).op is Jmp ==> (final(self).instruction_type == old(self).instruction_type
            ),
            old(self).op is Jmp ==> (final(self).op == old(self).op
            ),
            old(self).op is Jmp ==> (final(self).interrupt_type == old(self).interrupt_type
            ),
            old(self).op is Jmp ==> (old(self).instruction_type is Read ==> final(bus).ram() == old(bus).ram()
            ),
            old(self).op is Jmp ==> (result is EndInstruction && !(old(self).addressing_mode is Relative) ==> final(self).pc == final(self).address && final(self).a == old(self).a && final(self).sr == old(self).sr && final(self).x == old(self).x && final(self).y == old(self).y && final(self).sp == old(self).sp
            ),
            old(self).op is Jmp ==> (!(result is EndInstruction) ==> final(self).a == old(self).a && final(self).sr == old(self).sr && final(self).x == old(self).x && final(self).y == old(self).y && final(self).sp == old(self).sp
            ),
            old(self).op is Jsr ==> (final(bus).prg_banks() == old(bus).prg_banks()
            ),
            old(self).op is Jsr ==> (final(bus).oam() == old(bus).oam()
            ),
            old(self).op is Jsr ==> (final(bus).oam_addr() == old(bus).oam_addr()
            ),
            old(self).op is Jsr ==> (final(self).stage == old(self).stage
            ),
            old(self).op is Jsr ==> (final(self).addressing_mode == old(self).addressing_mode
            ),
            old(self).op is Jsr ==> (final(self).instruction_type == old(self).instruction_type
            ),
            old(self).op is Jsr ==> (final(self).op == old(self).op
            ),
            old(self).op is Jsr ==> (final(self).interrupt_type == old(self).interrupt_type
            ),
            old(self).op is Jsr ==> (final(self).a == old(self).a && final(self).x == old(self).x && final(self).y == old(self).y
                && final(self).sr == old(self).sr
            ),
            old(self).op is Jsr ==> (old(self).stage == 2 ==> result is EndCycle && final(self).pc == old(self).pc.wrapping_add(1)
                && final(self).sp == old(self).sp && final(bus).ram() == old(bus).ram()
                && (old(self).pc < 0x2000 ==> final(self).address
                    == (old(self).address & 0xFF00) | spec_ram_read(old(bus).ram(), old(self).pc) as u16)
            ),
            old(self).op is Jsr ==> (old(self).stage == 3 ==> result is EndCycle && final(self).pc == old(self).pc
                && final(self).sp == old(self).sp && final(bus).ram() == old(bus).ram()
            ),
            old(self).op is Jsr ==> (old(self).stage == 4 ==> result is EndCycle && final(self).pc == old(self).pc
                && final(self).sp == old(self).sp.wrapping_sub(1)
                && final(bus).ram() == spec_ram_write(old(bus).ram(), spec_stack_address(old(self).sp), (old(self).pc >> 8u32) as u8)
            ),
            old(self).op is Jsr ==> (old(self).stage == 5 ==> result is EndCycle && final(self).pc == old(self).pc
                && final(self).sp == old(self).sp.wrapping_sub(1)
                && final(bus).ram() == spec_ram_write(old(bus).ram(), spec_stack_address(old(self).sp), (old(self).pc & 0xFF) as u8)
            ),
            old(self).op is Jsr ==> (old(self).stage == 6 ==> result is EndInstruction && final(self).sp == old(self).sp
                && final(bus).ram() == old(bus).ram()
                && (old(self).pc < 0x2000 ==> final(self).pc
                    == ((spec_ram_read(old(bus).ram(), old(self).pc) as u16) << 8u32) | (old(self).address & 0xFF))
            ),
            old(self).op is Jsr ==> (!(2 <= old(self).stage <= 6) ==> result is Error
            ),
            old(self).op is Las ==> (result is Error
            ),
            old(self).op is Las ==> (*final(self) == *old(self)
            ),
            old(self).op is Las ==> (*final(bus) == *old(bus)
            ),
            old(self).op is Lax ==> (result is Error
            ),
            old(self).op is Lax ==> (*final(self) == *old(self)
            ),
            old(self).op is Lax ==> (*final(bus) == *old(bus)
            ),
            old(self).op is Lda ==> (final(self).stage == old(self).stage
            ),
            old(self).op is Lda ==> (final(self).addressing_mode == old(self).addressing_mode
            ),
            old(self).op is Lda ==> (final(self).instruction_type == old(self).instruction_type
            ),
            old(self).op is Lda ==> (final(self).op == old(self).op
            ),
            old(self).op is Lda ==> (final(self).interrupt_type == old(self).interrupt_type
            ),
            old(self).op is Lda ==> (old(self).instruction_type is Read ==> final(bus).ram() == old(bus).ram()
            ),
            old(self).op is Lda ==> (result is EndInstruction && !(old(self).addressing_mode is Relative) ==> final(self).a == final(self).value && final(self).sr == spec_nz(old(self).sr, final(self).value) && final(self).x == old(self).x && final(self).y == old(self).y && final(self).sp == old(self).sp
            ),
            old(self).op is Lda ==> (!(result is EndInstruction) ==> final(self).a == old(self).a && final(self).sr == old(self).sr && final(self).x == old(self).x && final(self).y == old(self).y && final(self).sp == old(self).sp
            ),
            old(self).op is Ldx ==> (final(self).stage == old(self).stage
            ),
            old(self).op is Ldx ==> (final(self).addressing_mode == old(self).addressing_mode
            ),
            old(self).op is Ldx ==> (final(self).instruction_type == old(self).instruction_type
            ),
            old(self).op is Ldx ==> (final(self).op == old(self).op
            ),
            old(self).op is Ldx ==> (final(self).interrupt_type == old(self).interrupt_type
            ),
            old(self).op is Ldx ==> (old(self).instruction_type is Read ==> final(bus).ram() == old(bus).ram()
            ),
            old(self).op is Ldx ==> (result is EndInstruction && !(old(self).addressing_mode is Relative) ==> final(self).x == final(self).value && final(self).sr == spec_nz(old(self).sr, final(self).value) && final(self).a == old(self).a && final(self).y == old(self).y && final(self).sp == old(self).sp
            ),
            old(self).op is Ldx ==> (!(result is EndInstruction) ==> final(self).a == old(self).a && final(self).sr == old(self).sr && final(self).x == old(self).x && final(self).y == old(self).y && final(self).sp == old(self).sp
            ),
            old(self).op is Ldy ==> (final(self).stage == old(self).stage
            ),
            old(self).op is Ldy ==> (final(self).addressing_mode == old(self).addressing_mode
            ),
            old(self).op is Ldy ==> (final(self).instruction_type == old(self).instruction_type
            ),
            old(self).op is Ldy ==> (final(self).op == old(self).op
            ),
            old(self).op is Ldy ==> (final(self).interrupt_type == old(self).interrupt_type
            ),
            old(self).op is Ldy ==> (old(self).instruction_type is Read ==> final(bus).ram() == old(bus).ram()
            ),
            old(self).op is Ldy ==> (result is EndInstruction && !(old(self).addressing_mode is Relative) ==> final(self).y == final(self).value && final(self).sr == spec_nz(old(self).sr, final(self).value) && final(self).a == old(self).a && final(self).x == old(self).x && final(self).sp == old(self).sp
            ),
            old(self).op is Ldy ==> (!(result is EndInstruction) ==> final(self).a == old(self).a && final(self).sr == old(self).sr && final(self).x == old(self).x && final(self).y == old(self).y && final(self).sp == old(self).sp
            ),
            old(self).op is Lsr ==> (final(self).stage == old(self).stage
            ),
            old(self).op is Lsr ==> (final(self).addressing_mode == old(self).addressing_mode
            ),
            old(self).op is Lsr ==> (final(self).instruction_type == old(self).instruction_type
            ),
            old(self).op is Lsr ==> (final(self).op == old(self).op
            ),
            old(self).op is Lsr ==> (final(self).interrupt_type == old(self).interrupt_type
            ),
            old(self).op is Lsr ==> (final(self).x == old(self).x && final(self).y == old(self).y && final(self).sp == old(self).sp
            ),
            old(self).op is Lsr ==> (result is EndInstruction && old(self).addressing_mode is Accumulator ==>
                final(self).a == (old(self).a >> 1u32)
                && final(self).sr == spec_shift_flags(old(self).sr, (old(self).a & 0x01) != 0, (old(self).a >> 1u32))
                && final(bus).ram() == old(bus).ram()
            ),
            old(self).op is Lsr ==> (result is EndInstruction && !(old(self).addressing_mode is Accumulator)
                && spec_rmw_mode(old(self).addressing_mode)
                && old(self).instruction_type is ReadModifyWrite ==>
                final(self).value == (old(self).value >> 1u32)
                && final(self).a == old(self).a
                && final(self).sr == spec_shift_flags(old(self).sr, (old(self).value & 0x01) != 0, (old(self).value >> 1u32))
                && final(bus).ram() == spec_ram_write(old(bus).ram(), old(self).address, (old(self).value >> 1u32))
            ),
            old(self).op is Lsr ==> (!(result is EndInstruction) ==> final(self).a == old(self).a && final(self).sr == old(self).sr
            ),
            old(self).op is Nmi ==> (final(bus).prg_banks() == old(bus).prg_banks()
            ),
            old(self).op is Nmi ==> (final(bus).oam() == old(bus).oam()
            ),
            old(self).op is Nmi ==> (final(bus).oam_addr() == old(bus).oam_addr()
            ),
            old(self).op is Nmi ==> (final(self).stage == old(self).stage
            ),
            old(self).op is Nmi ==> (final(self).addressing_mode == old(self).addressing_mode
            ),
            old(self).op is Nmi ==> (final(self).instruction_type == old(self).instruction_type
            ),
            old(self).op is Nmi ==> (final(self).op == old(self).op
            ),
            old(self).op is Nmi ==> (final(self).interrupt_type == old(self).interrupt_type
            ),
            old(self).op is Nmi ==> (final(self).a == old(self).a && final(self).x == old(self).x && final(self).y == old(self).y
            ),
            old(self).op is Nmi ==> (old(self).stage == 2 ==> result is EndCycle && final(self).pc == old(self).pc
                && final(self).sp == old(self).sp && final(self).sr == old(self).sr
                && final(bus).ram() == old(bus).ram()
            ),
            old(self).op is Nmi ==> (old(self).stage == 3 ==> result is EndCycle && final(self).pc == old(self).pc
                && final(self).sp == old(self).sp.wrapping_sub(1) && final(self).sr == old(self).sr
                && final(bus).ram() == spec_ram_write(old(bus).ram(), spec_stack_address(old(self).sp), (old(self).pc >> 8u32) as u8)
            ),
            old(self).op is Nmi ==> (old(self).stage == 4 ==> result is EndCycle && final(self).pc == old(self).pc
                && final(self).sp == old(self).sp.wrapping_sub(1) && final(self).sr == old(self).sr
                && final(bus).ram() == spec_ram_write(old(bus).ram(), spec_stack_address(old(self).sp), (old(self).pc & 0xFF) as u8)
            ),
            old(self).op is Nmi ==> (old(self).stage == 5 ==> result is EndCycle && final(self).pc == old(self).pc
                && final(self).sp == old(self).sp.wrapping_sub(1)
                && final(self).sr == spec_set_flag(old(self).sr, 0x04, true)
                && final(bus).ram() == spec_ram_write(old(bus).ram(), spec_stack_address(old(self).sp),
                    spec_set_flag(spec_set_flag(old(self).sr, 0x20, true), 0x10, false))
            ),
            old(self).op is Nmi ==> (old(self).stage == 6 ==> result is EndCycle && final(self).sp == old(self).sp
                && final(self).sr == old(self).sr && final(bus).ram() == old(bus).ram()
                && final(self).pc == (old(self).pc & 0xFF00)
                    | spec_prg_read(old(bus).prg(), old(bus).prg_banks().1, 0xFFFA) as u16
            ),
            old(self).op is Nmi ==> (old(self).stage == 7 ==> result is EndInstruction && final(self).sp == old(self).sp
                && final(self).sr == old(self).sr && final(bus).ram() == old(bus).ram()
                && final(self).pc == ((spec_prg_read(old(bus).prg(), old(bus).prg_banks().1, 0xFFFB) as u16) << 8u32)
                    | (old(self).pc & 0xFF)
            ),
            old(self).op is Nmi ==> (!(2 <= old(self).stage <= 7) ==> result is Error
            ),
            old(self).op is Nop ==> (final(self).stage == old(self).stage
            ),
            old(self).op is Nop ==> (final(self).addressing_mode == old(self).addressing_mode
            ),
            old(self).op is Nop ==> (final(self).instruction_type == old(self).instruction_type
            ),
            old(self).op is Nop ==> (final(self).op == old(self).op
            ),
            old(self).op is Nop ==> (final(self).interrupt_type == old(self).interrupt_type
            ),
            old(self).op is Nop ==> (old(self).instruction_type is Read ==> final(bus).ram() == old(bus).ram()
            ),
            old(self).op is Nop ==> (final(self).a == old(self).a && final(self).sr == old(self).sr && final(self).x == old(self).x
                && final(self).y == old(self).y && final(self).sp == old(self).sp
            ),
            old(self).op is Ora ==> (final(self).stage == old(self).stage
            ),
            old(self).op is Ora ==> (final(self).addressing_mode == old(self).addressing_mode
            ),
            old(self).op is Ora ==> (final(self).instruction_type == old(self).instruction_type
            ),
            old(self).op is Ora ==> (final(self).op == old(self).op
            ),
            old(self).op is Ora ==> (final(self).interrupt_type == old(self).interrupt_type
            ),
            old(self).op is Ora ==> (old(self).instruction_type is Read ==> final(bus).ram() == old(bus).ram()
            ),
            old(self).op is Ora ==> (result is EndInstruction && !(old(self).addressing_mode is Relative) ==> final(self).a == (old(self).a | final(self).value) && final(self).sr == spec_nz(old(self).sr, old(self).a | final(self).value) && final(self).x == old(self).x && final(self).y == old(self).y && final(self).sp == old(self).sp
            ),
            old(self).op is Ora ==> (!(result is EndInstruction) ==> final(self).a == old(self).a && final(self).sr == old(self).sr && final(self).x == old(self).x && final(self).y == old(self).y && final(self).sp == old(self).sp
            ),
            old(self).op is Pha ==> (final(bus).prg_banks() == old(bus).prg_banks()
            ),
            old(self).op is Pha ==> (final(bus).oam() == old(bus).oam()
            ),
            old(self).op is Pha ==> (final(bus).oam_addr() == old(bus).oam_addr()
            ),
            old(self).op is Pha ==> (final(self).stage == old(self).stage
            ),
            old(self).op is Pha ==> (final(self).addressing_mode == old(self).addressing_mode
            ),
            old(self).op is Pha ==> (final(self).instruction_type == old(self).instruction_type
            ),
            old(self).op is Pha ==> (final(self).op == old(self).op
            ),
            old(self).op is Pha ==> (final(self).interrupt_type == old(self).interrupt_type
            ),
            old(self).op is Pha ==> (final(self).a == old(self).a && final(self).x == old(self).x && final(self).y == old(self).y
                && final(self).sr == old(self).sr && final(self).pc == old(self).pc
            ),
            old(self).op is Pha ==> (old(self).stage == 2 ==> result is EndCycle && final(self).sp == old(self).sp
                && final(bus).ram() == old(bus).ram()
            ),
            old(self).op is Pha ==> (old(self).stage == 3 ==> result is EndInstruction
                && final(self).sp == old(self).sp.wrapping_sub(1)
                && final(bus).ram() == spec_ram_write(old(bus).ram(), spec_stack_address(old(self).sp), old(self).a)
            ),
            old(self).op is Pha ==> (!(2 <= old(self).stage <= 3) ==> result is Error && final(bus).ram() == old(bus).ram()
            ),
            old(self).op is Php ==> (final(bus).prg_banks() == old(bus).prg_banks()
            ),
            old(self).op is Php ==> (final(bus).oam() == old(bus).oam()
            ),
            old(self).op is Php ==> (final(bus).oam_addr() == old(bus).oam_addr()
            ),
            old(self).op is Php ==> (final(self).stage == old(self).stage
            ),
            old(self).op is Php ==> (final(self).addressing_mode == old(self).addressing_mode
            ),
            old(self).op is Php ==> (final(self).instruction_type == old(self).instruction_type
            ),
            old(self).op is Php ==> (final(self).op == old(self).op
            ),
            old(self).op is Php ==> (final(self).interrupt_type == old(self).interrupt_type
            ),
            old(self).op is Php ==> (final(self).a == old(self).a && final(self).x == old(self).x && final(self).y == old(self).y
                && final(self).sr == old(self).sr && final(self).pc == old(self).pc
            ),
            old(self).op is Php ==> (old(self).stage == 2 ==> result is EndCycle && final(self).sp == old(self).sp
                && final(bus).ram() == old(bus).ram()
            ),
            old(self).op is Php ==> (old(self).stage == 3 ==> result is EndInstruction
                && final(self).sp == old(self).sp.wrapping_sub(1)
                && final(bus).ram() == spec_ram_write(old(bus).ram(), spec_stack_address(old(self).sp), old(self).sr | 0x30)
            ),
            old(self).op is Php ==> (!(2 <= old(self).stage <= 3) ==> result is Error && final(bus).ram() == old(bus).ram()
            ),
            old(self).op is Pla ==> (final(bus).prg_banks() == old(bus).prg_banks()
            ),
            old(self).op is Pla ==> (final(bus).oam() == old(bus).oam()
            ),
            old(self).op is Pla ==> (final(bus).oam_addr() == old(bus).oam_addr()
            ),
            old(self).op is Pla ==> (final(self).stage == old(self).stage
            ),
            old(self).op is Pla ==> (final(self).addressing_mode == old(self).addressing_mode
            ),
            old(self).op is Pla ==> (final(self).instruction_type == old(self).instruction_type
            ),
            old(self).op is Pla ==> (final(self).op == old(self).op
            ),
            old(self).op is Pla ==> (final(self).interrupt_type == old(self).interrupt_type
            ),
            old(self).op is Pla ==> (final(self).x == old(self).x && final(self).y == old(self).y && final(self).pc == old(self).pc
            ),
            old(self).op is Pla ==> (final(bus).ram() == old(bus).ram()
            ),
            old(self).op is Pla ==> (old(self).stage == 2 ==> result is EndCycle && final(self).sp == old(self).sp
                && final(self).a == old(self).a && final(self).sr == old(self).sr
            ),
            old(self).op is Pla ==> (old(self).stage == 3 ==> result is EndCycle && final(self).sp == old(self).sp.wrapping_add(1)
                && final(self).a == old(self).a && final(self).sr == old(self).sr
            ),
            old(self).op is Pla ==> (old(self).stage == 4 ==> result is EndInstruction && final(self).sp == old(self).sp
                && final(self).a == spec_ram_read(old(bus).ram(), spec_stack_address(old(self).sp))
                && final(self).sr == spec_nz(old(self).sr, spec_ram_read(old(bus).ram(), spec_stack_address(old(self).sp)))
            ),
            old(self).op is Pla ==> (!(2 <= old(self).stage <= 4) ==> result is Error
            ),
            old(self).op is Plp ==> (final(bus).prg_banks() == old(bus).prg_banks()
            ),
            old(self).op is Plp ==> (final(bus).oam() == old(bus).oam()
            ),
            old(self).op is Plp ==> (final(bus).oam_addr() == old(bus).oam_addr()
            ),
            old(self).op is Plp ==> (final(self).stage == old(self).stage
            ),
            old(self).op is Plp ==> (final(self).addressing_mode == old(self).addressing_mode
            ),
            old(self).op is Plp ==> (final(self).instruction_type == old(self).instruction_type
            ),
            old(self).op is Plp ==> (final(self).op == old(self).op
            ),
            old(self).op is Plp ==> (final(self).interrupt_type == old(self).interrupt_type
            ),
            old(self).op is Plp ==> (final(self).a == old(self).a && final(self).x == old(self).x && final(self).y == old(self).y
                && final(self).pc == old(self).pc
            ),
            old(self).op is Plp ==> (final(bus).ram() == old(bus).ram()
            ),
            old(self).op is Plp ==> (old(self).stage == 2 ==> result is EndCycle && final(self).sp == old(self).sp
                && final(self).sr == old(self).sr
            ),
            old(self).op is Plp ==> (old(self).stage == 3 ==> result is EndCycle && final(self).sp == old(self).sp.wrapping_add(1)
                && final(self).sr == old(self).sr
            ),
            old(self).op is Plp ==> (old(self).stage == 4 ==> result is EndInstruction && final(self).sp == old(self).sp
                && final(self).sr == spec_pull_status(spec_ram_read(old(bus).ram(), spec_stack_address(old(self).sp)))
            ),
            old(self).op is Plp ==> (!(2 <= old(self).stage <= 4) ==> result is Error
            ),
            old(self).op is Rla ==> (result is Error
            ),
            old(self).op is Rla ==> (*final(self) == *old(self)
            ),
            old(self).op is Rla ==> (*final(bus) == *old(bus)
            ),
            old(self).op is Rol ==> (final(self).stage == old(self).stage
            ),
            old(self).op is Rol ==> (final(self).addressing_mode == old(self).addressing_mode
            ),
            old(self).op is Rol ==> (final(self).instruction_type == old(self).instruction_type
            ),
            old(self).op is Rol ==> (final(self).op == old(self).op
            ),
            old(self).op is Rol ==> (final(self).interrupt_type == old(self).interrupt_type
            ),
            old(self).op is Rol ==> (final(self).x == old(self).x && final(self).y == old(self).y && final(self).sp == old(self).sp
            ),
            old(self).op is Rol ==> (result is EndInstruction && old(self).addressing_mode is Accumulator ==>
                final(self).a == ((old(self).a << 1u32) | (if old(self).sr & 0x01 != 0 { 1u8 } else { 0u8 }))
                && final(self).sr == spec_shift_flags(old(self).sr, (old(self).a & 0x80) != 0, ((old(self).a << 1u32) | (if old(self).sr & 0x01 != 0 { 1u8 } else { 0u8 })))
                && final(bus).ram() == old(bus).ram()
            ),
            old(self).op is Rol ==> (result is EndInstruction && !(old(self).addressing_mode is Accumulator)
                && spec_rmw_mode(old(self).addressing_mode)
                && old(self).instruction_type is ReadModifyWrite ==>
                final(self).value == ((old(self).value << 1u32) | (if old(self).sr & 0x01 != 0 { 1u8 } else { 0u8 }))
                && final(self).a == old(self).a
                && final(self).sr == spec_shift_flags(old(self).sr, (old(self).value & 0x80) != 0, ((old(self).value << 1u32) | (if old(self).sr & 0x01 != 0 { 1u8 } else { 0u8 })))
                && final(bus).ram() == spec_ram_write(old(bus).ram(), old(self).address, ((old(self).value << 1u32) | (if old(self).sr & 0x01 != 0 { 1u8 } else { 0u8 })))
            ),
            old(self).op is Rol ==> (!(result is EndInstruction) ==> final(self).a == old(self).a && final(self).sr == old(self).sr
            ),
            old(self).op is Ror ==> (final(self).stage == old(self).stage
            ),
            old(self).op is Ror ==> (final(self).addressing_mode == old(self).addressing_mode
            ),
            old(self).op is Ror ==> (final(self).instruction_type == old(self).instruction_type
            ),
            old(self).op is Ror ==> (final(self).op == old(self).op
            ),
            old(self).op is Ror ==> (final(self).interrupt_type == old(self).interrupt_type
            ),
            old(self).op is Ror ==> (final(self).x == old(self).x && final(self).y == old(self).y && final(self).sp == old(self).sp
            ),
            old(self).op is Ror ==> (result is EndInstruction && old(self).addressing_mode is Accumulator ==>
                final(self).a == ((old(self).a >> 1u32) | (if old(self).sr & 0x01 != 0 { 0x80u8 } else { 0u8 }))
                && final(self).sr == spec_shift_flags(old(self).sr, (old(self).a & 0x01) != 0, ((old(self).a >> 1u32) | (if old(self).sr & 0x01 != 0 { 0x80u8 } else { 0u8 })))
                && final(bus).ram() == old(bus).ram()
            ),
            old(self).op is Ror ==> (result is EndInstruction && !(old(self).addressing_mode is Accumulator)
                && spec_rmw_mode(old(self).addressing_mode)
                && old(self).instruction_type is ReadModifyWrite ==>
                final(self).value == ((old(self).value >> 1u32) | (if old(self).sr & 0x01 != 0 { 0x80u8 } else { 0u8 }))
                && final(self).a == old(self).a
                && final(self).sr == spec_shift_flags(old(self).sr, (old(self).value & 0x01) != 0, ((old(self).value >> 1u32) | (if old(self).sr & 0x01 != 0 { 0x80u8 } else { 0u8 })))
                && final(bus).ram() == spec_ram_write(old(bus).ram(), old(self).address, ((old(self).value >> 1u32) | (if old(self).sr & 0x01 != 0 { 0x80u8 } else { 0u8 })))
            ),
            old(self).op is Ror ==> (!(result is EndInstruction) ==> final(self).a == old(self).a && final(self).sr == old(self).sr
            ),
            old(self).op is Rra ==> (result is Error
            ),
            old(self).op is Rra ==> (*final(self) == *old(self)
            ),
            old(self).op is Rra ==> (*final(bus) == *old(bus)
            ),
            old(self).op is Rst ==> (final(bus).prg_banks() == old(bus).prg_banks()
            ),
            old(self).op is Rst ==> (final(bus).oam() == old(bus).oam()
            ),
            old(self).op is Rst ==> (final(bus).oam_addr() == old(bus).oam_addr()
            ),
            old(self).op is Rst ==> (final(self).stage == old(self).stage
            ),
            old(self).op is Rst ==> (final(self).addressing_mode == old(self).addressing_mode
            ),
            old(self).op is Rst ==> (final(self).instruction_type == old(self).instruction_type
            ),
            old(self).op is Rst ==> (final(self).op == old(self).op
            ),
            old(self).op is Rst ==> (final(self).interrupt_type == old(self).interrupt_type
            ),
            old(self).op is Rst ==> (final(self).a == old(self).a && final(self).x == old(self).x && final(self).y == old(self).y
                && final(self).sp == old(self).sp && final(self).sr == old(self).sr
            ),
            old(self).op is Rst ==> (final(bus).ram() == old(bus).ram()
            ),
            old(self).op is Rst ==> (1 <= old(self).stage <= 6 ==> result is EndCycle
            ),
            old(self).op is Rst ==> (old(self).stage == 7 ==> result is EndInstruction
            ),
            old(self).op is Rst ==> (old(self).stage == 6 ==> final(self).pc == (old(self).pc & 0xFF00)
                | spec_prg_read(old(bus).prg(), old(bus).prg_banks().1, 0xFFFC) as u16
            ),
            old(self).op is Rst ==> (old(self).stage == 7 ==> final(self).pc
                == ((spec_prg_read(old(bus).prg(), old(bus).prg_banks().1, 0xFFFD) as u16) << 8u32)
                | (old(self).pc & 0xFF)
            ),
            old(self).op is Rst ==> (!(1 <= old(self).stage <= 7) ==> result is Error
            ),
            old(self).op is Rst ==> (1 <= old(self).stage <= 5 ==> final(self).pc == old(self).pc
            ),
            old(self).op is Rti ==> (final(bus).prg_banks() == old(bus).prg_banks()
            ),
            old(self).op is Rti ==> (final(bus).oam() == old(bus).oam()
            ),
            old(self).op is Rti ==> (final(bus).oam_addr() == old(bus).oam_addr()
            ),
            old(self).op is Rti ==> (final(self).stage == old(self).stage
            ),
            old(self).op is Rti ==> (final(self).addressing_mode == old(self).addressing_mode
            ),
            old(self).op is Rti ==> (final(self).instruction_type == old(self).instruction_type
            ),
            old(self).op is Rti ==> (final(self).op == old(self).op
            ),
            old(self).op is Rti ==> (final(self).interrupt_type == old(self).interrupt_type
            ),
            old(self).op is Rti ==> (final(self).a == old(self).a && final(self).x == old(self).x && final(self).y == old(self).y
            ),
            old(self).op is Rti ==> (final(bus).ram() == old(bus).ram()
            ),
            old(self).op is Rti ==> (old(self).stage == 2 ==> result is EndCycle && final(self).pc == old(self).pc
                && final(self).sp == old(self).sp && final(self).sr == old(self).sr
            ),
            old(self).op is Rti ==> (old(self).stage == 3 ==> result is EndCycle && final(self).pc == old(self).pc
                && final(self).sp == old(self).sp.wrapping_add(1) && final(self).sr == old(self).sr
            ),
            old(self).op is Rti ==> (old(self).stage == 4 ==> result is EndCycle && final(self).pc == old(self).pc
                && final(self).sp == old(self).sp.wrapping_add(1)
                && final(self).sr == spec_pull_status(spec_ram_read(old(bus).ram(), spec_stack_address(old(self).sp)))
            ),
            old(self).op is Rti ==> (old(self).stage == 5 ==> result is EndCycle
                && final(self).pc == (old(self).pc & 0xFF00) | spec_ram_read(old(bus).ram(), spec_stack_address(old(self).sp)) as u16
                && final(self).sp == old(self).sp.wrapping_add(1) && final(self).sr == old(self).sr
            ),
            old(self).op is Rti ==> (old(self).stage == 6 ==> result is EndInstruction
                && final(self).pc == ((spec_ram_read(old(bus).ram(), spec_stack_address(old(self).sp)) as u16) << 8u32) | (old(self).pc & 0xFF)
                && final(self).sp == old(self).sp && final(self).sr == old(self).sr
            ),
            old(self).op is Rti ==> (!(2 <= old(self).stage <= 6) ==> result is Error
            ),
            old(self).op is Rts ==> (final(bus).prg_banks() == old(bus).prg_banks()
            ),
            old(self).op is Rts ==> (final(bus).oam() == old(bus).oam()
            ),
            old(self).op is Rts ==> (final(bus).oam_addr() == old(bus).oam_addr()
            ),
            old(self).op is Rts ==> (final(self).stage == old(self).stage
            ),
            old(self).op is Rts ==> (final(self).addressing_mode == old(self).addressing_mode
            ),
            old(self).op is Rts ==> (final(self).instruction_type == old(self).instruction_type
            ),
            old(self).op is Rts ==> (final(self).op == old(self).op
            ),
            old(self).op is Rts ==> (final(self).interrupt_type == old(self).interrupt_type
            ),
            old(self).op is Rts ==> (final(self).a == old(self).a && final(self).x == old(self).x && final(self).y == old(self).y
                && final(self).sr == old(self).sr
            ),
            old(self).op is Rts ==> (final(bus).ram() == old(bus).ram()
            ),
            old(self).op is Rts ==> (old(self).stage == 2 ==> result is EndCycle && final(self).pc == old(self).pc
                && final(self).sp == old(self).sp
            ),
            old(self).op is Rts ==> (old(self).stage == 3 ==> result is EndCycle && final(self).pc == old(self).pc
                && final(self).sp == old(self).sp.wrapping_add(1)
            ),
            old(self).op is Rts ==> (old(self).stage == 4 ==> result is EndCycle
                && final(self).pc == (old(self).pc & 0xFF00) | spec_ram_read(old(bus).ram(), spec_stack_address(old(self).sp)) as u16
                && final(self).sp == old(self).sp.wrapping_add(1)
            ),
            old(self).op is Rts ==> (old(self).stage == 5 ==> result is EndCycle
                && final(self).pc == ((spec_ram_read(old(bus).ram(), spec_stack_address(old(self).sp)) as u16) << 8u32) | (old(self).pc & 0xFF)
                && final(self).sp == old(self).sp
            ),
            old(self).op is Rts ==> (old(self).stage == 6 ==> result is EndInstruction
                && final(self).pc == old(self).pc.wrapping_add(1) && final(self).sp == old(self).sp
            ),
            old(self).op is Rts ==> (!(2 <= old(self).stage <= 6) ==> result is Error
            ),
            old(self).op is Sax ==> (result is Error
            ),
            old(self).op is Sax ==> (*final(self) == *old(self)
            ),
            old(self).op is Sax ==> (*final(bus) == *old(bus)
            ),
            old(self).op is Sbc ==> (final(self).stage == old(self).stage
            ),
            old(self).op is Sbc ==> (final(self).addressing_mode == old(self).addressing_mode
            ),
            old(self).op is Sbc ==> (final(self).instruction_type == old(self).instruction_type
            ),
            old(self).op is Sbc ==> (final(self).op == old(self).op
            ),
            old(self).op is Sbc ==> (final(self).interrupt_type == old(self).interrupt_type
            ),
            old(self).op is Sbc ==> (old(self).instruction_type is Read ==> final(bus).ram() == old(bus).ram()
            ),
            old(self).op is Sbc ==> (result is EndInstruction && !(old(self).addressing_mode is Relative) ==> final(self).sr == spec_sbc(old(self).sr, old(self).a, final(self).value).0 && final(self).a == spec_sbc(old(self).sr, old(self).a, final(self).value).1 && final(self).x == old(self).x && final(self).y == old(self).y && final(self).sp == old(self).sp
            ),
            old(self).op is Sbc ==> (!(result is EndInstruction) ==> final(self).a == old(self).a && final(self).sr == old(self).sr && final(self).x == old(self).x && final(self).y == old(self).y && final(self).sp == old(self).sp
            ),
            old(self).op is Sec ==> (result is EndInstruction
            ),
            old(self).op is Sec ==> (*final(self) == (Cpu6502 { sr: spec_set_flag(old(self).sr, 0x01, true), ..*old(self) })
            ),
            old(self).op is Sec ==> (*final(bus) == *old(bus)
            ),
            old(self).op is Sed ==> (result is EndInstruction
            ),
            old(self).op is Sed ==> (*final(self) == (Cpu6502 { sr: spec_set_flag(old(self).sr, 0x08, true), ..*old(self) })
            ),
            old(self).op is Sed ==> (*final(bus) == *old(bus)
            ),
            old(self).op is Sei ==> (result is EndInstruction
            ),
            old(self).op is Sei ==> (*final(self) == (Cpu6502 { sr: spec_set_flag(old(self).sr, 0x04, true), ..*old(self) })
            ),
            old(self).op is Sei ==> (*final(bus) == *old(bus)
            ),
            old(self).op is Shx ==> (result is Error
            ),
            old(self).op is Shx ==> (*final(self) == *old(self)
            ),
            old(self).op is Shx ==> (*final(bus) == *old(bus)
            ),
            old(self).op is Shy ==> (result is Error
            ),
            old(self).op is Shy ==> (*final(self) == *old(self)
            ),
            old(self).op is Shy ==> (*final(bus) == *old(bus)
            ),
            old(self).op is Slo ==> (result is Error
            ),
            old(self).op is Slo ==> (*final(self) == *old(self)
            ),
            old(self).op is Slo ==> (*final(bus) == *old(bus)
            ),
            old(self).op is Sre ==> (result is Error
            ),
            old(self).op is Sre ==> (*final(self) == *old(self)
            ),
            old(self).op is Sre ==> (*final(bus) == *old(bus)
            ),
            old(self).op is Sta ==> (final(self).stage == old(self).stage
            ),
            old(self).op is Sta ==> (final(self).addressing_mode == old(self).addressing_mode
            ),
            old(self).op is Sta ==> (final(self).instruction_type == old(self).instruction_type
            ),
            old(self).op is Sta ==> (final(self).op == old(self).op
            ),
            old(self).op is Sta ==> (final(self).interrupt_type == old(self).interrupt_type
            ),
            old(self).op is Sta ==> (result is EndInstruction && !(old(self).addressing_mode is Relative) ==> final(bus).ram() == spec_ram_write(old(bus).ram(), final(self).address, old(self).a) && final(self).a == old(self).a && final(self).sr == old(self).sr && final(self).x == old(self).x && final(self).y == old(self).y && final(self).sp == old(self).sp
            ),
            old(self).op is Sta ==> (!(result is EndInstruction) ==> final(self).a == old(self).a && final(self).sr == old(self).sr && final(self).x == old(self).x && final(self).y == old(self).y && final(self).sp == old(self).sp
            ),
            old(self).op is Stp ==> (result is Error
            ),
            old(self).op is Stp ==> (*final(self) == *old(self)
            ),
            old(self).op is Stp ==> (*final(bus) == *old(bus)
            ),
            old(self).op is Stx ==> (final(self).stage == old(self).stage
            ),
            old(self).op is Stx ==> (final(self).addressing_mode == old(self).addressing_mode
            ),
            old(self).op is Stx ==> (final(self).instruction_type == old(self).instruction_type
            ),
            old(self).op is Stx ==> (final(self).op == old(self).op
            ),
            old(self).op is Stx ==> (final(self).interrupt_type == old(self).interrupt_type
            ),
            old(self).op is Stx ==> (result is EndInstruction && !(old(self).addressing_mode is Relative) ==> final(bus).ram() == spec_ram_write(old(bus).ram(), final(self).address, old(self).x) && final(self).a == old(self).a && final(self).sr == old(self).sr && final(self).x == old(self).x && final(self).y == old(self).y && final(self).sp == old(self).sp
            ),
            old(self).op is Stx ==> (!(result is EndInstruction) ==> final(self).a == old(self).a && final(self).sr == old(self).sr && final(self).x == old(self).x && final(self).y == old(self).y && final(self).sp == old(self).sp
            ),
            old(self).op is Sty ==> (final(self).stage == old(self).stage
            ),
            old(self).op is Sty ==> (final(self).addressing_mode == old(self).addressing_mode
            ),
            old(self).op is Sty ==> (final(self).instruction_type == old(self).instruction_type
            ),
            old(self).op is Sty ==> (final(self).op == old(self).op
            ),
            old(self).op is Sty ==> (final(self).interrupt_type == old(self).interrupt_type
            ),
            old(self).op is Sty ==> (result is EndInstruction && !(old(self).addressing_mode is Relative) ==> final(bus).ram() == spec_ram_write(old(bus).ram(), final(self).address, old(self).y) && final(self).a == old(self).a && final(self).sr == old(self).sr && final(self).x == old(self).x && final(self).y == old(self).y && final(self).sp == old(self).sp
            ),
            old(self).op is Sty ==> (!(result is EndInstruction) ==> final(self).a == old(self).a && final(self).sr == old(self).sr && final(self).x == old(self).x && final(self).y == old(self).y && final(self).sp == old(self).sp
            ),
            old(self).op is Tas ==> (result is Error
            ),
            old(self).op is Tas ==> (*final(self) == *old(self)
            ),
            old(self).op is Tas ==> (*final(bus) == *old(bus)
            ),
            old(self).op is Tax ==> (result is EndInstruction
            ),
            old(self).op is Tax ==> (*final(self) == (Cpu6502 { x: old(self).a, sr: spec_nz(old(self).sr, old(self).a), ..*old(self) })
            ),
            old(self).op is Tax ==> (*final(bus) == *old(bus)
            ),
            old(self).op is Tay ==> (result is EndInstruction
            ),
            old(self).op is Tay ==> (*final(self) == (Cpu6502 { y: old(self).a, sr: spec_nz(old(self).sr, old(self).a), ..*old(self) })
            ),
            old(self).op is Tay ==> (*final(bus) == *old(bus)
            ),
            old(self).op is Tsx ==> (result is EndInstruction
            ),
            old(self).op is Tsx ==> (*final(self) == (Cpu6502 { x: old(self).sp, sr: spec_nz(old(self).sr, old(self).sp), ..*old(self) })
            ),
            old(self).op is Tsx ==> (*final(bus) == *old(bus)
            ),
            old(self).op is Txa ==> (result is EndInstruction
            ),
            old(self).op is Txa ==> (*final(self) == (Cpu6502 { a: old(self).x, sr: spec_nz(old(self).sr, old(self).x), ..*old(self) })
            ),
            old(self).op is Txa ==> (*final(bus) == *old(bus)
            ),
            old(self).op is Txs ==> (result is EndInstruction
            ),
            old(self).op is Txs ==> (*final(self) == (Cpu6502 { sp: old(self).x, ..*old(self) })
            ),
            old(self).op is Txs ==> (*final(bus) == *old(bus)
            ),
            old(self).op is Tya ==> (result is EndInstruction
            ),
            old(self).op is Tya ==> (*final(self) == (Cpu6502 { a: old(self).y, sr: spec_nz(old(self).sr, old(self).y), ..*old(self) })
            ),
            old(self).op is Tya ==> (*final(bus) == *old(bus)
            ),
            old(self).op is Xaa ==> (result is Error
            ),
            old(self).op is Xaa ==> (*final(self) == *old(self)
            ),
            old(self).op is Xaa ==> (*final(bus) == *old(bus)
            ),
    {
        match self.op {
            Op::Cli => self.cli(bus),
            Op::Clv => self.clv(bus),
            Op::Cmp => self.cmp(bus),
            Op::Cpx => self.cpx(bus),
            Op::Cpy => self.cpy(bus),
            Op::Dcp => self.dcp(bus),
            Op::Dec => self.dec(bus),
            Op::Dex => self.dex(bus),
            Op::Dey => self.dey(bus),
            Op::Eor => self.eor(bus),
            Op::Inc => self.inc(bus),
            Op::Inx => self.inx(bus),
            Op::Iny => self.iny(bus),
            Op::Irq => self.irq(bus),
            Op::Isc => self.isc(bus),
            Op::Jmp => self.jmp(bus),
            Op::Jsr => self.jsr(bus),
            Op::Las => self.las(bus),
            Op::Lax => self.lax(bus),
            Op::Lda => self.lda(bus),
            _ => self.step_instruction_c(bus),
        }
    }

    /// A further slice of the micro-program dispatch.
    #[verifier::rlimit(100)]
    fn step_instruction_c<B: BusOps>(&mut self, bus: &mut B) -> (result: CycleResult)
        ensures
            old(bus).inv() ==> final(bus).inv(),
            final(bus).frame_clock() == old(bus).frame_clock(),
            final(bus).frame_pending() == old(bus).frame_pending(),
            final(bus).prg() == old(bus).prg(),
            final(self).stage == old(self).stage,
            !(result is Continue),
            spec_at_most_one_store(old(bus).ram(), final(bus).ram()),
            result is EndCycle ==> old(self).stage <= 8,
            old(self).op is Ldx ==> (final(self).stage == old(self).stage
            ),
            old(self).op is Ldx ==> (final(self).addressing_mode == old(self).addressing_mode
            ),
            old(self).op is Ldx ==> (final(self).instruction_type == old(self).instruction_type
            ),
            old(self).op is Ldx ==> (final(self).op == old(self).op
            ),
            old(self).op is Ldx ==> (final(self).interrupt_type == old(self).interrupt_type
            ),
            old(self).op is Ldx ==> (old(self).instruction_type is Read ==> final(bus).ram() == old(bus).ram()
            ),
            old(self).op is Ldx ==> (result is EndInstruction && !(old(self).addressing_mode is Relative) ==> final(self).x == final(self).value && final(self).sr == spec_nz(old(self).sr, final(self).value) && final(self).a == old(self).a && final(self).y == old(self).y && final(self).sp == old(self).sp
            ),
            old(self).op is Ldx ==> (!(result is EndInstruction) ==> final(self).a == old(self).a && final(self).sr == old(self).sr && final(self).x == old(self).x && final(self).y == old(self).y && final(self).sp == old(self).sp
            ),
            old(self).op is Ldy ==> (final(self).stage == old(self).stage
            ),
            old(self).op is Ldy ==> (final(self).addressing_mode == old(self).addressing_mode
            ),
            old(self).op is Ldy ==> (final(self).instruction_type == old(self).instruction_type
            ),
            old(self).op is Ldy ==> (final(self).op == old(self).op
            ),
            old(self).op is Ldy ==> (final(self).interrupt_type == old(self).interrupt_type
            ),
            old(self).op is Ldy ==> (old(self).instruction_type is Read ==> final(bus).ram() == old(bus).ram()
            ),
            old(self).op is Ldy ==> (result is EndInstruction && !(old(self).addressing_mode is Relative) ==> final(self).y == final(self).value && final(self).sr == spec_nz(old(self).sr, final(self).value) && final(self).a == old(self).a && final(self).x == old(self).x && final(self).sp == old(self).sp
            ),
            old(self).op is Ldy ==> (!(result is EndInstruction) ==> final(self).a == old(self).a && final(self).sr == old(self).sr && final(self).x == old(self).x && final(self).y == old(self).y && final(self).sp == old(self).sp
            ),
            old(self).op is Lsr ==> (final(self).stage == old(self).stage
            ),
            old(self).op is Lsr ==> (final(self).addressing_mode == old(self).addressing_mode
            ),
            old(self).op is Lsr ==> (final(self).instruction_type == old(self).instruction_type
            ),
            old(self).op is Lsr ==> (final(self).op == old(self).op
            ),
            old(self).op is Lsr ==> (final(self).interrupt_type == old(self).interrupt_type
            ),
            old(self).op is Lsr ==> (final(self).x == old(self).x && final(self).y == old(self).y && final(self).sp == old(self).sp
            ),
            old(self).op is Lsr ==> (result is EndInstruction && old(self).addressing_mode is Accumulator ==>
                final(self).a == (old(self).a >> 1u32)
                && final(self).sr == spec_shift_flags(old(self).sr, (old(self).a & 0x01) != 0, (old(self).a >> 1u32))
                && final(bus).ram() == old(bus).ram()
            ),
            old(self).op is Lsr ==> (result is EndInstruction && !(old(self).addressing_mode is Accumulator)
                && spec_rmw_mode(old(self).addressing_mode)
                && old(self).instruction_type is ReadModifyWrite ==>
                final(self).value == (old(self).value >> 1u32)
                && final(self).a == old(self).a
                && final(self).sr == spec_shift_flags(old(self).sr, (old(self).value & 0x01) != 0, (old(self).value >> 1u32))
                && final(bus).ram() == spec_ram_write(old(bus).ram(), old(self).address, (old(self).value >> 1u32))
            ),
            old(self).op is Lsr ==> (!(result is EndInstruction) ==> final(self).a == old(self).a && final(self).sr == old(self).sr
            ),
            old(self).op is Nmi ==> (final(bus).prg_banks() == old(bus).prg_banks()
            ),
            old(self).op is Nmi ==> (final(bus).oam() == old(bus).oam()
            ),
            old(self).op is Nmi ==> (final(bus).oam_addr() == old(bus).oam_addr()
            ),
            old(self).op is Nmi ==> (final(self).stage == old(self).stage
            ),
            old(self).op is Nmi ==> (final(self).addressing_mode == old(self).addressing_mode
            ),
            old(self).op is Nmi ==> (final(self).instruction_type == old(self).instruction_type
            ),
            old(self).op is Nmi ==> (final(self).op == old(self).op
            ),
            old(self).op is Nmi ==> (final(self).interrupt_type == old(self).interrupt_type
            ),
            old(self).op is Nmi ==> (final(self).a == old(self).a && final(self).x == old(self).x && final(self).y == old(self).y
            ),
            old(self).op is Nmi ==> (old(self).stage == 2 ==> result is EndCycle && final(self).pc == old(self).pc
                && final(self).sp == old(self).sp && final(self).sr == old(self).sr
                && final(bus).ram() == old(bus).ram()
            ),
            old(self).op is Nmi ==> (old(self).stage == 3 ==> result is EndCycle && final(self).pc == old(self).pc
                && final(self).sp == old(self).sp.wrapping_sub(1) && final(self).sr == old(self).sr
                && final(bus).ram() == spec_ram_write(old(bus).ram(), spec_stack_address(old(self).sp), (old(self).pc >> 8u32) as u8)
            ),
            old(self).op is Nmi ==> (old(self).stage == 4 ==> result is EndCycle && final(self).pc == old(self).pc
                && final(self).sp == old(self).sp.wrapping_sub(1) && final(self).sr == old(self).sr
                && final(bus).ram() == spec_ram_write(old(bus).ram(), spec_stack_address(old(self).sp), (old(self).pc & 0xFF) as u8)
            ),
            old(self).op is Nmi ==> (old(self).stage == 5 ==> result is EndCycle && final(self).pc == old(self).pc
                && final(self).sp == old(self).sp.wrapping_sub(1)
                && final(self).sr == spec_set_flag(old(self).sr, 0x04, true)
                && final(bus).ram() == spec_ram_write(old(bus).ram(), spec_stack_address(old(self).sp),
                    spec_set_flag(spec_set_flag(old(self).sr, 0x20, true), 0x10, false))
            ),
            old(self).op is Nmi ==> (old(self).stage == 6 ==> result is EndCycle && final(self).sp == old(self).sp
                && final(self).sr == old(self).sr && final(bus).ram() == old(bus).ram()
                && final(self).pc == (old(self).pc & 0xFF00)
                    | spec_prg_read(old(bus).prg(), old(bus).prg_banks().1, 0xFFFA) as u16
            ),
            old(self).op is Nmi ==> (old(self).stage == 7 ==> result is EndInstruction && final(self).sp == old(self).sp
                && final(self).sr == old(self).sr && final(bus).ram() == old(bus).ram()
                && final(self).pc == ((spec_prg_read(old(bus).prg(), old(bus).prg_banks().1, 0xFFFB) as u16) << 8u32)
                    | (old(self).pc & 0xFF)
            ),
            old(self).op is Nmi ==> (!(2 <= old(self).stage <= 7) ==> result is Error
            ),
            old(self).op is Nop ==> (final(self).stage == old(self).stage
            ),
            old(self).op is Nop ==> (final(self).addressing_mode == old(self).addressing_mode
            ),
            old(self).op is Nop ==> (final(self).instruction_type == old(self).instruction_type
            ),
            old(self).op is Nop ==> (final(self).op == old(self).op
            ),
            old(self).op is Nop ==> (final(self).interrupt_type == old(self).interrupt_type
            ),
            old(self).op is Nop ==> (old(self).instruction_type is Read ==> final(bus).ram() == old(bus).ram()
            ),
            old(self).op is Nop ==> (final(self).a == old(self).a && final(self).sr == old(self).sr && final(self).x == old(self).x
                && final(self).y == old(self).y && final(self).sp == old(self).sp
            ),
            old(self).op is Ora ==> (final(self).stage == old(self).stage
            ),
            old(self).op is Ora ==> (final(self).addressing_mode == old(self).addressing_mode
            ),
            old(self).op is Ora ==> (final(self).instruction_type == old(self).instruction_type
            ),
            old(self).op is Ora ==> (final(self).op == old(self).op
            ),
            old(self).op is Ora ==> (final(self).interrupt_type == old(self).interrupt_type
            ),
            old(self).op is Ora ==> (old(self).instruction_type is Read ==> final(bus).ram() == old(bus).ram()
            ),
            old(self).op is Ora ==> (result is EndInstruction && !(old(self).addressing_mode is Relative) ==> final(self).a == (old(self).a | final(self).value) && final(self).sr == spec_nz(old(self).sr, old(self).a | final(self).value) && final(self).x == old(self).x && final(self).y == old(self).y && final(self).sp == old(self).sp
            ),
            old(self).op is Ora ==> (!(result is EndInstruction) ==> final(self).a == old(self).a && final(self).sr == old(self).sr && final(self).x == old(self).x && final(self).y == old(self).y && final(self).sp == old(self).sp
            ),
            old(self).op is Pha ==> (final(bus).prg_banks() == old(bus).prg_banks()
            ),
            old(self).op is Pha ==> (final(bus).oam() == old(bus).oam()
            ),
            old(self).op is Pha ==> (final(bus).oam_addr() == old(bus).oam_addr()
            ),
            old(self).op is Pha ==> (final(self).stage == old(self).stage
            ),
            old(self).op is Pha ==> (final(self).addressing_mode == old(self).addressing_mode
            ),
            old(self).op is Pha ==> (final(self).instruction_type == old(self).instruction_type
            ),
            old(self).op is Pha ==> (final(self).op == old(self).op
            ),
            old(self).op is Pha ==> (final(self).interrupt_type == old(self).interrupt_type
            ),
            old(self).op is Pha ==> (final(self).a == old(self).a && final(self).x == old(self).x && final(self).y == old(self).y
                && final(self).sr == old(self).sr && final(self).pc == old(self).pc
            ),
            old(self).op is Pha ==> (old(self).stage == 2 ==> result is EndCycle && final(self).sp == old(self).sp
                && final(bus).ram() == old(bus).ram()
            ),
            old(self).op is Pha ==> (old(self).stage == 3 ==> result is EndInstruction
                && final(self).sp == old(self).sp.wrapping_sub(1)
                && final(bus).ram() == spec_ram_write(old(bus).ram(), spec_stack_address(old(self).sp), old(self).a)
            ),
            old(self).op is Pha ==> (!(2 <= old(self).stage <= 3) ==> result is Error && final(bus).ram() == old(bus).ram()
            ),
            old(self).op is Php ==> (final(bus).prg_banks() == old(bus).prg_banks()
            ),
            old(self).op is Php ==> (final(bus).oam() == old(bus).oam()
            ),
            old(self).op is Php ==> (final(bus).oam_addr() == old(bus).oam_addr()
            ),
            old(self).op is Php ==> (final(self).stage == old(self).stage
            ),
            old(self).op is Php ==> (final(self).addressing_mode == old(self).addressing_mode
            ),
            old(self).op is Php ==> (final(self).instruction_type == old(self).instruction_type
            ),
            old(self).op is Php ==> (final(self).op == old(self).op
            ),
            old(self).op is Php ==> (final(self).interrupt_type == old(self).interrupt_type
            ),
            old(self).op is Php ==> (final(self).a == old(self).a && final(self).x == old(self).x && final(self).y == old(self).y
                && final(self).sr == old(self).sr && final(self).pc == old(self).pc
            ),
            old(self).op is Php ==> (old(self).stage == 2 ==> result is EndCycle && final(self).sp == old(self).sp
                && final(bus).ram() == old(bus).ram()
            ),
            old(self).op is Php ==> (old(self).stage == 3 ==> result is EndInstruction
                && final(self).sp == old(self).sp.wrapping_sub(1)
                && final(bus).ram() == spec_ram_write(old(bus).ram(), spec_stack_address(old(self).sp), old(self).sr | 0x30)
            ),
            old(self).op is Php ==> (!(2 <= old(self).stage <= 3) ==> result is Error && final(bus).ram() == old(bus).ram()
            ),
            old(self).op is Pla ==> (final(bus).prg_banks() == old(bus).prg_banks()
            ),
            old(self).op is Pla ==> (final(bus).oam() == old(bus).oam()
            ),
            old(self).op is Pla ==> (final(bus).oam_addr() == old(bus).oam_addr()
            ),
            old(self).op is Pla ==> (final(self).stage == old(self).stage
            ),
            old(self).op is Pla ==> (final(self).addressing_mode == old(self).addressing_mode
            ),
            old(self).op is Pla ==> (final(self).instruction_type == old(self).instruction_type
            ),
            old(self).op is Pla ==> (final(self).op == old(self).op
            ),
            old(self).op is Pla ==> (final(self).interrupt_type == old(self).interrupt_type
            ),
            old(self).op is Pla ==> (final(self).x == old(self).x && final(self).y == old(self).y && final(self).pc == old(self).pc
            ),
            old(self).op is Pla ==> (final(bus).ram() == old(bus).ram()
            ),
            old(self).op is Pla ==> (old(self).stage == 2 ==> result is EndCycle && final(self).sp == old(self).sp
                && final(self).a == old(self).a && final(self).sr == old(self).sr
            ),
            old(self).op is Pla ==> (old(self).stage == 3 ==> result is EndCycle && final(self).sp == old(self).sp.wrapping_add(1)
                && final(self).a == old(self).a && final(self).sr == old(self).sr
            ),
            old(self).op is Pla ==> (old(self).stage == 4 ==> result is EndInstruction && final(self).sp == old(self).sp
                && final(self).a == spec_ram_read(old(bus).ram(), spec_stack_address(old(self).sp))
                && final(self).sr == spec_nz(old(self).sr, spec_ram_read(old(bus).ram(), spec_stack_address(old(self).sp)))
            ),
            old(self).op is Pla ==> (!(2 <= old(self).stage <= 4) ==> result is Error
            ),
            old(self).op is Plp ==> (final(bus).prg_banks() == old(bus).prg_banks()
            ),
            old(self).op is Plp ==> (final(bus).oam() == old(bus).oam()
            ),
            old(self).op is Plp ==> (final(bus).oam_addr() == old(bus).oam_addr()
            ),
            old(self).op is Plp ==> (final(self).stage == old(self).stage
            ),
            old(self).op is Plp ==> (final(self).addressing_mode == old(self).addressing_mode
            ),
            old(self).op is Plp ==> (final(self).instruction_type == old(self).instruction_type
            ),
            old(self).op is Plp ==> (final(self).op == old(self).op
            ),
            old(self).op is Plp ==> (final(self).interrupt_type == old(self).interrupt_type
            ),
            old(self).op is Plp ==> (final(self).a == old(self).a && final(self).x == old(self).x && final(self).y == old(self).y
                && final(self).pc == old(self).pc
            ),
            old(self).op is Plp ==> (final(bus).ram() == old(bus).ram()
            ),
            old(self).op is Plp ==> (old(self).stage == 2 ==> result is EndCycle && final(self).sp == old(self).sp
                && final(self).sr == old(self).sr
            ),
            old(self).op is Plp ==> (old(self).stage == 3 ==> result is EndCycle && final(self).sp == old(self).sp.wrapping_add(1)
                && final(self).sr == old(self).sr
            ),
            old(self).op is Plp ==> (old(self).stage == 4 ==> result is EndInstruction && final(self).sp == old(self).sp
                && final(self).sr == spec_pull_status(spec_ram_read(old(bus).ram(), spec_stack_address(old(self).sp)))
            ),
            old(self).op is Plp ==> (!(2 <= old(self).stage <= 4) ==> result is Error
            ),
            old(self).op is Rla ==> (result is Error
            ),
            old(self).op is Rla ==> (*final(self) == *old(self)
            ),
            old(self).op is Rla ==> (*final(bus) == *old(bus)
            ),
            old(self).op is Rol ==> (final(self).stage == old(self).stage
            ),
            old(self).op is Rol ==> (final(self).addressing_mode == old(self).addressing_mode
            ),
            old(self).op is Rol ==> (final(self).instruction_type == old(self).instruction_type
            ),
            old(self).op is Rol ==> (final(self).op == old(self).op
            ),
            old(self).op is Rol ==> (final(self).interrupt_type == old(self).interrupt_type
            ),
            old(self).op is Rol ==> (final(self).x == old(self).x && final(self).y == old(self).y && final(self).sp == old(self).sp
            ),
            old(self).op is Rol ==> (result is EndInstruction && old(self).addressing_mode is Accumulator ==>
                final(self).a == ((old(self).a << 1u32) | (if old(self).sr & 0x01 != 0 { 1u8 } else { 0u8 }))
                && final(self).sr == spec_shift_flags(old(self).sr, (old(self).a & 0x80) != 0, ((old(self).a << 1u32) | (if old(self).sr & 0x01 != 0 { 1u8 } else { 0u8 })))
                && final(bus).ram() == old(bus).ram()
            ),
            old(self).op is Rol ==> (result is EndInstruction && !(old(self).addressing_mode is Accumulator)
                && spec_rmw_mode(old(self).addressing_mode)
                && old(self).instruction_type is ReadModifyWrite ==>
                final(self).value == ((old(self).value << 1u32) | (if old(self).sr & 0x01 != 0 { 1u8 } else { 0u8 }))
                && final(self).a == old(self).a
                && final(self).sr == spec_shift_flags(old(self).sr, (old(self).value & 0x80) != 0, ((old(self).value << 1u32) | (if old(self).sr & 0x01 != 0 { 1u8 } else { 0u8 })))
                && final(bus).ram() == spec_ram_write(old(bus).ram(), old(self).address, ((old(self).value << 1u32) | (if old(self).sr & 0x01 != 0 { 1u8 } else { 0u8 })))
            ),
            old(self).op is Rol ==> (!(result is EndInstruction) ==> final(self).a == old(self).a && final(self).sr == old(self).sr
            ),
            old(self).op is Ror ==> (final(self).stage == old(self).stage
            ),
            old(self).op is Ror ==> (final(self).addressing_mode == old(self).addressing_mode
            ),
            old(self).op is Ror ==> (final(self).instruction_type == old(self).instruction_type
            ),
            old(self).op is Ror ==> (final(self).op == old(self).op
            ),
            old(self).op is Ror ==> (final(self).interrupt_type == old(self).interrupt_type
            ),
            old(self).op is Ror ==> (final(self).x == old(self).x && final(self).y == old(self).y && final(self).sp == old(self).sp
            ),
            old(self).op is Ror ==> (result is EndInstruction && old(self).addressing_mode is Accumulator ==>
                final(self).a == ((old(self).a >> 1u32) | (if old(self).sr & 0x01 != 0 { 0x80u8 } else { 0u8 }))
                && final(self).sr == spec_shift_flags(old(self).sr, (old(self).a & 0x01) != 0, ((old(self).a >> 1u32) | (if old(self).sr & 0x01 != 0 { 0x80u8 } else { 0u8 })))
                && final(bus).ram() == old(bus).ram()
            ),
            old(self).op is Ror ==> (result is EndInstruction && !(old(self).addressing_mode is Accumulator)
                && spec_rmw_mode(old(self).addressing_mode)
                && old(self).instruction_type is ReadModifyWrite ==>
                final(self).value == ((old(self).value >> 1u32) | (if old(self).sr & 0x01 != 0 { 0x80u8 } else { 0u8 }))
                && final(self).a == old(self).a
                && final(self).sr == spec_shift_flags(old(self).sr, (old(self).value & 0x01) != 0, ((old(self).value >> 1u32) | (if old(self).sr & 0x01 != 0 { 0x80u8 } else { 0u8 })))
                && final(bus).ram() == spec_ram_write(old(bus).ram(), old(self).address, ((old(self).value >> 1u32) | (if old(self).sr & 0x01 != 0 { 0x80u8 } else { 0u8 })))
            ),
            old(self).op is Ror ==> (!(result is EndInstruction) ==> final(self).a == old(self).a && final(self).sr == old(self).sr
            ),
            old(self).op is Rra ==> (result is Error
            ),
            old(self).op is Rra ==> (*final(self) == *old(self)
            ),
            old(self).op is Rra ==> (*final(bus) == *old(bus)
            ),
            old(self).op is Rst ==> (final(bus).prg_banks() == old(bus).prg_banks()
            ),
            old(self).op is Rst ==> (final(bus).oam() == old(bus).oam()
            ),
            old(self).op is Rst ==> (final(bus).oam_addr() == old(bus).oam_addr()
            ),
            old(self).op is Rst ==> (final(self).stage == old(self).stage
            ),
            old(self).op is Rst ==> (final(self).addressing_mode == old(self).addressing_mode
            ),
            old(self).op is Rst ==> (final(self).instruction_type == old(self).instruction_type
            ),
            old(self).op is Rst ==> (final(self).op == old(self).op
            ),
            old(self).op is Rst ==> (final(self).interrupt_type == old(self).interrupt_type
            ),
            old(self).op is Rst ==> (final(self).a == old(self).a && final(self).x == old(self).x && final(self).y == old(self).y
                && final(self).sp == old(self).sp && final(self).sr == old(self).sr
            ),
            old(self).op is Rst ==> (final(bus).ram() == old(bus).ram()
            ),
            old(self).op is Rst ==> (1 <= old(self).stage <= 6 ==> result is EndCycle
            ),
            old(self).op is Rst ==> (old(self).stage == 7 ==> result is EndInstruction
            ),
            old(self).op is Rst ==> (old(self).stage == 6 ==> final(self).pc == (old(self).pc & 0xFF00)
                | spec_prg_read(old(bus).prg(), old(bus).prg_banks().1, 0xFFFC) as u16
            ),
            old(self).op is Rst ==> (old(self).stage == 7 ==> final(self).pc
                == ((spec_prg_read(old(bus).prg(), old(bus).prg_banks().1, 0xFFFD) as u16) << 8u32)
                | (old(self).pc & 0xFF)
            ),
            old(self).op is Rst ==> (!(1 <= old(self).stage <= 7) ==> result is Error
            ),
            old(self).op is Rst ==> (1 <= old(self).stage <= 5 ==> final(self).pc == old(self).pc
            ),
            old(self).op is Rti ==> (final(bus).prg_banks() == old(bus).prg_banks()
            ),
            old(self).op is Rti ==> (final(bus).oam() == old(bus).oam()
            ),
            old(self).op is Rti ==> (final(bus).oam_addr() == old(bus).oam_addr()
            ),
            old(self).op is Rti ==> (final(self).stage == old(self).stage
            ),
            old(self).op is Rti ==> (final(self).addressing_mode == old(self).addressing_mode
            ),
            old(self).op is Rti ==> (final(self).instruction_type == old(self).instruction_type
            ),
            old(self).op is Rti ==> (final(self).op == old(self).op
            ),
            old(self).op is Rti ==> (final(self).interrupt_type == old(self).interrupt_type
            ),
            old(self).op is Rti ==> (final(self).a == old(self).a && final(self).x == old(self).x && final(self).y == old(self).y
            ),
            old(self).op is Rti ==> (final(bus).ram() == old(bus).ram()
            ),
            old(self).op is Rti ==> (old(self).stage == 2 ==> result is EndCycle && final(self).pc == old(self).pc
                && final(self).sp == old(self).sp && final(self).sr == old(self).sr
            ),
            old(self).op is Rti ==> (old(self).stage == 3 ==> result is EndCycle && final(self).pc == old(self).pc
                && final(self).sp == old(self).sp.wrapping_add(1) && final(self).sr == old(self).sr
            ),
            old(self).op is Rti ==> (old(self).stage == 4 ==> result is EndCycle && final(self).pc == old(self).pc
                && final(self).sp == old(self).sp.wrapping_add(1)
                && final(self).sr == spec_pull_status(spec_ram_read(old(bus).ram(), spec_stack_address(old(self).sp)))
            ),
            old(self).op is Rti ==> (old(self).stage == 5 ==> result is EndCycle
                && final(self).pc == (old(self).pc & 0xFF00) | spec_ram_read(old(bus).ram(), spec_stack_address(old(self).sp)) as u16
                && final(self).sp == old(self).sp.wrapping_add(1) && final(self).sr == old(self).sr
            ),
            old(self).op is Rti ==> (old(self).stage == 6 ==> result is EndInstruction
                && final(self).pc == ((spec_ram_read(old(bus).ram(), spec_stack_address(old(self).sp)) as u16) << 8u32) | (old(self).pc & 0xFF)
                && final(self).sp == old(self).sp && final(self).sr == old(self).sr
            ),
            old(self).op is Rti ==> (!(2 <= old(self).stage <= 6) ==> result is Error
            ),
            old(self).op is Rts ==> (final(bus).prg_banks() == old(bus).prg_banks()
            ),
            old(self).op is Rts ==> (final(bus).oam() == old(bus).oam()
            ),
            old(self).op is Rts ==> (final(bus).oam_addr() == old(bus).oam_addr()
            ),
            old(self).op is Rts ==> (final(self).stage == old(self).stage
            ),
            old(self).op is Rts ==> (final(self).addressing_mode == old(self).addressing_mode
            ),
            old(self).op is Rts ==> (final(self).instruction_type == old(self).instruction_type
            ),
            old(self).op is Rts ==> (final(self).op == old(self).op
            ),
            old(self).op is Rts ==> (final(self).interrupt_type == old(self).interrupt_type
            ),
            old(self).op is Rts ==> (final(self).a == old(self).a && final(self).x == old(self).x && final(self).y == old(self).y
                && final(self).sr == old(self).sr
            ),
            old(self).op is Rts ==> (final(bus).ram() == old(bus).ram()
            ),
            old(self).op is Rts ==> (old(self).stage == 2 ==> result is EndCycle && final(self).pc == old(self).pc
                && final(self).sp == old(self).sp
            ),
            old(self).op is Rts ==> (old(self).stage == 3 ==> result is EndCycle && final(self).pc == old(self).pc
                && final(self).sp == old(self).sp.wrapping_add(1)
            ),
            old(self).op is Rts ==> (old(self).stage == 4 ==> result is EndCycle
                && final(self).pc == (old(self).pc & 0xFF00) | spec_ram_read(old(bus).ram(), spec_stack_address(old(self).sp)) as u16
                && final(self).sp == old(self).sp.wrapping_add(1)
            ),
            old(self).op is Rts ==> (old(self).stage == 5 ==> result is EndCycle
                && final(self).pc == ((spec_ram_read(old(bus).ram(), spec_stack_address(old(self).sp)) as u16) << 8u32) | (old(self).pc & 0xFF)
                && final(self).sp == old(self).sp
            ),
            old(self).op is Rts ==> (old(self).stage == 6 ==> result is EndInstruction
                && final(self).pc == old(self).pc.wrapping_add(1) && final(self).sp == old(self).sp
            ),
            old(self).op is Rts ==> (!(2 <= old(self).stage <= 6) ==> result is Error
            ),
            old(self).op is Sax ==> (result is Error
            ),
            old(self).op is Sax ==> (*final(self) == *old(self)
            ),
            old(self).op is Sax ==> (*final(bus) == *old(bus)
            ),
            old(self).op is Sbc ==> (final(self).stage == old(self).stage
            ),
            old(self).op is Sbc ==> (final(self).addressing_mode == old(self).addressing_mode
            ),
            old(self).op is Sbc ==> (final(self).instruction_type == old(self).instruction_type
            ),
            old(self).op is Sbc ==> (final(self).op == old(self).op
            ),
            old(self).op is Sbc ==> (final(self).interrupt_type == old(self).interrupt_type
            ),
            old(self).op is Sbc ==> (old(self).instruction_type is Read ==> final(bus).ram() == old(bus).ram()
            ),
            old(self).op is Sbc ==> (result is EndInstruction && !(old(self).addressing_mode is Relative) ==> final(self).sr == spec_sbc(old(self).sr, old(self).a, final(self).value).0 && final(self).a == spec_sbc(old(self).sr, old(self).a, final(self).value).1 && final(self).x == old(self).x && final(self).y == old(self).y && final(self).sp == old(self).sp
            ),
            old(self).op is Sbc ==> (!(result is EndInstruction) ==> final(self).a == old(self).a && final(self).sr == old(self).sr && final(self).x == old(self).x && final(self).y == old(self).y && final(self).sp == old(self).sp
            ),
            old(self).op is Sec ==> (result is EndInstruction
            ),
            old(self).op is Sec ==> (*final(self) == (Cpu6502 { sr: spec_set_flag(old(self).sr, 0x01, true), ..*old(self) })
            ),
            old(self).op is Sec ==> (*final(bus) == *old(bus)
            ),
            old(self).op is Sed ==> (result is EndInstruction
            ),
            old(self).op is Sed ==> (*final(self) == (Cpu6502 { sr: spec_set_flag(old(self).sr, 0x08, true), ..*old(self) })
            ),
            old(self).op is Sed ==> (*final(bus) == *old(bus)
            ),
            old(self).op is Sei ==> (result is EndInstruction
            ),
            old(self).op is Sei ==> (*final(self) == (Cpu6502 { sr: spec_set_flag(old(self).sr, 0x04, true), ..*old(self) })
            ),
            old(self).op is Sei ==> (*final(bus) == *old(bus)
            ),
            old(self).op is Shx ==> (result is Error
            ),
            old(self).op is Shx ==> (*final(self) == *old(self)
            ),
            old(self).op is Shx ==> (*final(bus) == *old(bus)
            ),
            old(self).op is Shy ==> (result is Error
            ),
            old(self).op is Shy ==> (*final(self) == *old(self)
            ),
            old(self).op is Shy ==> (*final(bus) == *old(bus)
            ),
            old(self).op is Slo ==> (result is Error
            ),
            old(self).op is Slo ==> (*final(self) == *old(self)
            ),
            old(self).op is Slo ==> (*final(bus) == *old(bus)
            ),
            old(self).op is Sre ==> (result is Error
            ),
            old(self).op is Sre ==> (*final(self) == *old(self)
            ),
            old(self).op is Sre ==> (*final(bus) == *old(bus)
            ),
            old(self).op is Sta ==> (final(self).stage == old(self).stage
            ),
            old(self).op is Sta ==> (final(self).addressing_mode == old(self).addressing_mode
            ),
            old(self).op is Sta ==> (final(self).instruction_type == old(self).instruction_type
            ),
            old(self).op is Sta ==> (final(self).op == old(self).op
            ),
            old(self).op is Sta ==> (final(self).interrupt_type == old(self).interrupt_type
            ),
            old(self).op is Sta ==> (result is EndInstruction && !(old(self).addressing_mode is Relative) ==> final(bus).ram() == spec_ram_write(old(bus).ram(), final(self).address, old(self).a) && final(self).a == old(self).a && final(self).sr == old(self).sr && final(self).x == old(self).x && final(self).y == old(self).y && final(self).sp == old(self).sp
            ),
            old(self).op is Sta ==> (!(result is EndInstruction) ==> final(self).a == old(self).a && final(self).sr == old(self).sr && final(self).x == old(self).x && final(self).y == old(self).y && final(self).sp == old(self).sp
            ),
            old(self).op is Stp ==> (result is Error
            ),
            old(self).op is Stp ==> (*final(self) == *old(self)
            ),
            old(self).op is Stp ==> (*final(bus) == *old(bus)
            ),
            old(self).op is Stx ==> (final(self).stage == old(self).stage
            ),
            old(self).op is Stx ==> (final(self).addressing_mode == old(self).addressing_mode
            ),
            old(self).op is Stx ==> (final(self).instruction_type == old(self).instruction_type
            ),
            old(self).op is Stx ==> (final(self).op == old(self).op
            ),
            old(self).op is Stx ==> (final(self).interrupt_type == old(self).interrupt_type
            ),
            old(self).op is Stx ==> (result is EndInstruction && !(old(self).addressing_mode is Relative) ==> final(bus).ram() == spec_ram_write(old(bus).ram(), final(self).address, old(self).x) && final(self).a == old(self).a && final(self).sr == old(self).sr && final(self).x == old(self).x && final(self).y == old(self).y && final(self).sp == old(self).sp
            ),
            old(self).op is Stx ==> (!(result is EndInstruction) ==> final(self).a == old(self).a && final(self).sr == old(self).sr && final(self).x == old(self).x && final(self).y == old(self).y && final(self).sp == old(self).sp
            ),
            old(self).op is Sty ==> (final(self).stage == old(self).stage
            ),
            old(self).op is Sty ==> (final(self).addressing_mode == old(self).addressing_mode
            ),
            old(self).op is Sty ==> (final(self).instruction_type == old(self).instruction_type
            ),
            old(self).op is Sty ==> (final(self).op == old(self).op
            ),
            old(self).op is Sty ==> (final(self).interrupt_type == old(self).interrupt_type
            ),
            old(self).op is Sty ==> (result is EndInstruction && !(old(self).addressing_mode is Relative) ==> final(bus).ram() == spec_ram_write(old(bus).ram(), final(self).address, old(self).y) && final(self).a == old(self).a && final(self).sr == old(self).sr && final(self).x == old(self).x && final(self).y == old(self).y && final(self).sp == old(self).sp
            ),
            old(self).op is Sty ==> (!(result is EndInstruction) ==> final(self).a == old(self).a && final(self).sr == old(self).sr && final(self).x == old(self).x && final(self).y == old(self).y && final(self).sp == old(self).sp
            ),
            old(self).op is Tas ==> (result is Error
            ),
            old(self).op is Tas ==> (*final(self) == *old(self)
            ),
            old(self).op is Tas ==> (*final(bus) == *old(bus)
            ),
            old(self).op is Tax ==> (result is EndInstruction
            ),
            old(self).op is Tax ==> (*final(self) == (Cpu6502 { x: old(self).a, sr: spec_nz(old(self).sr, old(self).a), ..*old(self) })
            ),
            old(self).op is Tax ==> (*final(bus) == *old(bus)
            ),
            old(self).op is Tay ==> (result is EndInstruction
            ),
            old(self).op is Tay ==> (*final(self) == (Cpu6502 { y: old(self).a, sr: spec_nz(old(self).sr, old(self).a), ..*old(self) })
            ),
            old(self).op is Tay ==> (*final(bus) == *old(bus)
            ),
            old(self).op is Tsx ==> (result is EndInstruction
            ),
            old(self).op is Tsx ==> (*final(self) == (Cpu6502 { x: old(self).sp, sr: spec_nz(old(self).sr, old(self).sp), ..*old(self) })
            ),
            old(self).op is Tsx ==> (*final(bus) == *old(bus)
            ),
            old(self).op is Txa ==> (result is EndInstruction
            ),
            old(self).op is Txa ==> (*final(self) == (Cpu6502 { a: old(self).x, sr: spec_nz(old(self).sr, old(self).x), ..*old(self) })
            ),
            old(self).op is Txa ==> (*final(bus) == *old(bus)
            ),
            old(self).op is Txs ==> (result is EndInstruction
            ),
            old(self).op is Txs ==> (*final(self) == (Cpu6502 { sp: old(self).x, ..*old(self) })
            ),
            old(self).op is Txs ==> (*final(bus) == *old(bus)
            ),
            old(self).op is Tya ==> (result is EndInstruction
            ),
            old(self).op is Tya ==> (*final(self) == (Cpu6502 { a: old(self).y, sr: spec_nz(old(self).sr, old(self).y), ..*old(self) })
            ),
            old(self).op is Tya ==> (*final(bus) == *old(bus)
            ),
            old(self).op is Xaa ==> (result is Error
            ),
            old(self).op is Xaa ==> (*final(self) == *old(self)
            ),
            old(self).op is Xaa ==> (*final(bus) == *old(bus)
            ),
    {
        match self.op {
            Op::Ldx => self.ldx(bus),
            Op::Ldy => self.ldy(bus),
            Op::Lsr => self.lsr(bus),
            Op::Nmi => self.nmi(bus),
            Op::Nop => self.nop(bus),
            Op::Ora => self.ora(bus),
            Op::Pha => self.pha(bus),
            Op::Php => self.php(bus),
            Op::Pla => self.pla(bus),
            Op::Plp => self.plp(bus),
            Op::Rla => self.rla(bus),
            Op::Rol => self.rol(bus),
            Op::Ror => self.ror(bus),
            Op::Rra => self.rra(bus),
            _ => self.step_instruction_d(bus),
        }
    }

    /// A further slice of the micro-program dispatch.
    #[verifier::rlimit(100)]
    fn step_instruction_d<B: BusOps>(&mut self, bus: &mut B) -> (result: CycleResult)
        ensures
            old(bus).inv() ==> final(bus).inv(),
            final(bus).frame_clock() == old(bus).frame_clock(),
            final(bus).frame_pending() == old(bus).frame_pending(),
            final(bus).prg() == old(bus).prg(),
            final(self).stage == old(self).stage,
            !(result is Continue),
            spec_at_most_one_store(old(bus).ram(), final(bus).ram()),
            result is EndCycle ==> old(self).stage <= 8,
            old(self).op is Rst ==> (final(bus).prg_banks() == old(bus).prg_banks()
            ),
            old(self).op is Rst ==> (final(bus).oam() == old(bus).oam()
            ),
            old(self).op is Rst ==> (final(bus).oam_addr() == old(bus).oam_addr()
            ),
            old(self).op is Rst ==> (final(self).stage == old(self).stage
            ),
            old(self).op is Rst ==> (final(self).addressing_mode == old(self).addressing_mode
            ),
            old(self).op is Rst ==> (final(self).instruction_type == old(self).instruction_type
            ),
            old(self).op is Rst ==> (final(self).op == old(self).op
            ),
            old(self).op is Rst ==> (final(self).interrupt_type == old(self).interrupt_type
            ),
            old(self).op is Rst ==> (final(self).a == old(self).a && final(self).x == old(self).x && final(self).y == old(self).y
                && final(self).sp == old(self).sp && final(self).sr == old(self).sr
            ),
            old(self).op is Rst ==> (final(bus).ram() == old(bus).ram()
            ),
            old(self).op is Rst ==> (1 <= old(self).stage <= 6 ==> result is EndCycle
            ),
            old(self).op is Rst ==> (old(self).stage == 7 ==> result is EndInstruction
            ),
            old(self).op is Rst ==> (old(self).stage == 6 ==> final(self).pc == (old(self).pc & 0xFF00)
                | spec_prg_read(old(bus).prg(), old(bus).prg_banks().1, 0xFFFC) as u16
            ),
            old(self).op is Rst ==> (old(self).stage == 7 ==> final(self).pc
                == ((spec_prg_read(old(bus).prg(), old(bus).prg_banks().1, 0xFFFD) as u16) << 8u32)
                | (old(self).pc & 0xFF)
            ),
            old(self).op is Rst ==> (!(1 <= old(self).stage <= 7) ==> result is Error
            ),
            old(self).op is Rst ==> (1 <= old(self).stage <= 5 ==> final(self).pc == old(self).pc
            ),
            old(self).op is Rti ==> (final(bus).prg_banks() == old(bus).prg_banks()
            ),
            old(self).op is Rti ==> (final(bus).oam() == old(bus).oam()
            ),
            old(self).op is Rti ==> (final(bus).oam_addr() == old(bus).oam_addr()
            ),
            old(self).op is Rti ==> (final(self).stage == old(self).stage
            ),
            old(self).op is Rti ==> (final(self).addressing_mode == old(self).addressing_mode
            ),
            old(self).op is Rti ==> (final(self).instruction_type == old(self).instruction_type
            ),
            old(self).op is Rti ==> (final(self).op == old(self).op
            ),
            old(self).op is Rti ==> (final(self).interrupt_type == old(self).interrupt_type
            ),
            old(self).op is Rti ==> (final(self).a == old(self).a && final(self).x == old(self).x && final(self).y == old(self).y
            ),
            old(self).op is Rti ==> (final(bus).ram() == old(bus).ram()
            ),
            old(self).op is Rti ==> (old(self).stage == 2 ==> result is EndCycle && final(self).pc == old(self).pc
                && final(self).sp == old(self).sp && final(self).sr == old(self).sr
            ),
            old(self).op is Rti ==> (old(self).stage == 3 ==> result is EndCycle && final(self).pc == old(self).pc
                && final(self).sp == old(self).sp.wrapping_add(1) && final(self).sr == old(self).sr
            ),
            old(self).op is Rti ==> (old(self).stage == 4 ==> result is EndCycle && final(self).pc == old(self).pc
                && final(self).sp == old(self).sp.wrapping_add(1)
                && final(self).sr == spec_pull_status(spec_ram_read(old(bus).ram(), spec_stack_address(old(self).sp)))
            ),
            old(self).op is Rti ==> (old(self).stage == 5 ==> result is EndCycle
                && final(self).pc == (old(self).pc & 0xFF00) | spec_ram_read(old(bus).ram(), spec_stack_address(old(self).sp)) as u16
                && final(self).sp == old(self).sp.wrapping_add(1) && final(self).sr == old(self).sr
            ),
            old(self).op is Rti ==> (old(self).stage == 6 ==> result is EndInstruction
                && final(self).pc == ((spec_ram_read(old(bus).ram(), spec_stack_address(old(self).sp)) as u16) << 8u32) | (old(self).pc & 0xFF)
                && final(self).sp == old(self).sp && final(self).sr == old(self).sr
            ),
            old(self).op is Rti ==> (!(2 <= old(self).stage <= 6) ==> result is Error
            ),
            old(self).op is Rts ==> (final(bus).prg_banks() == old(bus).prg_banks()
            ),
            old(self).op is Rts ==> (final(bus).oam() == old(bus).oam()
            ),
            old(self).op is Rts ==> (final(bus).oam_addr() == old(bus).oam_addr()
            ),
            old(self).op is Rts ==> (final(self).stage == old(self).stage
            ),
            old(self).op is Rts ==> (final(self).addressing_mode == old(self).addressing_mode
            ),
            old(self).op is Rts ==> (final(self).instruction_type == old(self).instruction_type
            ),
            old(self).op is Rts ==> (final(self).op == old(self).op
            ),
            old(self).op is Rts ==> (final(self).interrupt_type == old(self).interrupt_type
            ),
            old(self).op is Rts ==> (final(self).a == old(self).a && final(self).x == old(self).x && final(self).y == old(self).y
                && final(self).sr == old(self).sr
            ),
            old(self).op is Rts ==> (final(bus).ram() == old(bus).ram()
            ),
            old(self).op is Rts ==> (old(self).stage == 2 ==> result is EndCycle && final(self).pc == old(self).pc
                && final(self).sp == old(self).sp
            ),
            old(self).op is Rts ==> (old(self).stage == 3 ==> result is EndCycle && final(self).pc == old(self).pc
                && final(self).sp == old(self).sp.wrapping_add(1)
            ),
            old(self).op is Rts ==> (old(self).stage == 4 ==> result is EndCycle
                && final(self).pc == (old(self).pc & 0xFF00) | spec_ram_read(old(bus).ram(), spec_stack_address(old(self).sp)) as u16
                && final(self).sp == old(self).sp.wrapping_add(1)
            ),
            old(self).op is Rts ==> (old(self).stage == 5 ==> result is EndCycle
                && final(self).pc == ((spec_ram_read(old(bus).ram(), spec_stack_address(old(self).sp)) as u16) << 8u32) | (old(self).pc & 0xFF)
                && final(self).sp == old(self).sp
            ),
            old(self).op is Rts ==> (old(self).stage == 6 ==> result is EndInstruction
                && final(self).pc == old(self).pc.wrapping_add(1) && final(self).sp == old(self).sp
            ),
            old(self).op is Rts ==> (!(2 <= old(self).stage <= 6) ==> result is Error
            ),
            old(self).op is Sax ==> (result is Error
            ),
            old(self).op is Sax ==> (*final(self) == *old(self)
            ),
            old(self).op is Sax ==> (*final(bus) == *old(bus)
            ),
            old(self).op is Sbc ==> (final(self).stage == old(self).stage
            ),
            old(self).op is Sbc ==> (final(self).addressing_mode == old(self).addressing_mode
            ),
            old(self).op is Sbc ==> (final(self).instruction_type == old(self).instruction_type
            ),
            old(self).op is Sbc ==> (final(self).op == old(self).op
            ),
            old(self).op is Sbc ==> (final(self).interrupt_type == old(self).interrupt_type
            ),
            old(self).op is Sbc ==> (old(self).instruction_type is Read ==> final(bus).ram() == old(bus).ram()
            ),
            old(self).op is Sbc ==> (result is EndInstruction && !(old(self).addressing_mode is Relative) ==> final(self).sr == spec_sbc(old(self).sr, old(self).a, final(self).value).0 && final(self).a == spec_sbc(old(self).sr, old(self).a, final(self).value).1 && final(self).x == old(self).x && final(self).y == old(self).y && final(self).sp == old(self).sp
            ),
            old(self).op is Sbc ==> (!(result is EndInstruction) ==> final(self).a == old(self).a && final(self).sr == old(self).sr && final(self).x == old(self).x && final(self).y == old(self).y && final(self).sp == old(self).sp
            ),
            old(self).op is Sec ==> (result is EndInstruction
            ),
            old(self).op is Sec ==> (*final(self) == (Cpu6502 { sr: spec_set_flag(old(self).sr, 0x01, true), ..*old(self) })
            ),
            old(self).op is Sec ==> (*final(bus) == *old(bus)
            ),
            old(self).op is Sed ==> (result is EndInstruction
            ),
            old(self).op is Sed ==> (*final(self) == (Cpu6502 { sr: spec_set_flag(old(self).sr, 0x08, true), ..*old(self) })
            ),
            old(self).op is Sed ==> (*final(bus) == *old(bus)
            ),
            old(self).op is Sei ==> (result is EndInstruction
            ),
            old(self).op is Sei ==> (*final(self) == (Cpu6502 { sr: spec_set_flag(old(self).sr, 0x04, true), ..*old(self) })
            ),
            old(self).op is Sei ==> (*final(bus) == *old(bus)
            ),
            old(self).op is Shx ==> (result is Error
            ),
            old(self).op is Shx ==> (*final(self) == *old(self)
            ),
            old(self).op is Shx ==> (*final(bus) == *old(bus)
            ),
            old(self).op is Shy ==> (result is Error
            ),
            old(self).op is Shy ==> (*final(self) == *old(self)
            ),
            old(self).op is Shy ==> (*final(bus) == *old(bus)
            ),
            old(self).op is Slo ==> (result is Error
            ),
            old(self).op is Slo ==> (*final(self) == *old(self)
            ),
            old(self).op is Slo ==> (*final(bus) == *old(bus)
            ),
            old(self).op is Sre ==> (result is Error
            ),
            old(self).op is Sre ==> (*final(self) == *old(self)
            ),
            old(self).op is Sre ==> (*final(bus) == *old(bus)
            ),
            old(self).op is Sta ==> (final(self).stage == old(self).stage
            ),
            old(self).op is Sta ==> (final(self).addressing_mode == old(self).addressing_mode
            ),
            old(self).op is Sta ==> (final(self).instruction_type == old(self).instruction_type
            ),
            old(self).op is Sta ==> (final(self).op == old(self).op
            ),
            old(self).op is Sta ==> (final(self).interrupt_type == old(self).interrupt_type
            ),
            old(self).op is Sta ==> (result is EndInstruction && !(old(self).addressing_mode is Relative) ==> final(bus).ram() == spec_ram_write(old(bus).ram(), final(self).address, old(self).a) && final(self).a == old(self).a && final(self).sr == old(self).sr && final(self).x == old(self).x && final(self).y == old(self).y && final(self).sp == old(self).sp
            ),
            old(self).op is Sta ==> (!(result is EndInstruction) ==> final(self).a == old(self).a && final(self).sr == old(self).sr && final(self).x == old(self).x && final(self).y == old(self).y && final(self).sp == old(self).sp
            ),
            old(self).op is Stp ==> (result is Error
            ),
            old(self).op is Stp ==> (*final(self) == *old(self)
            ),
            old(self).op is Stp ==> (*final(bus) == *old(bus)
            ),
            old(self).op is Stx ==> (final(self).stage == old(self).stage
            ),
            old(self).op is Stx ==> (final(self).addressing_mode == old(self).addressing_mode
            ),
            old(self).op is Stx ==> (final(self).instruction_type == old(self).instruction_type
            ),
            old(self).op is Stx ==> (final(self).op == old(self).op
            ),
            old(self).op is Stx ==> (final(self).interrupt_type == old(self).interrupt_type
            ),
            old(self).op is Stx ==> (result is EndInstruction && !(old(self).addressing_mode is Relative) ==> final(bus).ram() == spec_ram_write(old(bus).ram(), final(self).address, old(self).x) && final(self).a == old(self).a && final(self).sr == old(self).sr && final(self).x == old(self).x && final(self).y == old(self).y && final(self).sp == old(self).sp
            ),
            old(self).op is Stx ==> (!(result is EndInstruction) ==> final(self).a == old(self).a && final(self).sr == old(self).sr && final(self).x == old(self).x && final(self).y == old(self).y && final(self).sp == old(self).sp
            ),
            old(self).op is Sty ==> (final(self).stage == old(self).stage
            ),
            old(self).op is Sty ==> (final(self).addressing_mode == old(self).addressing_mode
            ),
            old(self).op is Sty ==> (final(self).instruction_type == old(self).instruction_type
            ),
            old(self).op is Sty ==> (final(self).op == old(self).op
            ),
            old(self).op is Sty ==> (final(self).interrupt_type == old(self).interrupt_type
            ),
            old(self).op is Sty ==> (result is EndInstruction && !(old(self).addressing_mode is Relative) ==> final(bus).ram() == spec_ram_write(old(bus).ram(), final(self).address, old(self).y) && final(self).a == old(self).a && final(self).sr == old(self).sr && final(self).x == old(self).x && final(self).y == old(self).y && final(self).sp == old(self).sp
            ),
            old(self).op is Sty ==> (!(result is EndInstruction) ==> final(self).a == old(self).a && final(self).sr == old(self).sr && final(self).x == old(self).x && final(self).y == old(self).y && final(self).sp == old(self).sp
            ),
            old(self).op is Tas ==> (result is Error
            ),
            old(self).op is Tas ==> (*final(self) == *old(self)
            ),
            old(self).op is Tas ==> (*final(bus) == *old(bus)
            ),
            old(self).op is Tax ==> (result is EndInstruction
            ),
            old(self).op is Tax ==> (*final(self) == (Cpu6502 { x: old(self).a, sr: spec_nz(old(self).sr, old(self).a), ..*old(self) })
            ),
            old(self).op is Tax ==> (*final(bus) == *old(bus)
            ),
            old(self).op is Tay ==> (result is EndInstruction
            ),
            old(self).op is Tay ==> (*final(self) == (Cpu6502 { y: old(self).a, sr: spec_nz(old(self).sr, old(self).a), ..*old(self) })
            ),
            old(self).op is Tay ==> (*final(bus) == *old(bus)
            ),
            old(self).op is Tsx ==> (result is EndInstruction
            ),
            old(self).op is Tsx ==> (*final(self) == (Cpu6502 { x: old(self).sp, sr: spec_nz(old(self).sr, old(self).sp), ..*old(self) })
            ),
            old(self).op is Tsx ==> (*final(bus) == *old(bus)
            ),
            old(self).op is Txa ==> (result is EndInstruction
            ),
            old(self).op is Txa ==> (*final(self) == (Cpu6502 { a: old(self).x, sr: spec_nz(old(self).sr, old(self).x), ..*old(self) })
            ),
            old(self).op is Txa ==> (*final(bus) == *old(bus)
            ),
            old(self).op is Txs ==> (result is EndInstruction
            ),
            old(self).op is Txs ==> (*final(self) == (Cpu6502 { sp: old(self).x, ..*old(self) })
            ),
            old(self).op is Txs ==> (*final(bus) == *old(bus)
            ),
            old(self).op is Tya ==> (result is EndInstruction
            ),
            old(self).op is Tya ==> (*final(self) == (Cpu6502 { a: old(self).y, sr: spec_nz(old(self).sr, old(self).y), ..*old(self) })
            ),
            old(self).op is Tya ==> (*final(bus) == *old(bus)
            ),
            old(self).op is Xaa ==> (result is Error
            ),
            old(self).op is Xaa ==> (*final(self) == *old(self)
            ),
            old(self).op is Xaa ==> (*final(bus) == *old(bus)
            ),
    {
        match self.op {
            Op::Rst => self.rst(bus),
            Op::Rti => self.rti(bus),
            Op::Rts => self.rts(bus),
            Op::Sax => self.sax(bus),
            Op::Sbc => self.sbc(bus),
            Op::Sec => self.sec(bus),
            Op::Sed => self.sed(bus),
            Op::Sei => self.sei(bus),
            Op::Shx => self.shx(bus),
            Op::Shy => self.shy(bus),
            Op::Slo => self.slo(bus),
            Op::Sre => self.sre(bus),
            Op::Sta => self.sta(bus),
            Op::Stp => self.stp(bus),
            Op::Stx => self.stx(bus),
            Op::Sty => self.sty(bus),
            Op::Tas => self.tas(bus),
            Op::Tax => self.tax(bus),
            Op::Tay => self.tay(bus),
            Op::Tsx => self.tsx(bus),
            Op::Txa => self.txa(bus),
            Op::Txs => self.txs(bus),
            Op::Tya => self.tya(bus),
            Op::Xaa => self.xaa(bus),
            _ => CycleResult::Error,
        }
    }

    /// The per-stage frame every addressing sub-cycle obeys.
    fn resolve_addressing<B: BusOps>(&mut self, bus: &mut B) -> (result: CycleResult)
        ensures
            old(bus).inv() ==> final(bus).inv(),
            final(bus).frame_clock() == old(bus).frame_clock(),
            final(bus).frame_pending() == old(bus).frame_pending(),
            final(bus).prg() == old(bus).prg(),
            spec_frame(*old(self), *final(self)),
            spec_at_most_one_store(old(bus).ram(), final(bus).ram()),
            result is EndCycle ==> old(self).stage <= 7,
            result is Continue ==> old(self).stage <= 8,
            result is Continue ==> final(bus).ram() == old(bus).ram(),
            !(old(self).instruction_type is ReadModifyWrite) ==> final(bus).ram() == old(bus).ram(),
            old(self).instruction_type is ReadModifyWrite ==> final(bus).ram() == old(bus).ram()
                || final(bus).ram() == spec_ram_write(old(bus).ram(), old(self).address, old(self).value),
            result is Continue && old(self).instruction_type is ReadModifyWrite
                && spec_rmw_mode(old(self).addressing_mode) ==>
                final(self).value == old(self).value && final(self).address == old(self).address,
            result is EndInstruction ==> old(self).addressing_mode is Relative,
            old(self).addressing_mode is Relative ==> final(self).address == old(self).address,
            old(self).addressing_mode is Relative && old(self).stage == 2 ==> result is Continue
                && final(self).pc == old(self).pc.wrapping_add(1),
            old(self).addressing_mode is Relative && old(self).stage == 3 ==>
                final(self).value == old(self).value
                && (if spec_branch_crossed(old(self).pc, old(self).value) {
                    result is EndCycle && final(self).pc == old(self).pc
                } else {
                    result is EndInstruction
                        && final(self).pc == spec_branch_target(old(self).pc, old(self).value)
                }),
            old(self).addressing_mode is Relative && old(self).stage == 4 ==> result is EndInstruction
                && final(self).pc == spec_branch_target(old(self).pc, old(self).value),
            old(self).addressing_mode is Relative && !(2 <= old(self).stage <= 4) ==> result is Error,
    {
        match self.addressing_mode {
            AddressingMode::Immediate => self.immediate_addressing(bus),
            AddressingMode::Accumulator => self.accumulator_addressing(bus),
            AddressingMode::Absolute => self.absolute_addressing(bus),
            AddressingMode::AbsoluteX => self.absolute_indexed_addressing(bus, self.x),
            AddressingMode::AbsoluteY => self.absolute_indexed_addressing(bus, self.y),
            AddressingMode::AbsoluteIndirect => self.absolute_indirect_addressing(bus),
            AddressingMode::ZeroPage => self.zero_page_addressing(bus),
            AddressingMode::ZeroPageX => self.zero_page_indexed_addressing(bus, self.x),
            AddressingMode::ZeroPageY => self.zero_page_indexed_addressing(bus, self.y),
            AddressingMode::IndirectX => self.indirectx_addressing(bus),
            AddressingMode::IndirectY => self.indirecty_addressing(bus),
            AddressingMode::Relative => self.relative_addressing(bus),
        }
    }

    /// The operand is the byte after the opcode.
    fn immediate_addressing<B: BusOps>(&mut self, bus: &mut B) -> (result: CycleResult)
        ensures
            old(bus).inv() ==> final(bus).inv(),
            final(bus).frame_clock() == old(bus).frame_clock(),
            final(bus).frame_pending() == old(bus).frame_pending(),
            final(bus).prg() == old(bus).prg(),
            spec_frame(*old(self), *final(self)),
            spec_at_most_one_store(old(bus).ram(), final(bus).ram()),
            final(bus).ram() == old(bus).ram(),
            final(self).address == old(self).address,
            old(self).stage == 2 ==> result is Continue
                && final(self).pc == old(self).pc.wrapping_add(1)
                && (old(self).pc < 0x2000 ==> final(self).value == spec_ram_read(old(bus).ram(), old(self).pc)),
            old(self).stage != 2 ==> result is Error
                && final(self).pc == old(self).pc && final(self).value == old(self).value,
    {
        match self.stage {
            2 => {
                self.value = self.read_memory(bus, self.pc);
                self.pc = self.pc.wrapping_add(1);
                CycleResult::Continue
            }
            _ => CycleResult::Error,
        }
    }

    /// The operand is the accumulator; the cycle only burns a dummy fetch.
    fn accumulator_addressing<B: BusOps>(&mut self, bus: &mut B) -> (result: CycleResult)
        ensures
            old(bus).inv() ==> final(bus).inv(),
            final(bus).frame_clock() == old(bus).frame_clock(),
            final(bus).frame_pending() == old(bus).frame_pending(),
            final(bus).prg() == old(bus).prg(),
            spec_frame(*old(self), *final(self)),
            spec_at_most_one_store(old(bus).ram(), final(bus).ram()),
            final(bus).ram() == old(bus).ram(),
            final(self).pc == old(self).pc && final(self).value == old(self).value
                && final(self).address == old(self).address,
            old(self).stage == 2 ==> result is Continue,
            old(self).stage != 2 ==> result is Error,
    {
        match self.stage {
            2 => {
                self.read_memory(bus, self.pc);
                CycleResult::Continue
            }
            _ => CycleResult::Error,
        }
    }

    /// Two operand bytes form the effective address, low byte first.
    fn absolute_addressing<B: BusOps>(&mut self, bus: &mut B) -> (result: CycleResult)
        ensures
            old(bus).inv() ==> final(bus).inv(),
            final(bus).frame_clock() == old(bus).frame_clock(),
            final(bus).frame_pending() == old(bus).frame_pending(),
            final(bus).prg() == old(bus).prg(),
            spec_frame(*old(self), *final(self)),
            spec_at_most_one_store(old(bus).ram(), final(bus).ram()),
            old(self).stage == 2 ==> result is EndCycle
                && final(self).pc == old(self).pc.wrapping_add(1)
                && final(self).value == old(self).value
                && final(bus).ram() == old(bus).ram()
                && (old(self).pc < 0x2000 ==> final(self).address
                    == (old(self).address & 0xFF00) | spec_ram_read(old(bus).ram(), old(self).pc) as u16),
            old(self).stage == 3 ==> final(self).pc == old(self).pc.wrapping_add(1)
                && final(self).value == old(self).value
                && final(bus).ram() == old(bus).ram()
                && (old(self).pc < 0x2000 ==> final(self).address
                    == ((spec_ram_read(old(bus).ram(), old(self).pc) as u16) << 8u32) | (old(self).address & 0xFF))
                && (if old(self).instruction_type is Branching { result is Continue } else { result is EndCycle }),
            old(self).stage == 4 ==> final(self).pc == old(self).pc && final(self).address == old(self).address
                && final(bus).ram() == old(bus).ram()
                && (old(self).instruction_type is Read ==> result is Continue
                    && (old(self).address < 0x2000 ==> final(self).value == spec_ram_read(old(bus).ram(), old(self).address)))
                && (old(self).instruction_type is ReadModifyWrite ==> result is EndCycle
                    && (old(self).address < 0x2000 ==> final(self).value == spec_ram_read(old(bus).ram(), old(self).address)))
                && (old(self).instruction_type is Write ==> result is Continue && final(self).value == old(self).value)
                && (old(self).instruction_type is Branching ==> result is Error && final(self).value == old(self).value),
            old(self).stage == 5 ==> final(self).pc == old(self).pc && final(self).address == old(self).address
                && final(self).value == old(self).value
                && (if old(self).instruction_type is ReadModifyWrite {
                    result is EndCycle
                        && final(bus).ram() == spec_ram_write(old(bus).ram(), old(self).address, old(self).value)
                } else {
                    result is Error && final(bus).ram() == old(bus).ram()
                }),
            old(self).stage == 6 ==> final(self).pc == old(self).pc && final(self).address == old(self).address
                && final(self).value == old(self).value && final(bus).ram() == old(bus).ram()
                && (if old(self).instruction_type is ReadModifyWrite { result is Continue } else { result is Error }),
            !(2 <= old(self).stage <= 6) ==> result is Error && final(self).pc == old(self).pc
                && final(self).address == old(self).address && final(self).value == old(self).value
                && final(bus).ram() == old(bus).ram(),
    {
        match self.stage {
            2 => {
                let address_high = self.address & 0xFF00;
                let address_low = self.read_memory(bus, self.pc) as u16;
                self.address = address_high | address_low;
                self.pc = self.pc.wrapping_add(1);
                return CycleResult::EndCycle;
            }
            3 => {
                let address_high = (self.read_memory(bus, self.pc) as u16) << 8u32;
                let address_low = self.address & 0xFF;
                self.address = address_high | address_low;
                self.pc = self.pc.wrapping_add(1);
                match self.instruction_type {
                    InstructionType::Branching => CycleResult::Continue,
                    _ => CycleResult::EndCycle,
                }
            }
            4 => match self.instruction_type {
                InstructionType::Read => {
                    self.value = self.read_memory(bus, self.address);
                    CycleResult::Continue
                }
                InstructionType::ReadModifyWrite => {
                    self.value = self.read_memory(bus, self.address);
                    CycleResult::EndCycle
                }
                InstructionType::Write => CycleResult::Continue,
                _ => CycleResult::Error,
            },
            5 => match self.instruction_type {
                InstructionType::ReadModifyWrite => {
                    self.write_memory(bus, self.address, self.value);
                    CycleResult::EndCycle
                }
                _ => CycleResult::Error,
            },
            6 => match self.instruction_type {
                InstructionType::ReadModifyWrite => CycleResult::Continue,
                _ => CycleResult::Error,
            },
            _ => CycleResult::Error,
        }
    }

    /// JMP (addr): the pointer's second byte comes from the same page as
    /// the first; the low byte wraps rather than carrying.
    fn absolute_indirect_addressing<B: BusOps>(&mut self, bus: &mut B) -> (result: CycleResult)
        ensures
            old(bus).inv() ==> final(bus).inv(),
            final(bus).frame_clock() == old(bus).frame_clock(),
            final(bus).frame_pending() == old(bus).frame_pending(),
            final(bus).prg() == old(bus).prg(),
            spec_frame(*old(self), *final(self)),
            spec_at_most_one_store(old(bus).ram(), final(bus).ram()),
            final(bus).ram() == old(bus).ram(),
            old(self).stage == 2 ==> result is EndCycle
                && final(self).pc == old(self).pc.wrapping_add(1)
                && final(self).value == old(self).value
                && (old(self).pc < 0x2000 ==> final(self).address
                    == (old(self).address & 0xFF00) | spec_ram_read(old(bus).ram(), old(self).pc) as u16),
            old(self).stage == 3 ==> result is EndCycle
                && final(self).pc == old(self).pc.wrapping_add(1)
                && final(self).value == old(self).value
                && (old(self).pc < 0x2000 ==> final(self).address
                    == ((spec_ram_read(old(bus).ram(), old(self).pc) as u16) << 8u32) | (old(self).address & 0xFF)),
            old(self).stage == 4 ==> result is EndCycle
                && final(self).pc == old(self).pc && final(self).address == old(self).address
                && (old(self).address < 0x2000 ==> final(self).value == spec_ram_read(old(bus).ram(), old(self).address)),
            old(self).stage == 5 ==> result is Continue
                && final(self).pc == old(self).pc && final(self).value == old(self).value
                && ({
                    let pointer = (old(self).address & 0xFF00) | (old(self).address.wrapping_add(1) & 0xFF);
                    pointer < 0x2000 ==> final(self).address
                        == ((spec_ram_read(old(bus).ram(), pointer) as u16) << 8u32) | old(self).value as u16
                }),
            !(2 <= old(self).stage <= 5) ==> result is Error && final(self).pc == old(self).pc
                && final(self).address == old(self).address && final(self).value == old(self).value,
    {
        match self.stage {
            2 => {
                let address_high = self.address & 0xFF00;
                let address_low = self.read_memory(bus, self.pc) as u16;
                self.address = address_high | address_low;
                self.pc = self.pc.wrapping_add(1);
                CycleResult::EndCycle
            }
            3 => {
                let address_high = (self.read_memory(bus, self.pc) as u16) << 8u32;
                let address_low = self.address & 0xFF;
                self.address = address_high | address_low;
                self.pc = self.pc.wrapping_add(1);
                CycleResult::EndCycle
            }
            4 => {
                // Fetch the target's low byte into the value latch.
                self.value = self.read_memory(bus, self.address);
                CycleResult::EndCycle
            }
            5 => {
                let address_high = self.address & 0xFF00;
                let address_low = self.address.wrapping_add(1) & 0xFF;
                self.address = address_high | address_low;

                let new_address_high = (self.read_memory(bus, self.address) as u16) << 8u32;
                self.address = new_address_high | self.value as u16;
                CycleResult::Continue
            }
            _ => return CycleResult::Error,
        }
    }

    /// Absolute plus X or Y. Reads that stay in the page skip the fix-up
    /// cycle; writes and read-modify-writes always take it.
    fn absolute_indexed_addressing<B: BusOps>(&mut self, bus: &mut B, index: u8) -> (result: CycleResult)
        ensures
            old(bus).inv() ==> final(bus).inv(),
            final(bus).frame_clock() == old(bus).frame_clock(),
            final(bus).frame_pending() == old(bus).frame_pending(),
            final(bus).prg() == old(bus).prg(),
            spec_frame(*old(self), *final(self)),
            spec_at_most_one_store(old(bus).ram(), final(bus).ram()),
            old(self).stage == 2 ==> result is EndCycle
                && final(self).pc == old(self).pc.wrapping_add(1)
                && final(self).value == old(self).value
                && final(bus).ram() == old(bus).ram()
                && (old(self).pc < 0x2000 ==> final(self).address
                    == (old(self).address & 0xFF00) | spec_ram_read(old(bus).ram(), old(self).pc) as u16),
            old(self).stage == 3 ==> result is EndCycle
                && final(self).pc == old(self).pc.wrapping_add(1)
                && final(self).value == old(self).value
                && final(bus).ram() == old(bus).ram()
                && (old(self).pc < 0x2000 ==> final(self).address
                    == ((spec_ram_read(old(bus).ram(), old(self).pc) as u16) << 8u32) | (old(self).address & 0xFF)),
            old(self).stage == 4 ==> final(self).pc == old(self).pc
                && final(self).address == old(self).address.wrapping_add(index as u16)
                && final(bus).ram() == old(bus).ram()
                && (result is Continue <==> old(self).instruction_type is Read
                    && (old(self).address % 0x100) + index <= 0xFF)
                && (!(result is Continue) ==> result is EndCycle)
                && ({
                    let dummy = (old(self).address & 0xFF00) | (old(self).address.wrapping_add(index as u16) & 0xFF);
                    dummy < 0x2000 ==> final(self).value == spec_ram_read(old(bus).ram(), dummy)
                }),
            old(self).stage == 5 ==> final(self).pc == old(self).pc && final(self).address == old(self).address
                && final(bus).ram() == old(bus).ram()
                && (old(self).instruction_type is Read ==> result is Continue
                    && (old(self).address < 0x2000 ==> final(self).value == spec_ram_read(old(bus).ram(), old(self).address)))
                && (old(self).instruction_type is ReadModifyWrite ==> result is EndCycle
                    && (old(self).address < 0x2000 ==> final(self).value == spec_ram_read(old(bus).ram(), old(self).address)))
                && (old(self).instruction_type is Write ==> result is Continue && final(self).value == old(self).value)
                && (old(self).instruction_type is Branching ==> result is Error && final(self).value == old(self).value),
            old(self).stage == 6 ==> final(self).pc == old(self).pc && final(self).address == old(self).address
                && final(self).value == old(self).value
                && (if old(self).instruction_type is ReadModifyWrite {
                    result is EndCycle
                        && final(bus).ram() == spec_ram_write(old(bus).ram(), old(self).address, old(self).value)
                } else {
                    result is Error && final(bus).ram() == old(bus).ram()
                }),
            old(self).stage == 7 ==> final(self).pc == old(self).pc && final(self).address == old(self).address
                && final(self).value == old(self).value && final(bus).ram() == old(bus).ram()
                && (if old(self).instruction_type is ReadModifyWrite { result is Continue } else { result is Error }),
            !(2 <= old(self).stage <= 7) ==> result is Error && final(self).pc == old(self).pc
                && final(self).address == old(self).address && final(self).value == old(self).value
                && final(bus).ram() == old(bus).ram(),
    {
        match self.stage {
            2 => {
                let address_high = self.address & 0xFF00;
                let address_low = self.read_memory(bus, self.pc) as u16;
                self.address = address_high | address_low;
                self.pc = self.pc.wrapping_add(1);
                CycleResult::EndCycle
            }
            3 => {
                let address_high = (self.read_memory(bus, self.pc) as u16) << 8u32;
                let address_low = self.address & 0xFF;
                self.address = address_high | address_low;
                self.pc = self.pc.wrapping_add(1);
                CycleResult::EndCycle
            }
            4 => {
                let address_high = self.address & 0xFF00;
                let address_low = self.address.wrapping_add(index as u16) & 0xFF;
                let address = address_high | address_low;
                self.value = self.read_memory(bus, address);

                if let InstructionType::Read = self.instruction_type {
                    // No page boundary crossed: the speculative read was right.
                    if (self.address % 0x100) + index as u16 <= 0xFF {
                        self.address = self.address.wrapping_add(index as u16);
                        return CycleResult::Continue;
                    }
                }

                self.address = self.address.wrapping_add(index as u16);
                CycleResult::EndCycle
            }
            5 => {
                match self.instruction_type {
                    InstructionType::Read => {
                        // Arrives here only when the boundary was crossed.
                        self.value = self.read_memory(bus, self.address);
                        CycleResult::Continue
                    }
                    InstructionType::ReadModifyWrite => {
                        self.value = self.read_memory(bus, self.address);
                        CycleResult::EndCycle
                    }
                    InstructionType::Write => CycleResult::Continue,
                    _ => CycleResult::Error,
                }
            }
            6 => match self.instruction_type {
                InstructionType::ReadModifyWrite => {
                    self.write_memory(bus, self.address, self.value);
                    CycleResult::EndCycle
                }
                _ => CycleResult::Error,
            },
            7 => match self.instruction_type {
                InstructionType::ReadModifyWrite => {
                    return CycleResult::Continue;
                }
                _ => CycleResult::Error,
            },
            _ => CycleResult::Error,
        }
    }

    /// One operand byte addresses page zero.
    fn zero_page_addressing<B: BusOps>(&mut self, bus: &mut B) -> (result: CycleResult)
        ensures
            old(bus).inv() ==> final(bus).inv(),
            final(bus).frame_clock() == old(bus).frame_clock(),
            final(bus).frame_pending() == old(bus).frame_pending(),
            final(bus).prg() == old(bus).prg(),
            spec_frame(*old(self), *final(self)),
            spec_at_most_one_store(old(bus).ram(), final(bus).ram()),
            old(self).stage == 2 ==> result is EndCycle
                && final(self).pc == old(self).pc.wrapping_add(1)
                && final(self).value == old(self).value
                && final(self).address <= 0xFF
                && final(bus).ram() == old(bus).ram()
                && (old(self).pc < 0x2000 ==> final(self).address == spec_ram_read(old(bus).ram(), old(self).pc) as u16),
            old(self).stage == 3 ==> final(self).pc == old(self).pc && final(self).address == old(self).address
                && final(bus).ram() == old(bus).ram()
                && (old(self).instruction_type is Read ==> result is Continue
                    && (old(self).address < 0x2000 ==> final(self).value == spec_ram_read(old(bus).ram(), old(self).address)))
                && (old(self).instruction_type is ReadModifyWrite ==> result is EndCycle
                    && (old(self).address < 0x2000 ==> final(self).value == spec_ram_read(old(bus).ram(), old(self).address)))
                && (old(self).instruction_type is Write ==> result is Continue && final(self).value == old(self).value)
                && (old(self).instruction_type is Branching ==> result is Error && final(self).value == old(self).value),
            old(self).stage == 4 ==> final(self).pc == old(self).pc && final(self).address == old(self).address
                && final(self).value == old(self).value
                && (if old(self).instruction_type is ReadModifyWrite {
                    result is EndCycle
                        && final(bus).ram() == spec_ram_write(old(bus).ram(), old(self).address, old(self).value)
                } else {
                    result is Error && final(bus).ram() == old(bus).ram()
                }),
            old(self).stage == 5 ==> final(self).pc == old(self).pc && final(self).address == old(self).address
                && final(self).value == old(self).value && final(bus).ram() == old(bus).ram()
                && (if old(self).instruction_type is ReadModifyWrite { result is Continue } else { result is Error }),
            !(2 <= old(self).stage <= 5) ==> result is Error && final(self).pc == old(self).pc
                && final(self).address == old(self).address && final(self).value == old(self).value
                && final(bus).ram() == old(bus).ram(),
    {
        match self.stage {
            2 => {
                self.address = self.read_memory(bus, self.pc) as u16;
                self.pc = self.pc.wrapping_add(1);
                CycleResult::EndCycle
            }
            3 => match self.instruction_type {
                InstructionType::Read => {
                    self.value = self.read_memory(bus, self.address);
                    CycleResult::Continue
                }
                InstructionType::ReadModifyWrite => {
                    self.value = self.read_memory(bus, self.address);
                    CycleResult::EndCycle
                }
                InstructionType::Write => CycleResult::Continue,
                _ => CycleResult::Error,
            },
            4 => match self.instruction_type {
                InstructionType::ReadModifyWrite => {
                    self.write_memory(bus, self.address, self.value);
                    return CycleResult::EndCycle;
                }
                _ => CycleResult::Error,
            },
            5 => match self.instruction_type {
                InstructionType::ReadModifyWrite => CycleResult::Continue,
                _ => CycleResult::Error,
            },
            _ => CycleResult::Error,
        }
    }

    /// Page-zero base plus X or Y; the sum wraps inside page zero.
    fn zero_page_indexed_addressing<B: BusOps>(&mut self, bus: &mut B, index: u8) -> (result: CycleResult)
        ensures
            old(bus).inv() ==> final(bus).inv(),
            final(bus).frame_clock() == old(bus).frame_clock(),
            final(bus).frame_pending() == old(bus).frame_pending(),
            final(bus).prg() == old(bus).prg(),
            spec_frame(*old(self), *final(self)),
            spec_at_most_one_store(old(bus).ram(), final(bus).ram()),
            old(self).stage == 2 ==> result is EndCycle
                && final(self).pc == old(self).pc.wrapping_add(1)
                && final(self).value == old(self).value
                && final(self).address <= 0xFF
                && final(bus).ram() == old(bus).ram()
                && (old(self).pc < 0x2000 ==> final(self).address == spec_ram_read(old(bus).ram(), old(self).pc) as u16),
            old(self).stage == 3 ==> result is EndCycle
                && final(self).pc == old(self).pc
                && final(self).address == old(self).address.wrapping_add(index as u16) & 0xFF
                && final(bus).ram() == old(bus).ram()
                && (old(self).address < 0x2000 ==> final(self).value == spec_ram_read(old(bus).ram(), old(self).address)),
            old(self).stage == 4 ==> final(self).pc == old(self).pc && final(self).address == old(self).address
                && final(bus).ram() == old(bus).ram()
                && (old(self).instruction_type is Read ==> result is Continue
                    && (old(self).address < 0x2000 ==> final(self).value == spec_ram_read(old(bus).ram(), old(self).address)))
                && (old(self).instruction_type is ReadModifyWrite ==> result is EndCycle
                    && (old(self).address < 0x2000 ==> final(self).value == spec_ram_read(old(bus).ram(), old(self).address)))
                && (old(self).instruction_type is Write ==> result is Continue && final(self).value == old(self).value)
                && (old(self).instruction_type is Branching ==> result is Error && final(self).value == old(self).value),
            old(self).stage == 5 ==> final(self).pc == old(self).pc && final(self).address == old(self).address
                && final(self).value == old(self).value
                && (if old(self).instruction_type is ReadModifyWrite {
                    result is EndCycle
                        && final(bus).ram() == spec_ram_write(old(bus).ram(), old(self).address, old(self).value)
                } else {
                    result is Error && final(bus).ram() == old(bus).ram()
                }),
            old(self).stage == 6 ==> final(self).pc == old(self).pc && final(self).address == old(self).address
                && final(self).value == old(self).value && final(bus).ram() == old(bus).ram()
                && (if old(self).instruction_type is ReadModifyWrite { result is Continue } else { result is Error }),
            !(2 <= old(self).stage <= 6) ==> result is Error && final(self).pc == old(self).pc
                && final(self).address == old(self).address && final(self).value == old(self).value
                && final(bus).ram() == old(bus).ram(),
    {
        match self.stage {
            2 => {
                self.address = self.read_memory(bus, self.pc) as u16;
                self.pc = self.pc.wrapping_add(1);
                CycleResult::EndCycle
            }
            3 => {
                self.value = self.read_memory(bus, self.address);
                self.address = self.address.wrapping_add(index as u16) & 0xFF;
                CycleResult::EndCycle
            }
            4 => match self.instruction_type {
                InstructionType::Read => {
                    self.value = self.read_memory(bus, self.address);
                    CycleResult::Continue
                }
                InstructionType::ReadModifyWrite => {
                    self.value = self.read_memory(bus, self.address);
                    CycleResult::EndCycle
                }
                InstructionType::Write => CycleResult::Continue,
                _ => CycleResult::Error,
            },
            5 => match self.instruction_type {
                InstructionType::ReadModifyWrite => {
                    self.write_memory(bus, self.address, self.value);
                    return CycleResult::EndCycle;
                }
                _ => CycleResult::Error,
            },
            6 => match self.instruction_type {
                InstructionType::ReadModifyWrite => CycleResult::Continue,
                _ => CycleResult::Error,
            },
            _ => CycleResult::Error,
        }
    }

    /// Branch operand fetch and program-counter update: a taken branch costs
    /// one extra sub-cycle, and one more when it leaves the page.
    fn relative_addressing<B: BusOps>(&mut self, bus: &mut B) -> (result: CycleResult)
        ensures
            old(bus).inv() ==> final(bus).inv(),
            final(bus).frame_clock() == old(bus).frame_clock(),
            final(bus).frame_pending() == old(bus).frame_pending(),
            final(bus).prg() == old(bus).prg(),
            spec_frame(*old(self), *final(self)),
            spec_at_most_one_store(old(bus).ram(), final(bus).ram()),
            final(bus).ram() == old(bus).ram(),
            final(self).address == old(self).address,
            old(self).stage == 2 ==> result is Continue
                && final(self).pc == old(self).pc.wrapping_add(1)
                && (old(self).pc < 0x2000 ==> final(self).value == spec_ram_read(old(bus).ram(), old(self).pc)),
            old(self).stage == 3 ==> final(self).value == old(self).value
                && (if spec_branch_crossed(old(self).pc, old(self).value) {
                    result is EndCycle && final(self).pc == old(self).pc
                } else {
                    result is EndInstruction
                        && final(self).pc == spec_branch_target(old(self).pc, old(self).value)
                }),
            old(self).stage == 4 ==> result is EndInstruction
                && final(self).value == old(self).value
                && final(self).pc == spec_branch_target(old(self).pc, old(self).value),
            !(2 <= old(self).stage <= 4) ==> result is Error
                && final(self).pc == old(self).pc && final(self).value == old(self).value,
    {
        match self.stage {
            2 => {
                self.value = self.read_memory(bus, self.pc);
                self.pc = self.pc.wrapping_add(1);
                CycleResult::Continue
            }
            3 => {
                let offset: u16 = if self.value >= 0x80 { 0xFF00 + self.value as u16 } else { self.value as u16 };
                let relative_address = self.pc.wrapping_add(offset);
                let old_address_high = self.pc & 0xFF00;
                let new_address_high = relative_address & 0xFF00;
                if old_address_high != new_address_high {
                    // Boundary crossed: one more sub-cycle before the jump.
                    return CycleResult::EndCycle;
                }

                self.pc = relative_address;
                CycleResult::EndInstruction
            }
            4 => {
                let offset: u16 = if self.value >= 0x80 { 0xFF00 + self.value as u16 } else { self.value as u16 };
                let relative_address = self.pc.wrapping_add(offset);

                self.pc = relative_address;
                CycleResult::EndInstruction
            }
            _ => CycleResult::Error,
        }
    }

    /// (zp,X): the zero-page pointer is indexed by X, wrapping in page zero,
    /// and names a two-byte effective address.
    fn indirectx_addressing<B: BusOps>(&mut self, bus: &mut B) -> (result: CycleResult)
        ensures
            old(bus).inv() ==> final(bus).inv(),
            final(bus).frame_clock() == old(bus).frame_clock(),
            final(bus).frame_pending() == old(bus).frame_pending(),
            final(bus).prg() == old(bus).prg(),
            spec_frame(*old(self), *final(self)),
            spec_at_most_one_store(old(bus).ram(), final(bus).ram()),
            old(self).stage == 2 ==> result is EndCycle
                && final(self).pc == old(self).pc.wrapping_add(1)
                && final(self).value == old(self).value
                && final(self).address <= 0xFF
                && final(bus).ram() == old(bus).ram()
                && (old(self).pc < 0x2000 ==> final(self).address == spec_ram_read(old(bus).ram(), old(self).pc) as u16),
            old(self).stage == 3 ==> result is EndCycle
                && final(self).pc == old(self).pc && final(self).value == old(self).value
                && final(self).address == old(self).address.wrapping_add(old(self).x as u16) & 0xFF
                && final(bus).ram() == old(bus).ram(),
            old(self).stage == 4 ==> result is EndCycle
                && final(self).pc == old(self).pc && final(self).address == old(self).address
                && final(bus).ram() == old(bus).ram()
                && (old(self).address < 0x2000 ==> final(self).value == spec_ram_read(old(bus).ram(), old(self).address)),
            old(self).stage == 5 ==> result is EndCycle
                && final(self).pc == old(self).pc && final(self).value == old(self).value
                && final(bus).ram() == old(bus).ram()
                && ({
                    let pointer = old(self).address.wrapping_add(1) & 0xFF;
                    pointer < 0x2000 ==> final(self).address
                        == ((spec_ram_read(old(bus).ram(), pointer) as u16) << 8u32) | old(self).value as u16
                }),
            old(self).stage == 6 ==> final(self).pc == old(self).pc && final(self).address == old(self).address
                && final(bus).ram() == old(bus).ram()
                && (old(self).instruction_type is Read ==> result is Continue
                    && (old(self).address < 0x2000 ==> final(self).value == spec_ram_read(old(bus).ram(), old(self).address)))
                && (old(self).instruction_type is ReadModifyWrite ==> result is EndCycle
                    && (old(self).address < 0x2000 ==> final(self).value == spec_ram_read(old(bus).ram(), old(self).address)))
                && (old(self).instruction_type is Write ==> result is Continue && final(self).value == old(self).value)
                && (old(self).instruction_type is Branching ==> result is Error && final(self).value == old(self).value),
            old(self).stage == 7 ==> final(self).pc == old(self).pc && final(self).address == old(self).address
                && final(self).value == old(self).value
                && (if old(self).instruction_type is ReadModifyWrite {
                    result is EndCycle
                        && final(bus).ram() == spec_ram_write(old(bus).ram(), old(self).address, old(self).value)
                } else {
                    result is Error && final(bus).ram() == old(bus).ram()
                }),
            old(self).stage == 8 ==> final(self).pc == old(self).pc && final(self).address == old(self).address
                && final(self).value == old(self).value && final(bus).ram() == old(bus).ram()
                && (if old(self).instruction_type is ReadModifyWrite { result is Continue } else { result is Error }),
            !(2 <= old(self).stage <= 8) ==> result is Error && final(self).pc == old(self).pc
                && final(self).address == old(self).address && final(self).value == old(self).value
                && final(bus).ram() == old(bus).ram(),
    {
        match self.stage {
            2 => {
                self.address = self.read_memory(bus, self.pc) as u16;
                self.pc = self.pc.wrapping_add(1);
                CycleResult::EndCycle
            }
            3 => {
                self.read_memory(bus, self.address);
                self.address = self.address.wrapping_add(self.x as u16) & 0xFF;
                CycleResult::EndCycle
            }
            4 => {
                // Fetch the effective address's low byte.
                self.value = self.read_memory(bus, self.address);
                CycleResult::EndCycle
            }
            5 => {
                let next_address = self.address.wrapping_add(1) & 0xFF;
                let new_address_high = (self.read_memory(bus, next_address) as u16) << 8u32;

                self.address = new_address_high | self.value as u16;
                CycleResult::EndCycle
            }
            6 => match self.instruction_type {
                InstructionType::Read => {
                    self.value = self.read_memory(bus, self.address);
                    CycleResult::Continue
                }
                InstructionType::ReadModifyWrite => {
                    self.value = self.read_memory(bus, self.address);
                    CycleResult::EndCycle
                }
                InstructionType::Write => CycleResult::Continue,
                _ => CycleResult::Error,
            },
            7 => match self.instruction_type {
                InstructionType::ReadModifyWrite => {
                    self.write_memory(bus, self.address, self.value);
                    CycleResult::EndCycle
                }
                _ => CycleResult::Error,
            },
            8 => match self.instruction_type {
                InstructionType::ReadModifyWrite => CycleResult::Continue,
                _ => CycleResult::Error,
            },
            _ => CycleResult::Error,
        }
    }

    /// (zp),Y: a zero-page pointer names a base that Y then indexes; reads
    /// that stay in the page skip the fix-up cycle.
    fn indirecty_addressing<B: BusOps>(&mut self, bus: &mut B) -> (result: CycleResult)
        ensures
            old(bus).inv() ==> final(bus).inv(),
            final(bus).frame_clock() == old(bus).frame_clock(),
            final(bus).frame_pending() == old(bus).frame_pending(),
            final(bus).prg() == old(bus).prg(),
            spec_frame(*old(self), *final(self)),
            spec_at_most_one_store(old(bus).ram(), final(bus).ram()),
            old(self).stage == 2 ==> result is EndCycle
                && final(self).pc == old(self).pc.wrapping_add(1)
                && final(self).value == old(self).value
                && final(self).address <= 0xFF
                && final(bus).ram() == old(bus).ram()
                && (old(self).pc < 0x2000 ==> final(self).address == spec_ram_read(old(bus).ram(), old(self).pc) as u16),
            old(self).stage == 3 ==> result is EndCycle
                && final(self).pc == old(self).pc && final(self).address == old(self).address
                && final(bus).ram() == old(bus).ram()
                && (old(self).address < 0x2000 ==> final(self).value == spec_ram_read(old(bus).ram(), old(self).address)),
            old(self).stage == 4 ==> result is EndCycle
                && final(self).pc == old(self).pc && final(self).value == old(self).value
                && final(bus).ram() == old(bus).ram()
                && ({
                    let pointer = old(self).address.wrapping_add(1) & 0xFF;
                    pointer < 0x2000 ==> final(self).address
                        == ((spec_ram_read(old(bus).ram(), pointer) as u16) << 8u32) | old(self).value as u16
                }),
            old(self).stage == 5 ==> final(self).pc == old(self).pc
                && final(self).address == old(self).address.wrapping_add(old(self).y as u16)
                && final(bus).ram() == old(bus).ram()
                && (result is Continue <==> old(self).instruction_type is Read
                    && (old(self).address % 0x100) + old(self).y <= 0xFF)
                && (!(result is Continue) ==> result is EndCycle)
                && ({
                    let dummy = (old(self).address & 0xFF00) | (old(self).address.wrapping_add(old(self).y as u16) & 0xFF);
                    dummy < 0x2000 ==> final(self).value == spec_ram_read(old(bus).ram(), dummy)
                }),
            old(self).stage == 6 ==> final(self).pc == old(self).pc && final(self).address == old(self).address
                && final(bus).ram() == old(bus).ram()
                && (old(self).instruction_type is Read ==> result is Continue
                    && (old(self).address < 0x2000 ==> final(self).value == spec_ram_read(old(bus).ram(), old(self).address)))
                && (old(self).instruction_type is ReadModifyWrite ==> result is EndCycle
                    && (old(self).address < 0x2000 ==> final(self).value == spec_ram_read(old(bus).ram(), old(self).address)))
                && (old(self).instruction_type is Write ==> result is Continue && final(self).value == old(self).value)
                && (old(self).instruction_type is Branching ==> result is Error && final(self).value == old(self).value),
            old(self).stage == 7 ==> final(self).pc == old(self).pc && final(self).address == old(self).address
                && final(self).value == old(self).value
                && (if old(self).instruction_type is ReadModifyWrite {
                    result is EndCycle
                        && final(bus).ram() == spec_ram_write(old(bus).ram(), old(self).address, old(self).value)
                } else {
                    result is Error && final(bus).ram() == old(bus).ram()
                }),
            old(self).stage == 8 ==> final(self).pc == old(self).pc && final(self).address == old(self).address
                && final(self).value == old(self).value && final(bus).ram() == old(bus).ram()
                && (if old(self).instruction_type is ReadModifyWrite { result is Continue } else { result is Error }),
            !(2 <= old(self).stage <= 8) ==> result is Error && final(self).pc == old(self).pc
                && final(self).address == old(self).address && final(self).value == old(self).value
                && final(bus).ram() == old(bus).ram(),
    {
        match self.stage {
            2 => {
                self.address = self.read_memory(bus, self.pc) as u16;
                self.pc = self.pc.wrapping_add(1);
                CycleResult::EndCycle
            }
            3 => {
                // Fetch the effective address's low byte.
                self.value = self.read_memory(bus, self.address);
                CycleResult::EndCycle
            }
            4 => {
                let next_address = self.address.wrapping_add(1) & 0xFF;
                let new_address_high = (self.read_memory(bus, next_address) as u16) << 8u32;

                self.address = new_address_high | self.value as u16;
                return CycleResult::EndCycle;
            }
            5 => {
                let address_high = self.address & 0xFF00;
                let address_low = self.address.wrapping_add(self.y as u16) & 0xFF;
                let address = address_high | address_low;

                self.value = self.read_memory(bus, address);

                let new_address = self.address.wrapping_add(self.y as u16);

                if let InstructionType::Read = self.instruction_type {
                    // No page boundary crossed: the speculative read was right.
                    if (self.address % 0x100) + self.y as u16 <= 0xFF {
                        self.address = new_address;
                        return CycleResult::Continue;
                    }
                }

                self.address = new_address;
                return CycleResult::EndCycle;
            }
            6 => {
                match self.instruction_type {
                    InstructionType::Read => {
                        // Arrives here only when the boundary was crossed.
                        self.value = self.read_memory(bus, self.address);
                        CycleResult::Continue
                    }
                    InstructionType::ReadModifyWrite => {
                        self.value = self.read_memory(bus, self.address);
                        CycleResult::EndCycle
                    }
                    InstructionType::Write => CycleResult::Continue,
                    _ => CycleResult::Error,
                }
            }
            7 => match self.instruction_type {
                InstructionType::ReadModifyWrite => {
                    self.write_memory(bus, self.address, self.value);
                    CycleResult::EndCycle
                }
                _ => CycleResult::Error,
            },
            8 => match self.instruction_type {
                InstructionType::ReadModifyWrite => CycleResult::Continue,
                _ => CycleResult::Error,
            },
            _ => CycleResult::Error,
        }
    }

    /// CLC: clear carry.
    fn clc<B: BusOps>(&mut self, bus: &mut B) -> (result: CycleResult)
        ensures
            old(bus).inv() ==> final(bus).inv(),
            final(bus).frame_clock() == old(bus).frame_clock(),
            final(bus).frame_pending() == old(bus).frame_pending(),
            final(bus).prg() == old(bus).prg(),
            result is EndInstruction,
            *final(self) == (Cpu6502 { sr: spec_set_flag(old(self).sr, 0x01, false), ..*old(self) }),
            *final(bus) == *old(bus),
    {
        self.set_flag(Flags::Carry, false);
        CycleResult::EndInstruction
    }

    /// CLD: clear decimal mode (stored, never honoured).
    fn cld<B: BusOps>(&mut self, bus: &mut B) -> (result: CycleResult)
        ensures
            old(bus).inv() ==> final(bus).inv(),
            final(bus).frame_clock() == old(bus).frame_clock(),
            final(bus).frame_pending() == old(bus).frame_pending(),
            final(bus).prg() == old(bus).prg(),
            result is EndInstruction,
            *final(self) == (Cpu6502 { sr: spec_set_flag(old(self).sr, 0x08, false), ..*old(self) }),
            *final(bus) == *old(bus),
    {
        self.set_flag(Flags::Decimal, false);
        CycleResult::EndInstruction
    }

    /// CLI: clear interrupt disable.
    fn cli<B: BusOps>(&mut self, bus: &mut B) -> (result: CycleResult)
        ensures
            old(bus).inv() ==> final(bus).inv(),
            final(bus).frame_clock() == old(bus).frame_clock(),
            final(bus).frame_pending() == old(bus).frame_pending(),
            final(bus).prg() == old(bus).prg(),
            result is EndInstruction,
            *final(self) == (Cpu6502 { sr: spec_set_flag(old(self).sr, 0x04, false), ..*old(self) }),
            *final(bus) == *old(bus),
    {
        self.set_flag(Flags::InterruptDisable, false);
        CycleResult::EndInstruction
    }

    /// CLV: clear overflow.
    fn clv<B: BusOps>(&mut self, bus: &mut B) -> (result: CycleResult)
        ensures
            old(bus).inv() ==> final(bus).inv(),
            final(bus).frame_clock() == old(bus).frame_clock(),
            final(bus).frame_pending() == old(bus).frame_pending(),
            final(bus).prg() == old(bus).prg(),
            result is EndInstruction,
            *final(self) == (Cpu6502 { sr: spec_set_flag(old(self).sr, 0x40, false), ..*old(self) }),
            *final(bus) == *old(bus),
    {
        self.set_flag(Flags::Overflow, false);
        CycleResult::EndInstruction
    }

    /// SEC: set carry.
    fn sec<B: BusOps>(&mut self, bus: &mut B) -> (result: CycleResult)
        ensures
            old(bus).inv() ==> final(bus).inv(),
            final(bus).frame_clock() == old(bus).frame_clock(),
            final(bus).frame_pending() == old(bus).frame_pending(),
            final(bus).prg() == old(bus).prg(),
            result is EndInstruction,
            *final(self) == (Cpu6502 { sr: spec_set_flag(old(self).sr, 0x01, true), ..*old(self) }),
            *final(bus) == *old(bus),
    {
        self.set_flag(Flags::Carry, true);
        CycleResult::EndInstruction
    }

    /// SED: set decimal mode (stored, never honoured).
    fn sed<B: BusOps>(&mut self, bus: &mut B) -> (result: CycleResult)
        ensures
            old(bus).inv() ==> final(bus).inv(),
            final(bus).frame_clock() == old(bus).frame_clock(),
            final(bus).frame_pending() == old(bus).frame_pending(),
            final(bus).prg() == old(bus).prg(),
            result is EndInstruction,
            *final(self) == (Cpu6502 { sr: spec_set_flag(old(self).sr, 0x08, true), ..*old(self) }),
            *final(bus) == *old(bus),
    {
        self.set_flag(Flags::Decimal, true);
        CycleResult::EndInstruction
    }

    /// SEI: set interrupt disable.
    fn sei<B: BusOps>(&mut self, bus: &mut B) -> (result: CycleResult)
        ensures
            old(bus).inv() ==> final(bus).inv(),
            final(bus).frame_clock() == old(bus).frame_clock(),
            final(bus).frame_pending() == old(bus).frame_pending(),
            final(bus).prg() == old(bus).prg(),
            result is EndInstruction,
            *final(self) == (Cpu6502 { sr: spec_set_flag(old(self).sr, 0x04, true), ..*old(self) }),
            *final(bus) == *old(bus),
    {
        self.set_flag(Flags::InterruptDisable, true);
        CycleResult::EndInstruction
    }

    /// INX: X wraps upward, with N and Z from the result.
    fn inx<B: BusOps>(&mut self, bus: &mut B) -> (result: CycleResult)
        ensures
            old(bus).inv() ==> final(bus).inv(),
            final(bus).frame_clock() == old(bus).frame_clock(),
            final(bus).frame_pending() == old(bus).frame_pending(),
            final(bus).prg() == old(bus).prg(),
            result is EndInstruction,
            *final(self) == (Cpu6502 { x: old(self).x.wrapping_add(1), sr: spec_nz(old(self).sr, old(self).x.wrapping_add(1)), ..*old(self) }),
            *final(bus) == *old(bus),
    {
        self.x = self.x.wrapping_add(1);
        self.set_flag(Flags::Zero, self.x == 0);
        self.set_flag(Flags::Negative, (self.x & 0x80) != 0);
        CycleResult::EndInstruction
    }

    /// INY: Y wraps upward, with N and Z from the result.
    fn iny<B: BusOps>(&mut self, bus: &mut B) -> (result: CycleResult)
        ensures
            old(bus).inv() ==> final(bus).inv(),
            final(bus).frame_clock() == old(bus).frame_clock(),
            final(bus).frame_pending() == old(bus).frame_pending(),
            final(bus).prg() == old(bus).prg(),
            result is EndInstruction,
            *final(self) == (Cpu6502 { y: old(self).y.wrapping_add(1), sr: spec_nz(old(self).sr, old(self).y.wrapping_add(1)), ..*old(self) }),
            *final(bus) == *old(bus),
    {
        self.y = self.y.wrapping_add(1);
        self.set_flag(Flags::Zero, self.y == 0);
        self.set_flag(Flags::Negative, (self.y & 0x80) != 0);
        CycleResult::EndInstruction
    }

    /// DEX: X wraps downward, with N and Z from the result.
    fn dex<B: BusOps>(&mut self, bus: &mut B) -> (result: CycleResult)
        ensures
            old(bus).inv() ==> final(bus).inv(),
            final(bus).frame_clock() == old(bus).frame_clock(),
            final(bus).frame_pending() == old(bus).frame_pending(),
            final(bus).prg() == old(bus).prg(),
            result is EndInstruction,
            *final(self) == (Cpu6502 { x: old(self).x.wrapping_sub(1), sr: spec_nz(old(self).sr, old(self).x.wrapping_sub(1)), ..*old(self) }),
            *final(bus) == *old(bus),
    {
        self.x = self.x.wrapping_sub(1);
        self.set_flag(Flags::Zero, self.x == 0);
        self.set_flag(Flags::Negative, (self.x & 0x80) != 0);
        CycleResult::EndInstruction
    }

    /// DEY: Y wraps downward, with N and Z from the result.
    fn dey<B: BusOps>(&mut self, bus: &mut B) -> (result: CycleResult)
        ensures
            old(bus).inv() ==> final(bus).inv(),
            final(bus).frame_clock() == old(bus).frame_clock(),
            final(bus).frame_pending() == old(bus).frame_pending(),
            final(bus).prg() == old(bus).prg(),
            result is EndInstruction,
            *final(self) == (Cpu6502 { y: old(self).y.wrapping_sub(1), sr: spec_nz(old(self).sr, old(self).y.wrapping_sub(1)), ..*old(self) }),
            *final(bus) == *old(bus),
    {
        self.y = self.y.wrapping_sub(1);
        self.set_flag(Flags::Zero, self.y == 0);
        self.set_flag(Flags::Negative, (self.y & 0x80) != 0);
        CycleResult::EndInstruction
    }

    /// TAX: copy A into X.
    fn tax<B: BusOps>(&mut self, bus: &mut B) -> (result: CycleResult)
        ensures
            old(bus).inv() ==> final(bus).inv(),
            final(bus).frame_clock() == old(bus).frame_clock(),
            final(bus).frame_pending() == old(bus).frame_pending(),
            final(bus).prg() == old(bus).prg(),
            result is EndInstruction,
            *final(self) == (Cpu6502 { x: old(self).a, sr: spec_nz(old(self).sr, old(self).a), ..*old(self) }),
            *final(bus) == *old(bus),
    {
        self.x = self.a;
        self.set_flag(Flags::Zero, self.x == 0);
        self.set_flag(Flags::Negative, (self.x & 0x80) != 0);
        CycleResult::EndInstruction
    }

    /// TAY: copy A into Y.
    fn tay<B: BusOps>(&mut self, bus: &mut B) -> (result: CycleResult)
        ensures
            old(bus).inv() ==> final(bus).inv(),
            final(bus).frame_clock() == old(bus).frame_clock(),
            final(bus).frame_pending() == old(bus).frame_pending(),
            final(bus).prg() == old(bus).prg(),
            result is EndInstruction,
            *final(self) == (Cpu6502 { y: old(self).a, sr: spec_nz(old(self).sr, old(self).a), ..*old(self) }),
            *final(bus) == *old(bus),
    {
        self.y = self.a;
        self.set_flag(Flags::Zero, self.y == 0);
        self.set_flag(Flags::Negative, (self.y & 0x80) != 0);
        CycleResult::EndInstruction
    }

    /// TSX: copy SP into X.
    fn tsx<B: BusOps>(&mut self, bus: &mut B) -> (result: CycleResult)
        ensures
            old(bus).inv() ==> final(bus).inv(),
            final(bus).frame_clock() == old(bus).frame_clock(),
            final(bus).frame_pending() == old(bus).frame_pending(),
            final(bus).prg() == old(bus).prg(),
            result is EndInstruction,
            *final(self) == (Cpu6502 { x: old(self).sp, sr: spec_nz(old(self).sr, old(self).sp), ..*old(self) }),
            *final(bus) == *old(bus),
    {
        self.x = self.sp;
        self.set_flag(Flags::Zero, self.x == 0);
        self.set_flag(Flags::Negative, (self.x & 0x80) != 0);
        CycleResult::EndInstruction
    }

    /// TXA: copy X into A.
    fn txa<B: BusOps>(&mut self, bus: &mut B) -> (result: CycleResult)
        ensures
            old(bus).inv() ==> final(bus).inv(),
            final(bus).frame_clock() == old(bus).frame_clock(),
            final(bus).frame_pending() == old(bus).frame_pending(),
            final(bus).prg() == old(bus).prg(),
            result is EndInstruction,
            *final(self) == (Cpu6502 { a: old(self).x, sr: spec_nz(old(self).sr, old(self).x), ..*old(self) }),
            *final(bus) == *old(bus),
    {
        self.a = self.x;
        self.set_flag(Flags::Zero, self.a == 0);
        self.set_flag(Flags::Negative, (self.a & 0x80) != 0);
        CycleResult::EndInstruction
    }

    /// TYA: copy Y into A.
    fn tya<B: BusOps>(&mut self, bus: &mut B) -> (result: CycleResult)
        ensures
            old(bus).inv() ==> final(bus).inv(),
            final(bus).frame_clock() == old(bus).frame_clock(),
            final(bus).frame_pending() == old(bus).frame_pending(),
            final(bus).prg() == old(bus).prg(),
            result is EndInstruction,
            *final(self) == (Cpu6502 { a: old(self).y, sr: spec_nz(old(self).sr, old(self).y), ..*old(self) }),
            *final(bus) == *old(bus),
    {
        self.a = self.y;
        self.set_flag(Flags::Zero, self.a == 0);
        self.set_flag(Flags::Negative, (self.a & 0x80) != 0);
        CycleResult::EndInstruction
    }

    /// TXS: copy X into SP; no flags change.
    fn txs<B: BusOps>(&mut self, bus: &mut B) -> (result: CycleResult)
        ensures
            old(bus).inv() ==> final(bus).inv(),
            final(bus).frame_clock() == old(bus).frame_clock(),
            final(bus).frame_pending() == old(bus).frame_pending(),
            final(bus).prg() == old(bus).prg(),
            result is EndInstruction,
            *final(self) == (Cpu6502 { sp: old(self).x, ..*old(self) }),
            *final(bus) == *old(bus),
    {
        self.sp = self.x;
        CycleResult::EndInstruction
    }

    /// LDA: load A from the resolved operand; N and Z follow it.
    fn lda<B: BusOps>(&mut self, bus: &mut B) -> (result: CycleResult)
        ensures
            old(bus).inv() ==> final(bus).inv(),
            final(bus).frame_clock() == old(bus).frame_clock(),
            final(bus).frame_pending() == old(bus).frame_pending(),
            final(bus).prg() == old(bus).prg(),
            final(self).stage == old(self).stage,
            final(self).addressing_mode == old(self).addressing_mode,
            final(self).instruction_type == old(self).instruction_type,
            final(self).op == old(self).op,
            final(self).interrupt_type == old(self).interrupt_type,
            !(result is Continue),
            spec_at_most_one_store(old(bus).ram(), final(bus).ram()),
            result is EndCycle ==> old(self).stage <= 7,
            old(self).instruction_type is Read ==> final(bus).ram() == old(bus).ram(),
            result is EndInstruction && !(old(self).addressing_mode is Relative) ==> final(self).a == final(self).value && final(self).sr == spec_nz(old(self).sr, final(self).value) && final(self).x == old(self).x && final(self).y == old(self).y && final(self).sp == old(self).sp,
            !(result is EndInstruction) ==> final(self).a == old(self).a && final(self).sr == old(self).sr && final(self).x == old(self).x && final(self).y == old(self).y && final(self).sp == old(self).sp,
    {
        let result = self.resolve_addressing(bus);
        match result {
            CycleResult::Continue => {
                self.a = self.value;
                self.set_flag(Flags::Zero, self.a == 0);
                self.set_flag(Flags::Negative, (self.a & 0x80) != 0);
                CycleResult::EndInstruction
            }
            _ => result,
        }
    }

    /// LDX: load X from the resolved operand; N and Z follow it.
    fn ldx<B: BusOps>(&mut self, bus: &mut B) -> (result: CycleResult)
        ensures
            old(bus).inv() ==> final(bus).inv(),
            final(bus).frame_clock() == old(bus).frame_clock(),
            final(bus).frame_pending() == old(bus).frame_pending(),
            final(bus).prg() == old(bus).prg(),
            final(self).stage == old(self).stage,
            final(self).addressing_mode == old(self).addressing_mode,
            final(self).instruction_type == old(self).instruction_type,
            final(self).op == old(self).op,
            final(self).interrupt_type == old(self).interrupt_type,
            !(result is Continue),
            spec_at_most_one_store(old(bus).ram(), final(bus).ram()),
            result is EndCycle ==> old(self).stage <= 7,
            old(self).instruction_type is Read ==> final(bus).ram() == old(bus).ram(),
            result is EndInstruction && !(old(self).addressing_mode is Relative) ==> final(self).x == final(self).value && final(self).sr == spec_nz(old(self).sr, final(self).value) && final(self).a == old(self).a && final(self).y == old(self).y && final(self).sp == old(self).sp,
            !(result is EndInstruction) ==> final(self).a == old(self).a && final(self).sr == old(self).sr && final(self).x == old(self).x && final(self).y == old(self).y && final(self).sp == old(self).sp,
    {
        let result = self.resolve_addressing(bus);
        match result {
            CycleResult::Continue => {
                self.x = self.value;
                self.set_flag(Flags::Zero, self.x == 0);
                self.set_flag(Flags::Negative, (self.x & 0x80) != 0);
                CycleResult::EndInstruction
            }
            _ => result,
        }
    }

    /// LDY: load Y from the resolved operand; N and Z follow it.
    fn ldy<B: BusOps>(&mut self, bus: &mut B) -> (result: CycleResult)
        ensures
            old(bus).inv() ==> final(bus).inv(),
            final(bus).frame_clock() == old(bus).frame_clock(),
            final(bus).frame_pending() == old(bus).frame_pending(),
            final(bus).prg() == old(bus).prg(),
            final(self).stage == old(self).stage,
            final(self).addressing_mode == old(self).addressing_mode,
            final(self).instruction_type == old(self).instruction_type,
            final(self).op == old(self).op,
            final(self).interrupt_type == old(self).interrupt_type,
            !(result is Continue),
            spec_at_most_one_store(old(bus).ram(), final(bus).ram()),
            result is EndCycle ==> old(self).stage <= 7,
            old(self).instruction_type is Read ==> final(bus).ram() == old(bus).ram(),
            result is EndInstruction && !(old(self).addressing_mode is Relative) ==> final(self).y == final(self).value && final(self).sr == spec_nz(old(self).sr, final(self).value) && final(self).a == old(self).a && final(self).x == old(self).x && final(self).sp == old(self).sp,
            !(result is EndInstruction) ==> final(self).a == old(self).a && final(self).sr == old(self).sr && final(self).x == old(self).x && final(self).y == old(self).y && final(self).sp == old(self).sp,
    {
        let result = self.resolve_addressing(bus);
        match result {
            CycleResult::Continue => {
                self.y = self.value;
                self.set_flag(Flags::Zero, self.y == 0);
                self.set_flag(Flags::Negative, (self.y & 0x80) != 0);
                CycleResult::EndInstruction
            }
            _ => result,
        }
    }

    /// AND: A &= operand; N and Z follow the result.
    fn and<B: BusOps>(&mut self, bus: &mut B) -> (result: CycleResult)
        ensures
            old(bus).inv() ==> final(bus).inv(),
            final(bus).frame_clock() == old(bus).frame_clock(),
            final(bus).frame_pending() == old(bus).frame_pending(),
            final(bus).prg() == old(bus).prg(),
            final(self).stage == old(self).stage,
            final(self).addressing_mode == old(self).addressing_mode,
            final(self).instruction_type == old(self).instruction_type,
            final(self).op == old(self).op,
            final(self).interrupt_type == old(self).interrupt_type,
            !(result is Continue),
            spec_at_most_one_store(old(bus).ram(), final(bus).ram()),
            result is EndCycle ==> old(self).stage <= 7,
            old(self).instruction_type is Read ==> final(bus).ram() == old(bus).ram(),
            result is EndInstruction && !(old(self).addressing_mode is Relative) ==> final(self).a == (old(self).a & final(self).value) && final(self).sr == spec_nz(old(self).sr, old(self).a & final(self).value) && final(self).x == old(self).x && final(self).y == old(self).y && final(self).sp == old(self).sp,
            !(result is EndInstruction) ==> final(self).a == old(self).a && final(self).sr == old(self).sr && final(self).x == old(self).x && final(self).y == old(self).y && final(self).sp == old(self).sp,
    {
        let result = self.resolve_addressing(bus);
        match result {
            CycleResult::Continue => {
                self.a = self.a & self.value;
                self.set_flag(Flags::Zero, self.a == 0);
                self.set_flag(Flags::Negative, (self.a & 0x80) != 0);
                CycleResult::EndInstruction
            }
            _ => result,
        }
    }

    /// ORA: A |= operand; N and Z follow the result.
    fn ora<B: BusOps>(&mut self, bus: &mut B) -> (result: CycleResult)
        ensures
            old(bus).inv() ==> final(bus).inv(),
            final(bus).frame_clock() == old(bus).frame_clock(),
            final(bus).frame_pending() == old(bus).frame_pending(),
            final(bus).prg() == old(bus).prg(),
            final(self).stage == old(self).stage,
            final(self).addressing_mode == old(self).addressing_mode,
            final(self).instruction_type == old(self).instruction_type,
            final(self).op == old(self).op,
            final(self).interrupt_type == old(self).interrupt_type,
            !(result is Continue),
            spec_at_most_one_store(old(bus).ram(), final(bus).ram()),
            result is EndCycle ==> old(self).stage <= 7,
            old(self).instruction_type is Read ==> final(bus).ram() == old(bus).ram(),
            result is EndInstruction && !(old(self).addressing_mode is Relative) ==> final(self).a == (old(self).a | final(self).value) && final(self).sr == spec_nz(old(self).sr, old(self).a | final(self).value) && final(self).x == old(self).x && final(self).y == old(self).y && final(self).sp == old(self).sp,
            !(result is EndInstruction) ==> final(self).a == old(self).a && final(self).sr == old(self).sr && final(self).x == old(self).x && final(self).y == old(self).y && final(self).sp == old(self).sp,
    {
        let result = self.resolve_addressing(bus);
        match result {
            CycleResult::Continue => {
                self.a = self.a | self.value;
                self.set_flag(Flags::Zero, self.a == 0);
                self.set_flag(Flags::Negative, (self.a & 0x80) != 0);
                CycleResult::EndInstruction
            }
            _ => result,
        }
    }

    /// EOR: A ^= operand; N and Z follow the result.
    fn eor<B: BusOps>(&mut self, bus: &mut B) -> (result: CycleResult)
        ensures
            old(bus).inv() ==> final(bus).inv(),
            final(bus).frame_clock() == old(bus).frame_clock(),
            final(bus).frame_pending() == old(bus).frame_pending(),
            final(bus).prg() == old(bus).prg(),
            final(self).stage == old(self).stage,
            final(self).addressing_mode == old(self).addressing_mode,
            final(self).instruction_type == old(self).instruction_type,
            final(self).op == old(self).op,
            final(self).interrupt_type == old(self).interrupt_type,
            !(result is Continue),
            spec_at_most_one_store(old(bus).ram(), final(bus).ram()),
            result is EndCycle ==> old(self).stage <= 7,
            old(self).instruction_type is Read ==> final(bus).ram() == old(bus).ram(),
            result is EndInstruction && !(old(self).addressing_mode is Relative) ==> final(self).a == (old(self).a ^ final(self).value) && final(self).sr == spec_nz(old(self).sr, old(self).a ^ final(self).value) && final(self).x == old(self).x && final(self).y == old(self).y && final(self).sp == old(self).sp,
            !(result is EndInstruction) ==> final(self).a == old(self).a && final(self).sr == old(self).sr && final(self).x == old(self).x && final(self).y == old(self).y && final(self).sp == old(self).sp,
    {
        let result = self.resolve_addressing(bus);
        match result {
            CycleResult::Continue => {
                self.a = self.a ^ self.value;
                self.set_flag(Flags::Zero, self.a == 0);
                self.set_flag(Flags::Negative, (self.a & 0x80) != 0);
                CycleResult::EndInstruction
            }
            _ => result,
        }
    }

    /// ADC: A + M + C, with carry, zero, overflow and negative exactly as `spec_adc` states.
    fn adc<B: BusOps>(&mut self, bus: &mut B) -> (result: CycleResult)
        ensures
            old(bus).inv() ==> final(bus).inv(),
            final(bus).frame_clock() == old(bus).frame_clock(),
            final(bus).frame_pending() == old(bus).frame_pending(),
            final(bus).prg() == old(bus).prg(),
            final(self).stage == old(self).stage,
            final(self).addressing_mode == old(self).addressing_mode,
            final(self).instruction_type == old(self).instruction_type,
            final(self).op == old(self).op,
            final(self).interrupt_type == old(self).interrupt_type,
            !(result is Continue),
            spec_at_most_one_store(old(bus).ram(), final(bus).ram()),
            result is EndCycle ==> old(self).stage <= 7,
            old(self).instruction_type is Read ==> final(bus).ram() == old(bus).ram(),
            result is EndInstruction && !(old(self).addressing_mode is Relative) ==> final(self).sr == spec_adc(old(self).sr, old(self).a, final(self).value).0 && final(self).a == spec_adc(old(self).sr, old(self).a, final(self).value).1 && final(self).x == old(self).x && final(self).y == old(self).y && final(self).sp == old(self).sp,
            !(result is EndInstruction) ==> final(self).a == old(self).a && final(self).sr == old(self).sr && final(self).x == old(self).x && final(self).y == old(self).y && final(self).sp == old(self).sp,
    {
        let result = self.resolve_addressing(bus);
        match result {
            CycleResult::Continue => {
                let carry: u8 = if self.is_flag_set(Flags::Carry) { 1 } else { 0 };
                let total: u16 = self.a as u16 + self.value as u16 + carry as u16;
                let added_carry: u8 = (total % 256) as u8;
                let same_signal = (self.a & 0x80) == (self.value & 0x80);
                let sign = self.value & 0x80;
                self.set_flag(Flags::Carry, total > 0xFF);
                self.a = added_carry;
                self.set_flag(Flags::Zero, self.a == 0);
                self.set_flag(Flags::Overflow, same_signal && (sign != (self.a & 0x80)));
                self.set_flag(Flags::Negative, (self.a & 0x80) != 0);
                CycleResult::EndInstruction
            }
            _ => result,
        }
    }

    /// SBC: ADC with the operand inverted bitwise, as `spec_sbc` states.
    fn sbc<B: BusOps>(&mut self, bus: &mut B) -> (result: CycleResult)
        ensures
            old(bus).inv() ==> final(bus).inv(),
            final(bus).frame_clock() == old(bus).frame_clock(),
            final(bus).frame_pending() == old(bus).frame_pending(),
            final(bus).prg() == old(bus).prg(),
            final(self).stage == old(self).stage,
            final(self).addressing_mode == old(self).addressing_mode,
            final(self).instruction_type == old(self).instruction_type,
            final(self).op == old(self).op,
            final(self).interrupt_type == old(self).interrupt_type,
            !(result is Continue),
            spec_at_most_one_store(old(bus).ram(), final(bus).ram()),
            result is EndCycle ==> old(self).stage <= 7,
            old(self).instruction_type is Read ==> final(bus).ram() == old(bus).ram(),
            result is EndInstruction && !(old(self).addressing_mode is Relative) ==> final(self).sr == spec_sbc(old(self).sr, old(self).a, final(self).value).0 && final(self).a == spec_sbc(old(self).sr, old(self).a, final(self).value).1 && final(self).x == old(self).x && final(self).y == old(self).y && final(self).sp == old(self).sp,
            !(result is EndInstruction) ==> final(self).a == old(self).a && final(self).sr == old(self).sr && final(self).x == old(self).x && final(self).y == old(self).y && final(self).sp == old(self).sp,
    {
        let result = self.resolve_addressing(bus);
        match result {
            CycleResult::Continue => {
                let not_value = !self.value;
                let carry: u8 = if self.is_flag_set(Flags::Carry) { 1 } else { 0 };
                let total: u16 = self.a as u16 + not_value as u16 + carry as u16;
                let added_carry: u8 = (total % 256) as u8;
                let same_signal = (self.a & 0x80) == (not_value & 0x80);
                let sign = self.a & 0x80;
                self.set_flag(Flags::Carry, total > 0xFF);
                self.a = added_carry;
                self.set_flag(Flags::Zero, self.a == 0);
                self.set_flag(Flags::Overflow, same_signal && (sign != (self.a & 0x80)));
                self.set_flag(Flags::Negative, (self.a & 0x80) != 0);
                CycleResult::EndInstruction
            }
            _ => result,
        }
    }

    /// CMP: compare A with the operand.
    fn cmp<B: BusOps>(&mut self, bus: &mut B) -> (result: CycleResult)
        ensures
            old(bus).inv() ==> final(bus).inv(),
            final(bus).frame_clock() == old(bus).frame_clock(),
            final(bus).frame_pending() == old(bus).frame_pending(),
            final(bus).prg() == old(bus).prg(),
            final(self).stage == old(self).stage,
            final(self).addressing_mode == old(self).addressing_mode,
            final(self).instruction_type == old(self).instruction_type,
            final(self).op == old(self).op,
            final(self).interrupt_type == old(self).interrupt_type,
            !(result is Continue),
            spec_at_most_one_store(old(bus).ram(), final(bus).ram()),
            result is EndCycle ==> old(self).stage <= 7,
            old(self).instruction_type is Read ==> final(bus).ram() == old(bus).ram(),
            result is EndInstruction && !(old(self).addressing_mode is Relative) ==> final(self).sr == spec_cmp(old(self).sr, old(self).a, final(self).value) && final(self).a == old(self).a && final(self).x == old(self).x && final(self).y == old(self).y && final(self).sp == old(self).sp,
            !(result is EndInstruction) ==> final(self).a == old(self).a && final(self).sr == old(self).sr && final(self).x == old(self).x && final(self).y == old(self).y && final(self).sp == old(self).sp,
    {
        let result = self.resolve_addressing(bus);
        match result {
            CycleResult::Continue => {
                let cmp = self.a.wrapping_sub(self.value);
                self.set_flag(Flags::Carry, self.a >= self.value);
                self.set_flag(Flags::Zero, self.a == self.value);
                self.set_flag(Flags::Negative, (cmp & 0x80) != 0);
                CycleResult::EndInstruction
            }
            _ => result,
        }
    }

    /// CPX: compare X with the operand.
    fn cpx<B: BusOps>(&mut self, bus: &mut B) -> (result: CycleResult)
        ensures
            old(bus).inv() ==> final(bus).inv(),
            final(bus).frame_clock() == old(bus).frame_clock(),
            final(bus).frame_pending() == old(bus).frame_pending(),
            final(bus).prg() == old(bus).prg(),
            final(self).stage == old(self).stage,
            final(self).addressing_mode == old(self).addressing_mode,
            final(self).instruction_type == old(self).instruction_type,
            final(self).op == old(self).op,
            final(self).interrupt_type == old(self).interrupt_type,
            !(result is Continue),
            spec_at_most_one_store(old(bus).ram(), final(bus).ram()),
            result is EndCycle ==> old(self).stage <= 7,
            old(self).instruction_type is Read ==> final(bus).ram() == old(bus).ram(),
            result is EndInstruction && !(old(self).addressing_mode is Relative) ==> final(self).sr == spec_cmp(old(self).sr, old(self).x, final(self).value) && final(self).a == old(self).a && final(self).x == old(self).x && final(self).y == old(self).y && final(self).sp == old(self).sp,
            !(result is EndInstruction) ==> final(self).a == old(self).a && final(self).sr == old(self).sr && final(self).x == old(self).x && final(self).y == old(self).y && final(self).sp == old(self).sp,
    {
        let result = self.resolve_addressing(bus);
        match result {
            CycleResult::Continue => {
                let cmp = self.x.wrapping_sub(self.value);
                self.set_flag(Flags::Carry, self.x >= self.value);
                self.set_flag(Flags::Zero, self.x == self.value);
                self.set_flag(Flags::Negative, (cmp & 0x80) != 0);
                CycleResult::EndInstruction
            }
            _ => result,
        }
    }

    /// CPY: compare Y with the operand.
    fn cpy<B: BusOps>(&mut self, bus: &mut B) -> (result: CycleResult)
        ensures
            old(bus).inv() ==> final(bus).inv(),
            final(bus).frame_clock() == old(bus).frame_clock(),
            final(bus).frame_pending() == old(bus).frame_pending(),
            final(bus).prg() == old(bus).prg(),
            final(self).stage == old(self).stage,
            final(self).addressing_mode == old(self).addressing_mode,
            final(self).instruction_type == old(self).instruction_type,
            final(self).op == old(self).op,
            final(self).interrupt_type == old(self).interrupt_type,
            !(result is Continue),
            spec_at_most_one_store(old(bus).ram(), final(bus).ram()),
            result is EndCycle ==> old(self).stage <= 7,
            old(self).instruction_type is Read ==> final(bus).ram() == old(bus).ram(),
            result is EndInstruction && !(old(self).addressing_mode is Relative) ==> final(self).sr == spec_cmp(old(self).sr, old(self).y, final(self).value) && final(self).a == old(self).a && final(self).x == old(self).x && final(self).y == old(self).y && final(self).sp == old(self).sp,
            !(result is EndInstruction) ==> final(self).a == old(self).a && final(self).sr == old(self).sr && final(self).x == old(self).x && final(self).y == old(self).y && final(self).sp == old(self).sp,
    {
        let result = self.resolve_addressing(bus);
        match result {
            CycleResult::Continue => {
                let cmp = self.y.wrapping_sub(self.value);
                self.set_flag(Flags::Carry, self.y >= self.value);
                self.set_flag(Flags::Zero, self.y == self.value);
                self.set_flag(Flags::Negative, (cmp & 0x80) != 0);
                CycleResult::EndInstruction
            }
            _ => result,
        }
    }

    /// BIT: Z from A & M; V and N copied from bits 6 and 7 of M.
    fn bit<B: BusOps>(&mut self, bus: &mut B) -> (result: CycleResult)
        ensures
            old(bus).inv() ==> final(bus).inv(),
            final(bus).frame_clock() == old(bus).frame_clock(),
            final(bus).frame_pending() == old(bus).frame_pending(),
            final(bus).prg() == old(bus).prg(),
            final(self).stage == old(self).stage,
            final(self).addressing_mode == old(self).addressing_mode,
            final(self).instruction_type == old(self).instruction_type,
            final(self).op == old(self).op,
            final(self).interrupt_type == old(self).interrupt_type,
            !(result is Continue),
            spec_at_most_one_store(old(bus).ram(), final(bus).ram()),
            result is EndCycle ==> old(self).stage <= 7,
            old(self).instruction_type is Read ==> final(bus).ram() == old(bus).ram(),
            result is EndInstruction && !(old(self).addressing_mode is Relative) ==> final(self).sr == spec_bit(old(self).sr, old(self).a, final(self).value) && final(self).a == old(self).a && final(self).x == old(self).x && final(self).y == old(self).y && final(self).sp == old(self).sp,
            !(result is EndInstruction) ==> final(self).a == old(self).a && final(self).sr == old(self).sr && final(self).x == old(self).x && final(self).y == old(self).y && final(self).sp == old(self).sp,
    {
        let result = self.resolve_addressing(bus);
        match result {
            CycleResult::Continue => {
                let cmp = self.a & self.value;

                self.set_flag(Flags::Zero, cmp == 0);
                self.set_flag(Flags::Overflow, (self.value & 0x40) != 0);
                self.set_flag(Flags::Negative, (self.value & 0x80) != 0);
                CycleResult::EndInstruction
            }
            _ => result,
        }
    }

    /// JMP: load PC from the resolved effective address.
    fn jmp<B: BusOps>(&mut self, bus: &mut B) -> (result: CycleResult)
        ensures
            old(bus).inv() ==> final(bus).inv(),
            final(bus).frame_clock() == old(bus).frame_clock(),
            final(bus).frame_pending() == old(bus).frame_pending(),
            final(bus).prg() == old(bus).prg(),
            final(self).stage == old(self).stage,
            final(self).addressing_mode == old(self).addressing_mode,
            final(self).instruction_type == old(self).instruction_type,
            final(self).op == old(self).op,
            final(self).interrupt_type == old(self).interrupt_type,
            !(result is Continue),
            spec_at_most_one_store(old(bus).ram(), final(bus).ram()),
            result is EndCycle ==> old(self).stage <= 7,
            old(self).instruction_type is Read ==> final(bus).ram() == old(bus).ram(),
            result is EndInstruction && !(old(self).addressing_mode is Relative) ==> final(self).pc == final(self).address && final(self).a == old(self).a && final(self).sr == old(self).sr && final(self).x == old(self).x && final(self).y == old(self).y && final(self).sp == old(self).sp,
            !(result is EndInstruction) ==> final(self).a == old(self).a && final(self).sr == old(self).sr && final(self).x == old(self).x && final(self).y == old(self).y && final(self).sp == old(self).sp,
    {
        let result = self.resolve_addressing(bus);
        match result {
            CycleResult::Continue => {
                self.pc = self.address;
                CycleResult::EndInstruction
            }
            _ => result,
        }
    }

    /// STA: store A at the effective address.
    fn sta<B: BusOps>(&mut self, bus: &mut B) -> (result: CycleResult)
        ensures
            old(bus).inv() ==> final(bus).inv(),
            final(bus).frame_clock() == old(bus).frame_clock(),
            final(bus).frame_pending() == old(bus).frame_pending(),
            final(bus).prg() == old(bus).prg(),
            final(self).stage == old(self).stage,
            final(self).addressing_mode == old(self).addressing_mode,
            final(self).instruction_type == old(self).instruction_type,
            final(self).op == old(self).op,
            final(self).interrupt_type == old(self).interrupt_type,
            !(result is Continue),
            spec_at_most_one_store(old(bus).ram(), final(bus).ram()),
            result is EndCycle ==> old(self).stage <= 7,
            result is EndInstruction && !(old(self).addressing_mode is Relative) ==> final(bus).ram() == spec_ram_write(old(bus).ram(), final(self).address, old(self).a) && final(self).a == old(self).a && final(self).sr == old(self).sr && final(self).x == old(self).x && final(self).y == old(self).y && final(self).sp == old(self).sp,
            !(result is EndInstruction) ==> final(self).a == old(self).a && final(self).sr == old(self).sr && final(self).x == old(self).x && final(self).y == old(self).y && final(self).sp == old(self).sp,
    {
        let result = self.resolve_addressing(bus);
        match result {
            CycleResult::Continue => {
                self.write_memory(bus, self.address, self.a);
                CycleResult::EndInstruction
            }
            _ => result,
        }
    }

    /// STX: store X at the effective address.
    fn stx<B: BusOps>(&mut self, bus: &mut B) -> (result: CycleResult)
        ensures
            old(bus).inv() ==> final(bus).inv(),
            final(bus).frame_clock() == old(bus).frame_clock(),
            final(bus).frame_pending() == old(bus).frame_pending(),
            final(bus).prg() == old(bus).prg(),
            final(self).stage == old(self).stage,
            final(self).addressing_mode == old(self).addressing_mode,
            final(self).instruction_type == old(self).instruction_type,
            final(self).op == old(self).op,
            final(self).interrupt_type == old(self).interrupt_type,
            !(result is Continue),
            spec_at_most_one_store(old(bus).ram(), final(bus).ram()),
            result is EndCycle ==> old(self).stage <= 7,
            result is EndInstruction && !(old(self).addressing_mode is Relative) ==> final(bus).ram() == spec_ram_write(old(bus).ram(), final(self).address, old(self).x) && final(self).a == old(self).a && final(self).sr == old(self).sr && final(self).x == old(self).x && final(self).y == old(self).y && final(self).sp == old(self).sp,
            !(result is EndInstruction) ==> final(self).a == old(self).a && final(self).sr == old(self).sr && final(self).x == old(self).x && final(self).y == old(self).y && final(self).sp == old(self).sp,
    {
        let result = self.resolve_addressing(bus);
        match result {
            CycleResult::Continue => {
                self.write_memory(bus, self.address, self.x);
                CycleResult::EndInstruction
            }
            _ => result,
        }
    }

    /// STY: store Y at the effective address.
    fn sty<B: BusOps>(&mut self, bus: &mut B) -> (result: CycleResult)
        ensures
            old(bus).inv() ==> final(bus).inv(),
            final(bus).frame_clock() == old(bus).frame_clock(),
            final(bus).frame_pending() == old(bus).frame_pending(),
            final(bus).prg() == old(bus).prg(),
            final(self).stage == old(self).stage,
            final(self).addressing_mode == old(self).addressing_mode,
            final(self).instruction_type == old(self).instruction_type,
            final(self).op == old(self).op,
            final(self).interrupt_type == old(self).interrupt_type,
            !(result is Continue),
            spec_at_most_one_store(old(bus).ram(), final(bus).ram()),
            result is EndCycle ==> old(self).stage <= 7,
            result is EndInstruction && !(old(self).addressing_mode is Relative) ==> final(bus).ram() == spec_ram_write(old(bus).ram(), final(self).address, old(self).y) && final(self).a == old(self).a && final(self).sr == old(self).sr && final(self).x == old(self).x && final(self).y == old(self).y && final(self).sp == old(self).sp,
            !(result is EndInstruction) ==> final(self).a == old(self).a && final(self).sr == old(self).sr && final(self).x == old(self).x && final(self).y == old(self).y && final(self).sp == old(self).sp,
    {
        let result = self.resolve_addressing(bus);
        match result {
            CycleResult::Continue => {
                self.write_memory(bus, self.address, self.y);
                CycleResult::EndInstruction
            }
            _ => result,
        }
    }

    /// NOP, official and unofficial: resolve the operand and discard it.
    fn nop<B: BusOps>(&mut self, bus: &mut B) -> (result: CycleResult)
        ensures
            old(bus).inv() ==> final(bus).inv(),
            final(bus).frame_clock() == old(bus).frame_clock(),
            final(bus).frame_pending() == old(bus).frame_pending(),
            final(bus).prg() == old(bus).prg(),
            final(self).stage == old(self).stage,
            final(self).addressing_mode == old(self).addressing_mode,
            final(self).instruction_type == old(self).instruction_type,
            final(self).op == old(self).op,
            final(self).interrupt_type == old(self).interrupt_type,
            !(result is Continue),
            spec_at_most_one_store(old(bus).ram(), final(bus).ram()),
            result is EndCycle ==> old(self).stage <= 7,
            old(self).instruction_type is Read ==> final(bus).ram() == old(bus).ram(),
            final(self).a == old(self).a && final(self).sr == old(self).sr && final(self).x == old(self).x
                && final(self).y == old(self).y && final(self).sp == old(self).sp,
    {
        let result = self.resolve_addressing(bus);
        match result {
            CycleResult::Continue => {
                CycleResult::EndInstruction
            }
            _ => result,
        }
    }

    /// ASL: shift left one bit; carry takes the old bit 7.
    fn asl<B: BusOps>(&mut self, bus: &mut B) -> (result: CycleResult)
        ensures
            old(bus).inv() ==> final(bus).inv(),
            final(bus).frame_clock() == old(bus).frame_clock(),
            final(bus).frame_pending() == old(bus).frame_pending(),
            final(bus).prg() == old(bus).prg(),
            final(self).stage == old(self).stage,
            final(self).addressing_mode == old(self).addressing_mode,
            final(self).instruction_type == old(self).instruction_type,
            final(self).op == old(self).op,
            final(self).interrupt_type == old(self).interrupt_type,
            !(result is Continue),
            spec_at_most_one_store(old(bus).ram(), final(bus).ram()),
            result is EndCycle ==> old(self).stage <= 7,
            final(self).x == old(self).x && final(self).y == old(self).y && final(self).sp == old(self).sp,
            result is EndInstruction && old(self).addressing_mode is Accumulator ==>
                final(self).a == (old(self).a << 1u32)
                && final(self).sr == spec_shift_flags(old(self).sr, (old(self).a & 0x80) != 0, (old(self).a << 1u32))
                && final(bus).ram() == old(bus).ram(),
            result is EndInstruction && !(old(self).addressing_mode is Accumulator)
                && spec_rmw_mode(old(self).addressing_mode)
                && old(self).instruction_type is ReadModifyWrite ==>
                final(self).value == (old(self).value << 1u32)
                && final(self).a == old(self).a
                && final(self).sr == spec_shift_flags(old(self).sr, (old(self).value & 0x80) != 0, (old(self).value << 1u32))
                && final(bus).ram() == spec_ram_write(old(bus).ram(), old(self).address, (old(self).value << 1u32)),
            !(result is EndInstruction) ==> final(self).a == old(self).a && final(self).sr == old(self).sr,
    {
        let result = self.resolve_addressing(bus);
        match result {
            CycleResult::Continue => {
                let value: u8;
                let old_value: u8;
                let accumulator: bool;
                if let AddressingMode::Accumulator = self.addressing_mode {
                    old_value = self.a;
                    self.a = self.a << 1u32;
                    value = self.a;
                    accumulator = true;
                } else {
                    old_value = self.value;
                    self.value = self.value << 1u32;
                    value = self.value;
                    accumulator = false;
                }

                if !accumulator {
                    self.write_memory(bus, self.address, value);
                }

                self.set_flag(Flags::Carry, (old_value & 0x80) != 0);
                self.set_flag(Flags::Zero, value == 0);
                self.set_flag(Flags::Negative, (value & 0x80) != 0);
                CycleResult::EndInstruction
            }
            _ => result,
        }
    }

    /// LSR: shift right one bit; carry takes the old bit 0.
    fn lsr<B: BusOps>(&mut self, bus: &mut B) -> (result: CycleResult)
        ensures
            old(bus).inv() ==> final(bus).inv(),
            final(bus).frame_clock() == old(bus).frame_clock(),
            final(bus).frame_pending() == old(bus).frame_pending(),
            final(bus).prg() == old(bus).prg(),
            final(self).stage == old(self).stage,
            final(self).addressing_mode == old(self).addressing_mode,
            final(self).instruction_type == old(self).instruction_type,
            final(self).op == old(self).op,
            final(self).interrupt_type == old(self).interrupt_type,
            !(result is Continue),
            spec_at_most_one_store(old(bus).ram(), final(bus).ram()),
            result is EndCycle ==> old(self).stage <= 7,
            final(self).x == old(self).x && final(self).y == old(self).y && final(self).sp == old(self).sp,
            result is EndInstruction && old(self).addressing_mode is Accumulator ==>
                final(self).a == (old(self).a >> 1u32)
                && final(self).sr == spec_shift_flags(old(self).sr, (old(self).a & 0x01) != 0, (old(self).a >> 1u32))
                && final(bus).ram() == old(bus).ram(),
            result is EndInstruction && !(old(self).addressing_mode is Accumulator)
                && spec_rmw_mode(old(self).addressing_mode)
                && old(self).instruction_type is ReadModifyWrite ==>
                final(self).value == (old(self).value >> 1u32)
                && final(self).a == old(self).a
                && final(self).sr == spec_shift_flags(old(self).sr, (old(self).value & 0x01) != 0, (old(self).value >> 1u32))
                && final(bus).ram() == spec_ram_write(old(bus).ram(), old(self).address, (old(self).value >> 1u32)),
            !(result is EndInstruction) ==> final(self).a == old(self).a && final(self).sr == old(self).sr,
    {
        let result = self.resolve_addressing(bus);
        match result {
            CycleResult::Continue => {
                let value: u8;
                let old_value: u8;
                let accumulator: bool;
                if let AddressingMode::Accumulator = self.addressing_mode {
                    old_value = self.a;
                    self.a = self.a >> 1u32;
                    value = self.a;
                    accumulator = true;
                } else {
                    old_value = self.value;
                    self.value = self.value >> 1u32;
                    value = self.value;
                    accumulator = false;
                }

                if !accumulator {
                    self.write_memory(bus, self.address, value);
                }

                self.set_flag(Flags::Carry, (old_value & 0x01) != 0);
                self.set_flag(Flags::Zero, value == 0);
                self.set_flag(Flags::Negative, (value & 0x80) != 0);
                CycleResult::EndInstruction
            }
            _ => result,
        }
    }

    /// ROL: rotate left through carry. Carry takes the bit rotated out.
    fn rol<B: BusOps>(&mut self, bus: &mut B) -> (result: CycleResult)
        ensures
            old(bus).inv() ==> final(bus).inv(),
            final(bus).frame_clock() == old(bus).frame_clock(),
            final(bus).frame_pending() == old(bus).frame_pending(),
            final(bus).prg() == old(bus).prg(),
            final(self).stage == old(self).stage,
            final(self).addressing_mode == old(self).addressing_mode,
            final(self).instruction_type == old(self).instruction_type,
            final(self).op == old(self).op,
            final(self).interrupt_type == old(self).interrupt_type,
            !(result is Continue),
            spec_at_most_one_store(old(bus).ram(), final(bus).ram()),
            result is EndCycle ==> old(self).stage <= 7,
            final(self).x == old(self).x && final(self).y == old(self).y && final(self).sp == old(self).sp,
            result is EndInstruction && old(self).addressing_mode is Accumulator ==>
                final(self).a == ((old(self).a << 1u32) | (if old(self).sr & 0x01 != 0 { 1u8 } else { 0u8 }))
                && final(self).sr == spec_shift_flags(old(self).sr, (old(self).a & 0x80) != 0, ((old(self).a << 1u32) | (if old(self).sr & 0x01 != 0 { 1u8 } else { 0u8 })))
                && final(bus).ram() == old(bus).ram(),
            result is EndInstruction && !(old(self).addressing_mode is Accumulator)
                && spec_rmw_mode(old(self).addressing_mode)
                && old(self).instruction_type is ReadModifyWrite ==>
                final(self).value == ((old(self).value << 1u32) | (if old(self).sr & 0x01 != 0 { 1u8 } else { 0u8 }))
                && final(self).a == old(self).a
                && final(self).sr == spec_shift_flags(old(self).sr, (old(self).value & 0x80) != 0, ((old(self).value << 1u32) | (if old(self).sr & 0x01 != 0 { 1u8 } else { 0u8 })))
                && final(bus).ram() == spec_ram_write(old(bus).ram(), old(self).address, ((old(self).value << 1u32) | (if old(self).sr & 0x01 != 0 { 1u8 } else { 0u8 }))),
            !(result is EndInstruction) ==> final(self).a == old(self).a && final(self).sr == old(self).sr,
    {
        let result = self.resolve_addressing(bus);
        match result {
            CycleResult::Continue => {
                let carry_set = self.is_flag_set(Flags::Carry);
                let carry_in: u8 = if carry_set { 1u8 } else { 0 };
                let value: u8;
                let old_value: u8;
                let accumulator: bool;
                if let AddressingMode::Accumulator = self.addressing_mode {
                    old_value = self.a;
                    self.a = (self.a << 1u32) | carry_in;
                    value = self.a;
                    accumulator = true;
                } else {
                    old_value = self.value;
                    self.value = (self.value << 1u32) | carry_in;
                    value = self.value;
                    accumulator = false;
                }
                if !accumulator {
                    self.write_memory(bus, self.address, value);
                }

                self.set_flag(Flags::Carry, (old_value & 0x80) != 0);
                self.set_flag(Flags::Zero, value == 0);
                self.set_flag(Flags::Negative, (value & 0x80) != 0);
                CycleResult::EndInstruction
            }
            _ => result,
        }
    }

    /// ROR: rotate right through carry. Carry takes the bit rotated out.
    fn ror<B: BusOps>(&mut self, bus: &mut B) -> (result: CycleResult)
        ensures
            old(bus).inv() ==> final(bus).inv(),
            final(bus).frame_clock() == old(bus).frame_clock(),
            final(bus).frame_pending() == old(bus).frame_pending(),
            final(bus).prg() == old(bus).prg(),
            final(self).stage == old(self).stage,
            final(self).addressing_mode == old(self).addressing_mode,
            final(self).instruction_type == old(self).instruction_type,
            final(self).op == old(self).op,
            final(self).interrupt_type == old(self).interrupt_type,
            !(result is Continue),
            spec_at_most_one_store(old(bus).ram(), final(bus).ram()),
            result is EndCycle ==> old(self).stage <= 7,
            final(self).x == old(self).x && final(self).y == old(self).y && final(self).sp == old(self).sp,
            result is EndInstruction && old(self).addressing_mode is Accumulator ==>
                final(self).a == ((old(self).a >> 1u32) | (if old(self).sr & 0x01 != 0 { 0x80u8 } else { 0u8 }))
                && final(self).sr == spec_shift_flags(old(self).sr, (old(self).a & 0x01) != 0, ((old(self).a >> 1u32) | (if old(self).sr & 0x01 != 0 { 0x80u8 } else { 0u8 })))
                && final(bus).ram() == old(bus).ram(),
            result is EndInstruction && !(old(self).addressing_mode is Accumulator)
                && spec_rmw_mode(old(self).addressing_mode)
                && old(self).instruction_type is ReadModifyWrite ==>
                final(self).value == ((old(self).value >> 1u32) | (if old(self).sr & 0x01 != 0 { 0x80u8 } else { 0u8 }))
                && final(self).a == old(self).a
                && final(self).sr == spec_shift_flags(old(self).sr, (old(self).value & 0x01) != 0, ((old(self).value >> 1u32) | (if old(self).sr & 0x01 != 0 { 0x80u8 } else { 0u8 })))
                && final(bus).ram() == spec_ram_write(old(bus).ram(), old(self).address, ((old(self).value >> 1u32) | (if old(self).sr & 0x01 != 0 { 0x80u8 } else { 0u8 }))),
            !(result is EndInstruction) ==> final(self).a == old(self).a && final(self).sr == old(self).sr,
    {
        let result = self.resolve_addressing(bus);
        match result {
            CycleResult::Continue => {
                let carry_set = self.is_flag_set(Flags::Carry);
                let carry_in: u8 = if carry_set { 0x80u8 } else { 0 };
                let value: u8;
                let old_value: u8;
                let accumulator: bool;
                if let AddressingMode::Accumulator = self.addressing_mode {
                    old_value = self.a;
                    self.a = (self.a >> 1u32) | carry_in;
                    value = self.a;
                    accumulator = true;
                } else {
                    old_value = self.value;
                    self.value = (self.value >> 1u32) | carry_in;
                    value = self.value;
                    accumulator = false;
                }
                if !accumulator {
                    self.write_memory(bus, self.address, value);
                }

                self.set_flag(Flags::Carry, (old_value & 0x01) != 0);
                self.set_flag(Flags::Zero, value == 0);
                self.set_flag(Flags::Negative, (value & 0x80) != 0);
                CycleResult::EndInstruction
            }
            _ => result,
        }
    }

    /// DEC: decrement the addressed byte and write it back.
    fn dec<B: BusOps>(&mut self, bus: &mut B) -> (result: CycleResult)
        ensures
            old(bus).inv() ==> final(bus).inv(),
            final(bus).frame_clock() == old(bus).frame_clock(),
            final(bus).frame_pending() == old(bus).frame_pending(),
            final(bus).prg() == old(bus).prg(),
            final(self).stage == old(self).stage,
            final(self).addressing_mode == old(self).addressing_mode,
            final(self).instruction_type == old(self).instruction_type,
            final(self).op == old(self).op,
            final(self).interrupt_type == old(self).interrupt_type,
            !(result is Continue),
            spec_at_most_one_store(old(bus).ram(), final(bus).ram()),
            result is EndCycle ==> old(self).stage <= 7,
            final(self).a == old(self).a && final(self).x == old(self).x
                && final(self).y == old(self).y && final(self).sp == old(self).sp,
            result is EndInstruction && spec_rmw_mode(old(self).addressing_mode)
                && old(self).instruction_type is ReadModifyWrite ==>
                final(self).value == old(self).value.wrapping_sub(1)
                && final(self).sr == spec_nz(old(self).sr, old(self).value.wrapping_sub(1))
                && final(bus).ram() == spec_ram_write(old(bus).ram(), old(self).address, old(self).value.wrapping_sub(1)),
            result is EndInstruction && !(old(self).addressing_mode is Relative) ==> final(self).sr == spec_nz(old(self).sr, final(self).value)
                && final(bus).ram() == spec_ram_write(old(bus).ram(), final(self).address, final(self).value),
            !(result is EndInstruction) ==> final(self).sr == old(self).sr,
    {
        let result = self.resolve_addressing(bus);
        match result {
            CycleResult::Continue => {
                self.value = self.value.wrapping_sub(1);
                self.write_memory(bus, self.address, self.value);
                self.set_flag(Flags::Zero, self.value == 0);
                self.set_flag(Flags::Negative, (self.value & 0x80) != 0);
                CycleResult::EndInstruction
            }
            _ => result,
        }
    }

    /// INC: increment the addressed byte and write it back.
    fn inc<B: BusOps>(&mut self, bus: &mut B) -> (result: CycleResult)
        ensures
            old(bus).inv() ==> final(bus).inv(),
            final(bus).frame_clock() == old(bus).frame_clock(),
            final(bus).frame_pending() == old(bus).frame_pending(),
            final(bus).prg() == old(bus).prg(),
            final(self).stage == old(self).stage,
            final(self).addressing_mode == old(self).addressing_mode,
            final(self).instruction_type == old(self).instruction_type,
            final(self).op == old(self).op,
            final(self).interrupt_type == old(self).interrupt_type,
            !(result is Continue),
            spec_at_most_one_store(old(bus).ram(), final(bus).ram()),
            result is EndCycle ==> old(self).stage <= 7,
            final(self).a == old(self).a && final(self).x == old(self).x
                && final(self).y == old(self).y && final(self).sp == old(self).sp,
            result is EndInstruction && spec_rmw_mode(old(self).addressing_mode)
                && old(self).instruction_type is ReadModifyWrite ==>
                final(self).value == old(self).value.wrapping_add(1)
                && final(self).sr == spec_nz(old(self).sr, old(self).value.wrapping_add(1))
                && final(bus).ram() == spec_ram_write(old(bus).ram(), old(self).address, old(self).value.wrapping_add(1)),
            result is EndInstruction && !(old(self).addressing_mode is Relative) ==> final(self).sr == spec_nz(old(self).sr, final(self).value)
                && final(bus).ram() == spec_ram_write(old(bus).ram(), final(self).address, final(self).value),
            !(result is EndInstruction) ==> final(self).sr == old(self).sr,
    {
        let result = self.resolve_addressing(bus);
        match result {
            CycleResult::Continue => {
                self.value = self.value.wrapping_add(1);
                self.write_memory(bus, self.address, self.value);
                self.set_flag(Flags::Zero, self.value == 0);
                self.set_flag(Flags::Negative, (self.value & 0x80) != 0);
                CycleResult::EndInstruction
            }
            _ => result,
        }
    }

    /// BCC: branch when carry is clear. Taken branches cost one extra sub-cycle, two when they cross
    /// a page.
    fn bcc<B: BusOps>(&mut self, bus: &mut B) -> (result: CycleResult)
        ensures
            old(bus).inv() ==> final(bus).inv(),
            final(bus).frame_clock() == old(bus).frame_clock(),
            final(bus).frame_pending() == old(bus).frame_pending(),
            final(bus).prg() == old(bus).prg(),
            final(self).stage == old(self).stage,
            final(self).addressing_mode == old(self).addressing_mode,
            final(self).instruction_type == old(self).instruction_type,
            final(self).op == old(self).op,
            final(self).interrupt_type == old(self).interrupt_type,
            !(result is Continue),
            spec_at_most_one_store(old(bus).ram(), final(bus).ram()),
            result is EndCycle ==> old(self).stage <= 8,
            final(self).a == old(self).a && final(self).x == old(self).x && final(self).y == old(self).y
                && final(self).sp == old(self).sp && final(self).sr == old(self).sr,
            old(self).instruction_type is Branching ==> final(bus).ram() == old(bus).ram(),
            old(self).addressing_mode is Relative && old(self).stage == 2 ==>
                final(self).pc == old(self).pc.wrapping_add(1)
                && (result is EndCycle <==> old(self).sr & 0x01 == 0)
                && (result is EndInstruction <==> !(old(self).sr & 0x01 == 0)),
            old(self).addressing_mode is Relative && old(self).stage == 3 ==>
                (if spec_branch_crossed(old(self).pc, old(self).value) {
                    result is EndCycle && final(self).pc == old(self).pc
                } else {
                    result is EndInstruction
                        && final(self).pc == spec_branch_target(old(self).pc, old(self).value)
                }),
            old(self).addressing_mode is Relative && old(self).stage == 4 ==>
                result is EndInstruction
                && final(self).pc == spec_branch_target(old(self).pc, old(self).value),
            old(self).addressing_mode is Relative && !(2 <= old(self).stage <= 4) ==> result is Error,
    {
        let result = self.resolve_addressing(bus);
        match result {
            CycleResult::Continue => {
                if !self.is_flag_set(Flags::Carry) {
                    CycleResult::EndCycle
                } else {
                    CycleResult::EndInstruction
                }
            }
            _ => result,
        }
    }

    /// BCS: branch when carry is set. Taken branches cost one extra sub-cycle, two when they cross
    /// a page.
    fn bcs<B: BusOps>(&mut self, bus: &mut B) -> (result: CycleResult)
        ensures
            old(bus).inv() ==> final(bus).inv(),
            final(bus).frame_clock() == old(bus).frame_clock(),
            final(bus).frame_pending() == old(bus).frame_pending(),
            final(bus).prg() == old(bus).prg(),
            final(self).stage == old(self).stage,
            final(self).addressing_mode == old(self).addressing_mode,
            final(self).instruction_type == old(self).instruction_type,
            final(self).op == old(self).op,
            final(self).interrupt_type == old(self).interrupt_type,
            !(result is Continue),
            spec_at_most_one_store(old(bus).ram(), final(bus).ram()),
            result is EndCycle ==> old(self).stage <= 8,
            final(self).a == old(self).a && final(self).x == old(self).x && final(self).y == old(self).y
                && final(self).sp == old(self).sp && final(self).sr == old(self).sr,
            old(self).instruction_type is Branching ==> final(bus).ram() == old(bus).ram(),
            old(self).addressing_mode is Relative && old(self).stage == 2 ==>
                final(self).pc == old(self).pc.wrapping_add(1)
                && (result is EndCycle <==> old(self).sr & 0x01 != 0)
                && (result is EndInstruction <==> !(old(self).sr & 0x01 != 0)),
            old(self).addressing_mode is Relative && old(self).stage == 3 ==>
                (if spec_branch_crossed(old(self).pc, old(self).value) {
                    result is EndCycle && final(self).pc == old(self).pc
                } else {
                    result is EndInstruction
                        && final(self).pc == spec_branch_target(old(self).pc, old(self).value)
                }),
            old(self).addressing_mode is Relative && old(self).stage == 4 ==>
                result is EndInstruction
                && final(self).pc == spec_branch_target(old(self).pc, old(self).value),
            old(self).addressing_mode is Relative && !(2 <= old(self).stage <= 4) ==> result is Error,
    {
        let result = self.resolve_addressing(bus);
        match result {
            CycleResult::Continue => {
                if self.is_flag_set(Flags::Carry) {
                    CycleResult::EndCycle
                } else {
                    CycleResult::EndInstruction
                }
            }
            _ => result,
        }
    }

    /// BEQ: branch when zero is set. Taken branches cost one extra sub-cycle, two when they cross
    /// a page.
    fn beq<B: BusOps>(&mut self, bus: &mut B) -> (result: CycleResult)
        ensures
            old(bus).inv() ==> final(bus).inv(),
            final(bus).frame_clock() == old(bus).frame_clock(),
            final(bus).frame_pending() == old(bus).frame_pending(),
            final(bus).prg() == old(bus).prg(),
            final(self).stage == old(self).stage,
            final(self).addressing_mode == old(self).addressing_mode,
            final(self).instruction_type == old(self).instruction_type,
            final(self).op == old(self).op,
            final(self).interrupt_type == old(self).interrupt_type,
            !(result is Continue),
            spec_at_most_one_store(old(bus).ram(), final(bus).ram()),
            result is EndCycle ==> old(self).stage <= 8,
            final(self).a == old(self).a && final(self).x == old(self).x && final(self).y == old(self).y
                && final(self).sp == old(self).sp && final(self).sr == old(self).sr,
            old(self).instruction_type is Branching ==> final(bus).ram() == old(bus).ram(),
            old(self).addressing_mode is Relative && old(self).stage == 2 ==>
                final(self).pc == old(self).pc.wrapping_add(1)
                && (result is EndCycle <==> old(self).sr & 0x02 != 0)
                && (result is EndInstruction <==> !(old(self).sr & 0x02 != 0)),
            old(self).addressing_mode is Relative && old(self).stage == 3 ==>
                (if spec_branch_crossed(old(self).pc, old(self).value) {
                    result is EndCycle && final(self).pc == old(self).pc
                } else {
                    result is EndInstruction
                        && final(self).pc == spec_branch_target(old(self).pc, old(self).value)
                }),
            old(self).addressing_mode is Relative && old(self).stage == 4 ==>
                result is EndInstruction
                && final(self).pc == spec_branch_target(old(self).pc, old(self).value),
            old(self).addressing_mode is Relative && !(2 <= old(self).stage <= 4) ==> result is Error,
    {
        let result = self.resolve_addressing(bus);
        match result {
            CycleResult::Continue => {
                if self.is_flag_set(Flags::Zero) {
                    CycleResult::EndCycle
                } else {
                    CycleResult::EndInstruction
                }
            }
            _ => result,
        }
    }

    /// BNE: branch when zero is clear. Taken branches cost one extra sub-cycle, two when they cross
    /// a page.
    fn bne<B: BusOps>(&mut self, bus: &mut B) -> (result: CycleResult)
        ensures
            old(bus).inv() ==> final(bus).inv(),
            final(bus).frame_clock() == old(bus).frame_clock(),
            final(bus).frame_pending() == old(bus).frame_pending(),
            final(bus).prg() == old(bus).prg(),
            final(self).stage == old(self).stage,
            final(self).addressing_mode == old(self).addressing_mode,
            final(self).instruction_type == old(self).instruction_type,
            final(self).op == old(self).op,
            final(self).interrupt_type == old(self).interrupt_type,
            !(result is Continue),
            spec_at_most_one_store(old(bus).ram(), final(bus).ram()),
            result is EndCycle ==> old(self).stage <= 8,
            final(self).a == old(self).a && final(self).x == old(self).x && final(self).y == old(self).y
                && final(self).sp == old(self).sp && final(self).sr == old(self).sr,
            old(self).instruction_type is Branching ==> final(bus).ram() == old(bus).ram(),
            old(self).addressing_mode is Relative && old(self).stage == 2 ==>
                final(self).pc == old(self).pc.wrapping_add(1)
                && (result is EndCycle <==> old(self).sr & 0x02 == 0)
                && (result is EndInstruction <==> !(old(self).sr & 0x02 == 0)),
            old(self).addressing_mode is Relative && old(self).stage == 3 ==>
                (if spec_branch_crossed(old(self).pc, old(self).value) {
                    result is EndCycle && final(self).pc == old(self).pc
                } else {
                    result is EndInstruction
                        && final(self).pc == spec_branch_target(old(self).pc, old(self).value)
                }),
            old(self).addressing_mode is Relative && old(self).stage == 4 ==>
                result is EndInstruction
                && final(self).pc == spec_branch_target(old(self).pc, old(self).value),
            old(self).addressing_mode is Relative && !(2 <= old(self).stage <= 4) ==> result is Error,
    {
        let result = self.resolve_addressing(bus);
        match result {
            CycleResult::Continue => {
                if !self.is_flag_set(Flags::Zero) {
                    CycleResult::EndCycle
                } else {
                    CycleResult::EndInstruction
                }
            }
            _ => result,
        }
    }

    /// BMI: branch when negative is set. Taken branches cost one extra sub-cycle, two when they cross
    /// a page.
    fn bmi<B: BusOps>(&mut self, bus: &mut B) -> (result: CycleResult)
        ensures
            old(bus).inv() ==> final(bus).inv(),
            final(bus).frame_clock() == old(bus).frame_clock(),
            final(bus).frame_pending() == old(bus).frame_pending(),
            final(bus).prg() == old(bus).prg(),
            final(self).stage == old(self).stage,
            final(self).addressing_mode == old(self).addressing_mode,
            final(self).instruction_type == old(self).instruction_type,
            final(self).op == old(self).op,
            final(self).interrupt_type == old(self).interrupt_type,
            !(result is Continue),
            spec_at_most_one_store(old(bus).ram(), final(bus).ram()),
            result is EndCycle ==> old(self).stage <= 8,
            final(self).a == old(self).a && final(self).x == old(self).x && final(self).y == old(self).y
                && final(self).sp == old(self).sp && final(self).sr == old(self).sr,
            old(self).instruction_type is Branching ==> final(bus).ram() == old(bus).ram(),
            old(self).addressing_mode is Relative && old(self).stage == 2 ==>
                final(self).pc == old(self).pc.wrapping_add(1)
                && (result is EndCycle <==> old(self).sr & 0x80 != 0)
                && (result is EndInstruction <==> !(old(self).sr & 0x80 != 0)),
            old(self).addressing_mode is Relative && old(self).stage == 3 ==>
                (if spec_branch_crossed(old(self).pc, old(self).value) {
                    result is EndCycle && final(self).pc == old(self).pc
                } else {
                    result is EndInstruction
                        && final(self).pc == spec_branch_target(old(self).pc, old(self).value)
                }),
            old(self).addressing_mode is Relative && old(self).stage == 4 ==>
                result is EndInstruction
                && final(self).pc == spec_branch_target(old(self).pc, old(self).value),
            old(self).addressing_mode is Relative && !(2 <= old(self).stage <= 4) ==> result is Error,
    {
        let result = self.resolve_addressing(bus);
        match result {
            CycleResult::Continue => {
                if self.is_flag_set(Flags::Negative) {
                    CycleResult::EndCycle
                } else {
                    CycleResult::EndInstruction
                }
            }
            _ => result,
        }
    }

    /// BPL: branch when negative is clear. Taken branches cost one extra sub-cycle, two when they cross
    /// a page.
    fn bpl<B: BusOps>(&mut self, bus: &mut B) -> (result: CycleResult)
        ensures
            old(bus).inv() ==> final(bus).inv(),
            final(bus).frame_clock() == old(bus).frame_clock(),
            final(bus).frame_pending() == old(bus).frame_pending(),
            final(bus).prg() == old(bus).prg(),
            final(self).stage == old(self).stage,
            final(self).addressing_mode == old(self).addressing_mode,
            final(self).instruction_type == old(self).instruction_type,
            final(self).op == old(self).op,
            final(self).interrupt_type == old(self).interrupt_type,
            !(result is Continue),
            spec_at_most_one_store(old(bus).ram(), final(bus).ram()),
            result is EndCycle ==> old(self).stage <= 8,
            final(self).a == old(self).a && final(self).x == old(self).x && final(self).y == old(self).y
                && final(self).sp == old(self).sp && final(self).sr == old(self).sr,
            old(self).instruction_type is Branching ==> final(bus).ram() == old(bus).ram(),
            old(self).addressing_mode is Relative && old(self).stage == 2 ==>
                final(self).pc == old(self).pc.wrapping_add(1)
                && (result is EndCycle <==> old(self).sr & 0x80 == 0)
                && (result is EndInstruction <==> !(old(self).sr & 0x80 == 0)),
            old(self).addressing_mode is Relative && old(self).stage == 3 ==>
                (if spec_branch_crossed(old(self).pc, old(self).value) {
                    result is EndCycle && final(self).pc == old(self).pc
                } else {
                    result is EndInstruction
                        && final(self).pc == spec_branch_target(old(self).pc, old(self).value)
                }),
            old(self).addressing_mode is Relative && old(self).stage == 4 ==>
                result is EndInstruction
                && final(self).pc == spec_branch_target(old(self).pc, old(self).value),
            old(self).addressing_mode is Relative && !(2 <= old(self).stage <= 4) ==> result is Error,
    {
        let result = self.resolve_addressing(bus);
        match result {
            CycleResult::Continue => {
                if !self.is_flag_set(Flags::Negative) {
                    CycleResult::EndCycle
                } else {
                    CycleResult::EndInstruction
                }
            }
            _ => result,
        }
    }

    /// BVC: branch when overflow is clear. Taken branches cost one extra sub-cycle, two when they cross
    /// a page.
    fn bvc<B: BusOps>(&mut self, bus: &mut B) -> (result: CycleResult)
        ensures
            old(bus).inv() ==> final(bus).inv(),
            final(bus).frame_clock() == old(bus).frame_clock(),
            final(bus).frame_pending() == old(bus).frame_pending(),
            final(bus).prg() == old(bus).prg(),
            final(self).stage == old(self).stage,
            final(self).addressing_mode == old(self).addressing_mode,
            final(self).instruction_type == old(self).instruction_type,
            final(self).op == old(self).op,
            final(self).interrupt_type == old(self).interrupt_type,
            !(result is Continue),
            spec_at_most_one_store(old(bus).ram(), final(bus).ram()),
            result is EndCycle ==> old(self).stage <= 8,
            final(self).a == old(self).a && final(self).x == old(self).x && final(self).y == old(self).y
                && final(self).sp == old(self).sp && final(self).sr == old(self).sr,
            old(self).instruction_type is Branching ==> final(bus).ram() == old(bus).ram(),
            old(self).addressing_mode is Relative && old(self).stage == 2 ==>
                final(self).pc == old(self).pc.wrapping_add(1)
                && (result is EndCycle <==> old(self).sr & 0x40 == 0)
                && (result is EndInstruction <==> !(old(self).sr & 0x40 == 0)),
            old(self).addressing_mode is Relative && old(self).stage == 3 ==>
                (if spec_branch_crossed(old(self).pc, old(self).value) {
                    result is EndCycle && final(self).pc == old(self).pc
                } else {
                    result is EndInstruction
                        && final(self).pc == spec_branch_target(old(self).pc, old(self).value)
                }),
            old(self).addressing_mode is Relative && old(self).stage == 4 ==>
                result is EndInstruction
                && final(self).pc == spec_branch_target(old(self).pc, old(self).value),
            old(self).addressing_mode is Relative && !(2 <= old(self).stage <= 4) ==> result is Error,
    {
        let result = self.resolve_addressing(bus);
        match result {
            CycleResult::Continue => {
                if !self.is_flag_set(Flags::Overflow) {
                    CycleResult::EndCycle
                } else {
                    CycleResult::EndInstruction
                }
            }
            _ => result,
        }
    }

    /// BVS: branch when overflow is set. Taken branches cost one extra sub-cycle, two when they cross
    /// a page.
    fn bvs<B: BusOps>(&mut self, bus: &mut B) -> (result: CycleResult)
        ensures
            old(bus).inv() ==> final(bus).inv(),
            final(bus).frame_clock() == old(bus).frame_clock(),
            final(bus).frame_pending() == old(bus).frame_pending(),
            final(bus).prg() == old(bus).prg(),
            final(self).stage == old(self).stage,
            final(self).addressing_mode == old(self).addressing_mode,
            final(self).instruction_type == old(self).instruction_type,
            final(self).op == old(self).op,
            final(self).interrupt_type == old(self).interrupt_type,
            !(result is Continue),
            spec_at_most_one_store(old(bus).ram(), final(bus).ram()),
            result is EndCycle ==> old(self).stage <= 8,
            final(self).a == old(self).a && final(self).x == old(self).x && final(self).y == old(self).y
                && final(self).sp == old(self).sp && final(self).sr == old(self).sr,
            old(self).instruction_type is Branching ==> final(bus).ram() == old(bus).ram(),
            old(self).addressing_mode is Relative && old(self).stage == 2 ==>
                final(self).pc == old(self).pc.wrapping_add(1)
                && (result is EndCycle <==> old(self).sr & 0x40 != 0)
                && (result is EndInstruction <==> !(old(self).sr & 0x40 != 0)),
            old(self).addressing_mode is Relative && old(self).stage == 3 ==>
                (if spec_branch_crossed(old(self).pc, old(self).value) {
                    result is EndCycle && final(self).pc == old(self).pc
                } else {
                    result is EndInstruction
                        && final(self).pc == spec_branch_target(old(self).pc, old(self).value)
                }),
            old(self).addressing_mode is Relative && old(self).stage == 4 ==>
                result is EndInstruction
                && final(self).pc == spec_branch_target(old(self).pc, old(self).value),
            old(self).addressing_mode is Relative && !(2 <= old(self).stage <= 4) ==> result is Error,
    {
        let result = self.resolve_addressing(bus);
        match result {
            CycleResult::Continue => {
                if self.is_flag_set(Flags::Overflow) {
                    CycleResult::EndCycle
                } else {
                    CycleResult::EndInstruction
                }
            }
            _ => result,
        }
    }

    /// The IRQ entry sequence: push PC high, low, then P with bit 5 set and
    /// bit 4 clear, set the interrupt-disable flag, and load PC from
    /// 0xFFFE/0xFFFF.
    fn irq<B: BusOps>(&mut self, bus: &mut B) -> (result: CycleResult)
        ensures
            old(bus).inv() ==> final(bus).inv(),
            final(bus).frame_clock() == old(bus).frame_clock(),
            final(bus).frame_pending() == old(bus).frame_pending(),
            final(bus).prg() == old(bus).prg(),
            final(bus).prg_banks() == old(bus).prg_banks(),
            final(bus).oam() == old(bus).oam(),
            final(bus).oam_addr() == old(bus).oam_addr(),
            final(self).stage == old(self).stage,
            final(self).addressing_mode == old(self).addressing_mode,
            final(self).instruction_type == old(self).instruction_type,
            final(self).op == old(self).op,
            final(self).interrupt_type == old(self).interrupt_type,
            !(result is Continue),
            spec_at_most_one_store(old(bus).ram(), final(bus).ram()),
            result is EndCycle ==> old(self).stage <= 7,
            final(self).a == old(self).a && final(self).x == old(self).x && final(self).y == old(self).y,
            old(self).stage == 2 ==> result is EndCycle && final(self).pc == old(self).pc
                && final(self).sp == old(self).sp && final(self).sr == old(self).sr
                && final(bus).ram() == old(bus).ram(),
            old(self).stage == 3 ==> result is EndCycle && final(self).pc == old(self).pc
                && final(self).sp == old(self).sp.wrapping_sub(1) && final(self).sr == old(self).sr
                && final(bus).ram() == spec_ram_write(old(bus).ram(), spec_stack_address(old(self).sp), (old(self).pc >> 8u32) as u8),
            old(self).stage == 4 ==> result is EndCycle && final(self).pc == old(self).pc
                && final(self).sp == old(self).sp.wrapping_sub(1) && final(self).sr == old(self).sr
                && final(bus).ram() == spec_ram_write(old(bus).ram(), spec_stack_address(old(self).sp), (old(self).pc & 0xFF) as u8),
            old(self).stage == 5 ==> result is EndCycle && final(self).pc == old(self).pc
                && final(self).sp == old(self).sp.wrapping_sub(1)
                && final(self).sr == spec_set_flag(old(self).sr, 0x04, true)
                && final(bus).ram() == spec_ram_write(old(bus).ram(), spec_stack_address(old(self).sp),
                    spec_set_flag(spec_set_flag(old(self).sr, 0x20, true), 0x10, false)),
            old(self).stage == 6 ==> result is EndCycle && final(self).sp == old(self).sp
                && final(self).sr == old(self).sr && final(bus).ram() == old(bus).ram()
                && final(self).pc == (old(self).pc & 0xFF00)
                    | spec_prg_read(old(bus).prg(), old(bus).prg_banks().1, 0xFFFE) as u16,
            old(self).stage == 7 ==> result is EndInstruction && final(self).sp == old(self).sp
                && final(self).sr == old(self).sr && final(bus).ram() == old(bus).ram()
                && final(self).pc == ((spec_prg_read(old(bus).prg(), old(bus).prg_banks().1, 0xFFFF) as u16) << 8u32)
                    | (old(self).pc & 0xFF),
            !(2 <= old(self).stage <= 7) ==> result is Error,
    {
        proof {
            assert(0xFFFEu16 & 0xC000 == 0xC000 && 0xFFFFu16 & 0xC000 == 0xC000) by (bit_vector);
        }
        match self.stage {
            2 => {
                self.read_memory(bus, self.pc);
                CycleResult::EndCycle
            }
            3 => {
                let stack_value = (self.pc >> 8u32) as u8;
                self.write_stack(bus, stack_value);
                self.sp = self.sp.wrapping_sub(1);
                CycleResult::EndCycle
            }
            4 => {
                let stack_value = (self.pc & 0xFF) as u8;
                self.write_stack(bus, stack_value);
                self.sp = self.sp.wrapping_sub(1);
                CycleResult::EndCycle
            }
            5 => {
                let mut flags_data = self.sr;
                flags_data = flags_data | 0x20;
                flags_data = flags_data & !0x10;
                self.write_stack(bus, flags_data);
                self.sp = self.sp.wrapping_sub(1);
                self.set_flag(Flags::InterruptDisable, true);
                CycleResult::EndCycle
            }
            6 => {
                let address_high = self.pc & 0xFF00;
                let address_low = self.read_memory(bus, 0xFFFE) as u16;

                self.pc = address_high | address_low;
                CycleResult::EndCycle
            }
            7 => {
                let address_high = (self.read_memory(bus, 0xFFFF) as u16) << 8u32;
                let address_low = self.pc & 0xFF;

                self.pc = address_high | address_low;
                CycleResult::EndInstruction
            }
            _ => CycleResult::Error,
        }
    }

    /// The reset sequence: five idle sub-cycles, then PC loads from the
    /// reset vector at 0xFFFC/0xFFFD. Nothing is pushed.
    fn rst<B: BusOps>(&mut self, bus: &mut B) -> (result: CycleResult)
        ensures
            old(bus).inv() ==> final(bus).inv(),
            final(bus).frame_clock() == old(bus).frame_clock(),
            final(bus).frame_pending() == old(bus).frame_pending(),
            final(bus).prg() == old(bus).prg(),
            final(bus).prg_banks() == old(bus).prg_banks(),
            final(bus).oam() == old(bus).oam(),
            final(bus).oam_addr() == old(bus).oam_addr(),
            final(self).stage == old(self).stage,
            final(self).addressing_mode == old(self).addressing_mode,
            final(self).instruction_type == old(self).instruction_type,
            final(self).op == old(self).op,
            final(self).interrupt_type == old(self).interrupt_type,
            !(result is Continue),
            spec_at_most_one_store(old(bus).ram(), final(bus).ram()),
            result is EndCycle ==> old(self).stage <= 7,
            final(self).a == old(self).a && final(self).x == old(self).x && final(self).y == old(self).y
                && final(self).sp == old(self).sp && final(self).sr == old(self).sr,
            final(bus).ram() == old(bus).ram(),
            1 <= old(self).stage <= 6 ==> result is EndCycle,
            old(self).stage == 7 ==> result is EndInstruction,
            old(self).stage == 6 ==> final(self).pc == (old(self).pc & 0xFF00)
                | spec_prg_read(old(bus).prg(), old(bus).prg_banks().1, 0xFFFC) as u16,
            old(self).stage == 7 ==> final(self).pc
                == ((spec_prg_read(old(bus).prg(), old(bus).prg_banks().1, 0xFFFD) as u16) << 8u32)
                | (old(self).pc & 0xFF),
            !(1 <= old(self).stage <= 7) ==> result is Error,
            1 <= old(self).stage <= 5 ==> final(self).pc == old(self).pc,
    {
        proof {
            assert(0xFFFCu16 & 0xC000 == 0xC000 && 0xFFFDu16 & 0xC000 == 0xC000) by (bit_vector);
        }
        match self.stage {
            1 => CycleResult::EndCycle,
            2 => CycleResult::EndCycle,
            3 => CycleResult::EndCycle,
            4 => CycleResult::EndCycle,
            5 => CycleResult::EndCycle,
            6 => {
                let address_high = self.pc & 0xFF00;
                let address_low = self.read_memory(bus, 0xFFFC);

                self.pc = address_high | address_low as u16;
                CycleResult::EndCycle
            }
            7 => {
                let address_high = (self.read_memory(bus, 0xFFFD) as u16) << 8u32;
                let address_low = self.pc & 0xFF;

                self.pc = address_high | address_low;
                CycleResult::EndInstruction
            }
            _ => CycleResult::Error,
        }
    }

    /// BRK: like IRQ, but PC has already stepped past the padding byte and
    /// P is pushed with bits 5 and 4 both set.
    fn brk<B: BusOps>(&mut self, bus: &mut B) -> (result: CycleResult)
        ensures
            old(bus).inv() ==> final(bus).inv(),
            final(bus).frame_clock() == old(bus).frame_clock(),
            final(bus).frame_pending() == old(bus).frame_pending(),
            final(bus).prg() == old(bus).prg(),
            final(bus).prg_banks() == old(bus).prg_banks(),
            final(bus).oam() == old(bus).oam(),
            final(bus).oam_addr() == old(bus).oam_addr(),
            final(self).stage == old(self).stage,
            final(self).addressing_mode == old(self).addressing_mode,
            final(self).instruction_type == old(self).instruction_type,
            final(self).op == old(self).op,
            final(self).interrupt_type == old(self).interrupt_type,
            !(result is Continue),
            spec_at_most_one_store(old(bus).ram(), final(bus).ram()),
            result is EndCycle ==> old(self).stage <= 7,
            final(self).a == old(self).a && final(self).x == old(self).x && final(self).y == old(self).y,
            old(self).stage == 2 ==> result is EndCycle && final(self).pc == old(self).pc.wrapping_add(1)
                && final(self).sp == old(self).sp && final(self).sr == old(self).sr
                && final(bus).ram() == old(bus).ram(),
            old(self).stage == 3 ==> result is EndCycle && final(self).pc == old(self).pc
                && final(self).sp == old(self).sp.wrapping_sub(1) && final(self).sr == old(self).sr
                && final(bus).ram() == spec_ram_write(old(bus).ram(), spec_stack_address(old(self).sp), (old(self).pc >> 8u32) as u8),
            old(self).stage == 4 ==> result is EndCycle && final(self).pc == old(self).pc
                && final(self).sp == old(self).sp.wrapping_sub(1) && final(self).sr == old(self).sr
                && final(bus).ram() == spec_ram_write(old(bus).ram(), spec_stack_address(old(self).sp), (old(self).pc & 0xFF) as u8),
            old(self).stage == 5 ==> result is EndCycle && final(self).pc == old(self).pc
                && final(self).sp == old(self).sp.wrapping_sub(1)
                && final(self).sr == spec_set_flag(old(self).sr, 0x04, true)
                && final(bus).ram() == spec_ram_write(old(bus).ram(), spec_stack_address(old(self).sp),
                    old(self).sr | 0x30),
            old(self).stage == 6 ==> result is EndCycle && final(self).sp == old(self).sp
                && final(self).sr == old(self).sr && final(bus).ram() == old(bus).ram()
                && final(self).pc == (old(self).pc & 0xFF00)
                    | spec_prg_read(old(bus).prg(), old(bus).prg_banks().1, 0xFFFE) as u16,
            old(self).stage == 7 ==> result is EndInstruction && final(self).sp == old(self).sp
                && final(self).sr == old(self).sr && final(bus).ram() == old(bus).ram()
                && final(self).pc == ((spec_prg_read(old(bus).prg(), old(bus).prg_banks().1, 0xFFFF) as u16) << 8u32)
                    | (old(self).pc & 0xFF),
            !(2 <= old(self).stage <= 7) ==> result is Error,
    {
        proof {
            assert(0xFFFEu16 & 0xC000 == 0xC000 && 0xFFFFu16 & 0xC000 == 0xC000) by (bit_vector);
        }
        match self.stage {
            2 => {
                self.read_memory(bus, self.pc);
                self.pc = self.pc.wrapping_add(1);
                CycleResult::EndCycle
            }
            3 => {
                let stack_value = (self.pc >> 8u32) as u8;
                self.write_stack(bus, stack_value);
                self.sp = self.sp.wrapping_sub(1);
                CycleResult::EndCycle
            }
            4 => {
                let stack_value = (self.pc & 0xFF) as u8;
                self.write_stack(bus, stack_value);
                self.sp = self.sp.wrapping_sub(1);
                CycleResult::EndCycle
            }
            5 => {
                let stack_value = self.sr | 0x30;
                self.write_stack(bus, stack_value);
                self.sp = self.sp.wrapping_sub(1);
                self.set_flag(Flags::InterruptDisable, true);
                CycleResult::EndCycle
            }
            6 => {
                let address_high = self.pc & 0xFF00;
                let address_low = self.read_memory(bus, 0xFFFE) as u16;
                self.pc = address_high | address_low;
                CycleResult::EndCycle
            }
            7 => {
                let address_high = (self.read_memory(bus, 0xFFFF) as u16) << 8u32;
                let address_low = self.pc & 0xFF;
                self.pc = address_high | address_low;
                CycleResult::EndInstruction
            }
            _ => CycleResult::Error,
        }
    }

    /// NMI entry: the same stack frame as IRQ, with the vector at
    /// 0xFFFA/0xFFFB.
    fn nmi<B: BusOps>(&mut self, bus: &mut B) -> (result: CycleResult)
        ensures
            old(bus).inv() ==> final(bus).inv(),
            final(bus).frame_clock() == old(bus).frame_clock(),
            final(bus).frame_pending() == old(bus).frame_pending(),
            final(bus).prg() == old(bus).prg(),
            final(bus).prg_banks() == old(bus).prg_banks(),
            final(bus).oam() == old(bus).oam(),
            final(bus).oam_addr() == old(bus).oam_addr(),
            final(self).stage == old(self).stage,
            final(self).addressing_mode == old(self).addressing_mode,
            final(self).instruction_type == old(self).instruction_type,
            final(self).op == old(self).op,
            final(self).interrupt_type == old(self).interrupt_type,
            !(result is Continue),
            spec_at_most_one_store(old(bus).ram(), final(bus).ram()),
            result is EndCycle ==> old(self).stage <= 7,
            final(self).a == old(self).a && final(self).x == old(self).x && final(self).y == old(self).y,
            old(self).stage == 2 ==> result is EndCycle && final(self).pc == old(self).pc
                && final(self).sp == old(self).sp && final(self).sr == old(self).sr
                && final(bus).ram() == old(bus).ram(),
            old(self).stage == 3 ==> result is EndCycle && final(self).pc == old(self).pc
                && final(self).sp == old(self).sp.wrapping_sub(1) && final(self).sr == old(self).sr
                && final(bus).ram() == spec_ram_write(old(bus).ram(), spec_stack_address(old(self).sp), (old(self).pc >> 8u32) as u8),
            old(self).stage == 4 ==> result is EndCycle && final(self).pc == old(self).pc
                && final(self).sp == old(self).sp.wrapping_sub(1) && final(self).sr == old(self).sr
                && final(bus).ram() == spec_ram_write(old(bus).ram(), spec_stack_address(old(self).sp), (old(self).pc & 0xFF) as u8),
            old(self).stage == 5 ==> result is EndCycle && final(self).pc == old(self).pc
                && final(self).sp == old(self).sp.wrapping_sub(1)
                && final(self).sr == spec_set_flag(old(self).sr, 0x04, true)
                && final(bus).ram() == spec_ram_write(old(bus).ram(), spec_stack_address(old(self).sp),
                    spec_set_flag(spec_set_flag(old(self).sr, 0x20, true), 0x10, false)),
            old(self).stage == 6 ==> result is EndCycle && final(self).sp == old(self).sp
                && final(self).sr == old(self).sr && final(bus).ram() == old(bus).ram()
                && final(self).pc == (old(self).pc & 0xFF00)
                    | spec_prg_read(old(bus).prg(), old(bus).prg_banks().1, 0xFFFA) as u16,
            old(self).stage == 7 ==> result is EndInstruction && final(self).sp == old(self).sp
                && final(self).sr == old(self).sr && final(bus).ram() == old(bus).ram()
                && final(self).pc == ((spec_prg_read(old(bus).prg(), old(bus).prg_banks().1, 0xFFFB) as u16) << 8u32)
                    | (old(self).pc & 0xFF),
            !(2 <= old(self).stage <= 7) ==> result is Error,
    {
        proof {
            assert(0xFFFAu16 & 0xC000 == 0xC000 && 0xFFFBu16 & 0xC000 == 0xC000) by (bit_vector);
        }
        match self.stage {
            2 => {
                self.read_memory(bus, self.pc);
                CycleResult::EndCycle
            }
            3 => {
                self.write_stack(bus, (self.pc >> 8u32) as u8);
                self.sp = self.sp.wrapping_sub(1);
                CycleResult::EndCycle
            }
            4 => {
                self.write_stack(bus, (self.pc & 0xFF) as u8);
                self.sp = self.sp.wrapping_sub(1);
                CycleResult::EndCycle
            }
            5 => {
                let mut flags_data = self.sr;
                flags_data = flags_data | 0x20;
                flags_data = flags_data & !0x10;
                self.write_stack(bus, flags_data);
                self.sp = self.sp.wrapping_sub(1);
                self.set_flag(Flags::InterruptDisable, true);
                CycleResult::EndCycle
            }
            6 => {
                let address_high = self.pc & 0xFF00;
                let address_low = self.read_memory(bus, 0xFFFA);
                self.pc = address_high | address_low as u16;
                CycleResult::EndCycle
            }
            7 => {
                let address_high = (self.read_memory(bus, 0xFFFB) as u16) << 8u32;
                let address_low = self.pc & 0xFF;
                self.pc = address_high | address_low;
                CycleResult::EndInstruction
            }
            _ => CycleResult::Error,
        }
    }

    /// RTI: pull P (bit 5 forced on, bit 4 forced off), then PC low and
    /// high, from the stack.
    fn rti<B: BusOps>(&mut self, bus: &mut B) -> (result: CycleResult)
        ensures
            old(bus).inv() ==> final(bus).inv(),
            final(bus).frame_clock() == old(bus).frame_clock(),
            final(bus).frame_pending() == old(bus).frame_pending(),
            final(bus).prg() == old(bus).prg(),
            final(bus).prg_banks() == old(bus).prg_banks(),
            final(bus).oam() == old(bus).oam(),
            final(bus).oam_addr() == old(bus).oam_addr(),
            final(self).stage == old(self).stage,
            final(self).addressing_mode == old(self).addressing_mode,
            final(self).instruction_type == old(self).instruction_type,
            final(self).op == old(self).op,
            final(self).interrupt_type == old(self).interrupt_type,
            !(result is Continue),
            spec_at_most_one_store(old(bus).ram(), final(bus).ram()),
            result is EndCycle ==> old(self).stage <= 7,
            final(self).a == old(self).a && final(self).x == old(self).x && final(self).y == old(self).y,
            final(bus).ram() == old(bus).ram(),
            old(self).stage == 2 ==> result is EndCycle && final(self).pc == old(self).pc
                && final(self).sp == old(self).sp && final(self).sr == old(self).sr,
            old(self).stage == 3 ==> result is EndCycle && final(self).pc == old(self).pc
                && final(self).sp == old(self).sp.wrapping_add(1) && final(self).sr == old(self).sr,
            old(self).stage == 4 ==> result is EndCycle && final(self).pc == old(self).pc
                && final(self).sp == old(self).sp.wrapping_add(1)
                && final(self).sr == spec_pull_status(spec_ram_read(old(bus).ram(), spec_stack_address(old(self).sp))),
            old(self).stage == 5 ==> result is EndCycle
                && final(self).pc == (old(self).pc & 0xFF00) | spec_ram_read(old(bus).ram(), spec_stack_address(old(self).sp)) as u16
                && final(self).sp == old(self).sp.wrapping_add(1) && final(self).sr == old(self).sr,
            old(self).stage == 6 ==> result is EndInstruction
                && final(self).pc == ((spec_ram_read(old(bus).ram(), spec_stack_address(old(self).sp)) as u16) << 8u32) | (old(self).pc & 0xFF)
                && final(self).sp == old(self).sp && final(self).sr == old(self).sr,
            !(2 <= old(self).stage <= 6) ==> result is Error,
    {
        match self.stage {
            2 => {
                self.read_memory(bus, self.pc);
                CycleResult::EndCycle
            }
            3 => {
                self.sp = self.sp.wrapping_add(1);
                CycleResult::EndCycle
            }
            4 => {
                self.sr = self.read_stack(bus);
                self.set_flag(Flags::BFlag1, true);
                self.set_flag(Flags::BFlag2, false);
                self.sp = self.sp.wrapping_add(1);
                CycleResult::EndCycle
            }
            5 => {
                let address_high = self.pc & 0xFF00;
                let address_low = self.read_stack(bus) as u16;
                self.pc = address_high | address_low;
                self.sp = self.sp.wrapping_add(1);
                CycleResult::EndCycle
            }
            6 => {
                let address_high = (self.read_stack(bus) as u16) << 8u32;
                let address_low = self.pc & 0xFF;
                self.pc = address_high | address_low;
                CycleResult::EndInstruction
            }
            _ => CycleResult::Error,
        }
    }

    /// RTS: pull PC from the stack, then step past the return address.
    fn rts<B: BusOps>(&mut self, bus: &mut B) -> (result: CycleResult)
        ensures
            old(bus).inv() ==> final(bus).inv(),
            final(bus).frame_clock() == old(bus).frame_clock(),
            final(bus).frame_pending() == old(bus).frame_pending(),
            final(bus).prg() == old(bus).prg(),
            final(bus).prg_banks() == old(bus).prg_banks(),
            final(bus).oam() == old(bus).oam(),
            final(bus).oam_addr() == old(bus).oam_addr(),
            final(self).stage == old(self).stage,
            final(self).addressing_mode == old(self).addressing_mode,
            final(self).instruction_type == old(self).instruction_type,
            final(self).op == old(self).op,
            final(self).interrupt_type == old(self).interrupt_type,
            !(result is Continue),
            spec_at_most_one_store(old(bus).ram(), final(bus).ram()),
            result is EndCycle ==> old(self).stage <= 7,
            final(self).a == old(self).a && final(self).x == old(self).x && final(self).y == old(self).y
                && final(self).sr == old(self).sr,
            final(bus).ram() == old(bus).ram(),
            old(self).stage == 2 ==> result is EndCycle && final(self).pc == old(self).pc
                && final(self).sp == old(self).sp,
            old(self).stage == 3 ==> result is EndCycle && final(self).pc == old(self).pc
                && final(self).sp == old(self).sp.wrapping_add(1),
            old(self).stage == 4 ==> result is EndCycle
                && final(self).pc == (old(self).pc & 0xFF00) | spec_ram_read(old(bus).ram(), spec_stack_address(old(self).sp)) as u16
                && final(self).sp == old(self).sp.wrapping_add(1),
            old(self).stage == 5 ==> result is EndCycle
                && final(self).pc == ((spec_ram_read(old(bus).ram(), spec_stack_address(old(self).sp)) as u16) << 8u32) | (old(self).pc & 0xFF)
                && final(self).sp == old(self).sp,
            old(self).stage == 6 ==> result is EndInstruction
                && final(self).pc == old(self).pc.wrapping_add(1) && final(self).sp == old(self).sp,
            !(2 <= old(self).stage <= 6) ==> result is Error,
    {
        match self.stage {
            2 => {
                self.read_memory(bus, self.pc);
                CycleResult::EndCycle
            }
            3 => {
                self.sp = self.sp.wrapping_add(1);
                CycleResult::EndCycle
            }
            4 => {
                let address_high = self.pc & 0xFF00;
                let address_low = self.read_stack(bus) as u16;
                self.pc = address_high | address_low;
                self.sp = self.sp.wrapping_add(1);
                return CycleResult::EndCycle;
            }
            5 => {
                let address_high = (self.read_stack(bus) as u16) << 8u32;
                let address_low = self.pc & 0xFF;
                self.pc = address_high | address_low;
                CycleResult::EndCycle
            }
            6 => {
                self.pc = self.pc.wrapping_add(1);
                CycleResult::EndInstruction
            }
            _ => CycleResult::Error,
        }
    }

    /// PHA: push the accumulator.
    fn pha<B: BusOps>(&mut self, bus: &mut B) -> (result: CycleResult)
        ensures
            old(bus).inv() ==> final(bus).inv(),
            final(bus).frame_clock() == old(bus).frame_clock(),
            final(bus).frame_pending() == old(bus).frame_pending(),
            final(bus).prg() == old(bus).prg(),
            final(bus).prg_banks() == old(bus).prg_banks(),
            final(bus).oam() == old(bus).oam(),
            final(bus).oam_addr() == old(bus).oam_addr(),
            final(self).stage == old(self).stage,
            final(self).addressing_mode == old(self).addressing_mode,
            final(self).instruction_type == old(self).instruction_type,
            final(self).op == old(self).op,
            final(self).interrupt_type == old(self).interrupt_type,
            !(result is Continue),
            spec_at_most_one_store(old(bus).ram(), final(bus).ram()),
            result is EndCycle ==> old(self).stage <= 7,
            final(self).a == old(self).a && final(self).x == old(self).x && final(self).y == old(self).y
                && final(self).sr == old(self).sr && final(self).pc == old(self).pc,
            old(self).stage == 2 ==> result is EndCycle && final(self).sp == old(self).sp
                && final(bus).ram() == old(bus).ram(),
            old(self).stage == 3 ==> result is EndInstruction
                && final(self).sp == old(self).sp.wrapping_sub(1)
                && final(bus).ram() == spec_ram_write(old(bus).ram(), spec_stack_address(old(self).sp), old(self).a),
            !(2 <= old(self).stage <= 3) ==> result is Error && final(bus).ram() == old(bus).ram(),
    {
        match self.stage {
            2 => {
                self.read_memory(bus, self.pc);
                CycleResult::EndCycle
            }
            3 => {
                self.write_stack(bus, self.a);
                self.sp = self.sp.wrapping_sub(1);
                CycleResult::EndInstruction
            }
            _ => CycleResult::Error,
        }
    }

    /// PHP: push P with bits 5 and 4 both set.
    fn php<B: BusOps>(&mut self, bus: &mut B) -> (result: CycleResult)
        ensures
            old(bus).inv() ==> final(bus).inv(),
            final(bus).frame_clock() == old(bus).frame_clock(),
            final(bus).frame_pending() == old(bus).frame_pending(),
            final(bus).prg() == old(bus).prg(),
            final(bus).prg_banks() == old(bus).prg_banks(),
            final(bus).oam() == old(bus).oam(),
            final(bus).oam_addr() == old(bus).oam_addr(),
            final(self).stage == old(self).stage,
            final(self).addressing_mode == old(self).addressing_mode,
            final(self).instruction_type == old(self).instruction_type,
            final(self).op == old(self).op,
            final(self).interrupt_type == old(self).interrupt_type,
            !(result is Continue),
            spec_at_most_one_store(old(bus).ram(), final(bus).ram()),
            result is EndCycle ==> old(self).stage <= 7,
            final(self).a == old(self).a && final(self).x == old(self).x && final(self).y == old(self).y
                && final(self).sr == old(self).sr && final(self).pc == old(self).pc,
            old(self).stage == 2 ==> result is EndCycle && final(self).sp == old(self).sp
                && final(bus).ram() == old(bus).ram(),
            old(self).stage == 3 ==> result is EndInstruction
                && final(self).sp == old(self).sp.wrapping_sub(1)
                && final(bus).ram() == spec_ram_write(old(bus).ram(), spec_stack_address(old(self).sp), old(self).sr | 0x30),
            !(2 <= old(self).stage <= 3) ==> result is Error && final(bus).ram() == old(bus).ram(),
    {
        match self.stage {
            2 => {
                self.read_memory(bus, self.pc);
                CycleResult::EndCycle
            }
            3 => {
                let mut value = self.sr;
                value = value | 0x30;
                self.write_stack(bus, value);
                self.sp = self.sp.wrapping_sub(1);
                CycleResult::EndInstruction
            }
            _ => CycleResult::Error,
        }
    }

    /// PLA: pull the accumulator; N and Z follow the pulled byte.
    fn pla<B: BusOps>(&mut self, bus: &mut B) -> (result: CycleResult)
        ensures
            old(bus).inv() ==> final(bus).inv(),
            final(bus).frame_clock() == old(bus).frame_clock(),
            final(bus).frame_pending() == old(bus).frame_pending(),
            final(bus).prg() == old(bus).prg(),
            final(bus).prg_banks() == old(bus).prg_banks(),
            final(bus).oam() == old(bus).oam(),
            final(bus).oam_addr() == old(bus).oam_addr(),
            final(self).stage == old(self).stage,
            final(self).addressing_mode == old(self).addressing_mode,
            final(self).instruction_type == old(self).instruction_type,
            final(self).op == old(self).op,
            final(self).interrupt_type == old(self).interrupt_type,
            !(result is Continue),
            spec_at_most_one_store(old(bus).ram(), final(bus).ram()),
            result is EndCycle ==> old(self).stage <= 7,
            final(self).x == old(self).x && final(self).y == old(self).y && final(self).pc == old(self).pc,
            final(bus).ram() == old(bus).ram(),
            old(self).stage == 2 ==> result is EndCycle && final(self).sp == old(self).sp
                && final(self).a == old(self).a && final(self).sr == old(self).sr,
            old(self).stage == 3 ==> result is EndCycle && final(self).sp == old(self).sp.wrapping_add(1)
                && final(self).a == old(self).a && final(self).sr == old(self).sr,
            old(self).stage == 4 ==> result is EndInstruction && final(self).sp == old(self).sp
                && final(self).a == spec_ram_read(old(bus).ram(), spec_stack_address(old(self).sp))
                && final(self).sr == spec_nz(old(self).sr, spec_ram_read(old(bus).ram(), spec_stack_address(old(self).sp))),
            !(2 <= old(self).stage <= 4) ==> result is Error,
    {
        match self.stage {
            2 => {
                self.read_memory(bus, self.pc);
                CycleResult::EndCycle
            }
            3 => {
                self.sp = self.sp.wrapping_add(1);
                CycleResult::EndCycle
            }
            4 => {
                self.a = self.read_stack(bus);
                self.set_flag(Flags::Zero, self.a == 0);
                self.set_flag(Flags::Negative, (self.a & 0x80) != 0);
                CycleResult::EndInstruction
            }
            _ => CycleResult::Error,
        }
    }

    /// PLP: pull P; bit 5 reads back as 1 and bit 4 as 0.
    fn plp<B: BusOps>(&mut self, bus: &mut B) -> (result: CycleResult)
        ensures
            old(bus).inv() ==> final(bus).inv(),
            final(bus).frame_clock() == old(bus).frame_clock(),
            final(bus).frame_pending() == old(bus).frame_pending(),
            final(bus).prg() == old(bus).prg(),
            final(bus).prg_banks() == old(bus).prg_banks(),
            final(bus).oam() == old(bus).oam(),
            final(bus).oam_addr() == old(bus).oam_addr(),
            final(self).stage == old(self).stage,
            final(self).addressing_mode == old(self).addressing_mode,
            final(self).instruction_type == old(self).instruction_type,
            final(self).op == old(self).op,
            final(self).interrupt_type == old(self).interrupt_type,
            !(result is Continue),
            spec_at_most_one_store(old(bus).ram(), final(bus).ram()),
            result is EndCycle ==> old(self).stage <= 7,
            final(self).a == old(self).a && final(self).x == old(self).x && final(self).y == old(self).y
                && final(self).pc == old(self).pc,
            final(bus).ram() == old(bus).ram(),
            old(self).stage == 2 ==> result is EndCycle && final(self).sp == old(self).sp
                && final(self).sr == old(self).sr,
            old(self).stage == 3 ==> result is EndCycle && final(self).sp == old(self).sp.wrapping_add(1)
                && final(self).sr == old(self).sr,
            old(self).stage == 4 ==> result is EndInstruction && final(self).sp == old(self).sp
                && final(self).sr == spec_pull_status(spec_ram_read(old(bus).ram(), spec_stack_address(old(self).sp))),
            !(2 <= old(self).stage <= 4) ==> result is Error,
    {
        match self.stage {
            2 => {
                self.read_memory(bus, self.pc);
                CycleResult::EndCycle
            }
            3 => {
                self.sp = self.sp.wrapping_add(1);
                CycleResult::EndCycle
            }
            4 => {
                self.sr = self.read_stack(bus);
                self.set_flag(Flags::BFlag1, true);
                self.set_flag(Flags::BFlag2, false);
                CycleResult::EndInstruction
            }
            _ => CycleResult::Error,
        }
    }

    /// JSR: push the address of the last operand byte, then jump.
    fn jsr<B: BusOps>(&mut self, bus: &mut B) -> (result: CycleResult)
        ensures
            old(bus).inv() ==> final(bus).inv(),
            final(bus).frame_clock() == old(bus).frame_clock(),
            final(bus).frame_pending() == old(bus).frame_pending(),
            final(bus).prg() == old(bus).prg(),
            final(bus).prg_banks() == old(bus).prg_banks(),
            final(bus).oam() == old(bus).oam(),
            final(bus).oam_addr() == old(bus).oam_addr(),
            final(self).stage == old(self).stage,
            final(self).addressing_mode == old(self).addressing_mode,
            final(self).instruction_type == old(self).instruction_type,
            final(self).op == old(self).op,
            final(self).interrupt_type == old(self).interrupt_type,
            !(result is Continue),
            spec_at_most_one_store(old(bus).ram(), final(bus).ram()),
            result is EndCycle ==> old(self).stage <= 7,
            final(self).a == old(self).a && final(self).x == old(self).x && final(self).y == old(self).y
                && final(self).sr == old(self).sr,
            old(self).stage == 2 ==> result is EndCycle && final(self).pc == old(self).pc.wrapping_add(1)
                && final(self).sp == old(self).sp && final(bus).ram() == old(bus).ram()
                && (old(self).pc < 0x2000 ==> final(self).address
                    == (old(self).address & 0xFF00) | spec_ram_read(old(bus).ram(), old(self).pc) as u16),
            old(self).stage == 3 ==> result is EndCycle && final(self).pc == old(self).pc
                && final(self).sp == old(self).sp && final(bus).ram() == old(bus).ram(),
            old(self).stage == 4 ==> result is EndCycle && final(self).pc == old(self).pc
                && final(self).sp == old(self).sp.wrapping_sub(1)
                && final(bus).ram() == spec_ram_write(old(bus).ram(), spec_stack_address(old(self).sp), (old(self).pc >> 8u32) as u8),
            old(self).stage == 5 ==> result is EndCycle && final(self).pc == old(self).pc
                && final(self).sp == old(self).sp.wrapping_sub(1)
                && final(bus).ram() == spec_ram_write(old(bus).ram(), spec_stack_address(old(self).sp), (old(self).pc & 0xFF) as u8),
            old(self).stage == 6 ==> result is EndInstruction && final(self).sp == old(self).sp
                && final(bus).ram() == old(bus).ram()
                && (old(self).pc < 0x2000 ==> final(self).pc
                    == ((spec_ram_read(old(bus).ram(), old(self).pc) as u16) << 8u32) | (old(self).address & 0xFF)),
            !(2 <= old(self).stage <= 6) ==> result is Error,
    {
        match self.stage {
            2 => {
                let address_high = self.address & 0xFF00;
                let address_low = self.read_memory(bus, self.pc) as u16;
                self.address = address_high | address_low;
                self.pc = self.pc.wrapping_add(1);
                CycleResult::EndCycle
            }
            3 => CycleResult::EndCycle,
            4 => {
                let stack_value = (self.pc >> 8u32) as u8;
                self.write_stack(bus, stack_value);
                self.sp = self.sp.wrapping_sub(1);
                CycleResult::EndCycle
            }
            5 => {
                let stack_value = (self.pc & 0xFF) as u8;
                self.write_stack(bus, stack_value);
                self.sp = self.sp.wrapping_sub(1);
                CycleResult::EndCycle
            }
            6 => {
                let address_high = (self.read_memory(bus, self.pc) as u16) << 8u32;
                let address_low = self.address & 0xFF;
                self.address = address_high | address_low;
                self.pc = self.address;
                CycleResult::EndInstruction
            }
            _ => CycleResult::Error,
        }
    }


    /// A freeze opcode: the core halts.
    fn stp<B: BusOps>(&mut self, bus: &mut B) -> (result: CycleResult)
        ensures
            old(bus).inv() ==> final(bus).inv(),
            final(bus).frame_clock() == old(bus).frame_clock(),
            final(bus).frame_pending() == old(bus).frame_pending(),
            final(bus).prg() == old(bus).prg(),
            result is Error,
            *final(self) == *old(self),
            *final(bus) == *old(bus),
    {
        CycleResult::Error
    }

    /// An undefined illegal opcode: treated as a halt.
    fn anc<B: BusOps>(&mut self, bus: &mut B) -> (result: CycleResult)
        ensures
            old(bus).inv() ==> final(bus).inv(),
            final(bus).frame_clock() == old(bus).frame_clock(),
            final(bus).frame_pending() == old(bus).frame_pending(),
            final(bus).prg() == old(bus).prg(),
            result is Error,
            *final(self) == *old(self),
            *final(bus) == *old(bus),
    {
        CycleResult::Error
    }

    /// An undefined illegal opcode: treated as a halt.
    fn slo<B: BusOps>(&mut self, bus: &mut B) -> (result: CycleResult)
        ensures
            old(bus).inv() ==> final(bus).inv(),
            final(bus).frame_clock() == old(bus).frame_clock(),
            final(bus).frame_pending() == old(bus).frame_pending(),
            final(bus).prg() == old(bus).prg(),
            result is Error,
            *final(self) == *old(self),
            *final(bus) == *old(bus),
    {
        CycleResult::Error
    }

    /// An undefined illegal opcode: treated as a halt.
    fn rla<B: BusOps>(&mut self, bus: &mut B) -> (result: CycleResult)
        ensures
            old(bus).inv() ==> final(bus).inv(),
            final(bus).frame_clock() == old(bus).frame_clock(),
            final(bus).frame_pending() == old(bus).frame_pending(),
            final(bus).prg() == old(bus).prg(),
            result is Error,
            *final(self) == *old(self),
            *final(bus) == *old(bus),
    {
        CycleResult::Error
    }

    /// An undefined illegal opcode: treated as a halt.
    fn sre<B: BusOps>(&mut self, bus: &mut B) -> (result: CycleResult)
        ensures
            old(bus).inv() ==> final(bus).inv(),
            final(bus).frame_clock() == old(bus).frame_clock(),
            final(bus).frame_pending() == old(bus).frame_pending(),
            final(bus).prg() == old(bus).prg(),
            result is Error,
            *final(self) == *old(self),
            *final(bus) == *old(bus),
    {
        CycleResult::Error
    }

    /// An undefined illegal opcode: treated as a halt.
    fn alr<B: BusOps>(&mut self, bus: &mut B) -> (result: CycleResult)
        ensures
            old(bus).inv() ==> final(bus).inv(),
            final(bus).frame_clock() == old(bus).frame_clock(),
            final(bus).frame_pending() == old(bus).frame_pending(),
            final(bus).prg() == old(bus).prg(),
            result is Error,
            *final(self) == *old(self),
            *final(bus) == *old(bus),
    {
        CycleResult::Error
    }

    /// An undefined illegal opcode: treated as a halt.
    fn rra<B: BusOps>(&mut self, bus: &mut B) -> (result: CycleResult)
        ensures
            old(bus).inv() ==> final(bus).inv(),
            final(bus).frame_clock() == old(bus).frame_clock(),
            final(bus).frame_pending() == old(bus).frame_pending(),
            final(bus).prg() == old(bus).prg(),
            result is Error,
            *final(self) == *old(self),
            *final(bus) == *old(bus),
    {
        CycleResult::Error
    }

    /// An undefined illegal opcode: treated as a halt.
    fn arr<B: BusOps>(&mut self, bus: &mut B) -> (result: CycleResult)
        ensures
            old(bus).inv() ==> final(bus).inv(),
            final(bus).frame_clock() == old(bus).frame_clock(),
            final(bus).frame_pending() == old(bus).frame_pending(),
            final(bus).prg() == old(bus).prg(),
            result is Error,
            *final(self) == *old(self),
            *final(bus) == *old(bus),
    {
        CycleResult::Error
    }

    /// An undefined illegal opcode: treated as a halt.
    fn sax<B: BusOps>(&mut self, bus: &mut B) -> (result: CycleResult)
        ensures
            old(bus).inv() ==> final(bus).inv(),
            final(bus).frame_clock() == old(bus).frame_clock(),
            final(bus).frame_pending() == old(bus).frame_pending(),
            final(bus).prg() == old(bus).prg(),
            result is Error,
            *final(self) == *old(self),
            *final(bus) == *old(bus),
    {
        CycleResult::Error
    }

    /// An undefined illegal opcode: treated as a halt.
    fn xaa<B: BusOps>(&mut self, bus: &mut B) -> (result: CycleResult)
        ensures
            old(bus).inv() ==> final(bus).inv(),
            final(bus).frame_clock() == old(bus).frame_clock(),
            final(bus).frame_pending() == old(bus).frame_pending(),
            final(bus).prg() == old(bus).prg(),
            result is Error,
            *final(self) == *old(self),
            *final(bus) == *old(bus),
    {
        CycleResult::Error
    }

    /// An undefined illegal opcode: treated as a halt.
    fn ahx<B: BusOps>(&mut self, bus: &mut B) -> (result: CycleResult)
        ensures
            old(bus).inv() ==> final(bus).inv(),
            final(bus).frame_clock() == old(bus).frame_clock(),
            final(bus).frame_pending() == old(bus).frame_pending(),
            final(bus).prg() == old(bus).prg(),
            result is Error,
            *final(self) == *old(self),
            *final(bus) == *old(bus),
    {
        CycleResult::Error
    }

    /// An undefined illegal opcode: treated as a halt.
    fn tas<B: BusOps>(&mut self, bus: &mut B) -> (result: CycleResult)
        ensures
            old(bus).inv() ==> final(bus).inv(),
            final(bus).frame_clock() == old(bus).frame_clock(),
            final(bus).frame_pending() == old(bus).frame_pending(),
            final(bus).prg() == old(bus).prg(),
            result is Error,
            *final(self) == *old(self),
            *final(bus) == *old(bus),
    {
        CycleResult::Error
    }

    /// An undefined illegal opcode: treated as a halt.
    fn shy<B: BusOps>(&mut self, bus: &mut B) -> (result: CycleResult)
        ensures
            old(bus).inv() ==> final(bus).inv(),
            final(bus).frame_clock() == old(bus).frame_clock(),
            final(bus).frame_pending() == old(bus).frame_pending(),
            final(bus).prg() == old(bus).prg(),
            result is Error,
            *final(self) == *old(self),
            *final(bus) == *old(bus),
    {
        CycleResult::Error
    }

    /// An undefined illegal opcode: treated as a halt.
    fn shx<B: BusOps>(&mut self, bus: &mut B) -> (result: CycleResult)
        ensures
            old(bus).inv() ==> final(bus).inv(),
            final(bus).frame_clock() == old(bus).frame_clock(),
            final(bus).frame_pending() == old(bus).frame_pending(),
            final(bus).prg() == old(bus).prg(),
            result is Error,
            *final(self) == *old(self),
            *final(bus) == *old(bus),
    {
        CycleResult::Error
    }

    /// An undefined illegal opcode: treated as a halt.
    fn lax<B: BusOps>(&mut self, bus: &mut B) -> (result: CycleResult)
        ensures
            old(bus).inv() ==> final(bus).inv(),
            final(bus).frame_clock() == old(bus).frame_clock(),
            final(bus).frame_pending() == old(bus).frame_pending(),
            final(bus).prg() == old(bus).prg(),
            result is Error,
            *final(self) == *old(self),
            *final(bus) == *old(bus),
    {
        CycleResult::Error
    }

    /// An undefined illegal opcode: treated as a halt.
    fn las<B: BusOps>(&mut self, bus: &mut B) -> (result: CycleResult)
        ensures
            old(bus).inv() ==> final(bus).inv(),
            final(bus).frame_clock() == old(bus).frame_clock(),
            final(bus).frame_pending() == old(bus).frame_pending(),
            final(bus).prg() == old(bus).prg(),
            result is Error,
            *final(self) == *old(self),
            *final(bus) == *old(bus),
    {
        CycleResult::Error
    }

    /// An undefined illegal opcode: treated as a halt.
    fn dcp<B: BusOps>(&mut self, bus: &mut B) -> (result: CycleResult)
        ensures
            old(bus).inv() ==> final(bus).inv(),
            final(bus).frame_clock() == old(bus).frame_clock(),
            final(bus).frame_pending() == old(bus).frame_pending(),
            final(bus).prg() == old(bus).prg(),
            result is Error,
            *final(self) == *old(self),
            *final(bus) == *old(bus),
    {
        CycleResult::Error
    }

    /// An undefined illegal opcode: treated as a halt.
    fn isc<B: BusOps>(&mut self, bus: &mut B) -> (result: CycleResult)
        ensures
            old(bus).inv() ==> final(bus).inv(),
            final(bus).frame_clock() == old(bus).frame_clock(),
            final(bus).frame_pending() == old(bus).frame_pending(),
            final(bus).prg() == old(bus).prg(),
            result is Error,
            *final(self) == *old(self),
            *final(bus) == *old(bus),
    {
        CycleResult::Error
    }

    /// An undefined illegal opcode: treated as a halt.
    fn axs<B: BusOps>(&mut self, bus: &mut B) -> (result: CycleResult)
        ensures
            old(bus).inv() ==> final(bus).inv(),
            final(bus).frame_clock() == old(bus).frame_clock(),
            final(bus).frame_pending() == old(bus).frame_pending(),
            final(bus).prg() == old(bus).prg(),
            result is Error,
            *final(self) == *old(self),
            *final(bus) == *old(bus),
    {
        CycleResult::Error
    }
}


/// Stack accesses stay on page one: 0x100 + SP is always in 0x100..0x1FF,
/// for every value the stack pointer can take.
pub proof fn lemma_stack_in_page_one(sp: u8)
    ensures
        0x100 <= spec_stack_address(sp) <= 0x1FF,
{
}

/// A status byte pulled from the stack always has bit 5 set and bit 4
/// clear, whatever byte the stack held (see `plp` and `rti`).
pub proof fn lemma_pulled_status_bits(pulled: u8)
    ensures
        spec_pull_status(pulled) & 0x20 == 0x20,
        spec_pull_status(pulled) & 0x10 == 0,
{
    assert(((pulled | 0x20) & !0x10u8) & 0x20 == 0x20) by (bit_vector);
    assert(((pulled | 0x20) & !0x10u8) & 0x10 == 0) by (bit_vector);
}

/// `LDA #x; PHA; LDA #0; PLA` leaves A == x: the push writes the page-one
/// cell that the decremented-then-incremented stack pointer re-selects, so
/// the pull reloads exactly the pushed byte. None of the four instructions
/// writes X or Y (see the contracts of `lda`, `pha` and `pla`).
pub proof fn lemma_stack_round_trip(ram: Seq<u8>, sp: u8, x: u8)
    requires
        ram.len() == 2048,
    ensures
        ({
            let pushed = spec_ram_write(ram, spec_stack_address(sp), x);
            let sp_after_push = sp.wrapping_sub(1);
            let sp_after_pull = sp_after_push.wrapping_add(1);
            spec_ram_read(pushed, spec_stack_address(sp_after_pull)) == x
        }),
{
    assert(sp.wrapping_sub(1).wrapping_add(1) == sp);
}

/// `TXS; TSX` hands X back unchanged, and TSX sets Z exactly when X is zero
/// and N exactly when bit 7 of X is set (see the contracts of `txs` and
/// `tsx`).
pub proof fn lemma_transfer_round_trip(x: u8, sr: u8)
    ensures
        ({
            let sp_after_txs = x;
            let x_after_tsx = sp_after_txs;
            let sr_after_tsx = spec_nz(sr, sp_after_txs);
            &&& x_after_tsx == x
            &&& (sr_after_tsx & 0x02 != 0 <==> x == 0)
            &&& (sr_after_tsx & 0x80 != 0 <==> x & 0x80 != 0)
        }),
{
    assert(spec_nz(sr, x) & 0x02 != 0 <==> x == 0) by (bit_vector);
    assert(spec_nz(sr, x) & 0x80 != 0 <==> x & 0x80 != 0) by (bit_vector);
}

/// `SEC; CLC` ends with carry clear and `CLC; SEC` with carry set, from any
/// starting P (see the contracts of `sec` and `clc`).
pub proof fn lemma_carry_round_trip(sr: u8)
    ensures
        spec_set_flag(spec_set_flag(sr, 0x01, true), 0x01, false) & 0x01 == 0,
        spec_set_flag(spec_set_flag(sr, 0x01, false), 0x01, true) & 0x01 == 1,
{
    assert(((sr | 0x01) & !0x01u8) & 0x01 == 0) by (bit_vector);
    assert(((sr & !0x01u8) | 0x01) & 0x01 == 1) by (bit_vector);
}

} // verus!
