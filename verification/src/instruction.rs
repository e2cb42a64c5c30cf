//! The decoded instruction set: operand shapes, instruction variants and
//! the machine-cycle cost table.
use vstd::prelude::*;

use crate::cpu::{CpuFlag, InstructionError};

verus! {

/// A register name: the eight 8-bit registers, the four pairs, and SP.
#[derive(Clone, Copy, PartialEq, Eq, Structural, Debug)]
pub enum CpuRegister {
    A,
    B,
    C,
    D,
    E,
    H,
    L,
    F,
    AF,
    BC,
    DE,
    HL,
    SP,
}

impl CpuRegister {
    /// Whether the register holds a 16-bit value.
    pub open spec fn spec_is_16bit(self) -> bool {
        match self {
            CpuRegister::AF => true,
            CpuRegister::BC => true,
            CpuRegister::DE => true,
            CpuRegister::HL => true,
            CpuRegister::SP => true,
            _ => false,
        }
    }

    pub fn is_16bit(&self) -> (r: bool)
        ensures
            r == self.spec_is_16bit(),
    {
        match self {
            CpuRegister::AF => true,
            CpuRegister::BC => true,
            CpuRegister::DE => true,
            CpuRegister::HL => true,
            CpuRegister::SP => true,
            _ => false,
        }
    }
}

/// Where an instruction reads or writes: a register, an immediate, or a
/// memory location named by a register or immediate (possibly offset by
/// 0xFF00, possibly post-incrementing or post-decrementing HL).
#[derive(Clone, Copy, PartialEq, Eq, Structural, Debug)]
pub enum InstructionOperand {
    Register(CpuRegister),
    Immediate8(u8),
    Immediate16(u16),
    OffsetMemoryLocationRegister(u16, CpuRegister),
    MemoryLocationRegister(CpuRegister),
    MemoryLocationRegisterDecrement(CpuRegister),
    MemoryLocationRegisterIncrement(CpuRegister),
    OffsetMemoryLocationImmediate8(u16, u8),
    MemoryLocationImmediate16(u16),
    DoubleMemoryLocationImmediate16(u16),
}

impl InstructionOperand {
    /// Whether the operand carries a 16-bit value.
    pub open spec fn spec_is_16bit(self) -> bool {
        match self {
            InstructionOperand::Register(reg) => reg.spec_is_16bit(),
            InstructionOperand::Immediate16(_) => true,
            InstructionOperand::DoubleMemoryLocationImmediate16(_) => true,
            _ => false,
        }
    }

    pub fn is_16bit(&self) -> (r: bool)
        ensures
            r == self.spec_is_16bit(),
    {
        match self {
            InstructionOperand::Register(reg) => reg.is_16bit(),
            InstructionOperand::Immediate16(_) => true,
            InstructionOperand::DoubleMemoryLocationImmediate16(_) => true,
            _ => false,
        }
    }

    /// Extra machine cycles that accessing this operand costs, on top of
    /// the instruction's base cycle. Read-modify-write instructions
    /// (increments, rotates, ...) pass `affect_16bit_reg`, which charges
    /// one more cycle for 16-bit register targets and for memory targets.
    pub open spec fn spec_cycles(self, affect_16bit_reg: bool) -> nat {
        match self {
            InstructionOperand::Register(reg) => {
                if affect_16bit_reg && reg.spec_is_16bit() {
                    1
                } else {
                    0
                }
            },
            InstructionOperand::Immediate8(_) => 1,
            InstructionOperand::Immediate16(_) => 2,
            InstructionOperand::OffsetMemoryLocationRegister(_, _) => 1,
            InstructionOperand::MemoryLocationRegister(reg) => {
                if affect_16bit_reg && reg.spec_is_16bit() {
                    2
                } else {
                    1
                }
            },
            InstructionOperand::MemoryLocationRegisterDecrement(reg) => {
                if affect_16bit_reg && reg.spec_is_16bit() {
                    2
                } else {
                    1
                }
            },
            InstructionOperand::MemoryLocationRegisterIncrement(reg) => {
                if affect_16bit_reg && reg.spec_is_16bit() {
                    2
                } else {
                    1
                }
            },
            InstructionOperand::OffsetMemoryLocationImmediate8(_, _) => 2,
            InstructionOperand::MemoryLocationImmediate16(_) => 3,
            InstructionOperand::DoubleMemoryLocationImmediate16(_) => 4,
        }
    }

    pub fn cycles(&self, affect_16bit_reg: bool) -> (r: usize)
        ensures
            r == self.spec_cycles(affect_16bit_reg),
    {
        match self {
            InstructionOperand::Register(reg) => {
                if affect_16bit_reg && reg.is_16bit() {
                    1
                } else {
                    0
                }
            },
            InstructionOperand::Immediate8(_) => 1,
            InstructionOperand::Immediate16(_) => 2,
            InstructionOperand::OffsetMemoryLocationRegister(_, _) => 1,
            InstructionOperand::MemoryLocationRegister(reg) => {
                if affect_16bit_reg && reg.is_16bit() {
                    2
                } else {
                    1
                }
            },
            InstructionOperand::MemoryLocationRegisterDecrement(reg) => {
                if affect_16bit_reg && reg.is_16bit() {
                    2
                } else {
                    1
                }
            },
            InstructionOperand::MemoryLocationRegisterIncrement(reg) => {
                if affect_16bit_reg && reg.is_16bit() {
                    2
                } else {
                    1
                }
            },
            InstructionOperand::OffsetMemoryLocationImmediate8(_, _) => 2,
            InstructionOperand::MemoryLocationImmediate16(_) => 3,
            InstructionOperand::DoubleMemoryLocationImmediate16(_) => 4,
        }
    }
}

/// The three stack-pointer instructions that do not fit the general
/// operand shapes: ADD SP,r8; LD HL,SP+r8; LD SP,HL.
#[derive(Clone, Copy, PartialEq, Eq, Structural, Debug)]
pub enum SPOps {
    AddOffset(i8),
    LoadIntoHL(i8),
    LoadFromHL,
}

impl SPOps {
    pub open spec fn spec_cycles(self) -> nat {
        match self {
            SPOps::AddOffset(_) => 4,
            SPOps::LoadIntoHL(_) => 3,
            SPOps::LoadFromHL => 2,
        }
    }

    pub fn cycles(&self) -> (r: usize)
        ensures
            r == self.spec_cycles(),
    {
        match self {
            SPOps::AddOffset(_) => 4,
            SPOps::LoadIntoHL(_) => 3,
            SPOps::LoadFromHL => 2,
        }
    }
}

/// A decoded instruction. Conditional variants carry the flag tested and
/// the value it must have for the branch to be taken.
#[derive(Clone, Copy, PartialEq, Eq, Structural, Debug)]
pub enum Instruction {
    Noop,
    Stop,
    Load(InstructionOperand, InstructionOperand),
    And(InstructionOperand),
    Or(InstructionOperand),
    Xor(InstructionOperand),
    Bit(u8, InstructionOperand),
    Jump(InstructionOperand),
    JumpIf(CpuFlag, bool, u16),
    JumpRelative(i8),
    JumpRelativeIf(CpuFlag, bool, i8),
    Increment(InstructionOperand),
    Decrement(InstructionOperand),
    Call(u16),
    CallIf(CpuFlag, bool, u16),
    Compare(InstructionOperand),
    Add8(CpuRegister, InstructionOperand, bool),
    Add16(CpuRegister, InstructionOperand),
    Subtract(InstructionOperand, bool),
    Push(CpuRegister),
    Pop(CpuRegister),
    RotateLeftA(bool),
    RotateLeft(InstructionOperand, bool),
    RotateRightA(bool),
    RotateRight(InstructionOperand, bool),
    ShiftLeft(InstructionOperand),
    ShiftRight(InstructionOperand, bool),
    Return,
    ReturnIf(CpuFlag, bool),
    ReturnInterrupt,
    DisableInterrupts,
    EnableInterrupts,
    Complement,
    Swap(InstructionOperand),
    Rst(u8),
    DAA,
    SetBit(u8, InstructionOperand, bool),
    SPOps(SPOps),
    SetCarryFlag(bool),
    Halt,
}

impl Instruction {
    /// Base machine-cycle cost of the instruction: the cost when a
    /// conditional branch is not taken. Taken branches are charged their
    /// extra cycles by the executor.
    pub open spec fn spec_cycles(self) -> nat {
        match self {
            Instruction::Noop => 1,
            Instruction::Stop => 0,
            Instruction::Load(to, from) => 1 + to.spec_cycles(false) + from.spec_cycles(false),
            Instruction::And(from) => 1 + from.spec_cycles(false),
            Instruction::Or(from) => 1 + from.spec_cycles(false),
            Instruction::Xor(from) => 1 + from.spec_cycles(false),
            Instruction::Bit(_, from) => 2 + from.spec_cycles(false),
            Instruction::Jump(to) => {
                if to matches InstructionOperand::Register(_) {
                    1
                } else {
                    4
                }
            },
            Instruction::JumpIf(_, _, _) => 3,
            Instruction::JumpRelative(_) => 3,
            Instruction::JumpRelativeIf(_, _, _) => 2,
            Instruction::Increment(to) => 1 + to.spec_cycles(true),
            Instruction::Decrement(to) => 1 + to.spec_cycles(true),
            Instruction::Call(_) => 6,
            Instruction::CallIf(_, _, _) => 3,
            Instruction::Compare(to) => 1 + to.spec_cycles(false),
            Instruction::Add8(_, from, _) => 1 + from.spec_cycles(false),
            Instruction::Add16(_, from) => 2 + from.spec_cycles(false),
            Instruction::Subtract(from, _) => 1 + from.spec_cycles(false),
            Instruction::Push(_) => 4,
            Instruction::Pop(_) => 3,
            Instruction::RotateLeftA(_) => 1,
            Instruction::RotateLeft(to, _) => 2 + to.spec_cycles(true),
            Instruction::RotateRightA(_) => 1,
            Instruction::RotateRight(to, _) => 2 + to.spec_cycles(true),
            Instruction::ShiftLeft(to) => 2 + to.spec_cycles(true),
            Instruction::ShiftRight(to, _) => 2 + to.spec_cycles(true),
            Instruction::Return => 4,
            Instruction::ReturnIf(_, _) => 2,
            Instruction::ReturnInterrupt => 4,
            Instruction::DisableInterrupts => 1,
            Instruction::EnableInterrupts => 1,
            Instruction::Complement => 1,
            Instruction::Swap(to) => 2 + to.spec_cycles(true),
            Instruction::Rst(_) => 4,
            Instruction::DAA => 1,
            Instruction::SetBit(_, to, _) => 2 + to.spec_cycles(true),
            Instruction::SPOps(op) => op.spec_cycles(),
            Instruction::SetCarryFlag(_) => 1,
            Instruction::Halt => 1,
        }
    }

    pub fn cycles(&self) -> (r: usize)
        ensures
            r == self.spec_cycles(),
    {
        match self {
            Instruction::Noop => 1,
            Instruction::Stop => 0,
            Instruction::Load(to, from) => 1 + to.cycles(false) + from.cycles(false),
            Instruction::And(from) => 1 + from.cycles(false),
            Instruction::Or(from) => 1 + from.cycles(false),
            Instruction::Xor(from) => 1 + from.cycles(false),
            Instruction::Bit(_, from) => 2 + from.cycles(false),
            Instruction::Jump(to) => {
                if let InstructionOperand::Register(_) = to {
                    1
                } else {
                    4
                }
            },
            Instruction::JumpIf(_, _, _) => 3,
            Instruction::JumpRelative(_) => 3,
            Instruction::JumpRelativeIf(_, _, _) => 2,
            Instruction::Increment(to) => 1 + to.cycles(true),
            Instruction::Decrement(to) => 1 + to.cycles(true),
            Instruction::Call(_) => 6,
            Instruction::CallIf(_, _, _) => 3,
            Instruction::Compare(to) => 1 + to.cycles(false),
            Instruction::Add8(_, from, _) => 1 + from.cycles(false),
            Instruction::Add16(_, from) => 2 + from.cycles(false),
            Instruction::Subtract(from, _) => 1 + from.cycles(false),
            Instruction::Push(_) => 4,
            Instruction::Pop(_) => 3,
            Instruction::RotateLeftA(_) => 1,
            Instruction::RotateLeft(to, _) => 2 + to.cycles(true),
            Instruction::RotateRightA(_) => 1,
            Instruction::RotateRight(to, _) => 2 + to.cycles(true),
            Instruction::ShiftLeft(to) => 2 + to.cycles(true),
            Instruction::ShiftRight(to, _) => 2 + to.cycles(true),
            Instruction::Return => 4,
            Instruction::ReturnIf(_, _) => 2,
            Instruction::ReturnInterrupt => 4,
            Instruction::DisableInterrupts => 1,
            Instruction::EnableInterrupts => 1,
            Instruction::Complement => 1,
            Instruction::Swap(to) => 2 + to.cycles(true),
            Instruction::Rst(_) => 4,
            Instruction::DAA => 1,
            Instruction::SetBit(_, to, _) => 2 + to.cycles(true),
            Instruction::SPOps(op) => op.cycles(),
            Instruction::SetCarryFlag(_) => 1,
            Instruction::Halt => 1,
        }
    }
}


/// The operand an instruction-encoding register code 0..=7 names:
/// B, C, D, E, H, L, the byte at (HL), then A.
pub open spec fn spec_reg_operand(code: u8) -> InstructionOperand {
    if code == 0 {
        InstructionOperand::Register(CpuRegister::B)
    } else if code == 1 {
        InstructionOperand::Register(CpuRegister::C)
    } else if code == 2 {
        InstructionOperand::Register(CpuRegister::D)
    } else if code == 3 {
        InstructionOperand::Register(CpuRegister::E)
    } else if code == 4 {
        InstructionOperand::Register(CpuRegister::H)
    } else if code == 5 {
        InstructionOperand::Register(CpuRegister::L)
    } else if code == 6 {
        InstructionOperand::MemoryLocationRegister(CpuRegister::HL)
    } else {
        InstructionOperand::Register(CpuRegister::A)
    }
}

pub fn reg_operand(code: u8) -> (r: InstructionOperand)
    ensures
        r == spec_reg_operand(code),
{
    if code == 0 {
        InstructionOperand::Register(CpuRegister::B)
    } else if code == 1 {
        InstructionOperand::Register(CpuRegister::C)
    } else if code == 2 {
        InstructionOperand::Register(CpuRegister::D)
    } else if code == 3 {
        InstructionOperand::Register(CpuRegister::E)
    } else if code == 4 {
        InstructionOperand::Register(CpuRegister::H)
    } else if code == 5 {
        InstructionOperand::Register(CpuRegister::L)
    } else if code == 6 {
        InstructionOperand::MemoryLocationRegister(CpuRegister::HL)
    } else {
        InstructionOperand::Register(CpuRegister::A)
    }
}


/// The one well-formedness constraint an instruction value must meet
/// to execute without shifting past a byte: bit positions are 0..=7.
/// Every decoded instruction meets it.
pub open spec fn spec_instr_wf(i: Instruction) -> bool {
    match i {
        Instruction::Bit(b, _) => b < 8,
        Instruction::SetBit(b, _, _) => b < 8,
        _ => true,
    }
}

/// The eleven primary opcodes that decode as invalid.
pub open spec fn spec_is_invalid_opcode(op: u8) -> bool {
    op == 0xd3 || op == 0xdb || op == 0xdd || op == 0xe3 || op == 0xe4 || op == 0xeb || op == 0xec || op == 0xed || op == 0xf4 || op == 0xfc || op == 0xfd
}

/// Base machine-cycle cost of each primary opcode (the reference
/// table; conditional branches are listed not taken, and the eleven
/// undefined opcodes cost 0).
pub open spec fn spec_opcode_cycles(op: u8) -> nat {
    if op == 0x00 {
        1
    } else if op == 0x01 {
        3
    } else if op == 0x02 {
        2
    } else if op == 0x03 {
        2
    } else if op == 0x04 {
        1
    } else if op == 0x05 {
        1
    } else if op == 0x06 {
        2
    } else if op == 0x07 {
        1
    } else if op == 0x08 {
        5
    } else if op == 0x09 {
        2
    } else if op == 0x0a {
        2
    } else if op == 0x0b {
        2
    } else if op == 0x0c {
        1
    } else if op == 0x0d {
        1
    } else if op == 0x0e {
        2
    } else if op == 0x0f {
        1
    } else if op == 0x10 {
        0
    } else if op == 0x11 {
        3
    } else if op == 0x12 {
        2
    } else if op == 0x13 {
        2
    } else if op == 0x14 {
        1
    } else if op == 0x15 {
        1
    } else if op == 0x16 {
        2
    } else if op == 0x17 {
        1
    } else if op == 0x18 {
        3
    } else if op == 0x19 {
        2
    } else if op == 0x1a {
        2
    } else if op == 0x1b {
        2
    } else if op == 0x1c {
        1
    } else if op == 0x1d {
        1
    } else if op == 0x1e {
        2
    } else if op == 0x1f {
        1
    } else if op == 0x20 {
        2
    } else if op == 0x21 {
        3
    } else if op == 0x22 {
        2
    } else if op == 0x23 {
        2
    } else if op == 0x24 {
        1
    } else if op == 0x25 {
        1
    } else if op == 0x26 {
        2
    } else if op == 0x27 {
        1
    } else if op == 0x28 {
        2
    } else if op == 0x29 {
        2
    } else if op == 0x2a {
        2
    } else if op == 0x2b {
        2
    } else if op == 0x2c {
        1
    } else if op == 0x2d {
        1
    } else if op == 0x2e {
        2
    } else if op == 0x2f {
        1
    } else if op == 0x30 {
        2
    } else if op == 0x31 {
        3
    } else if op == 0x32 {
        2
    } else if op == 0x33 {
        2
    } else if op == 0x34 {
        3
    } else if op == 0x35 {
        3
    } else if op == 0x36 {
        3
    } else if op == 0x37 {
        1
    } else if op == 0x38 {
        2
    } else if op == 0x39 {
        2
    } else if op == 0x3a {
        2
    } else if op == 0x3b {
        2
    } else if op == 0x3c {
        1
    } else if op == 0x3d {
        1
    } else if op == 0x3e {
        2
    } else if op == 0x3f {
        1
    } else if op == 0x40 {
        1
    } else if op == 0x41 {
        1
    } else if op == 0x42 {
        1
    } else if op == 0x43 {
        1
    } else if op == 0x44 {
        1
    } else if op == 0x45 {
        1
    } else if op == 0x46 {
        2
    } else if op == 0x47 {
        1
    } else if op == 0x48 {
        1
    } else if op == 0x49 {
        1
    } else if op == 0x4a {
        1
    } else if op == 0x4b {
        1
    } else if op == 0x4c {
        1
    } else if op == 0x4d {
        1
    } else if op == 0x4e {
        2
    } else if op == 0x4f {
        1
    } else if op == 0x50 {
        1
    } else if op == 0x51 {
        1
    } else if op == 0x52 {
        1
    } else if op == 0x53 {
        1
    } else if op == 0x54 {
        1
    } else if op == 0x55 {
        1
    } else if op == 0x56 {
        2
    } else if op == 0x57 {
        1
    } else if op == 0x58 {
        1
    } else if op == 0x59 {
        1
    } else if op == 0x5a {
        1
    } else if op == 0x5b {
        1
    } else if op == 0x5c {
        1
    } else if op == 0x5d {
        1
    } else if op == 0x5e {
        2
    } else if op == 0x5f {
        1
    } else if op == 0x60 {
        1
    } else if op == 0x61 {
        1
    } else if op == 0x62 {
        1
    } else if op == 0x63 {
        1
    } else if op == 0x64 {
        1
    } else if op == 0x65 {
        1
    } else if op == 0x66 {
        2
    } else if op == 0x67 {
        1
    } else if op == 0x68 {
        1
    } else if op == 0x69 {
        1
    } else if op == 0x6a {
        1
    } else if op == 0x6b {
        1
    } else if op == 0x6c {
        1
    } else if op == 0x6d {
        1
    } else if op == 0x6e {
        2
    } else if op == 0x6f {
        1
    } else if op == 0x70 {
        2
    } else if op == 0x71 {
        2
    } else if op == 0x72 {
        2
    } else if op == 0x73 {
        2
    } else if op == 0x74 {
        2
    } else if op == 0x75 {
        2
    } else if op == 0x76 {
        1
    } else if op == 0x77 {
        2
    } else if op == 0x78 {
        1
    } else if op == 0x79 {
        1
    } else if op == 0x7a {
        1
    } else if op == 0x7b {
        1
    } else if op == 0x7c {
        1
    } else if op == 0x7d {
        1
    } else if op == 0x7e {
        2
    } else if op == 0x7f {
        1
    } else if op == 0x80 {
        1
    } else if op == 0x81 {
        1
    } else if op == 0x82 {
        1
    } else if op == 0x83 {
        1
    } else if op == 0x84 {
        1
    } else if op == 0x85 {
        1
    } else if op == 0x86 {
        2
    } else if op == 0x87 {
        1
    } else if op == 0x88 {
        1
    } else if op == 0x89 {
        1
    } else if op == 0x8a {
        1
    } else if op == 0x8b {
        1
    } else if op == 0x8c {
        1
    } else if op == 0x8d {
        1
    } else if op == 0x8e {
        2
    } else if op == 0x8f {
        1
    } else if op == 0x90 {
        1
    } else if op == 0x91 {
        1
    } else if op == 0x92 {
        1
    } else if op == 0x93 {
        1
    } else if op == 0x94 {
        1
    } else if op == 0x95 {
        1
    } else if op == 0x96 {
        2
    } else if op == 0x97 {
        1
    } else if op == 0x98 {
        1
    } else if op == 0x99 {
        1
    } else if op == 0x9a {
        1
    } else if op == 0x9b {
        1
    } else if op == 0x9c {
        1
    } else if op == 0x9d {
        1
    } else if op == 0x9e {
        2
    } else if op == 0x9f {
        1
    } else if op == 0xa0 {
        1
    } else if op == 0xa1 {
        1
    } else if op == 0xa2 {
        1
    } else if op == 0xa3 {
        1
    } else if op == 0xa4 {
        1
    } else if op == 0xa5 {
        1
    } else if op == 0xa6 {
        2
    } else if op == 0xa7 {
        1
    } else if op == 0xa8 {
        1
    } else if op == 0xa9 {
        1
    } else if op == 0xaa {
        1
    } else if op == 0xab {
        1
    } else if op == 0xac {
        1
    } else if op == 0xad {
        1
    } else if op == 0xae {
        2
    } else if op == 0xaf {
        1
    } else if op == 0xb0 {
        1
    } else if op == 0xb1 {
        1
    } else if op == 0xb2 {
        1
    } else if op == 0xb3 {
        1
    } else if op == 0xb4 {
        1
    } else if op == 0xb5 {
        1
    } else if op == 0xb6 {
        2
    } else if op == 0xb7 {
        1
    } else if op == 0xb8 {
        1
    } else if op == 0xb9 {
        1
    } else if op == 0xba {
        1
    } else if op == 0xbb {
        1
    } else if op == 0xbc {
        1
    } else if op == 0xbd {
        1
    } else if op == 0xbe {
        2
    } else if op == 0xbf {
        1
    } else if op == 0xc0 {
        2
    } else if op == 0xc1 {
        3
    } else if op == 0xc2 {
        3
    } else if op == 0xc3 {
        4
    } else if op == 0xc4 {
        3
    } else if op == 0xc5 {
        4
    } else if op == 0xc6 {
        2
    } else if op == 0xc7 {
        4
    } else if op == 0xc8 {
        2
    } else if op == 0xc9 {
        4
    } else if op == 0xca {
        3
    } else if op == 0xcb {
        0
    } else if op == 0xcc {
        3
    } else if op == 0xcd {
        6
    } else if op == 0xce {
        2
    } else if op == 0xcf {
        4
    } else if op == 0xd0 {
        2
    } else if op == 0xd1 {
        3
    } else if op == 0xd2 {
        3
    } else if op == 0xd3 {
        0
    } else if op == 0xd4 {
        3
    } else if op == 0xd5 {
        4
    } else if op == 0xd6 {
        2
    } else if op == 0xd7 {
        4
    } else if op == 0xd8 {
        2
    } else if op == 0xd9 {
        4
    } else if op == 0xda {
        3
    } else if op == 0xdb {
        0
    } else if op == 0xdc {
        3
    } else if op == 0xdd {
        0
    } else if op == 0xde {
        2
    } else if op == 0xdf {
        4
    } else if op == 0xe0 {
        3
    } else if op == 0xe1 {
        3
    } else if op == 0xe2 {
        2
    } else if op == 0xe3 {
        0
    } else if op == 0xe4 {
        0
    } else if op == 0xe5 {
        4
    } else if op == 0xe6 {
        2
    } else if op == 0xe7 {
        4
    } else if op == 0xe8 {
        4
    } else if op == 0xe9 {
        1
    } else if op == 0xea {
        4
    } else if op == 0xeb {
        0
    } else if op == 0xec {
        0
    } else if op == 0xed {
        0
    } else if op == 0xee {
        2
    } else if op == 0xef {
        4
    } else if op == 0xf0 {
        3
    } else if op == 0xf1 {
        3
    } else if op == 0xf2 {
        2
    } else if op == 0xf3 {
        1
    } else if op == 0xf4 {
        0
    } else if op == 0xf5 {
        4
    } else if op == 0xf6 {
        2
    } else if op == 0xf7 {
        4
    } else if op == 0xf8 {
        3
    } else if op == 0xf9 {
        2
    } else if op == 0xfa {
        4
    } else if op == 0xfb {
        1
    } else if op == 0xfc {
        0
    } else if op == 0xfd {
        0
    } else if op == 0xfe {
        2
    } else if op == 0xff {
        4
    } else {
        0
    }
}

/// Machine-cycle cost of each CB-prefixed opcode: two, except that
/// operations on the byte at (HL) take four (three for BIT).
pub open spec fn spec_extended_opcode_cycles(op: u8) -> nat {
    if op % 8 == 6 {
        if 0x40 <= op && op <= 0x7f {
            3
        } else {
            4
        }
    } else {
        2
    }
}

impl Instruction {
    /// What the CB-prefixed opcode `b1` decodes to: rotates, shifts,
    /// swap and SRL in the first quarter, then BIT, RES and SET on bits
    /// 0..=7, each over the eight register-code operands.
    pub open spec fn spec_decode_extended(b1: u8) -> Instruction {
        if b1 < 0x08 {
            Instruction::RotateLeft(spec_reg_operand(b1 % 8), true)
        } else if b1 < 0x10 {
            Instruction::RotateRight(spec_reg_operand(b1 % 8), true)
        } else if b1 < 0x18 {
            Instruction::RotateLeft(spec_reg_operand(b1 % 8), false)
        } else if b1 < 0x20 {
            Instruction::RotateRight(spec_reg_operand(b1 % 8), false)
        } else if b1 < 0x28 {
            Instruction::ShiftLeft(spec_reg_operand(b1 % 8))
        } else if b1 < 0x30 {
            Instruction::ShiftRight(spec_reg_operand(b1 % 8), false)
        } else if b1 < 0x38 {
            Instruction::Swap(spec_reg_operand(b1 % 8))
        } else if b1 < 0x40 {
            Instruction::ShiftRight(spec_reg_operand(b1 % 8), true)
        } else if b1 < 0x80 {
            Instruction::Bit((((b1 - 0x40) / 8) as u8), spec_reg_operand(b1 % 8))
        } else if b1 < 0xc0 {
            Instruction::SetBit((((b1 - 0x80) / 8) as u8), spec_reg_operand(b1 % 8), false)
        } else {
            Instruction::SetBit((((b1 - 0xc0) / 8) as u8), spec_reg_operand(b1 % 8), true)
        }
    }

    pub fn decode_extended(b1: u8) -> (r: Instruction)
        ensures
            r == Instruction::spec_decode_extended(b1),
            spec_instr_wf(r),
    {
        if b1 < 0x08 {
            Instruction::RotateLeft(reg_operand(b1 % 8), true)
        } else if b1 < 0x10 {
            Instruction::RotateRight(reg_operand(b1 % 8), true)
        } else if b1 < 0x18 {
            Instruction::RotateLeft(reg_operand(b1 % 8), false)
        } else if b1 < 0x20 {
            Instruction::RotateRight(reg_operand(b1 % 8), false)
        } else if b1 < 0x28 {
            Instruction::ShiftLeft(reg_operand(b1 % 8))
        } else if b1 < 0x30 {
            Instruction::ShiftRight(reg_operand(b1 % 8), false)
        } else if b1 < 0x38 {
            Instruction::Swap(reg_operand(b1 % 8))
        } else if b1 < 0x40 {
            Instruction::ShiftRight(reg_operand(b1 % 8), true)
        } else if b1 < 0x80 {
            Instruction::Bit((b1 - 0x40) / 8, reg_operand(b1 % 8))
        } else if b1 < 0xc0 {
            Instruction::SetBit((b1 - 0x80) / 8, reg_operand(b1 % 8), false)
        } else {
            Instruction::SetBit((b1 - 0xc0) / 8, reg_operand(b1 % 8), true)
        }
    }

    /// What the primary opcode `op` decodes to, with `b1` and `b2` the
    /// two bytes that follow it: the decoded instruction and its
    /// encoded length in bytes, or the invalid-opcode error.
    pub open spec fn spec_decode(op: u8, b1: u8, b2: u8) -> Result<
        (Instruction, u8),
        InstructionError,
    > {
        let imm16: u16 = ((b2 as u16) << 8) | (b1 as u16);
        if op == 0x00 {
            Ok((Instruction::Noop, 1))
        } else if op == 0x01 {
            Ok((Instruction::Load(InstructionOperand::Register(CpuRegister::BC), InstructionOperand::Immediate16(imm16)), 3))
        } else if op == 0x02 {
            Ok((Instruction::Load(InstructionOperand::MemoryLocationRegister(CpuRegister::BC), InstructionOperand::Register(CpuRegister::A)), 1))
        } else if op == 0x03 {
            Ok((Instruction::Increment(InstructionOperand::Register(CpuRegister::BC)), 1))
        } else if op == 0x04 {
            Ok((Instruction::Increment(InstructionOperand::Register(CpuRegister::B)), 1))
        } else if op == 0x05 {
            Ok((Instruction::Decrement(InstructionOperand::Register(CpuRegister::B)), 1))
        } else if op == 0x06 {
            Ok((Instruction::Load(InstructionOperand::Register(CpuRegister::B), InstructionOperand::Immediate8(b1)), 2))
        } else if op == 0x07 {
            Ok((Instruction::RotateLeftA(true), 1))
        } else if op == 0x08 {
            Ok((Instruction::Load(InstructionOperand::DoubleMemoryLocationImmediate16(imm16), InstructionOperand::Register(CpuRegister::SP)), 3))
        } else if op == 0x09 {
            Ok((Instruction::Add16(CpuRegister::HL, InstructionOperand::Register(CpuRegister::BC)), 1))
        } else if op == 0x0a {
            Ok((Instruction::Load(InstructionOperand::Register(CpuRegister::A), InstructionOperand::MemoryLocationRegister(CpuRegister::BC)), 1))
        } else if op == 0x0b {
            Ok((Instruction::Decrement(InstructionOperand::Register(CpuRegister::BC)), 1))
        } else if op == 0x0c {
            Ok((Instruction::Increment(InstructionOperand::Register(CpuRegister::C)), 1))
        } else if op == 0x0d {
            Ok((Instruction::Decrement(InstructionOperand::Register(CpuRegister::C)), 1))
        } else if op == 0x0e {
            Ok((Instruction::Load(InstructionOperand::Register(CpuRegister::C), InstructionOperand::Immediate8(b1)), 2))
        } else if op == 0x0f {
            Ok((Instruction::RotateRightA(true), 1))
        } else if op == 0x10 {
            Ok((Instruction::Stop, 1))
        } else if op == 0x11 {
            Ok((Instruction::Load(InstructionOperand::Register(CpuRegister::DE), InstructionOperand::Immediate16(imm16)), 3))
        } else if op == 0x12 {
            Ok((Instruction::Load(InstructionOperand::MemoryLocationRegister(CpuRegister::DE), InstructionOperand::Register(CpuRegister::A)), 1))
        } else if op == 0x13 {
            Ok((Instruction::Increment(InstructionOperand::Register(CpuRegister::DE)), 1))
        } else if op == 0x14 {
            Ok((Instruction::Increment(InstructionOperand::Register(CpuRegister::D)), 1))
        } else if op == 0x15 {
            Ok((Instruction::Decrement(InstructionOperand::Register(CpuRegister::D)), 1))
        } else if op == 0x16 {
            Ok((Instruction::Load(InstructionOperand::Register(CpuRegister::D), InstructionOperand::Immediate8(b1)), 2))
        } else if op == 0x17 {
            Ok((Instruction::RotateLeftA(false), 1))
        } else if op == 0x18 {
            Ok((Instruction::JumpRelative(b1 as i8), 2))
        } else if op == 0x19 {
            Ok((Instruction::Add16(CpuRegister::HL, InstructionOperand::Register(CpuRegister::DE)), 1))
        } else if op == 0x1a {
            Ok((Instruction::Load(InstructionOperand::Register(CpuRegister::A), InstructionOperand::MemoryLocationRegister(CpuRegister::DE)), 1))
        } else if op == 0x1b {
            Ok((Instruction::Decrement(InstructionOperand::Register(CpuRegister::DE)), 1))
        } else if op == 0x1c {
            Ok((Instruction::Increment(InstructionOperand::Register(CpuRegister::E)), 1))
        } else if op == 0x1d {
            Ok((Instruction::Decrement(InstructionOperand::Register(CpuRegister::E)), 1))
        } else if op == 0x1e {
            Ok((Instruction::Load(InstructionOperand::Register(CpuRegister::E), InstructionOperand::Immediate8(b1)), 2))
        } else if op == 0x1f {
            Ok((Instruction::RotateRightA(false), 1))
        } else if op == 0x20 {
            Ok((Instruction::JumpRelativeIf(CpuFlag::Zero, false, b1 as i8), 2))
        } else if op == 0x21 {
            Ok((Instruction::Load(InstructionOperand::Register(CpuRegister::HL), InstructionOperand::Immediate16(imm16)), 3))
        } else if op == 0x22 {
            Ok((Instruction::Load(InstructionOperand::MemoryLocationRegisterIncrement(CpuRegister::HL), InstructionOperand::Register(CpuRegister::A)), 1))
        } else if op == 0x23 {
            Ok((Instruction::Increment(InstructionOperand::Register(CpuRegister::HL)), 1))
        } else if op == 0x24 {
            Ok((Instruction::Increment(InstructionOperand::Register(CpuRegister::H)), 1))
        } else if op == 0x25 {
            Ok((Instruction::Decrement(InstructionOperand::Register(CpuRegister::H)), 1))
        } else if op == 0x26 {
            Ok((Instruction::Load(InstructionOperand::Register(CpuRegister::H), InstructionOperand::Immediate8(b1)), 2))
        } else if op == 0x27 {
            Ok((Instruction::DAA, 1))
        } else if op == 0x28 {
            Ok((Instruction::JumpRelativeIf(CpuFlag::Zero, true, b1 as i8), 2))
        } else if op == 0x29 {
            Ok((Instruction::Add16(CpuRegister::HL, InstructionOperand::Register(CpuRegister::HL)), 1))
        } else if op == 0x2a {
            Ok((Instruction::Load(InstructionOperand::Register(CpuRegister::A), InstructionOperand::MemoryLocationRegisterIncrement(CpuRegister::HL)), 1))
        } else if op == 0x2b {
            Ok((Instruction::Decrement(InstructionOperand::Register(CpuRegister::HL)), 1))
        } else if op == 0x2c {
            Ok((Instruction::Increment(InstructionOperand::Register(CpuRegister::L)), 1))
        } else if op == 0x2d {
            Ok((Instruction::Decrement(InstructionOperand::Register(CpuRegister::L)), 1))
        } else if op == 0x2e {
            Ok((Instruction::Load(InstructionOperand::Register(CpuRegister::L), InstructionOperand::Immediate8(b1)), 2))
        } else if op == 0x2f {
            Ok((Instruction::Complement, 1))
        } else if op == 0x30 {
            Ok((Instruction::JumpRelativeIf(CpuFlag::Carry, false, b1 as i8), 2))
        } else if op == 0x31 {
            Ok((Instruction::Load(InstructionOperand::Register(CpuRegister::SP), InstructionOperand::Immediate16(imm16)), 3))
        } else if op == 0x32 {
            Ok((Instruction::Load(InstructionOperand::MemoryLocationRegisterDecrement(CpuRegister::HL), InstructionOperand::Register(CpuRegister::A)), 1))
        } else if op == 0x33 {
            Ok((Instruction::Increment(InstructionOperand::Register(CpuRegister::SP)), 1))
        } else if op == 0x34 {
            Ok((Instruction::Increment(InstructionOperand::MemoryLocationRegister(CpuRegister::HL)), 1))
        } else if op == 0x35 {
            Ok((Instruction::Decrement(InstructionOperand::MemoryLocationRegister(CpuRegister::HL)), 1))
        } else if op == 0x36 {
            Ok((Instruction::Load(InstructionOperand::MemoryLocationRegister(CpuRegister::HL), InstructionOperand::Immediate8(b1)), 2))
        } else if op == 0x37 {
            Ok((Instruction::SetCarryFlag(false), 1))
        } else if op == 0x38 {
            Ok((Instruction::JumpRelativeIf(CpuFlag::Carry, true, b1 as i8), 2))
        } else if op == 0x39 {
            Ok((Instruction::Add16(CpuRegister::HL, InstructionOperand::Register(CpuRegister::SP)), 1))
        } else if op == 0x3a {
            Ok((Instruction::Load(InstructionOperand::Register(CpuRegister::A), InstructionOperand::MemoryLocationRegisterDecrement(CpuRegister::HL)), 1))
        } else if op == 0x3b {
            Ok((Instruction::Decrement(InstructionOperand::Register(CpuRegister::SP)), 1))
        } else if op == 0x3c {
            Ok((Instruction::Increment(InstructionOperand::Register(CpuRegister::A)), 1))
        } else if op == 0x3d {
            Ok((Instruction::Decrement(InstructionOperand::Register(CpuRegister::A)), 1))
        } else if op == 0x3e {
            Ok((Instruction::Load(InstructionOperand::Register(CpuRegister::A), InstructionOperand::Immediate8(b1)), 2))
        } else if op == 0x3f {
            Ok((Instruction::SetCarryFlag(true), 1))
        } else if op == 0xc0 {
            Ok((Instruction::ReturnIf(CpuFlag::Zero, false), 1))
        } else if op == 0xc1 {
            Ok((Instruction::Pop(CpuRegister::BC), 1))
        } else if op == 0xc2 {
            Ok((Instruction::JumpIf(CpuFlag::Zero, false, imm16), 3))
        } else if op == 0xc3 {
            Ok((Instruction::Jump(InstructionOperand::Immediate16(imm16)), 3))
        } else if op == 0xc4 {
            Ok((Instruction::CallIf(CpuFlag::Zero, false, imm16), 3))
        } else if op == 0xc5 {
            Ok((Instruction::Push(CpuRegister::BC), 1))
        } else if op == 0xc6 {
            Ok((Instruction::Add8(CpuRegister::A, InstructionOperand::Immediate8(b1), false), 2))
        } else if op == 0xc7 {
            Ok((Instruction::Rst(0), 1))
        } else if op == 0xc8 {
            Ok((Instruction::ReturnIf(CpuFlag::Zero, true), 1))
        } else if op == 0xc9 {
            Ok((Instruction::Return, 1))
        } else if op == 0xca {
            Ok((Instruction::JumpIf(CpuFlag::Zero, true, imm16), 3))
        } else if op == 0xcc {
            Ok((Instruction::CallIf(CpuFlag::Zero, true, imm16), 3))
        } else if op == 0xcd {
            Ok((Instruction::Call(imm16), 3))
        } else if op == 0xce {
            Ok((Instruction::Add8(CpuRegister::A, InstructionOperand::Immediate8(b1), true), 2))
        } else if op == 0xcf {
            Ok((Instruction::Rst(8), 1))
        } else if op == 0xd0 {
            Ok((Instruction::ReturnIf(CpuFlag::Carry, false), 1))
        } else if op == 0xd1 {
            Ok((Instruction::Pop(CpuRegister::DE), 1))
        } else if op == 0xd2 {
            Ok((Instruction::JumpIf(CpuFlag::Carry, false, imm16), 3))
        } else if op == 0xd3 {
            Err(InstructionError::InvalidOpcode { opcode: op as u16 })
        } else if op == 0xd4 {
            Ok((Instruction::CallIf(CpuFlag::Carry, false, imm16), 3))
        } else if op == 0xd5 {
            Ok((Instruction::Push(CpuRegister::DE), 1))
        } else if op == 0xd6 {
            Ok((Instruction::Subtract(InstructionOperand::Immediate8(b1), false), 2))
        } else if op == 0xd7 {
            Ok((Instruction::Rst(16), 1))
        } else if op == 0xd8 {
            Ok((Instruction::ReturnIf(CpuFlag::Carry, true), 1))
        } else if op == 0xd9 {
            Ok((Instruction::ReturnInterrupt, 1))
        } else if op == 0xda {
            Ok((Instruction::JumpIf(CpuFlag::Carry, true, imm16), 3))
        } else if op == 0xdb {
            Err(InstructionError::InvalidOpcode { opcode: op as u16 })
        } else if op == 0xdc {
            Ok((Instruction::CallIf(CpuFlag::Carry, true, imm16), 3))
        } else if op == 0xdd {
            Err(InstructionError::InvalidOpcode { opcode: op as u16 })
        } else if op == 0xde {
            Ok((Instruction::Subtract(InstructionOperand::Immediate8(b1), true), 2))
        } else if op == 0xdf {
            Ok((Instruction::Rst(24), 1))
        } else if op == 0xe0 {
            Ok((Instruction::Load(InstructionOperand::OffsetMemoryLocationImmediate8(0xff00, b1), InstructionOperand::Register(CpuRegister::A)), 2))
        } else if op == 0xe1 {
            Ok((Instruction::Pop(CpuRegister::HL), 1))
        } else if op == 0xe2 {
            Ok((Instruction::Load(InstructionOperand::OffsetMemoryLocationRegister(0xff00, CpuRegister::C), InstructionOperand::Register(CpuRegister::A)), 1))
        } else if op == 0xe3 {
            Err(InstructionError::InvalidOpcode { opcode: op as u16 })
        } else if op == 0xe4 {
            Err(InstructionError::InvalidOpcode { opcode: op as u16 })
        } else if op == 0xe5 {
            Ok((Instruction::Push(CpuRegister::HL), 1))
        } else if op == 0xe6 {
            Ok((Instruction::And(InstructionOperand::Immediate8(b1)), 2))
        } else if op == 0xe7 {
            Ok((Instruction::Rst(32), 1))
        } else if op == 0xe8 {
            Ok((Instruction::SPOps(SPOps::AddOffset(b1 as i8)), 2))
        } else if op == 0xe9 {
            Ok((Instruction::Jump(InstructionOperand::Register(CpuRegister::HL)), 1))
        } else if op == 0xea {
            Ok((Instruction::Load(InstructionOperand::MemoryLocationImmediate16(imm16), InstructionOperand::Register(CpuRegister::A)), 3))
        } else if op == 0xeb {
            Err(InstructionError::InvalidOpcode { opcode: op as u16 })
        } else if op == 0xec {
            Err(InstructionError::InvalidOpcode { opcode: op as u16 })
        } else if op == 0xed {
            Err(InstructionError::InvalidOpcode { opcode: op as u16 })
        } else if op == 0xee {
            Ok((Instruction::Xor(InstructionOperand::Immediate8(b1)), 2))
        } else if op == 0xef {
            Ok((Instruction::Rst(40), 1))
        } else if op == 0xf0 {
            Ok((Instruction::Load(InstructionOperand::Register(CpuRegister::A), InstructionOperand::OffsetMemoryLocationImmediate8(0xff00, b1)), 2))
        } else if op == 0xf1 {
            Ok((Instruction::Pop(CpuRegister::AF), 1))
        } else if op == 0xf2 {
            Ok((Instruction::Load(InstructionOperand::Register(CpuRegister::A), InstructionOperand::OffsetMemoryLocationRegister(0xff00, CpuRegister::C)), 1))
        } else if op == 0xf3 {
            Ok((Instruction::DisableInterrupts, 1))
        } else if op == 0xf4 {
            Err(InstructionError::InvalidOpcode { opcode: op as u16 })
        } else if op == 0xf5 {
            Ok((Instruction::Push(CpuRegister::AF), 1))
        } else if op == 0xf6 {
            Ok((Instruction::Or(InstructionOperand::Immediate8(b1)), 2))
        } else if op == 0xf7 {
            Ok((Instruction::Rst(48), 1))
        } else if op == 0xf8 {
            Ok((Instruction::SPOps(SPOps::LoadIntoHL(b1 as i8)), 2))
        } else if op == 0xf9 {
            Ok((Instruction::SPOps(SPOps::LoadFromHL), 1))
        } else if op == 0xfa {
            Ok((Instruction::Load(InstructionOperand::Register(CpuRegister::A), InstructionOperand::MemoryLocationImmediate16(imm16)), 3))
        } else if op == 0xfb {
            Ok((Instruction::EnableInterrupts, 1))
        } else if op == 0xfc {
            Err(InstructionError::InvalidOpcode { opcode: op as u16 })
        } else if op == 0xfd {
            Err(InstructionError::InvalidOpcode { opcode: op as u16 })
        } else if op == 0xfe {
            Ok((Instruction::Compare(InstructionOperand::Immediate8(b1)), 2))
        } else if op == 0xff {
            Ok((Instruction::Rst(56), 1))
        } else if op == 0xcb {
            Ok((Instruction::spec_decode_extended(b1), 2))
        } else if 0x40 <= op && op <= 0x7f {
            if op == 0x76 {
                Ok((Instruction::Halt, 1))
            } else {
                Ok((Instruction::Load(spec_reg_operand(((op - 0x40) / 8) as u8), spec_reg_operand((op % 8) as u8)), 1))
            }
        } else if (op - 0x80) / 8 == 0 {
            Ok((Instruction::Add8(CpuRegister::A, spec_reg_operand((op % 8) as u8), false), 1))
        } else if (op - 0x80) / 8 == 1 {
            Ok((Instruction::Add8(CpuRegister::A, spec_reg_operand((op % 8) as u8), true), 1))
        } else if (op - 0x80) / 8 == 2 {
            Ok((Instruction::Subtract(spec_reg_operand((op % 8) as u8), false), 1))
        } else if (op - 0x80) / 8 == 3 {
            Ok((Instruction::Subtract(spec_reg_operand((op % 8) as u8), true), 1))
        } else if (op - 0x80) / 8 == 4 {
            Ok((Instruction::And(spec_reg_operand((op % 8) as u8)), 1))
        } else if (op - 0x80) / 8 == 5 {
            Ok((Instruction::Xor(spec_reg_operand((op % 8) as u8)), 1))
        } else if (op - 0x80) / 8 == 6 {
            Ok((Instruction::Or(spec_reg_operand((op % 8) as u8)), 1))
        } else {
            Ok((Instruction::Compare(spec_reg_operand((op % 8) as u8)), 1))
        }
    }

    /// Decodes one instruction from its opcode and the two bytes that
    /// follow.
    pub fn decode(op: u8, b1: u8, b2: u8) -> (r: Result<(Instruction, u8), InstructionError>)
        ensures
            r == Instruction::spec_decode(op, b1, b2),
            r matches Ok(p) ==> spec_instr_wf(p.0) && 1 <= p.1 <= 3,
    {
        let imm16: u16 = ((b2 as u16) << 8) | (b1 as u16);
        if op == 0x00 {
            Ok((Instruction::Noop, 1))
        } else if op == 0x01 {
            Ok((Instruction::Load(InstructionOperand::Register(CpuRegister::BC), InstructionOperand::Immediate16(imm16)), 3))
        } else if op == 0x02 {
            Ok((Instruction::Load(InstructionOperand::MemoryLocationRegister(CpuRegister::BC), InstructionOperand::Register(CpuRegister::A)), 1))
        } else if op == 0x03 {
            Ok((Instruction::Increment(InstructionOperand::Register(CpuRegister::BC)), 1))
        } else if op == 0x04 {
            Ok((Instruction::Increment(InstructionOperand::Register(CpuRegister::B)), 1))
        } else if op == 0x05 {
            Ok((Instruction::Decrement(InstructionOperand::Register(CpuRegister::B)), 1))
        } else if op == 0x06 {
            Ok((Instruction::Load(InstructionOperand::Register(CpuRegister::B), InstructionOperand::Immediate8(b1)), 2))
        } else if op == 0x07 {
            Ok((Instruction::RotateLeftA(true), 1))
        } else if op == 0x08 {
            Ok((Instruction::Load(InstructionOperand::DoubleMemoryLocationImmediate16(imm16), InstructionOperand::Register(CpuRegister::SP)), 3))
        } else if op == 0x09 {
            Ok((Instruction::Add16(CpuRegister::HL, InstructionOperand::Register(CpuRegister::BC)), 1))
        } else if op == 0x0a {
            Ok((Instruction::Load(InstructionOperand::Register(CpuRegister::A), InstructionOperand::MemoryLocationRegister(CpuRegister::BC)), 1))
        } else if op == 0x0b {
            Ok((Instruction::Decrement(InstructionOperand::Register(CpuRegister::BC)), 1))
        } else if op == 0x0c {
            Ok((Instruction::Increment(InstructionOperand::Register(CpuRegister::C)), 1))
        } else if op == 0x0d {
            Ok((Instruction::Decrement(InstructionOperand::Register(CpuRegister::C)), 1))
        } else if op == 0x0e {
            Ok((Instruction::Load(InstructionOperand::Register(CpuRegister::C), InstructionOperand::Immediate8(b1)), 2))
        } else if op == 0x0f {
            Ok((Instruction::RotateRightA(true), 1))
        } else if op == 0x10 {
            Ok((Instruction::Stop, 1))
        } else if op == 0x11 {
            Ok((Instruction::Load(InstructionOperand::Register(CpuRegister::DE), InstructionOperand::Immediate16(imm16)), 3))
        } else if op == 0x12 {
            Ok((Instruction::Load(InstructionOperand::MemoryLocationRegister(CpuRegister::DE), InstructionOperand::Register(CpuRegister::A)), 1))
        } else if op == 0x13 {
            Ok((Instruction::Increment(InstructionOperand::Register(CpuRegister::DE)), 1))
        } else if op == 0x14 {
            Ok((Instruction::Increment(InstructionOperand::Register(CpuRegister::D)), 1))
        } else if op == 0x15 {
            Ok((Instruction::Decrement(InstructionOperand::Register(CpuRegister::D)), 1))
        } else if op == 0x16 {
            Ok((Instruction::Load(InstructionOperand::Register(CpuRegister::D), InstructionOperand::Immediate8(b1)), 2))
        } else if op == 0x17 {
            Ok((Instruction::RotateLeftA(false), 1))
        } else if op == 0x18 {
            Ok((Instruction::JumpRelative(b1 as i8), 2))
        } else if op == 0x19 {
            Ok((Instruction::Add16(CpuRegister::HL, InstructionOperand::Register(CpuRegister::DE)), 1))
        } else if op == 0x1a {
            Ok((Instruction::Load(InstructionOperand::Register(CpuRegister::A), InstructionOperand::MemoryLocationRegister(CpuRegister::DE)), 1))
        } else if op == 0x1b {
            Ok((Instruction::Decrement(InstructionOperand::Register(CpuRegister::DE)), 1))
        } else if op == 0x1c {
            Ok((Instruction::Increment(InstructionOperand::Register(CpuRegister::E)), 1))
        } else if op == 0x1d {
            Ok((Instruction::Decrement(InstructionOperand::Register(CpuRegister::E)), 1))
        } else if op == 0x1e {
            Ok((Instruction::Load(InstructionOperand::Register(CpuRegister::E), InstructionOperand::Immediate8(b1)), 2))
        } else if op == 0x1f {
            Ok((Instruction::RotateRightA(false), 1))
        } else if op == 0x20 {
            Ok((Instruction::JumpRelativeIf(CpuFlag::Zero, false, b1 as i8), 2))
        } else if op == 0x21 {
            Ok((Instruction::Load(InstructionOperand::Register(CpuRegister::HL), InstructionOperand::Immediate16(imm16)), 3))
        } else if op == 0x22 {
            Ok((Instruction::Load(InstructionOperand::MemoryLocationRegisterIncrement(CpuRegister::HL), InstructionOperand::Register(CpuRegister::A)), 1))
        } else if op == 0x23 {
            Ok((Instruction::Increment(InstructionOperand::Register(CpuRegister::HL)), 1))
        } else if op == 0x24 {
            Ok((Instruction::Increment(InstructionOperand::Register(CpuRegister::H)), 1))
        } else if op == 0x25 {
            Ok((Instruction::Decrement(InstructionOperand::Register(CpuRegister::H)), 1))
        } else if op == 0x26 {
            Ok((Instruction::Load(InstructionOperand::Register(CpuRegister::H), InstructionOperand::Immediate8(b1)), 2))
        } else if op == 0x27 {
            Ok((Instruction::DAA, 1))
        } else if op == 0x28 {
            Ok((Instruction::JumpRelativeIf(CpuFlag::Zero, true, b1 as i8), 2))
        } else if op == 0x29 {
            Ok((Instruction::Add16(CpuRegister::HL, InstructionOperand::Register(CpuRegister::HL)), 1))
        } else if op == 0x2a {
            Ok((Instruction::Load(InstructionOperand::Register(CpuRegister::A), InstructionOperand::MemoryLocationRegisterIncrement(CpuRegister::HL)), 1))
        } else if op == 0x2b {
            Ok((Instruction::Decrement(InstructionOperand::Register(CpuRegister::HL)), 1))
        } else if op == 0x2c {
            Ok((Instruction::Increment(InstructionOperand::Register(CpuRegister::L)), 1))
        } else if op == 0x2d {
            Ok((Instruction::Decrement(InstructionOperand::Register(CpuRegister::L)), 1))
        } else if op == 0x2e {
            Ok((Instruction::Load(InstructionOperand::Register(CpuRegister::L), InstructionOperand::Immediate8(b1)), 2))
        } else if op == 0x2f {
            Ok((Instruction::Complement, 1))
        } else if op == 0x30 {
            Ok((Instruction::JumpRelativeIf(CpuFlag::Carry, false, b1 as i8), 2))
        } else if op == 0x31 {
            Ok((Instruction::Load(InstructionOperand::Register(CpuRegister::SP), InstructionOperand::Immediate16(imm16)), 3))
        } else if op == 0x32 {
            Ok((Instruction::Load(InstructionOperand::MemoryLocationRegisterDecrement(CpuRegister::HL), InstructionOperand::Register(CpuRegister::A)), 1))
        } else if op == 0x33 {
            Ok((Instruction::Increment(InstructionOperand::Register(CpuRegister::SP)), 1))
        } else if op == 0x34 {
            Ok((Instruction::Increment(InstructionOperand::MemoryLocationRegister(CpuRegister::HL)), 1))
        } else if op == 0x35 {
            Ok((Instruction::Decrement(InstructionOperand::MemoryLocationRegister(CpuRegister::HL)), 1))
        } else if op == 0x36 {
            Ok((Instruction::Load(InstructionOperand::MemoryLocationRegister(CpuRegister::HL), InstructionOperand::Immediate8(b1)), 2))
        } else if op == 0x37 {
            Ok((Instruction::SetCarryFlag(false), 1))
        } else if op == 0x38 {
            Ok((Instruction::JumpRelativeIf(CpuFlag::Carry, true, b1 as i8), 2))
        } else if op == 0x39 {
            Ok((Instruction::Add16(CpuRegister::HL, InstructionOperand::Register(CpuRegister::SP)), 1))
        } else if op == 0x3a {
            Ok((Instruction::Load(InstructionOperand::Register(CpuRegister::A), InstructionOperand::MemoryLocationRegisterDecrement(CpuRegister::HL)), 1))
        } else if op == 0x3b {
            Ok((Instruction::Decrement(InstructionOperand::Register(CpuRegister::SP)), 1))
        } else if op == 0x3c {
            Ok((Instruction::Increment(InstructionOperand::Register(CpuRegister::A)), 1))
        } else if op == 0x3d {
            Ok((Instruction::Decrement(InstructionOperand::Register(CpuRegister::A)), 1))
        } else if op == 0x3e {
            Ok((Instruction::Load(InstructionOperand::Register(CpuRegister::A), InstructionOperand::Immediate8(b1)), 2))
        } else if op == 0x3f {
            Ok((Instruction::SetCarryFlag(true), 1))
        } else if op == 0xc0 {
            Ok((Instruction::ReturnIf(CpuFlag::Zero, false), 1))
        } else if op == 0xc1 {
            Ok((Instruction::Pop(CpuRegister::BC), 1))
        } else if op == 0xc2 {
            Ok((Instruction::JumpIf(CpuFlag::Zero, false, imm16), 3))
        } else if op == 0xc3 {
            Ok((Instruction::Jump(InstructionOperand::Immediate16(imm16)), 3))
        } else if op == 0xc4 {
            Ok((Instruction::CallIf(CpuFlag::Zero, false, imm16), 3))
        } else if op == 0xc5 {
            Ok((Instruction::Push(CpuRegister::BC), 1))
        } else if op == 0xc6 {
            Ok((Instruction::Add8(CpuRegister::A, InstructionOperand::Immediate8(b1), false), 2))
        } else if op == 0xc7 {
            Ok((Instruction::Rst(0), 1))
        } else if op == 0xc8 {
            Ok((Instruction::ReturnIf(CpuFlag::Zero, true), 1))
        } else if op == 0xc9 {
            Ok((Instruction::Return, 1))
        } else if op == 0xca {
            Ok((Instruction::JumpIf(CpuFlag::Zero, true, imm16), 3))
        } else if op == 0xcc {
            Ok((Instruction::CallIf(CpuFlag::Zero, true, imm16), 3))
        } else if op == 0xcd {
            Ok((Instruction::Call(imm16), 3))
        } else if op == 0xce {
            Ok((Instruction::Add8(CpuRegister::A, InstructionOperand::Immediate8(b1), true), 2))
        } else if op == 0xcf {
            Ok((Instruction::Rst(8), 1))
        } else if op == 0xd0 {
            Ok((Instruction::ReturnIf(CpuFlag::Carry, false), 1))
        } else if op == 0xd1 {
            Ok((Instruction::Pop(CpuRegister::DE), 1))
        } else if op == 0xd2 {
            Ok((Instruction::JumpIf(CpuFlag::Carry, false, imm16), 3))
        } else if op == 0xd3 {
            Err(InstructionError::InvalidOpcode { opcode: op as u16 })
        } else if op == 0xd4 {
            Ok((Instruction::CallIf(CpuFlag::Carry, false, imm16), 3))
        } else if op == 0xd5 {
            Ok((Instruction::Push(CpuRegister::DE), 1))
        } else if op == 0xd6 {
            Ok((Instruction::Subtract(InstructionOperand::Immediate8(b1), false), 2))
        } else if op == 0xd7 {
            Ok((Instruction::Rst(16), 1))
        } else if op == 0xd8 {
            Ok((Instruction::ReturnIf(CpuFlag::Carry, true), 1))
        } else if op == 0xd9 {
            Ok((Instruction::ReturnInterrupt, 1))
        } else if op == 0xda {
            Ok((Instruction::JumpIf(CpuFlag::Carry, true, imm16), 3))
        } else if op == 0xdb {
            Err(InstructionError::InvalidOpcode { opcode: op as u16 })
        } else if op == 0xdc {
            Ok((Instruction::CallIf(CpuFlag::Carry, true, imm16), 3))
        } else if op == 0xdd {
            Err(InstructionError::InvalidOpcode { opcode: op as u16 })
        } else if op == 0xde {
            Ok((Instruction::Subtract(InstructionOperand::Immediate8(b1), true), 2))
        } else if op == 0xdf {
            Ok((Instruction::Rst(24), 1))
        } else if op == 0xe0 {
            Ok((Instruction::Load(InstructionOperand::OffsetMemoryLocationImmediate8(0xff00, b1), InstructionOperand::Register(CpuRegister::A)), 2))
        } else if op == 0xe1 {
            Ok((Instruction::Pop(CpuRegister::HL), 1))
        } else if op == 0xe2 {
            Ok((Instruction::Load(InstructionOperand::OffsetMemoryLocationRegister(0xff00, CpuRegister::C), InstructionOperand::Register(CpuRegister::A)), 1))
        } else if op == 0xe3 {
            Err(InstructionError::InvalidOpcode { opcode: op as u16 })
        } else if op == 0xe4 {
            Err(InstructionError::InvalidOpcode { opcode: op as u16 })
        } else if op == 0xe5 {
            Ok((Instruction::Push(CpuRegister::HL), 1))
        } else if op == 0xe6 {
            Ok((Instruction::And(InstructionOperand::Immediate8(b1)), 2))
        } else if op == 0xe7 {
            Ok((Instruction::Rst(32), 1))
        } else if op == 0xe8 {
            Ok((Instruction::SPOps(SPOps::AddOffset(b1 as i8)), 2))
        } else if op == 0xe9 {
            Ok((Instruction::Jump(InstructionOperand::Register(CpuRegister::HL)), 1))
        } else if op == 0xea {
            Ok((Instruction::Load(InstructionOperand::MemoryLocationImmediate16(imm16), InstructionOperand::Register(CpuRegister::A)), 3))
        } else if op == 0xeb {
            Err(InstructionError::InvalidOpcode { opcode: op as u16 })
        } else if op == 0xec {
            Err(InstructionError::InvalidOpcode { opcode: op as u16 })
        } else if op == 0xed {
            Err(InstructionError::InvalidOpcode { opcode: op as u16 })
        } else if op == 0xee {
            Ok((Instruction::Xor(InstructionOperand::Immediate8(b1)), 2))
        } else if op == 0xef {
            Ok((Instruction::Rst(40), 1))
        } else if op == 0xf0 {
            Ok((Instruction::Load(InstructionOperand::Register(CpuRegister::A), InstructionOperand::OffsetMemoryLocationImmediate8(0xff00, b1)), 2))
        } else if op == 0xf1 {
            Ok((Instruction::Pop(CpuRegister::AF), 1))
        } else if op == 0xf2 {
            Ok((Instruction::Load(InstructionOperand::Register(CpuRegister::A), InstructionOperand::OffsetMemoryLocationRegister(0xff00, CpuRegister::C)), 1))
        } else if op == 0xf3 {
            Ok((Instruction::DisableInterrupts, 1))
        } else if op == 0xf4 {
            Err(InstructionError::InvalidOpcode { opcode: op as u16 })
        } else if op == 0xf5 {
            Ok((Instruction::Push(CpuRegister::AF), 1))
        } else if op == 0xf6 {
            Ok((Instruction::Or(InstructionOperand::Immediate8(b1)), 2))
        } else if op == 0xf7 {
            Ok((Instruction::Rst(48), 1))
        } else if op == 0xf8 {
            Ok((Instruction::SPOps(SPOps::LoadIntoHL(b1 as i8)), 2))
        } else if op == 0xf9 {
            Ok((Instruction::SPOps(SPOps::LoadFromHL), 1))
        } else if op == 0xfa {
            Ok((Instruction::Load(InstructionOperand::Register(CpuRegister::A), InstructionOperand::MemoryLocationImmediate16(imm16)), 3))
        } else if op == 0xfb {
            Ok((Instruction::EnableInterrupts, 1))
        } else if op == 0xfc {
            Err(InstructionError::InvalidOpcode { opcode: op as u16 })
        } else if op == 0xfd {
            Err(InstructionError::InvalidOpcode { opcode: op as u16 })
        } else if op == 0xfe {
            Ok((Instruction::Compare(InstructionOperand::Immediate8(b1)), 2))
        } else if op == 0xff {
            Ok((Instruction::Rst(56), 1))
        } else if op == 0xcb {
            Ok((Instruction::decode_extended(b1), 2))
        } else if 0x40 <= op && op <= 0x7f {
            if op == 0x76 {
                Ok((Instruction::Halt, 1))
            } else {
                Ok((Instruction::Load(reg_operand(((op - 0x40) / 8) as u8), reg_operand((op % 8) as u8)), 1))
            }
        } else if (op - 0x80) / 8 == 0 {
            Ok((Instruction::Add8(CpuRegister::A, reg_operand((op % 8) as u8), false), 1))
        } else if (op - 0x80) / 8 == 1 {
            Ok((Instruction::Add8(CpuRegister::A, reg_operand((op % 8) as u8), true), 1))
        } else if (op - 0x80) / 8 == 2 {
            Ok((Instruction::Subtract(reg_operand((op % 8) as u8), false), 1))
        } else if (op - 0x80) / 8 == 3 {
            Ok((Instruction::Subtract(reg_operand((op % 8) as u8), true), 1))
        } else if (op - 0x80) / 8 == 4 {
            Ok((Instruction::And(reg_operand((op % 8) as u8)), 1))
        } else if (op - 0x80) / 8 == 5 {
            Ok((Instruction::Xor(reg_operand((op % 8) as u8)), 1))
        } else if (op - 0x80) / 8 == 6 {
            Ok((Instruction::Or(reg_operand((op % 8) as u8)), 1))
        } else {
            Ok((Instruction::Compare(reg_operand((op % 8) as u8)), 1))
        }
    }
}


/// Every valid primary opcode decodes to an instruction whose base
/// machine-cycle cost is the reference table's entry; the eleven
/// undefined opcodes cost 0 there and decode as invalid; and every
/// CB-prefixed opcode decodes to an instruction whose cost is the
/// extended table's entry.
pub proof fn lemma_decode_cycle_table(op: u8, b1: u8, b2: u8)
    ensures
        Instruction::spec_decode(op, b1, b2) is Err <==> spec_is_invalid_opcode(op),
        spec_is_invalid_opcode(op) ==> spec_opcode_cycles(op) == 0 && Instruction::spec_decode(
            op,
            b1,
            b2,
        ) == Err::<(Instruction, u8), InstructionError>(
            InstructionError::InvalidOpcode { opcode: op as u16 },
        ),
        !spec_is_invalid_opcode(op) && op != 0xcb ==> ({
            &&& Instruction::spec_decode(op, b1, b2) is Ok
            &&& Instruction::spec_decode(op, b1, b2)->Ok_0.0.spec_cycles() == spec_opcode_cycles(
                op,
            )
        }),
        op == 0xcb ==> ({
            &&& Instruction::spec_decode(op, b1, b2) is Ok
            &&& Instruction::spec_decode(op, b1, b2)->Ok_0.0.spec_cycles()
                == spec_extended_opcode_cycles(b1)
        }),
{
    if op < 0x40 {
        lemma_cycle_table_low(op, b1, b2);
    } else if op < 0x80 {
        lemma_cycle_table_loads(op, b1, b2);
    } else if op < 0xc0 {
        lemma_cycle_table_alu(op, b1, b2);
    } else if op == 0xcb {
        lemma_cycle_table_extended(b1);
        assert(Instruction::spec_decode(op, b1, b2)->Ok_0.0 == Instruction::spec_decode_extended(
            b1,
        ));
    } else {
        lemma_cycle_table_high(op, b1, b2);
    }
}

#[verifier::spinoff_prover]
#[verifier::rlimit(100)]
proof fn lemma_cycle_table_low(op: u8, b1: u8, b2: u8)
    requires
        op < 0x40,
    ensures
        !spec_is_invalid_opcode(op),
        Instruction::spec_decode(op, b1, b2) is Ok,
        Instruction::spec_decode(op, b1, b2)->Ok_0.0.spec_cycles() == spec_opcode_cycles(op),
{
}

#[verifier::spinoff_prover]
#[verifier::rlimit(100)]
proof fn lemma_cycle_table_loads(op: u8, b1: u8, b2: u8)
    requires
        0x40 <= op < 0x80,
    ensures
        !spec_is_invalid_opcode(op),
        Instruction::spec_decode(op, b1, b2) is Ok,
        Instruction::spec_decode(op, b1, b2)->Ok_0.0.spec_cycles() == spec_opcode_cycles(op),
{
}

#[verifier::spinoff_prover]
#[verifier::rlimit(100)]
proof fn lemma_cycle_table_alu(op: u8, b1: u8, b2: u8)
    requires
        0x80 <= op < 0xc0,
    ensures
        !spec_is_invalid_opcode(op),
        Instruction::spec_decode(op, b1, b2) is Ok,
        Instruction::spec_decode(op, b1, b2)->Ok_0.0.spec_cycles() == spec_opcode_cycles(op),
{
}

#[verifier::spinoff_prover]
#[verifier::rlimit(100)]
proof fn lemma_cycle_table_high(op: u8, b1: u8, b2: u8)
    requires
        0xc0 <= op,
        op != 0xcb,
    ensures
        Instruction::spec_decode(op, b1, b2) is Err <==> spec_is_invalid_opcode(op),
        spec_is_invalid_opcode(op) ==> spec_opcode_cycles(op) == 0 && Instruction::spec_decode(
            op,
            b1,
            b2,
        ) == Err::<(Instruction, u8), InstructionError>(
            InstructionError::InvalidOpcode { opcode: op as u16 },
        ),
        !spec_is_invalid_opcode(op) ==> Instruction::spec_decode(op, b1, b2) is Ok
            && Instruction::spec_decode(op, b1, b2)->Ok_0.0.spec_cycles() == spec_opcode_cycles(
            op,
        ),
{
}

#[verifier::spinoff_prover]
#[verifier::rlimit(100)]
proof fn lemma_cycle_table_extended(b1: u8)
    ensures
        Instruction::spec_decode_extended(b1).spec_cycles() == spec_extended_opcode_cycles(b1),
{
}

} // verus!
