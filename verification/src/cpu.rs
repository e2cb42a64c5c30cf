//! The processor: registers, flags, interrupt master state, instruction
//! fetch, decode and execution.
use vstd::prelude::*;

use crate::instruction::{spec_instr_wf, CpuRegister, Instruction, InstructionOperand, SPOps};
use crate::mmu::Mmu;
use crate::memory::{MemoryError, MemoryOperation};

verus! {

/// Pending / enabled interrupt bits, as laid out in the IF and IE
/// registers.
pub const INT_VBLANK: u8 = 0x01;

pub const INT_LCD_STAT: u8 = 0x02;

pub const INT_TIMER: u8 = 0x04;

pub const INT_SERIAL: u8 = 0x08;

pub const INT_JOYPAD: u8 = 0x10;

/// Mask of the five interrupt bits that exist.
pub const INT_ALL: u8 = 0x1f;

/// Decoding failed: the byte does not begin any instruction.
#[derive(Clone, Copy, PartialEq, Eq, Structural, Debug)]
pub enum InstructionError {
    InvalidOpcode { opcode: u16 },
    MemoryError(MemoryError),
}

/// Execution failed: an operand was used at the wrong width, written
/// when immutable, or a memory access failed.
#[derive(Clone, Copy, PartialEq, Eq, Structural, Debug)]
pub enum CpuError {
    OperandSizeMismatch { operand: InstructionOperand, op: MemoryOperation },
    ImmediateSizeMismatch,
    ImmediateWrite,
    MemoryError(MemoryError),
    InstructionError(InstructionError),
}

/// One of the four defined bits of the F register.
#[derive(Clone, Copy, PartialEq, Eq, Structural, Debug)]
pub enum CpuFlag {
    Zero,
    Subtraction,
    HalfCarry,
    Carry,
}

impl CpuFlag {
    /// The bit the flag occupies in F: Z=bit 7, N=bit 6, H=bit 5, C=bit 4.
    pub open spec fn spec_bit(self) -> u8 {
        match self {
            CpuFlag::Zero => 0x80,
            CpuFlag::Subtraction => 0x40,
            CpuFlag::HalfCarry => 0x20,
            CpuFlag::Carry => 0x10,
        }
    }

    pub fn bit(&self) -> (r: u8)
        ensures
            r == self.spec_bit(),
    {
        match self {
            CpuFlag::Zero => 0x80,
            CpuFlag::Subtraction => 0x40,
            CpuFlag::HalfCarry => 0x20,
            CpuFlag::Carry => 0x10,
        }
    }
}

/// The master-enable gate for interrupt dispatch. EI does not enable
/// at once: it moves to `ShouldEnable`, which becomes `Enabled` when
/// the following instruction starts.
#[derive(Clone, Copy, PartialEq, Eq, Structural, Debug)]
pub enum InterruptMasterState {
    Disabled,
    ShouldEnable,
    Enabled,
}

/// Register file, program state and interrupt gating of the processor.
#[derive(Clone, Copy, PartialEq, Eq, Structural, Debug)]
pub struct Cpu {
    pub a: u8,
    pub b: u8,
    pub c: u8,
    pub d: u8,
    pub e: u8,
    pub h: u8,
    pub l: u8,
    pub f: u8,
    pub sp: u16,
    pub pc: u16,
    pub ime: InterruptMasterState,
    pub halted: bool,
}

impl Cpu {
    /// The freshly powered-on register file: everything zero, interrupts
    /// disabled, not halted.
    pub open spec fn spec_new() -> Cpu {
        Cpu {
            a: 0,
            b: 0,
            c: 0,
            d: 0,
            e: 0,
            h: 0,
            l: 0,
            f: 0,
            sp: 0,
            pc: 0,
            ime: InterruptMasterState::Disabled,
            halted: false,
        }
    }

    pub fn new() -> (r: Cpu)
        ensures
            r == Cpu::spec_new(),
    {
        Cpu {
            a: 0,
            b: 0,
            c: 0,
            d: 0,
            e: 0,
            h: 0,
            l: 0,
            f: 0,
            sp: 0,
            pc: 0,
            ime: InterruptMasterState::Disabled,
            halted: false,
        }
    }

    /// Zeroes the whole register file, the stack pointer and the
    /// program counter, and returns the interrupt gate to its power-on
    /// state.
    pub fn reset(&mut self)
        ensures
            *final(self) == Cpu::spec_new(),
    {
        self.a = 0;
        self.b = 0;
        self.c = 0;
        self.d = 0;
        self.e = 0;
        self.h = 0;
        self.l = 0;
        self.f = 0;
        self.sp = 0;
        self.pc = 0;
        self.ime = InterruptMasterState::Disabled;
        self.halted = false;
    }

    pub open spec fn spec_af(self) -> u16 {
        (self.a as u16) << 8 | (self.f as u16)
    }

    pub open spec fn spec_bc(self) -> u16 {
        (self.b as u16) << 8 | (self.c as u16)
    }

    pub open spec fn spec_de(self) -> u16 {
        (self.d as u16) << 8 | (self.e as u16)
    }

    pub open spec fn spec_hl(self) -> u16 {
        (self.h as u16) << 8 | (self.l as u16)
    }

    pub fn af(&self) -> (r: u16)
        ensures
            r == self.spec_af(),
    {
        (self.a as u16) << 8 | (self.f as u16)
    }

    /// Writing AF keeps only the four defined flag bits of F: the low
    /// nibble of F always reads back as zero.
    pub fn set_af(&mut self, value: u16)
        ensures
            *final(self) == (Cpu { a: (value >> 8) as u8, f: (value & 0xf0) as u8, ..*old(self) }),
            final(self).spec_af() == value & 0xfff0,
    {
        self.a = (value >> 8) as u8;
        self.f = (value & 0xf0) as u8;
        proof {
            lemma_af_pack(value);
        }
    }

    pub fn bc(&self) -> (r: u16)
        ensures
            r == self.spec_bc(),
    {
        (self.b as u16) << 8 | (self.c as u16)
    }

    pub fn set_bc(&mut self, value: u16)
        ensures
            *final(self) == (Cpu { b: (value >> 8) as u8, c: value as u8, ..*old(self) }),
            final(self).spec_bc() == value,
    {
        self.b = (value >> 8) as u8;
        self.c = value as u8;
        proof {
            lemma_pair_pack(value);
        }
    }

    pub fn de(&self) -> (r: u16)
        ensures
            r == self.spec_de(),
    {
        (self.d as u16) << 8 | (self.e as u16)
    }

    pub fn set_de(&mut self, value: u16)
        ensures
            *final(self) == (Cpu { d: (value >> 8) as u8, e: value as u8, ..*old(self) }),
            final(self).spec_de() == value,
    {
        self.d = (value >> 8) as u8;
        self.e = value as u8;
        proof {
            lemma_pair_pack(value);
        }
    }

    pub fn hl(&self) -> (r: u16)
        ensures
            r == self.spec_hl(),
    {
        (self.h as u16) << 8 | (self.l as u16)
    }

    pub fn set_hl(&mut self, value: u16)
        ensures
            *final(self) == (Cpu { h: (value >> 8) as u8, l: value as u8, ..*old(self) }),
            final(self).spec_hl() == value,
    {
        self.h = (value >> 8) as u8;
        self.l = value as u8;
        proof {
            lemma_pair_pack(value);
        }
    }

    pub open spec fn spec_flag(self, flag: CpuFlag) -> bool {
        self.f & flag.spec_bit() != 0
    }

    pub fn get_flag(&self, flag: CpuFlag) -> (r: bool)
        ensures
            r == self.spec_flag(flag),
    {
        self.f & flag.bit() != 0
    }

    /// The F byte after forcing `flag` to `value`.
    pub open spec fn spec_with_flag(f: u8, flag: CpuFlag, value: bool) -> u8 {
        if value {
            f | flag.spec_bit()
        } else {
            f & !flag.spec_bit()
        }
    }

    pub fn set_flag(&mut self, flag: CpuFlag, value: bool)
        ensures
            *final(self) == (Cpu { f: Cpu::spec_with_flag(old(self).f, flag, value), ..*old(self) }),
            final(self).spec_flag(flag) == value,
            forall|other: CpuFlag| other != flag ==> final(self).spec_flag(other) == old(
                self,
            ).spec_flag(other),
    {
        if value {
            self.f = self.f | flag.bit();
        } else {
            self.f = self.f & !flag.bit();
        }
        proof {
            lemma_flag_update(old(self).f, flag.spec_bit(), value);
            assert forall|other: CpuFlag| other != flag implies self.spec_flag(other) == old(
                self,
            ).spec_flag(other) by {
                lemma_flag_other(old(self).f, flag.spec_bit(), other.spec_bit(), value);
            }
        }
    }
}

/// Splitting a 16-bit value into bytes and repacking them yields the
/// value again.
pub proof fn lemma_pair_pack(v: u16)
    by (bit_vector)
    ensures
        ((v >> 8) as u8 as u16) << 8 | (v as u8 as u16) == v,
{
}

/// Repacking A and a low-nibble-masked F yields the value with its low
/// nibble cleared.
pub proof fn lemma_af_pack(v: u16)
    by (bit_vector)
    ensures
        ((v >> 8) as u8 as u16) << 8 | ((v & 0xf0) as u8 as u16) == v & 0xfff0,
{
}

proof fn lemma_flag_update(f: u8, bit: u8, value: bool)
    by (bit_vector)
    requires
        bit == 0x80 || bit == 0x40 || bit == 0x20 || bit == 0x10,
    ensures
        value ==> (f | bit) & bit != 0,
        !value ==> (f & !bit) & bit == 0,
{
}

proof fn lemma_flag_other(f: u8, bit: u8, other: u8, value: bool)
    by (bit_vector)
    requires
        bit == 0x80 || bit == 0x40 || bit == 0x20 || bit == 0x10,
        other == 0x80 || other == 0x40 || other == 0x20 || other == 0x10,
        bit != other,
    ensures
        value ==> ((f | bit) & other != 0) == (f & other != 0),
        !value ==> ((f & !bit) & other != 0) == (f & other != 0),
{
}

/// 16-bit wrap-around addition and subtraction, as spec values.
pub open spec fn spec_wadd16(a: u16, b: u16) -> u16 {
    if a + b > 0xffff {
        (a + b - 0x10000) as u16
    } else {
        (a + b) as u16
    }
}

pub open spec fn spec_wsub16(a: u16, b: u16) -> u16 {
    if a - b < 0 {
        (a - b + 0x10000) as u16
    } else {
        (a - b) as u16
    }
}

/// The F byte assembled from the four flags: Z in bit 7, N in bit 6,
/// H in bit 5, C in bit 4; the low nibble is always zero.
pub open spec fn spec_flags_byte(z: bool, n: bool, h: bool, c: bool) -> u8 {
    ((if z {
        0x80u8
    } else {
        0u8
    }) | (if n {
        0x40u8
    } else {
        0u8
    }) | (if h {
        0x20u8
    } else {
        0u8
    }) | (if c {
        0x10u8
    } else {
        0u8
    })) as u8
}

fn flags_byte(z: bool, n: bool, h: bool, c: bool) -> (r: u8)
    ensures
        r == spec_flags_byte(z, n, h, c),
{
    (if z {
        0x80u8
    } else {
        0u8
    }) | (if n {
        0x40u8
    } else {
        0u8
    }) | (if h {
        0x20u8
    } else {
        0u8
    }) | (if c {
        0x10u8
    } else {
        0u8
    })
}

/// 8-bit addition with optional carry-in: the wrapped sum and the new
/// F byte. Z is set on a zero result, N cleared, H on a low-nibble
/// carry, C on a full carry.
pub open spec fn spec_add8(a: u8, b: u8, cin: u8) -> (u8, u8) {
    let r: u8 = if a + b + cin > 0xff {
        (a + b + cin - 0x100) as u8
    } else {
        (a + b + cin) as u8
    };
    (r, spec_flags_byte(r == 0, false, (a & 0xf) + (b & 0xf) + cin > 0xf, a + b + cin > 0xff))
}

pub fn alu_add8(a: u8, b: u8, cin: u8) -> (r: (u8, u8))
    requires
        cin <= 1,
    ensures
        r == spec_add8(a, b, cin),
{
    let s: u16 = a as u16 + b as u16 + cin as u16;
    let v: u8 = if s > 0xff {
        (s - 0x100) as u8
    } else {
        s as u8
    };
    let h: bool = (a & 0xf) as u16 + (b & 0xf) as u16 + cin as u16 > 0xf;
    (v, flags_byte(v == 0, false, h, s > 0xff))
}

/// 8-bit subtraction with optional borrow-in: the wrapped difference
/// and the new F byte. Z on zero, N set, H on a low-nibble borrow, C
/// when the subtrahend plus borrow exceeds the minuend.
pub open spec fn spec_sub8(a: u8, b: u8, cin: u8) -> (u8, u8) {
    let r: u8 = if a - b - cin < 0 {
        (a - b - cin + 0x100) as u8
    } else {
        (a - b - cin) as u8
    };
    (r, spec_flags_byte(r == 0, true, (a & 0xf) - (b & 0xf) - cin < 0, (a as int) < b + cin))
}

pub fn alu_sub8(a: u8, b: u8, cin: u8) -> (r: (u8, u8))
    requires
        cin <= 1,
    ensures
        r == spec_sub8(a, b, cin),
{
    let d: u16 = 0x100 + a as u16 - b as u16 - cin as u16;
    let v: u8 = if d >= 0x100 {
        (d - 0x100) as u8
    } else {
        d as u8
    };
    let h: bool = ((a & 0xf) as u16) < ((b & 0xf) as u16) + (cin as u16);
    let c: bool = (a as u16) < b as u16 + cin as u16;
    (v, flags_byte(v == 0, true, h, c))
}

/// 8-bit increment: H records a carry out of the low nibble; C is
/// kept.
pub open spec fn spec_inc8(v: u8, f: u8) -> (u8, u8) {
    let r: u8 = if v == 0xff {
        0
    } else {
        (v + 1) as u8
    };
    (r, spec_flags_byte(r == 0, false, (v & 0x10) != (r & 0x10), f & 0x10 != 0))
}

pub fn alu_inc8(v: u8, f: u8) -> (r: (u8, u8))
    ensures
        r == spec_inc8(v, f),
{
    let nv: u8 = if v == 0xff {
        0
    } else {
        v + 1
    };
    (nv, flags_byte(nv == 0, false, (v & 0x10) != (nv & 0x10), f & 0x10 != 0))
}

/// 8-bit decrement: H records a borrow from the low nibble; C is
/// kept.
pub open spec fn spec_dec8(v: u8, f: u8) -> (u8, u8) {
    let r: u8 = if v == 0 {
        0xff
    } else {
        (v - 1) as u8
    };
    (r, spec_flags_byte(r == 0, true, v & 0xf == 0, f & 0x10 != 0))
}

pub fn alu_dec8(v: u8, f: u8) -> (r: (u8, u8))
    ensures
        r == spec_dec8(v, f),
{
    let nv: u8 = if v == 0 {
        0xff
    } else {
        v - 1
    };
    (nv, flags_byte(nv == 0, true, v & 0xf == 0, f & 0x10 != 0))
}

/// 16-bit addition into HL: Z is kept, N cleared, H on a carry out of
/// bit 11, C on a full carry.
pub open spec fn spec_add16(a: u16, b: u16, f: u8) -> (u16, u8) {
    (
        spec_wadd16(a, b),
        spec_flags_byte(f & 0x80 != 0, false, (a & 0xfff) + (b & 0xfff) > 0xfff, a + b > 0xffff),
    )
}

pub fn alu_add16(a: u16, b: u16, f: u8) -> (r: (u16, u8))
    ensures
        r == spec_add16(a, b, f),
{
    let s: u32 = a as u32 + b as u32;
    let v: u16 = if s > 0xffff {
        (s - 0x1_0000) as u16
    } else {
        s as u16
    };
    let h: bool = (a & 0xfff) as u32 + (b & 0xfff) as u32 > 0xfff;
    (v, flags_byte(f & 0x80 != 0, false, h, s > 0xffff))
}

/// Adding a signed byte to SP (ADD SP,r8 and LD HL,SP+r8): Z and N
/// cleared; H and C from bits 4 and 8 of `sp ^ r8 ^ result`.
pub open spec fn spec_addsp(sp: u16, d: i8) -> (u16, u8) {
    let r = spec_wadd16(sp, d as u16);
    (
        r,
        spec_flags_byte(
            false,
            false,
            ((sp ^ (d as u16) ^ r) & 0x10) != 0,
            ((sp ^ (d as u16) ^ r) & 0x100) != 0,
        ),
    )
}

pub fn alu_addsp(sp: u16, d: i8) -> (r: (u16, u8))
    ensures
        r == spec_addsp(sp, d),
{
    let dd: u16 = d as u16;
    let s: u32 = sp as u32 + dd as u32;
    let v: u16 = if s > 0xffff {
        (s - 0x1_0000) as u16
    } else {
        s as u16
    };
    (v, flags_byte(false, false, ((sp ^ dd ^ v) & 0x10) != 0, ((sp ^ dd ^ v) & 0x100) != 0))
}

/// A left rotate: circular when `through_self`, else through the old
/// carry; the second component is the outgoing bit 7.
pub open spec fn spec_rotate_left(v: u8, through_self: bool, cin: bool) -> (u8, bool) {
    let low: u8 = if through_self {
        (v >> 7) as u8
    } else if cin {
        1
    } else {
        0
    };
    (((v << 1) | low) as u8, v & 0x80 != 0)
}

pub fn alu_rotate_left(v: u8, through_self: bool, cin: bool) -> (r: (u8, bool))
    ensures
        r == spec_rotate_left(v, through_self, cin),
{
    let low: u8 = if through_self {
        v >> 7
    } else if cin {
        1
    } else {
        0
    };
    ((v << 1) | low, v & 0x80 != 0)
}

/// A right rotate: circular when `through_self`, else through the old
/// carry; the second component is the outgoing bit 0.
pub open spec fn spec_rotate_right(v: u8, through_self: bool, cin: bool) -> (u8, bool) {
    let high: u8 = if through_self {
        (v << 7) as u8
    } else if cin {
        0x80
    } else {
        0
    };
    (((v >> 1) | high) as u8, v & 1 != 0)
}

pub fn alu_rotate_right(v: u8, through_self: bool, cin: bool) -> (r: (u8, bool))
    ensures
        r == spec_rotate_right(v, through_self, cin),
{
    let high: u8 = if through_self {
        v << 7
    } else if cin {
        0x80
    } else {
        0
    };
    ((v >> 1) | high, v & 1 != 0)
}

/// An arithmetic left shift; the second component is the outgoing
/// bit 7.
pub open spec fn spec_shift_left(v: u8) -> (u8, bool) {
    ((v << 1) as u8, v & 0x80 != 0)
}

/// A right shift, logical or arithmetic (keeping bit 7); the second
/// component is the outgoing bit 0.
pub open spec fn spec_shift_right(v: u8, logical: bool) -> (u8, bool) {
    let r: u8 = if logical {
        (v >> 1) as u8
    } else {
        ((v >> 1) | (v & 0x80)) as u8
    };
    (r, v & 1 != 0)
}

/// The nibbles exchanged.
pub open spec fn spec_swap8(v: u8) -> u8 {
    ((v >> 4) | ((v & 0xf) << 4)) as u8
}

/// Decimal adjustment of A after BCD arithmetic: each nibble that
/// left its decimal range (per H, C and the value) is corrected by 6;
/// Z and C are updated, H cleared, N kept.
pub open spec fn spec_daa(a: u8, f: u8) -> (u8, u8) {
    let n = f & 0x40 != 0;
    let h = f & 0x20 != 0;
    let c = f & 0x10 != 0;
    let low = h || (!n && (a & 0xf) > 9);
    let cout = c || (!n && a > 0x99);
    let adj: u8 = ((if low {
        6u8
    } else {
        0u8
    }) + (if cout {
        0x60u8
    } else {
        0u8
    })) as u8;
    let r: u8 = if n {
        if a - adj < 0 {
            (a - adj + 0x100) as u8
        } else {
            (a - adj) as u8
        }
    } else {
        if a + adj > 0xff {
            (a + adj - 0x100) as u8
        } else {
            (a + adj) as u8
        }
    };
    (r, spec_flags_byte(r == 0, n, false, cout))
}

pub fn alu_daa(a: u8, f: u8) -> (r: (u8, u8))
    ensures
        r == spec_daa(a, f),
{
    let n = f & 0x40 != 0;
    let h = f & 0x20 != 0;
    let c = f & 0x10 != 0;
    let low = h || (!n && (a & 0xf) > 9);
    let cout = c || (!n && a > 0x99);
    let adj: u8 = (if low {
        6u8
    } else {
        0u8
    }) + (if cout {
        0x60u8
    } else {
        0u8
    });
    let r: u8 = if n {
        let d: u16 = 0x100 + a as u16 - adj as u16;
        if d < 0x100 {
            d as u8
        } else {
            (d - 0x100) as u8
        }
    } else {
        let s: u16 = a as u16 + adj as u16;
        if s > 0xff {
            (s - 0x100) as u8
        } else {
            s as u8
        }
    };
    (r, flags_byte(r == 0, n, false, cout))
}

/// The mask of a single bit position (zero for positions past bit 7).
pub open spec fn spec_bit_mask(b: u8) -> u8 {
    if b < 8 {
        (1u8 << b) as u8
    } else {
        0
    }
}

/// A pushed word: the high byte lands at `sp - 1`, the low byte at
/// `sp - 2`, through two bus writes.
pub open spec fn spec_push_rel(pre: Mmu, post: Mmu, sp: u16, value: u16) -> bool {
    exists|mid: Mmu|
        {
            &&& #[trigger] Mmu::spec_write_rel(pre, mid, spec_wsub16(sp, 1), (value >> 8) as u8)
            &&& Mmu::spec_write_rel(mid, post, spec_wsub16(sp, 2), value as u8)
        }
}

/// A stored word: the low byte lands at `address`, the high byte at
/// `address + 1`, through two bus writes.
pub open spec fn spec_store16_rel(pre: Mmu, post: Mmu, address: u16, value: u16) -> bool {
    exists|mid: Mmu|
        {
            &&& #[trigger] Mmu::spec_write_rel(pre, mid, address, value as u8)
            &&& Mmu::spec_write_rel(mid, post, spec_wadd16(address, 1), (value >> 8) as u8)
        }
}

impl Cpu {
    /// The value of an 8-bit register (zero for the 16-bit names,
    /// which no 8-bit access reaches).
    pub open spec fn spec_reg8(self, reg: CpuRegister) -> u8 {
        match reg {
            CpuRegister::A => self.a,
            CpuRegister::B => self.b,
            CpuRegister::C => self.c,
            CpuRegister::D => self.d,
            CpuRegister::E => self.e,
            CpuRegister::H => self.h,
            CpuRegister::L => self.l,
            CpuRegister::F => self.f,
            _ => 0,
        }
    }

    /// The value of any register name read at 16-bit width: 8-bit
    /// registers zero-extend.
    pub open spec fn spec_reg16(self, reg: CpuRegister) -> u16 {
        match reg {
            CpuRegister::A => self.a as u16,
            CpuRegister::B => self.b as u16,
            CpuRegister::C => self.c as u16,
            CpuRegister::D => self.d as u16,
            CpuRegister::E => self.e as u16,
            CpuRegister::H => self.h as u16,
            CpuRegister::L => self.l as u16,
            CpuRegister::F => self.f as u16,
            CpuRegister::AF => self.spec_af(),
            CpuRegister::BC => self.spec_bc(),
            CpuRegister::DE => self.spec_de(),
            CpuRegister::HL => self.spec_hl(),
            CpuRegister::SP => self.sp,
        }
    }

    /// Whether a register name can be written at 16-bit width.
    pub open spec fn spec_reg16_writable(reg: CpuRegister) -> bool {
        reg.spec_is_16bit()
    }

    /// The register file after a 16-bit write: writing AF clears the
    /// low nibble of F; a non-pair name leaves everything unchanged.
    pub open spec fn spec_set_reg16(self, reg: CpuRegister, value: u16) -> Cpu {
        match reg {
            CpuRegister::AF => Cpu {
                a: (value >> 8) as u8,
                f: (value & 0xf0) as u8,
                ..self
            },
            CpuRegister::BC => Cpu { b: (value >> 8) as u8, c: value as u8, ..self },
            CpuRegister::DE => Cpu { d: (value >> 8) as u8, e: value as u8, ..self },
            CpuRegister::HL => Cpu { h: (value >> 8) as u8, l: value as u8, ..self },
            CpuRegister::SP => Cpu { sp: value, ..self },
            _ => self,
        }
    }

    /// The register file after an 8-bit write; a 16-bit name takes the
    /// zero-extended byte.
    pub open spec fn spec_set_reg8(self, reg: CpuRegister, value: u8) -> Cpu {
        match reg {
            CpuRegister::A => Cpu { a: value, ..self },
            CpuRegister::B => Cpu { b: value, ..self },
            CpuRegister::C => Cpu { c: value, ..self },
            CpuRegister::D => Cpu { d: value, ..self },
            CpuRegister::E => Cpu { e: value, ..self },
            CpuRegister::H => Cpu { h: value, ..self },
            CpuRegister::L => Cpu { l: value, ..self },
            CpuRegister::F => Cpu { f: value, ..self },
            _ => self.spec_set_reg16(reg, value as u16),
        }
    }

    fn get_reg_u8(&self, reg: CpuRegister) -> (r: Result<u8, CpuError>)
        ensures
            r == if reg.spec_is_16bit() {
                Err::<u8, CpuError>(
                    CpuError::OperandSizeMismatch {
                        operand: InstructionOperand::Register(reg),
                        op: MemoryOperation::Read,
                    },
                )
            } else {
                Ok::<u8, CpuError>(self.spec_reg8(reg))
            },
    {
        match reg {
            CpuRegister::A => Ok(self.a),
            CpuRegister::B => Ok(self.b),
            CpuRegister::C => Ok(self.c),
            CpuRegister::D => Ok(self.d),
            CpuRegister::E => Ok(self.e),
            CpuRegister::H => Ok(self.h),
            CpuRegister::L => Ok(self.l),
            CpuRegister::F => Ok(self.f),
            _ => Err(
                CpuError::OperandSizeMismatch {
                    operand: InstructionOperand::Register(reg),
                    op: MemoryOperation::Read,
                },
            ),
        }
    }

    fn set_reg_u8(&mut self, reg: CpuRegister, value: u8) -> (r: Result<(), CpuError>)
        ensures
            r is Ok,
            *final(self) == old(self).spec_set_reg8(reg, value),
    {
        match reg {
            CpuRegister::A => self.a = value,
            CpuRegister::B => self.b = value,
            CpuRegister::C => self.c = value,
            CpuRegister::D => self.d = value,
            CpuRegister::E => self.e = value,
            CpuRegister::H => self.h = value,
            CpuRegister::L => self.l = value,
            CpuRegister::F => self.f = value,
            CpuRegister::AF => self.set_af(value as u16),
            CpuRegister::BC => self.set_bc(value as u16),
            CpuRegister::DE => self.set_de(value as u16),
            CpuRegister::HL => self.set_hl(value as u16),
            CpuRegister::SP => self.sp = value as u16,
        }

        Ok(())
    }

    fn get_reg_u16(&self, reg: CpuRegister) -> (r: Result<u16, CpuError>)
        ensures
            r == Ok::<u16, CpuError>(self.spec_reg16(reg)),
    {
        match reg {
            CpuRegister::A => Ok(self.a as u16),
            CpuRegister::B => Ok(self.b as u16),
            CpuRegister::C => Ok(self.c as u16),
            CpuRegister::D => Ok(self.d as u16),
            CpuRegister::E => Ok(self.e as u16),
            CpuRegister::H => Ok(self.h as u16),
            CpuRegister::L => Ok(self.l as u16),
            CpuRegister::F => Ok(self.f as u16),
            CpuRegister::AF => Ok(self.af()),
            CpuRegister::BC => Ok(self.bc()),
            CpuRegister::DE => Ok(self.de()),
            CpuRegister::HL => Ok(self.hl()),
            CpuRegister::SP => Ok(self.sp),
        }
    }

    fn set_reg_u16(&mut self, reg: CpuRegister, value: u16) -> (r: Result<(), CpuError>)
        ensures
            Cpu::spec_reg16_writable(reg) ==> r is Ok && *final(self) == old(self).spec_set_reg16(
                reg,
                value,
            ),
            !Cpu::spec_reg16_writable(reg) ==> *final(self) == *old(self) && r == Err::<
                (),
                CpuError,
            >(
                CpuError::OperandSizeMismatch {
                    operand: InstructionOperand::Register(reg),
                    op: MemoryOperation::Write,
                },
            ),
    {
        match reg {
            CpuRegister::AF => self.set_af(value),
            CpuRegister::BC => self.set_bc(value),
            CpuRegister::DE => self.set_de(value),
            CpuRegister::HL => self.set_hl(value),
            CpuRegister::SP => self.sp = value,
            _ => {
                return Err(
                    CpuError::OperandSizeMismatch {
                        operand: InstructionOperand::Register(reg),
                        op: MemoryOperation::Write,
                    },
                );
            },
        }

        Ok(())
    }

    /// Pops a little-endian word from the stack; SP gains two.
    pub fn pop_u16(&mut self, mem: &Mmu) -> (r: u16)
        requires
            mem.wf(),
        ensures
            r == ((mem.spec_read(spec_wadd16(old(self).sp, 1)) as u16) << 8) | (mem.spec_read(
                old(self).sp,
            ) as u16),
            *final(self) == (Cpu { sp: spec_wadd16(old(self).sp, 2), ..*old(self) }),
    {
        let lo = mem.read(self.sp);
        self.sp = self.sp.wrapping_add(1);
        let hi = mem.read(self.sp);
        self.sp = self.sp.wrapping_add(1);

        ((hi as u16) << 8) | (lo as u16)
    }

    /// Pushes a word onto the stack, high byte first; SP loses two. A
    /// refused write (into the boot overlay or the read-only scanline
    /// register) surfaces as the error but still costs the SP change.
    pub fn push_u16(&mut self, mem: &mut Mmu, value: u16) -> (r: Result<(), MemoryError>)
        requires
            old(mem).wf(),
        ensures
            final(mem).wf(),
            final(mem).cart.bytes@ == old(mem).cart.bytes@,
            *final(self) == (Cpu { sp: spec_wsub16(old(self).sp, 2), ..*old(self) }),
            spec_push_rel(*old(mem), *final(mem), old(self).sp, value),
    {
        let hi = (value >> 8) as u8;
        let lo = value as u8;

        self.sp = self.sp.wrapping_sub(1);
        let r1 = mem.write(self.sp, hi);
        let ghost mid = *mem;
        self.sp = self.sp.wrapping_sub(1);
        let r2 = mem.write(self.sp, lo);
        proof {
            assert(Mmu::spec_write_rel(*old(mem), mid, spec_wsub16(old(self).sp, 1), hi)
                && Mmu::spec_write_rel(mid, *mem, spec_wsub16(old(self).sp, 2), lo));
        }

        match r1 {
            Err(e) => Err(e),
            Ok(_) => r2,
        }
    }

    /// Reads the byte at PC and advances past it.
    fn fetch_u8(&mut self, mem: &Mmu) -> (r: u8)
        requires
            mem.wf(),
        ensures
            r == mem.spec_read(old(self).pc),
            *final(self) == (Cpu { pc: spec_wadd16(old(self).pc, 1), ..*old(self) }),
    {
        let ret = mem.read(self.pc);
        self.pc = self.pc.wrapping_add(1);
        ret
    }

    /// Reads the little-endian word at PC and advances past it.
    fn fetch_u16(&mut self, mem: &Mmu) -> (r: u16)
        requires
            mem.wf(),
        ensures
            r == ((mem.spec_read(spec_wadd16(old(self).pc, 1)) as u16) << 8) | (mem.spec_read(
                old(self).pc,
            ) as u16),
            *final(self) == (Cpu { pc: spec_wadd16(old(self).pc, 2), ..*old(self) }),
    {
        let lo = mem.read(self.pc);
        let hi = mem.read(self.pc.wrapping_add(1));
        self.pc = self.pc.wrapping_add(2);
        ((hi as u16) << 8) | (lo as u16)
    }

    /// Decodes the instruction at PC and advances past it; an invalid
    /// opcode still consumes its byte.
    pub fn fetch_instruction(&mut self, mem: &Mmu) -> (r: Result<Instruction, InstructionError>)
        requires
            mem.wf(),
        ensures
            ({
                let op = mem.spec_read(old(self).pc);
                let b1 = mem.spec_read(spec_wadd16(old(self).pc, 1));
                let b2 = mem.spec_read(spec_wadd16(old(self).pc, 2));
                match Instruction::spec_decode(op, b1, b2) {
                    Ok(p) => r == Ok::<Instruction, InstructionError>(p.0) && *final(self) == (Cpu {
                        pc: spec_wadd16(old(self).pc, p.1 as u16),
                        ..*old(self)
                    }) && spec_instr_wf(p.0),
                    Err(e) => r == Err::<Instruction, InstructionError>(e) && *final(self) == (Cpu {
                        pc: spec_wadd16(old(self).pc, 1),
                        ..*old(self)
                    }),
                }
            }),
    {
        let op = mem.read(self.pc);
        let b1 = mem.read(self.pc.wrapping_add(1));
        let b2 = mem.read(self.pc.wrapping_add(2));

        match Instruction::decode(op, b1, b2) {
            Ok((instruction, length)) => {
                self.pc = self.pc.wrapping_add(length as u16);
                Ok(instruction)
            },
            Err(e) => {
                self.pc = self.pc.wrapping_add(1);
                Err(e)
            },
        }
    }

    /// Decodes the CB-prefixed instruction whose second byte is at PC
    /// and advances past it.
    pub fn fetch_extended_instruction(&mut self, mem: &Mmu) -> (r: Result<
        Instruction,
        InstructionError,
    >)
        requires
            mem.wf(),
        ensures
            r == Ok::<Instruction, InstructionError>(
                Instruction::spec_decode_extended(mem.spec_read(old(self).pc)),
            ),
            *final(self) == (Cpu { pc: spec_wadd16(old(self).pc, 1), ..*old(self) }),
    {
        let opcode = self.fetch_u8(mem);
        Ok(Instruction::decode_extended(opcode))
    }
}

/// The address a memory operand names, given the current registers.
pub open spec fn spec_operand_addr(c: Cpu, op: InstructionOperand) -> u16 {
    match op {
        InstructionOperand::OffsetMemoryLocationRegister(off, r) => spec_wadd16(
            c.spec_reg16(r),
            off,
        ),
        InstructionOperand::MemoryLocationRegister(r) => c.spec_reg16(r),
        InstructionOperand::MemoryLocationRegisterDecrement(r) => c.spec_reg16(r),
        InstructionOperand::MemoryLocationRegisterIncrement(r) => c.spec_reg16(r),
        InstructionOperand::OffsetMemoryLocationImmediate8(off, a8) => spec_wadd16(off, a8 as u16),
        InstructionOperand::MemoryLocationImmediate16(a) => a,
        InstructionOperand::DoubleMemoryLocationImmediate16(a) => a,
        _ => 0,
    }
}

/// Whether the operand reaches through memory.
pub open spec fn spec_operand_is_mem(op: InstructionOperand) -> bool {
    match op {
        InstructionOperand::Register(_) => false,
        InstructionOperand::Immediate8(_) => false,
        InstructionOperand::Immediate16(_) => false,
        _ => true,
    }
}

/// The registers after an operand access: the post-decrement and
/// post-increment forms move their register.
pub open spec fn spec_after_operand(c: Cpu, op: InstructionOperand) -> Cpu {
    match op {
        InstructionOperand::MemoryLocationRegisterDecrement(r) => c.spec_set_reg16(
            r,
            spec_wsub16(c.spec_reg16(r), 1),
        ),
        InstructionOperand::MemoryLocationRegisterIncrement(r) => c.spec_set_reg16(
            r,
            spec_wadd16(c.spec_reg16(r), 1),
        ),
        _ => c,
    }
}

/// The post-increment and post-decrement forms move a register pair;
/// an 8-bit register there cannot be written back at 16-bit width.
pub open spec fn spec_opmove_ok(op: InstructionOperand) -> bool {
    match op {
        InstructionOperand::MemoryLocationRegisterDecrement(r) => r.spec_is_16bit(),
        InstructionOperand::MemoryLocationRegisterIncrement(r) => r.spec_is_16bit(),
        _ => true,
    }
}

/// Whether an 8-bit read of the operand succeeds.
pub open spec fn spec_read8_ok(op: InstructionOperand) -> bool {
    match op {
        InstructionOperand::Register(r) => !r.spec_is_16bit(),
        InstructionOperand::Immediate16(_) => false,
        InstructionOperand::MemoryLocationRegisterDecrement(r) => r.spec_is_16bit(),
        InstructionOperand::MemoryLocationRegisterIncrement(r) => r.spec_is_16bit(),
        _ => true,
    }
}

/// The byte an 8-bit operand read yields.
pub open spec fn spec_read8_val(c: Cpu, m: Mmu, op: InstructionOperand) -> u8 {
    match op {
        InstructionOperand::Register(r) => c.spec_reg8(r),
        InstructionOperand::Immediate8(v) => v,
        InstructionOperand::Immediate16(_) => 0,
        _ => m.spec_read(spec_operand_addr(c, op)),
    }
}

/// The word a 16-bit operand read yields (memory operands read one
/// byte, zero-extended).
pub open spec fn spec_read16_val(c: Cpu, m: Mmu, op: InstructionOperand) -> u16 {
    match op {
        InstructionOperand::Register(r) => c.spec_reg16(r),
        InstructionOperand::Immediate8(v) => v as u16,
        InstructionOperand::Immediate16(v) => v,
        _ => m.spec_read(spec_operand_addr(c, op)) as u16,
    }
}

impl Cpu {
    fn get_u8(&mut self, mem: &Mmu, operand: InstructionOperand) -> (r: Result<u8, CpuError>)
        requires
            mem.wf(),
        ensures
            spec_read8_ok(operand) ==> r == Ok::<u8, CpuError>(
                spec_read8_val(*old(self), *mem, operand),
            ) && *final(self) == spec_after_operand(*old(self), operand),
            !spec_read8_ok(operand) ==> *final(self) == *old(self) && r == Err::<u8, CpuError>(
                match operand {
                    InstructionOperand::Register(reg) => CpuError::OperandSizeMismatch {
                        operand: InstructionOperand::Register(reg),
                        op: MemoryOperation::Read,
                    },
                    InstructionOperand::MemoryLocationRegisterDecrement(reg)
                        => CpuError::OperandSizeMismatch {
                        operand: InstructionOperand::Register(reg),
                        op: MemoryOperation::Write,
                    },
                    InstructionOperand::MemoryLocationRegisterIncrement(reg)
                        => CpuError::OperandSizeMismatch {
                        operand: InstructionOperand::Register(reg),
                        op: MemoryOperation::Write,
                    },
                    _ => CpuError::ImmediateSizeMismatch,
                },
            ),
    {
        match operand {
            InstructionOperand::Register(reg) => self.get_reg_u8(reg),
            InstructionOperand::Immediate8(val) => Ok(val),
            InstructionOperand::Immediate16(_) => Err(CpuError::ImmediateSizeMismatch),
            InstructionOperand::OffsetMemoryLocationRegister(offset, reg) => {
                let base = match self.get_reg_u16(reg) {
                    Ok(v) => v,
                    Err(e) => {
                        return Err(e);
                    },
                };
                Ok(mem.read(base.wrapping_add(offset)))
            },
            InstructionOperand::MemoryLocationRegister(reg) => {
                let base = match self.get_reg_u16(reg) {
                    Ok(v) => v,
                    Err(e) => {
                        return Err(e);
                    },
                };
                Ok(mem.read(base))
            },
            InstructionOperand::MemoryLocationRegisterDecrement(reg) => {
                let base = match self.get_reg_u16(reg) {
                    Ok(v) => v,
                    Err(e) => {
                        return Err(e);
                    },
                };
                let value = mem.read(base);
                let result = self.set_reg_u16(reg, base.wrapping_sub(1));
                match result {
                    Ok(_) => Ok(value),
                    Err(e) => Err(e),
                }
            },
            InstructionOperand::MemoryLocationRegisterIncrement(reg) => {
                let base = match self.get_reg_u16(reg) {
                    Ok(v) => v,
                    Err(e) => {
                        return Err(e);
                    },
                };
                let value = mem.read(base);
                let result = self.set_reg_u16(reg, base.wrapping_add(1));
                match result {
                    Ok(_) => Ok(value),
                    Err(e) => Err(e),
                }
            },
            InstructionOperand::OffsetMemoryLocationImmediate8(offset, address) => {
                Ok(mem.read(offset.wrapping_add(address as u16)))
            },
            InstructionOperand::MemoryLocationImmediate16(address) => Ok(mem.read(address)),
            InstructionOperand::DoubleMemoryLocationImmediate16(address) => Ok(mem.read(address)),
        }
    }

    fn get_u16(&mut self, mem: &Mmu, operand: InstructionOperand) -> (r: Result<u16, CpuError>)
        requires
            mem.wf(),
        ensures
            spec_opmove_ok(operand) ==> r == Ok::<u16, CpuError>(
                spec_read16_val(*old(self), *mem, operand),
            ) && *final(self) == spec_after_operand(*old(self), operand),
            !spec_opmove_ok(operand) ==> *final(self) == *old(self) && r matches Err(_),
    {
        match operand {
            InstructionOperand::Register(reg) => self.get_reg_u16(reg),
            InstructionOperand::Immediate8(val) => Ok(val as u16),
            InstructionOperand::Immediate16(val) => Ok(val),
            InstructionOperand::OffsetMemoryLocationRegister(offset, reg) => {
                let base = match self.get_reg_u16(reg) {
                    Ok(v) => v,
                    Err(e) => {
                        return Err(e);
                    },
                };
                Ok(mem.read(base.wrapping_add(offset)) as u16)
            },
            InstructionOperand::MemoryLocationRegister(reg) => {
                let base = match self.get_reg_u16(reg) {
                    Ok(v) => v,
                    Err(e) => {
                        return Err(e);
                    },
                };
                Ok(mem.read(base) as u16)
            },
            InstructionOperand::MemoryLocationRegisterDecrement(reg) => {
                let base = match self.get_reg_u16(reg) {
                    Ok(v) => v,
                    Err(e) => {
                        return Err(e);
                    },
                };
                let value = mem.read(base) as u16;
                let result = self.set_reg_u16(reg, base.wrapping_sub(1));
                match result {
                    Ok(_) => Ok(value),
                    Err(e) => Err(e),
                }
            },
            InstructionOperand::MemoryLocationRegisterIncrement(reg) => {
                let base = match self.get_reg_u16(reg) {
                    Ok(v) => v,
                    Err(e) => {
                        return Err(e);
                    },
                };
                let value = mem.read(base) as u16;
                let result = self.set_reg_u16(reg, base.wrapping_add(1));
                match result {
                    Ok(_) => Ok(value),
                    Err(e) => Err(e),
                }
            },
            InstructionOperand::OffsetMemoryLocationImmediate8(offset, address) => {
                Ok(mem.read(offset.wrapping_add(address as u16)) as u16)
            },
            InstructionOperand::MemoryLocationImmediate16(address) => Ok(mem.read(address) as u16),
            InstructionOperand::DoubleMemoryLocationImmediate16(address) => Ok(
                mem.read(address) as u16,
            ),
        }
    }

    fn set_u8(&mut self, mem: &mut Mmu, operand: InstructionOperand, value: u8) -> (r: Result<
        (),
        CpuError,
    >)
        requires
            old(mem).wf(),
        ensures
            final(mem).wf(),
            final(mem).cart.bytes@ == old(mem).cart.bytes@,
            match operand {
                InstructionOperand::Register(reg) => r is Ok && *final(mem) == *old(mem)
                    && *final(self) == old(self).spec_set_reg8(reg, value),
                InstructionOperand::Immediate8(_) => r == Err::<(), CpuError>(
                    CpuError::ImmediateWrite,
                ) && *final(mem) == *old(mem) && *final(self) == *old(self),
                InstructionOperand::Immediate16(_) => r == Err::<(), CpuError>(
                    CpuError::ImmediateWrite,
                ) && *final(mem) == *old(mem) && *final(self) == *old(self),
                _ => ({
                    let addr = spec_operand_addr(*old(self), operand);
                    &&& *final(self) == spec_after_operand(*old(self), operand)
                    &&& Mmu::spec_write_rel(*old(mem), *final(mem), addr, value)
                    &&& r == if addr <= 0xff && old(mem).use_bios {
                        Err::<(), CpuError>(
                            CpuError::MemoryError(
                                MemoryError::Illegal {
                                    address: addr,
                                    op: MemoryOperation::Write,
                                },
                            ),
                        )
                    } else if addr == 0xff44 {
                        Err::<(), CpuError>(CpuError::MemoryError(MemoryError::ReadOnly { address: addr }))
                    } else if !spec_opmove_ok(operand) {
                        Err::<(), CpuError>(
                            match operand {
                                InstructionOperand::MemoryLocationRegisterDecrement(reg)
                                    => CpuError::OperandSizeMismatch {
                                    operand: InstructionOperand::Register(reg),
                                    op: MemoryOperation::Write,
                                },
                                InstructionOperand::MemoryLocationRegisterIncrement(reg)
                                    => CpuError::OperandSizeMismatch {
                                    operand: InstructionOperand::Register(reg),
                                    op: MemoryOperation::Write,
                                },
                                _ => CpuError::ImmediateWrite,
                            },
                        )
                    } else {
                        Ok::<(), CpuError>(())
                    }
                }),
            },
    {
        match operand {
            InstructionOperand::Register(reg) => self.set_reg_u8(reg, value),
            InstructionOperand::Immediate8(_) => Err(CpuError::ImmediateWrite),
            InstructionOperand::Immediate16(_) => Err(CpuError::ImmediateWrite),
            InstructionOperand::OffsetMemoryLocationRegister(offset, reg) => {
                let base = match self.get_reg_u16(reg) {
                    Ok(v) => v,
                    Err(e) => {
                        return Err(e);
                    },
                };
                match mem.write(base.wrapping_add(offset), value) {
                    Ok(_) => Ok(()),
                    Err(e) => Err(CpuError::MemoryError(e)),
                }
            },
            InstructionOperand::MemoryLocationRegister(reg) => {
                let base = match self.get_reg_u16(reg) {
                    Ok(v) => v,
                    Err(e) => {
                        return Err(e);
                    },
                };
                match mem.write(base, value) {
                    Ok(_) => Ok(()),
                    Err(e) => Err(CpuError::MemoryError(e)),
                }
            },
            InstructionOperand::MemoryLocationRegisterDecrement(reg) => {
                let base = match self.get_reg_u16(reg) {
                    Ok(v) => v,
                    Err(e) => {
                        return Err(e);
                    },
                };
                let result = mem.write(base, value);
                let set_result = self.set_reg_u16(reg, base.wrapping_sub(1));
                match (result, set_result) {
                    (Ok(_), Ok(_)) => Ok(()),
                    (Err(e), _) => Err(CpuError::MemoryError(e)),
                    (_, Err(e)) => Err(e),
                }
            },
            InstructionOperand::MemoryLocationRegisterIncrement(reg) => {
                let base = match self.get_reg_u16(reg) {
                    Ok(v) => v,
                    Err(e) => {
                        return Err(e);
                    },
                };
                let result = mem.write(base, value);
                let set_result = self.set_reg_u16(reg, base.wrapping_add(1));
                match (result, set_result) {
                    (Ok(_), Ok(_)) => Ok(()),
                    (Err(e), _) => Err(CpuError::MemoryError(e)),
                    (_, Err(e)) => Err(e),
                }
            },
            InstructionOperand::OffsetMemoryLocationImmediate8(offset, address) => {
                match mem.write(offset.wrapping_add(address as u16), value) {
                    Ok(_) => Ok(()),
                    Err(e) => Err(CpuError::MemoryError(e)),
                }
            },
            InstructionOperand::MemoryLocationImmediate16(address) => {
                match mem.write(address, value) {
                    Ok(_) => Ok(()),
                    Err(e) => Err(CpuError::MemoryError(e)),
                }
            },
            InstructionOperand::DoubleMemoryLocationImmediate16(address) => {
                match mem.write(address, value) {
                    Ok(_) => Ok(()),
                    Err(e) => Err(CpuError::MemoryError(e)),
                }
            },
        }
    }

    fn set_u16(&mut self, operand: InstructionOperand, value: u16) -> (r: Result<(), CpuError>)
        ensures
            match operand {
                InstructionOperand::Register(reg) => {
                    if Cpu::spec_reg16_writable(reg) {
                        r is Ok && *final(self) == old(self).spec_set_reg16(reg, value)
                    } else {
                        r == Err::<(), CpuError>(
                            CpuError::OperandSizeMismatch {
                                operand: InstructionOperand::Register(reg),
                                op: MemoryOperation::Write,
                            },
                        ) && *final(self) == *old(self)
                    }
                },
                InstructionOperand::Immediate8(_) => r == Err::<(), CpuError>(
                    CpuError::ImmediateWrite,
                ) && *final(self) == *old(self),
                InstructionOperand::Immediate16(_) => r == Err::<(), CpuError>(
                    CpuError::ImmediateWrite,
                ) && *final(self) == *old(self),
                _ => r == Err::<(), CpuError>(
                    CpuError::OperandSizeMismatch { operand, op: MemoryOperation::Write },
                ) && *final(self) == *old(self),
            },
    {
        match operand {
            InstructionOperand::Register(reg) => self.set_reg_u16(reg, value),
            InstructionOperand::Immediate8(_) => Err(CpuError::ImmediateWrite),
            InstructionOperand::Immediate16(_) => Err(CpuError::ImmediateWrite),
            _ => Err(CpuError::OperandSizeMismatch { operand, op: MemoryOperation::Write }),
        }
    }
}

/// Extra machine cycles a conditional branch costs when taken, given
/// the F byte it tests: one for jumps, three for calls and returns.
pub open spec fn spec_extra_cycles(i: Instruction, f: u8) -> nat {
    match i {
        Instruction::JumpIf(flag, expected, _) => {
            if (f & flag.spec_bit() != 0) == expected {
                1
            } else {
                0
            }
        },
        Instruction::JumpRelativeIf(flag, expected, _) => {
            if (f & flag.spec_bit() != 0) == expected {
                1
            } else {
                0
            }
        },
        Instruction::CallIf(flag, expected, _) => {
            if (f & flag.spec_bit() != 0) == expected {
                3
            } else {
                0
            }
        },
        Instruction::ReturnIf(flag, expected) => {
            if (f & flag.spec_bit() != 0) == expected {
                3
            } else {
                0
            }
        },
        _ => 0,
    }
}

/// The instructions that never write memory (registers, immediates
/// and memory reads only) and execute without an operand error. For
/// these, execution is a pure function of the processor and the bus.
pub open spec fn spec_instr_reads_only(i: Instruction) -> bool {
    match i {
        Instruction::Noop => true,
        Instruction::Stop => true,
        Instruction::Halt => true,
        Instruction::DisableInterrupts => true,
        Instruction::EnableInterrupts => true,
        Instruction::Complement => true,
        Instruction::SetCarryFlag(_) => true,
        Instruction::DAA => true,
        Instruction::RotateLeftA(_) => true,
        Instruction::RotateRightA(_) => true,
        Instruction::JumpRelative(_) => true,
        Instruction::JumpRelativeIf(_, _, _) => true,
        Instruction::JumpIf(_, _, _) => true,
        Instruction::Return => true,
        Instruction::ReturnIf(_, _) => true,
        Instruction::ReturnInterrupt => true,
        Instruction::SPOps(_) => true,
        Instruction::Jump(op) => spec_opmove_ok(op),
        Instruction::Load(to, from) => {
            match to {
                InstructionOperand::Register(r) => {
                    if r.spec_is_16bit() {
                        spec_opmove_ok(from)
                    } else {
                        spec_read8_ok(from)
                    }
                },
                _ => false,
            }
        },
        Instruction::And(op) => spec_read8_ok(op),
        Instruction::Or(op) => spec_read8_ok(op),
        Instruction::Xor(op) => spec_read8_ok(op),
        Instruction::Compare(op) => spec_read8_ok(op),
        Instruction::Subtract(op, _) => spec_read8_ok(op),
        Instruction::Add8(to, op, _) => !to.spec_is_16bit() && spec_read8_ok(op),
        Instruction::Add16(to, op) => Cpu::spec_reg16_writable(to) && spec_opmove_ok(op),
        Instruction::Increment(op) => op matches InstructionOperand::Register(_),
        Instruction::Decrement(op) => op matches InstructionOperand::Register(_),
        Instruction::Pop(r) => Cpu::spec_reg16_writable(r),
        Instruction::RotateLeft(op, _) => (op matches InstructionOperand::Register(r)
            && !r.spec_is_16bit()),
        Instruction::RotateRight(op, _) => (op matches InstructionOperand::Register(r)
            && !r.spec_is_16bit()),
        Instruction::ShiftLeft(op) => (op matches InstructionOperand::Register(r)
            && !r.spec_is_16bit()),
        Instruction::ShiftRight(op, _) => (op matches InstructionOperand::Register(r)
            && !r.spec_is_16bit()),
        Instruction::Swap(op) => (op matches InstructionOperand::Register(r)
            && !r.spec_is_16bit()),
        Instruction::SetBit(_, op, _) => (op matches InstructionOperand::Register(r)
            && !r.spec_is_16bit()),
        Instruction::Bit(_, op) => spec_read8_ok(op),
        Instruction::Push(_) => false,
        Instruction::Call(_) => false,
        Instruction::CallIf(_, _, _) => false,
        Instruction::Rst(_) => false,
    }
}

/// The word a Return-style instruction pops.
pub open spec fn spec_pop_val(c: Cpu, m: Mmu) -> u16 {
    ((m.spec_read(spec_wadd16(c.sp, 1)) as u16) << 8) | (m.spec_read(c.sp) as u16)
}

/// The processor after executing one memory-write-free instruction on
/// bus state `m` (meaningful when `spec_instr_reads_only` holds).
#[verifier::opaque]
pub open spec fn spec_exec_cpu(c: Cpu, m: Mmu, i: Instruction) -> Cpu {
    let carry = c.f & 0x10 != 0;
    match i {
        Instruction::Noop => c,
        Instruction::Stop => c,
        Instruction::Halt => Cpu { halted: true, ..c },
        Instruction::DisableInterrupts => Cpu { ime: InterruptMasterState::Disabled, ..c },
        Instruction::EnableInterrupts => Cpu {
            ime: if c.ime is Enabled {
                InterruptMasterState::Enabled
            } else {
                InterruptMasterState::ShouldEnable
            },
            ..c
        },
        Instruction::Complement => Cpu { a: !c.a, f: (c.f | 0x60) as u8, ..c },
        Instruction::SetCarryFlag(toggle) => {
            if !toggle {
                Cpu { f: ((c.f & 0x80) | 0x10) as u8, ..c }
            } else {
                Cpu {
                    f: ((c.f & 0x80) | (if carry {
                        0u8
                    } else {
                        0x10u8
                    })) as u8,
                    ..c
                }
            }
        },
        Instruction::DAA => {
            let p = spec_daa(c.a, c.f);
            Cpu { a: p.0, f: p.1, ..c }
        },
        Instruction::RotateLeftA(through_self) => {
            let p = spec_rotate_left(c.a, through_self, carry);
            Cpu { a: p.0, f: spec_flags_byte(false, false, false, p.1), ..c }
        },
        Instruction::RotateRightA(through_self) => {
            let p = spec_rotate_right(c.a, through_self, carry);
            Cpu { a: p.0, f: spec_flags_byte(false, false, false, p.1), ..c }
        },
        Instruction::Load(to, from) => {
            match to {
                InstructionOperand::Register(r) => {
                    if r.spec_is_16bit() {
                        let v = spec_read16_val(c, m, from);
                        spec_after_operand(c, from).spec_set_reg16(r, v)
                    } else {
                        let v = spec_read8_val(c, m, from);
                        spec_after_operand(c, from).spec_set_reg8(r, v)
                    }
                },
                _ => c,
            }
        },
        Instruction::And(op) => {
            let v = spec_read8_val(c, m, op);
            let c1 = spec_after_operand(c, op);
            Cpu {
                a: (c1.a & v) as u8,
                f: spec_flags_byte(c1.a & v == 0, false, true, false),
                ..c1
            }
        },
        Instruction::Or(op) => {
            let v = spec_read8_val(c, m, op);
            let c1 = spec_after_operand(c, op);
            Cpu {
                a: (c1.a | v) as u8,
                f: spec_flags_byte(c1.a | v == 0, false, false, false),
                ..c1
            }
        },
        Instruction::Xor(op) => {
            let v = spec_read8_val(c, m, op);
            let c1 = spec_after_operand(c, op);
            Cpu {
                a: (c1.a ^ v) as u8,
                f: spec_flags_byte(c1.a ^ v == 0, false, false, false),
                ..c1
            }
        },
        Instruction::Compare(op) => {
            let v = spec_read8_val(c, m, op);
            let c1 = spec_after_operand(c, op);
            Cpu { f: spec_sub8(c1.a, v, 0).1, ..c1 }
        },
        Instruction::Subtract(op, use_carry) => {
            let v = spec_read8_val(c, m, op);
            let c1 = spec_after_operand(c, op);
            let cin: u8 = if use_carry && carry {
                1
            } else {
                0
            };
            let p = spec_sub8(c1.a, v, cin);
            Cpu { a: p.0, f: p.1, ..c1 }
        },
        Instruction::Add8(to, op, use_carry) => {
            let av = c.spec_reg8(to);
            let v = spec_read8_val(c, m, op);
            let c1 = spec_after_operand(c, op);
            let cin: u8 = if use_carry && carry {
                1
            } else {
                0
            };
            let p = spec_add8(av, v, cin);
            Cpu { f: p.1, ..c1.spec_set_reg8(to, p.0) }
        },
        Instruction::Add16(to, op) => {
            let av = c.spec_reg16(to);
            let v = spec_read16_val(c, m, op);
            let c1 = spec_after_operand(c, op);
            let p = spec_add16(av, v, c.f);
            Cpu { f: p.1, ..c1.spec_set_reg16(to, p.0) }
        },
        Instruction::Increment(op) => {
            match op {
                InstructionOperand::Register(r) => {
                    if r.spec_is_16bit() {
                        c.spec_set_reg16(r, spec_wadd16(c.spec_reg16(r), 1))
                    } else {
                        let p = spec_inc8(c.spec_reg8(r), c.f);
                        Cpu { f: p.1, ..c.spec_set_reg8(r, p.0) }
                    }
                },
                _ => c,
            }
        },
        Instruction::Decrement(op) => {
            match op {
                InstructionOperand::Register(r) => {
                    if r.spec_is_16bit() {
                        c.spec_set_reg16(r, spec_wsub16(c.spec_reg16(r), 1))
                    } else {
                        let p = spec_dec8(c.spec_reg8(r), c.f);
                        Cpu { f: p.1, ..c.spec_set_reg8(r, p.0) }
                    }
                },
                _ => c,
            }
        },
        Instruction::Jump(op) => {
            let v = spec_read16_val(c, m, op);
            Cpu { pc: v, ..spec_after_operand(c, op) }
        },
        Instruction::JumpIf(flag, expected, address) => {
            if (c.f & flag.spec_bit() != 0) == expected {
                Cpu { pc: address, ..c }
            } else {
                c
            }
        },
        Instruction::JumpRelative(d) => Cpu { pc: spec_wadd16(c.pc, d as u16), ..c },
        Instruction::JumpRelativeIf(flag, expected, d) => {
            if (c.f & flag.spec_bit() != 0) == expected {
                Cpu { pc: spec_wadd16(c.pc, d as u16), ..c }
            } else {
                c
            }
        },
        Instruction::Return => Cpu { pc: spec_pop_val(c, m), sp: spec_wadd16(c.sp, 2), ..c },
        Instruction::ReturnIf(flag, expected) => {
            if (c.f & flag.spec_bit() != 0) == expected {
                Cpu { pc: spec_pop_val(c, m), sp: spec_wadd16(c.sp, 2), ..c }
            } else {
                c
            }
        },
        Instruction::ReturnInterrupt => Cpu {
            pc: spec_pop_val(c, m),
            sp: spec_wadd16(c.sp, 2),
            ime: InterruptMasterState::Enabled,
            ..c
        },
        Instruction::Pop(r) => {
            let v = spec_pop_val(c, m);
            (Cpu { sp: spec_wadd16(c.sp, 2), ..c }).spec_set_reg16(r, v)
        },
        Instruction::SPOps(op) => {
            match op {
                SPOps::AddOffset(d) => {
                    let p = spec_addsp(c.sp, d);
                    Cpu { sp: p.0, f: p.1, ..c }
                },
                SPOps::LoadIntoHL(d) => {
                    let p = spec_addsp(c.sp, d);
                    Cpu { f: p.1, ..c.spec_set_reg16(CpuRegister::HL, p.0) }
                },
                SPOps::LoadFromHL => Cpu { sp: c.spec_hl(), ..c },
            }
        },
        Instruction::RotateLeft(op, through_self) => {
            match op {
                InstructionOperand::Register(r) => {
                    let p = spec_rotate_left(c.spec_reg8(r), through_self, carry);
                    Cpu {
                        f: spec_flags_byte(p.0 == 0, false, false, p.1),
                        ..c.spec_set_reg8(r, p.0)
                    }
                },
                _ => c,
            }
        },
        Instruction::RotateRight(op, through_self) => {
            match op {
                InstructionOperand::Register(r) => {
                    let p = spec_rotate_right(c.spec_reg8(r), through_self, carry);
                    Cpu {
                        f: spec_flags_byte(p.0 == 0, false, false, p.1),
                        ..c.spec_set_reg8(r, p.0)
                    }
                },
                _ => c,
            }
        },
        Instruction::ShiftLeft(op) => {
            match op {
                InstructionOperand::Register(r) => {
                    let p = spec_shift_left(c.spec_reg8(r));
                    Cpu {
                        f: spec_flags_byte(p.0 == 0, false, false, p.1),
                        ..c.spec_set_reg8(r, p.0)
                    }
                },
                _ => c,
            }
        },
        Instruction::ShiftRight(op, logical) => {
            match op {
                InstructionOperand::Register(r) => {
                    let p = spec_shift_right(c.spec_reg8(r), logical);
                    Cpu {
                        f: spec_flags_byte(p.0 == 0, false, false, p.1),
                        ..c.spec_set_reg8(r, p.0)
                    }
                },
                _ => c,
            }
        },
        Instruction::Swap(op) => {
            match op {
                InstructionOperand::Register(r) => {
                    let v = spec_swap8(c.spec_reg8(r));
                    Cpu {
                        f: spec_flags_byte(v == 0, false, false, false),
                        ..c.spec_set_reg8(r, v)
                    }
                },
                _ => c,
            }
        },
        Instruction::Bit(b, op) => {
            let v = spec_read8_val(c, m, op);
            let c1 = spec_after_operand(c, op);
            Cpu {
                f: spec_flags_byte(v & spec_bit_mask(b) == 0, false, true, c1.f & 0x10 != 0),
                ..c1
            }
        },
        Instruction::SetBit(b, op, set) => {
            match op {
                InstructionOperand::Register(r) => {
                    let v = c.spec_reg8(r);
                    let nv: u8 = if set {
                        (v | spec_bit_mask(b)) as u8
                    } else {
                        (v & !spec_bit_mask(b)) as u8
                    };
                    c.spec_set_reg8(r, nv)
                },
                _ => c,
            }
        },
        Instruction::Push(_) => c,
        Instruction::Call(_) => c,
        Instruction::CallIf(_, _, _) => c,
        Instruction::Rst(_) => c,
    }
}

impl Cpu {
    /// Executes one decoded instruction against the bus. A pending EI
    /// becomes effective first. On success the cost in machine cycles
    /// is exact: the instruction's base cost plus the taken-branch
    /// extra. Memory-write-free instructions always succeed and leave
    /// the processor exactly as `spec_exec_cpu` describes.
    #[verifier::spinoff_prover]
    #[verifier::rlimit(100)]
    pub fn exec_instruction(&mut self, mem: &mut Mmu, instruction: Instruction) -> (r: Result<
        usize,
        CpuError,
    >)
        requires
            old(mem).wf(),
            spec_instr_wf(instruction),
        ensures
            final(mem).wf(),
            final(mem).cart.bytes@ == old(mem).cart.bytes@,
            ({
                let c0 = Cpu {
                    ime: if old(self).ime is ShouldEnable {
                        InterruptMasterState::Enabled
                    } else {
                        old(self).ime
                    },
                    ..*old(self)
                };
                &&& (r matches Ok(cy) ==> cy == instruction.spec_cycles() + spec_extra_cycles(
                    instruction,
                    c0.f,
                ) && cy <= 12)
                &&& (spec_instr_reads_only(instruction) ==> r is Ok && *final(mem) == *old(mem)
                    && *final(self) == spec_exec_cpu(c0, *old(mem), instruction))
                &&& (match instruction {
                    Instruction::Push(reg) => *final(self) == (Cpu {
                        sp: spec_wsub16(c0.sp, 2),
                        ..c0
                    }) && spec_push_rel(*old(mem), *final(mem), c0.sp, c0.spec_reg16(reg)),
                    Instruction::Call(address) => spec_push_rel(
                        *old(mem),
                        *final(mem),
                        c0.sp,
                        c0.pc,
                    ) && (r is Ok ==> *final(self) == (Cpu {
                        sp: spec_wsub16(c0.sp, 2),
                        pc: address,
                        ..c0
                    })),
                    Instruction::Rst(target) => spec_push_rel(
                        *old(mem),
                        *final(mem),
                        c0.sp,
                        c0.pc,
                    ) && (r is Ok ==> *final(self) == (Cpu {
                        sp: spec_wsub16(c0.sp, 2),
                        pc: target as u16,
                        ..c0
                    })),
                    Instruction::CallIf(flag, expected, address) => ({
                        if (c0.f & flag.spec_bit() != 0) == expected {
                            spec_push_rel(*old(mem), *final(mem), c0.sp, c0.pc) && (r is Ok
                                ==> *final(self) == (Cpu {
                                sp: spec_wsub16(c0.sp, 2),
                                pc: address,
                                ..c0
                            }))
                        } else {
                            *final(mem) == *old(mem) && *final(self) == c0 && r is Ok
                        }
                    }),
                    Instruction::Load(to, from) => ({
                        &&& ((spec_operand_is_mem(to) && !to.spec_is_16bit() && spec_read8_ok(
                            from,
                        )) ==> ({
                            let v = spec_read8_val(c0, *old(mem), from);
                            let c1 = spec_after_operand(c0, from);
                            &&& *final(self) == spec_after_operand(c1, to)
                            &&& Mmu::spec_write_rel(
                                *old(mem),
                                *final(mem),
                                spec_operand_addr(c1, to),
                                v,
                            )
                        }))
                        &&& (match to {
                            InstructionOperand::DoubleMemoryLocationImmediate16(address) => (
                            spec_opmove_ok(from) ==> ({
                                let v = spec_read16_val(c0, *old(mem), from);
                                &&& *final(self) == spec_after_operand(c0, from)
                                &&& spec_store16_rel(*old(mem), *final(mem), address, v)
                            })),
                            _ => true,
                        })
                    }),
                    _ => true,
                })
            }),
    {
        if let InterruptMasterState::ShouldEnable = self.ime {
            self.ime = InterruptMasterState::Enabled;
        }

        let mut cycles = instruction.cycles();

        match instruction {
            Instruction::Noop => {},
            Instruction::Stop => {},
            Instruction::Halt => {
                self.halted = true;
            },
            Instruction::DisableInterrupts => {
                self.ime = InterruptMasterState::Disabled;
            },
            Instruction::EnableInterrupts => {
                if let InterruptMasterState::Enabled = self.ime {
                } else {
                    self.ime = InterruptMasterState::ShouldEnable;
                }
            },
            Instruction::Complement => {
                self.a = !self.a;
                self.f = self.f | 0x60;
            },
            Instruction::SetCarryFlag(toggle) => {
                if !toggle {
                    self.f = (self.f & 0x80) | 0x10;
                } else {
                    self.f = (self.f & 0x80) | (if self.f & 0x10 != 0 {
                        0u8
                    } else {
                        0x10u8
                    });
                }
            },
            Instruction::DAA => {
                let p = alu_daa(self.a, self.f);
                self.a = p.0;
                self.f = p.1;
            },
            Instruction::RotateLeftA(through_self) => {
                let p = alu_rotate_left(self.a, through_self, self.f & 0x10 != 0);
                self.a = p.0;
                self.f = flags_byte(false, false, false, p.1);
            },
            Instruction::RotateRightA(through_self) => {
                let p = alu_rotate_right(self.a, through_self, self.f & 0x10 != 0);
                self.a = p.0;
                self.f = flags_byte(false, false, false, p.1);
            },
            Instruction::Load(to, from) => {
                match self.exec_load(mem, to, from) {
                    Ok(_) => {},
                    Err(e) => {
                        return Err(e);
                    },
                }
            },
            Instruction::And(from) => {
                match self.exec_alu8(mem, instruction) {
                    Ok(_) => {},
                    Err(e) => {
                        return Err(e);
                    },
                }
            },
            Instruction::Or(from) => {
                match self.exec_alu8(mem, instruction) {
                    Ok(_) => {},
                    Err(e) => {
                        return Err(e);
                    },
                }
            },
            Instruction::Xor(from) => {
                match self.exec_alu8(mem, instruction) {
                    Ok(_) => {},
                    Err(e) => {
                        return Err(e);
                    },
                }
            },
            Instruction::Compare(from) => {
                match self.exec_alu8(mem, instruction) {
                    Ok(_) => {},
                    Err(e) => {
                        return Err(e);
                    },
                }
            },
            Instruction::Subtract(from, use_carry) => {
                match self.exec_alu8(mem, instruction) {
                    Ok(_) => {},
                    Err(e) => {
                        return Err(e);
                    },
                }
            },
            Instruction::Add8(to, from, use_carry) => {
                match self.exec_alu8(mem, instruction) {
                    Ok(_) => {},
                    Err(e) => {
                        return Err(e);
                    },
                }
            },
            Instruction::Add16(to, from) => {
                let av = match self.get_reg_u16(to) {
                    Ok(v) => v,
                    Err(e) => {
                        return Err(e);
                    },
                };
                let old_f = self.f;
                let val = match self.get_u16(mem, from) {
                    Ok(v) => v,
                    Err(e) => {
                        return Err(e);
                    },
                };
                let p = alu_add16(av, val, old_f);
                match self.set_reg_u16(to, p.0) {
                    Ok(_) => {},
                    Err(e) => {
                        return Err(e);
                    },
                }
                self.f = p.1;
            },
            Instruction::Increment(to) => {
                match self.exec_rmw(mem, instruction) {
                    Ok(_) => {},
                    Err(e) => {
                        return Err(e);
                    },
                }
            },
            Instruction::Decrement(to) => {
                match self.exec_rmw(mem, instruction) {
                    Ok(_) => {},
                    Err(e) => {
                        return Err(e);
                    },
                }
            },
            Instruction::Jump(to) => {
                let val = match self.get_u16(mem, to) {
                    Ok(v) => v,
                    Err(e) => {
                        return Err(e);
                    },
                };
                self.pc = val;
            },
            Instruction::JumpIf(flag, expected, address) => {
                if (self.f & flag.bit() != 0) == expected {
                    cycles += 1;
                    self.pc = address;
                }
            },
            Instruction::JumpRelative(offset) => {
                self.pc = self.pc.wrapping_add(offset as u16);
            },
            Instruction::JumpRelativeIf(flag, expected, offset) => {
                if (self.f & flag.bit() != 0) == expected {
                    cycles += 1;
                    self.pc = self.pc.wrapping_add(offset as u16);
                }
            },
            Instruction::Return => {
                self.pc = self.pop_u16(mem);
            },
            Instruction::ReturnIf(flag, expected) => {
                if (self.f & flag.bit() != 0) == expected {
                    cycles += 3;
                    self.pc = self.pop_u16(mem);
                }
            },
            Instruction::ReturnInterrupt => {
                self.pc = self.pop_u16(mem);
                self.ime = InterruptMasterState::Enabled;
            },
            Instruction::Pop(reg) => {
                let val = self.pop_u16(mem);
                match self.set_reg_u16(reg, val) {
                    Ok(_) => {},
                    Err(e) => {
                        return Err(e);
                    },
                }
            },
            Instruction::Push(reg) => {
                let val = match self.get_reg_u16(reg) {
                    Ok(v) => v,
                    Err(e) => {
                        return Err(e);
                    },
                };
                match self.push_u16(mem, val) {
                    Ok(_) => {},
                    Err(e) => {
                        return Err(CpuError::MemoryError(e));
                    },
                }
            },
            Instruction::Call(address) => {
                let pc = self.pc;
                match self.push_u16(mem, pc) {
                    Ok(_) => {},
                    Err(e) => {
                        return Err(CpuError::MemoryError(e));
                    },
                }
                self.pc = address;
            },
            Instruction::CallIf(flag, expected, address) => {
                if (self.f & flag.bit() != 0) == expected {
                    cycles += 3;
                    let pc = self.pc;
                    match self.push_u16(mem, pc) {
                        Ok(_) => {},
                        Err(e) => {
                            return Err(CpuError::MemoryError(e));
                        },
                    }
                    self.pc = address;
                }
            },
            Instruction::Rst(target) => {
                let pc = self.pc;
                match self.push_u16(mem, pc) {
                    Ok(_) => {},
                    Err(e) => {
                        return Err(CpuError::MemoryError(e));
                    },
                }
                self.pc = target as u16;
            },
            Instruction::SPOps(op) => {
                match op {
                    SPOps::AddOffset(d) => {
                        let p = alu_addsp(self.sp, d);
                        self.sp = p.0;
                        self.f = p.1;
                    },
                    SPOps::LoadIntoHL(d) => {
                        let p = alu_addsp(self.sp, d);
                        self.set_hl(p.0);
                        self.f = p.1;
                    },
                    SPOps::LoadFromHL => {
                        self.sp = self.hl();
                    },
                }
            },
            Instruction::RotateLeft(to, through_self) => {
                match self.exec_rmw(mem, instruction) {
                    Ok(_) => {},
                    Err(e) => {
                        return Err(e);
                    },
                }
            },
            Instruction::RotateRight(to, through_self) => {
                match self.exec_rmw(mem, instruction) {
                    Ok(_) => {},
                    Err(e) => {
                        return Err(e);
                    },
                }
            },
            Instruction::ShiftLeft(to) => {
                match self.exec_rmw(mem, instruction) {
                    Ok(_) => {},
                    Err(e) => {
                        return Err(e);
                    },
                }
            },
            Instruction::ShiftRight(to, logical) => {
                match self.exec_rmw(mem, instruction) {
                    Ok(_) => {},
                    Err(e) => {
                        return Err(e);
                    },
                }
            },
            Instruction::Swap(to) => {
                match self.exec_rmw(mem, instruction) {
                    Ok(_) => {},
                    Err(e) => {
                        return Err(e);
                    },
                }
            },
            Instruction::Bit(bit, from) => {
                match self.exec_alu8(mem, instruction) {
                    Ok(_) => {},
                    Err(e) => {
                        return Err(e);
                    },
                }
            },
            Instruction::SetBit(bit, to, set) => {
                match self.exec_rmw(mem, instruction) {
                    Ok(_) => {},
                    Err(e) => {
                        return Err(e);
                    },
                }
            },
        }

        // The grouped helpers above establish the state equality for
        // their instructions; the arms executed inline discharge it
        // here, one case at a time.
        proof {
            let c0 = Cpu {
                ime: if old(self).ime is ShouldEnable {
                    InterruptMasterState::Enabled
                } else {
                    old(self).ime
                },
                ..*old(self)
            };
            if spec_instr_reads_only(instruction) {
                match instruction {
                    Instruction::Noop => {
                        assert(*self == spec_exec_cpu(c0, *mem, instruction)) by {
                            reveal(spec_exec_cpu);
                        }
                    },
                    Instruction::Stop => {
                        assert(*self == spec_exec_cpu(c0, *mem, instruction)) by {
                            reveal(spec_exec_cpu);
                        }
                    },
                    Instruction::Jump(_) => {
                        assert(*self == spec_exec_cpu(c0, *mem, instruction)) by {
                            reveal(spec_exec_cpu);
                        }
                    },
                    Instruction::JumpIf(_, _, _) => {
                        assert(*self == spec_exec_cpu(c0, *mem, instruction)) by {
                            reveal(spec_exec_cpu);
                        }
                    },
                    Instruction::JumpRelative(_) => {
                        assert(*self == spec_exec_cpu(c0, *mem, instruction)) by {
                            reveal(spec_exec_cpu);
                        }
                    },
                    Instruction::JumpRelativeIf(_, _, _) => {
                        assert(*self == spec_exec_cpu(c0, *mem, instruction)) by {
                            reveal(spec_exec_cpu);
                        }
                    },
                    Instruction::Call(_) => {
                        assert(*self == spec_exec_cpu(c0, *mem, instruction)) by {
                            reveal(spec_exec_cpu);
                        }
                    },
                    Instruction::CallIf(_, _, _) => {
                        assert(*self == spec_exec_cpu(c0, *mem, instruction)) by {
                            reveal(spec_exec_cpu);
                        }
                    },
                    Instruction::Add16(_, _) => {
                        assert(*self == spec_exec_cpu(c0, *mem, instruction)) by {
                            reveal(spec_exec_cpu);
                        }
                    },
                    Instruction::Push(_) => {
                        assert(*self == spec_exec_cpu(c0, *mem, instruction)) by {
                            reveal(spec_exec_cpu);
                        }
                    },
                    Instruction::Pop(_) => {
                        assert(*self == spec_exec_cpu(c0, *mem, instruction)) by {
                            reveal(spec_exec_cpu);
                        }
                    },
                    Instruction::RotateLeftA(_) => {
                        assert(*self == spec_exec_cpu(c0, *mem, instruction)) by {
                            reveal(spec_exec_cpu);
                        }
                    },
                    Instruction::RotateRightA(_) => {
                        assert(*self == spec_exec_cpu(c0, *mem, instruction)) by {
                            reveal(spec_exec_cpu);
                        }
                    },
                    Instruction::Return => {
                        assert(*self == spec_exec_cpu(c0, *mem, instruction)) by {
                            reveal(spec_exec_cpu);
                        }
                    },
                    Instruction::ReturnIf(_, _) => {
                        assert(*self == spec_exec_cpu(c0, *mem, instruction)) by {
                            reveal(spec_exec_cpu);
                        }
                    },
                    Instruction::ReturnInterrupt => {
                        assert(*self == spec_exec_cpu(c0, *mem, instruction)) by {
                            reveal(spec_exec_cpu);
                        }
                    },
                    Instruction::DisableInterrupts => {
                        assert(*self == spec_exec_cpu(c0, *mem, instruction)) by {
                            reveal(spec_exec_cpu);
                        }
                    },
                    Instruction::EnableInterrupts => {
                        assert(*self == spec_exec_cpu(c0, *mem, instruction)) by {
                            reveal(spec_exec_cpu);
                        }
                    },
                    Instruction::Complement => {
                        assert(*self == spec_exec_cpu(c0, *mem, instruction)) by {
                            reveal(spec_exec_cpu);
                        }
                    },
                    Instruction::Rst(_) => {
                        assert(*self == spec_exec_cpu(c0, *mem, instruction)) by {
                            reveal(spec_exec_cpu);
                        }
                    },
                    Instruction::DAA => {
                        assert(*self == spec_exec_cpu(c0, *mem, instruction)) by {
                            reveal(spec_exec_cpu);
                        }
                    },
                    Instruction::SPOps(_) => {
                        assert(*self == spec_exec_cpu(c0, *mem, instruction)) by {
                            reveal(spec_exec_cpu);
                        }
                    },
                    Instruction::SetCarryFlag(_) => {
                        assert(*self == spec_exec_cpu(c0, *mem, instruction)) by {
                            reveal(spec_exec_cpu);
                        }
                    },
                    Instruction::Halt => {
                        assert(*self == spec_exec_cpu(c0, *mem, instruction)) by {
                            reveal(spec_exec_cpu);
                        }
                    },
                    _ => {
                    },
                }
            }
        }
        Ok(cycles)
    }


    /// The 8-bit arithmetic and logic group plus BIT: reads its
    /// operand (registers, immediates or memory) and updates A and the
    /// flags; it never writes memory.
    fn exec_alu8(&mut self, mem: &Mmu, instruction: Instruction) -> (r: Result<(), CpuError>)
        requires
            mem.wf(),
            spec_instr_wf(instruction),
            instruction matches Instruction::And(_) || instruction matches Instruction::Or(_)
                || instruction matches Instruction::Xor(_) || instruction
                matches Instruction::Compare(_) || instruction matches Instruction::Subtract(_, _)
                || instruction matches Instruction::Add8(_, _, _) || instruction
                matches Instruction::Bit(_, _),
        ensures
            spec_instr_reads_only(instruction) ==> r is Ok && *final(self) == spec_exec_cpu(
                *old(self),
                *mem,
                instruction,
            ),
    {
        let ghost c0 = *self;
        match instruction {
            Instruction::And(from) => {
                let val = match self.get_u8(mem, from) {
                    Ok(v) => v,
                    Err(e) => {
                        return Err(e);
                    },
                };
                self.a = self.a & val;
                self.f = flags_byte(self.a == 0, false, true, false);
            
                proof {
                    if spec_instr_reads_only(instruction) {
                        assert(*self == spec_exec_cpu(c0, *mem, instruction)) by {
                            reveal(spec_exec_cpu);
                        }
                    }
                }
            },
            Instruction::Or(from) => {
                let val = match self.get_u8(mem, from) {
                    Ok(v) => v,
                    Err(e) => {
                        return Err(e);
                    },
                };
                self.a = self.a | val;
                self.f = flags_byte(self.a == 0, false, false, false);
            
                proof {
                    if spec_instr_reads_only(instruction) {
                        assert(*self == spec_exec_cpu(c0, *mem, instruction)) by {
                            reveal(spec_exec_cpu);
                        }
                    }
                }
            },
            Instruction::Xor(from) => {
                let val = match self.get_u8(mem, from) {
                    Ok(v) => v,
                    Err(e) => {
                        return Err(e);
                    },
                };
                self.a = self.a ^ val;
                self.f = flags_byte(self.a == 0, false, false, false);
            
                proof {
                    if spec_instr_reads_only(instruction) {
                        assert(*self == spec_exec_cpu(c0, *mem, instruction)) by {
                            reveal(spec_exec_cpu);
                        }
                    }
                }
            },
            Instruction::Compare(from) => {
                let val = match self.get_u8(mem, from) {
                    Ok(v) => v,
                    Err(e) => {
                        return Err(e);
                    },
                };
                let p = alu_sub8(self.a, val, 0);
                self.f = p.1;
            
                proof {
                    if spec_instr_reads_only(instruction) {
                        assert(*self == spec_exec_cpu(c0, *mem, instruction)) by {
                            reveal(spec_exec_cpu);
                        }
                    }
                }
            },
            Instruction::Subtract(from, use_carry) => {
                let cin: u8 = if use_carry && self.f & 0x10 != 0 {
                    1
                } else {
                    0
                };
                let val = match self.get_u8(mem, from) {
                    Ok(v) => v,
                    Err(e) => {
                        return Err(e);
                    },
                };
                let p = alu_sub8(self.a, val, cin);
                self.a = p.0;
                self.f = p.1;
            
                proof {
                    if spec_instr_reads_only(instruction) {
                        assert(*self == spec_exec_cpu(c0, *mem, instruction)) by {
                            reveal(spec_exec_cpu);
                        }
                    }
                }
            },
            Instruction::Add8(to, from, use_carry) => {
                let cin: u8 = if use_carry && self.f & 0x10 != 0 {
                    1
                } else {
                    0
                };
                let av = match self.get_reg_u8(to) {
                    Ok(v) => v,
                    Err(e) => {
                        return Err(e);
                    },
                };
                let val = match self.get_u8(mem, from) {
                    Ok(v) => v,
                    Err(e) => {
                        return Err(e);
                    },
                };
                let p = alu_add8(av, val, cin);
                match self.set_reg_u8(to, p.0) {
                    Ok(_) => {},
                    Err(e) => {
                        return Err(e);
                    },
                }
                self.f = p.1;
            
                proof {
                    if spec_instr_reads_only(instruction) {
                        assert(*self == spec_exec_cpu(c0, *mem, instruction)) by {
                            reveal(spec_exec_cpu);
                        }
                    }
                }
            },
            Instruction::Bit(bit, from) => {
                let val = match self.get_u8(mem, from) {
                    Ok(v) => v,
                    Err(e) => {
                        return Err(e);
                    },
                };
                let mask: u8 = 1u8 << bit;
                self.f = flags_byte(val & mask == 0, false, true, self.f & 0x10 != 0);
            
                proof {
                    if spec_instr_reads_only(instruction) {
                        assert(*self == spec_exec_cpu(c0, *mem, instruction)) by {
                            reveal(spec_exec_cpu);
                        }
                    }
                }
            },
            _ => {
            },
        }
        Ok(())
    }

    /// The read-modify-write group: increments, decrements, rotates,
    /// shifts, swap and RES/SET, on a register or a memory byte.
    fn exec_rmw(&mut self, mem: &mut Mmu, instruction: Instruction) -> (r: Result<(), CpuError>)
        requires
            old(mem).wf(),
            spec_instr_wf(instruction),
            instruction matches Instruction::Increment(_) || instruction
                matches Instruction::Decrement(_) || instruction
                matches Instruction::RotateLeft(_, _) || instruction
                matches Instruction::RotateRight(_, _) || instruction
                matches Instruction::ShiftLeft(_) || instruction
                matches Instruction::ShiftRight(_, _) || instruction matches Instruction::Swap(_)
                || instruction matches Instruction::SetBit(_, _, _),
        ensures
            final(mem).wf(),
            final(mem).cart.bytes@ == old(mem).cart.bytes@,
            spec_instr_reads_only(instruction) ==> r is Ok && *final(mem) == *old(mem)
                && *final(self) == spec_exec_cpu(*old(self), *old(mem), instruction),
    {
        let ghost c0 = *self;
        match instruction {
            Instruction::Increment(to) => {
                if to.is_16bit() {
                    let val = match self.get_u16(mem, to) {
                        Ok(v) => v,
                        Err(e) => {
                            return Err(e);
                        },
                    };
                    match self.set_u16(to, val.wrapping_add(1)) {
                        Ok(_) => {},
                        Err(e) => {
                            return Err(e);
                        },
                    }
                } else {
                    let val = match self.get_u8(mem, to) {
                        Ok(v) => v,
                        Err(e) => {
                            return Err(e);
                        },
                    };
                    let p = alu_inc8(val, self.f);
                    match self.set_u8(mem, to, p.0) {
                        Ok(_) => {},
                        Err(e) => {
                            return Err(e);
                        },
                    }
                    self.f = p.1;
                }
            
                proof {
                    if spec_instr_reads_only(instruction) {
                        assert(*self == spec_exec_cpu(c0, *old(mem), instruction)) by {
                            reveal(spec_exec_cpu);
                        }
                        assert(*mem == *old(mem));
                    }
                }
            },
            Instruction::Decrement(to) => {
                if to.is_16bit() {
                    let val = match self.get_u16(mem, to) {
                        Ok(v) => v,
                        Err(e) => {
                            return Err(e);
                        },
                    };
                    match self.set_u16(to, val.wrapping_sub(1)) {
                        Ok(_) => {},
                        Err(e) => {
                            return Err(e);
                        },
                    }
                } else {
                    let val = match self.get_u8(mem, to) {
                        Ok(v) => v,
                        Err(e) => {
                            return Err(e);
                        },
                    };
                    let p = alu_dec8(val, self.f);
                    match self.set_u8(mem, to, p.0) {
                        Ok(_) => {},
                        Err(e) => {
                            return Err(e);
                        },
                    }
                    self.f = p.1;
                }
            
                proof {
                    if spec_instr_reads_only(instruction) {
                        assert(*self == spec_exec_cpu(c0, *old(mem), instruction)) by {
                            reveal(spec_exec_cpu);
                        }
                        assert(*mem == *old(mem));
                    }
                }
            },
            Instruction::RotateLeft(to, through_self) => {
                let carry = self.f & 0x10 != 0;
                let val = match self.get_u8(mem, to) {
                    Ok(v) => v,
                    Err(e) => {
                        return Err(e);
                    },
                };
                let p = alu_rotate_left(val, through_self, carry);
                match self.set_u8(mem, to, p.0) {
                    Ok(_) => {},
                    Err(e) => {
                        return Err(e);
                    },
                }
                self.f = flags_byte(p.0 == 0, false, false, p.1);
            
                proof {
                    if spec_instr_reads_only(instruction) {
                        assert(*self == spec_exec_cpu(c0, *old(mem), instruction)) by {
                            reveal(spec_exec_cpu);
                        }
                        assert(*mem == *old(mem));
                    }
                }
            },
            Instruction::RotateRight(to, through_self) => {
                let carry = self.f & 0x10 != 0;
                let val = match self.get_u8(mem, to) {
                    Ok(v) => v,
                    Err(e) => {
                        return Err(e);
                    },
                };
                let p = alu_rotate_right(val, through_self, carry);
                match self.set_u8(mem, to, p.0) {
                    Ok(_) => {},
                    Err(e) => {
                        return Err(e);
                    },
                }
                self.f = flags_byte(p.0 == 0, false, false, p.1);
            
                proof {
                    if spec_instr_reads_only(instruction) {
                        assert(*self == spec_exec_cpu(c0, *old(mem), instruction)) by {
                            reveal(spec_exec_cpu);
                        }
                        assert(*mem == *old(mem));
                    }
                }
            },
            Instruction::ShiftLeft(to) => {
                let val = match self.get_u8(mem, to) {
                    Ok(v) => v,
                    Err(e) => {
                        return Err(e);
                    },
                };
                let shifted: u8 = val << 1;
                match self.set_u8(mem, to, shifted) {
                    Ok(_) => {},
                    Err(e) => {
                        return Err(e);
                    },
                }
                self.f = flags_byte(shifted == 0, false, false, val & 0x80 != 0);
            
                proof {
                    if spec_instr_reads_only(instruction) {
                        assert(*self == spec_exec_cpu(c0, *old(mem), instruction)) by {
                            reveal(spec_exec_cpu);
                        }
                        assert(*mem == *old(mem));
                    }
                }
            },
            Instruction::ShiftRight(to, logical) => {
                let val = match self.get_u8(mem, to) {
                    Ok(v) => v,
                    Err(e) => {
                        return Err(e);
                    },
                };
                let shifted: u8 = if logical {
                    val >> 1
                } else {
                    (val >> 1) | (val & 0x80)
                };
                match self.set_u8(mem, to, shifted) {
                    Ok(_) => {},
                    Err(e) => {
                        return Err(e);
                    },
                }
                self.f = flags_byte(shifted == 0, false, false, val & 1 != 0);
            
                proof {
                    if spec_instr_reads_only(instruction) {
                        assert(*self == spec_exec_cpu(c0, *old(mem), instruction)) by {
                            reveal(spec_exec_cpu);
                        }
                        assert(*mem == *old(mem));
                    }
                }
            },
            Instruction::Swap(to) => {
                let val = match self.get_u8(mem, to) {
                    Ok(v) => v,
                    Err(e) => {
                        return Err(e);
                    },
                };
                let swapped: u8 = (val >> 4) | ((val & 0xf) << 4);
                match self.set_u8(mem, to, swapped) {
                    Ok(_) => {},
                    Err(e) => {
                        return Err(e);
                    },
                }
                self.f = flags_byte(swapped == 0, false, false, false);
            
                proof {
                    if spec_instr_reads_only(instruction) {
                        assert(*self == spec_exec_cpu(c0, *old(mem), instruction)) by {
                            reveal(spec_exec_cpu);
                        }
                        assert(*mem == *old(mem));
                    }
                }
            },
            Instruction::SetBit(bit, to, set) => {
                let val = match self.get_u8(mem, to) {
                    Ok(v) => v,
                    Err(e) => {
                        return Err(e);
                    },
                };
                let mask: u8 = 1u8 << bit;
                let nv: u8 = if set {
                    val | mask
                } else {
                    val & !mask
                };
                match self.set_u8(mem, to, nv) {
                    Ok(_) => {},
                    Err(e) => {
                        return Err(e);
                    },
                }
            
                proof {
                    if spec_instr_reads_only(instruction) {
                        assert(*self == spec_exec_cpu(c0, *old(mem), instruction)) by {
                            reveal(spec_exec_cpu);
                        }
                        assert(*mem == *old(mem));
                    }
                }
            },
            _ => {
            },
        }
        Ok(())
    }

    /// One load: reads the source operand and stores it to the
    /// destination, at either width.
    fn exec_load(&mut self, mem: &mut Mmu, to: InstructionOperand, from: InstructionOperand) -> (r:
        Result<(), CpuError>)
        requires
            old(mem).wf(),
        ensures
            final(mem).wf(),
            final(mem).cart.bytes@ == old(mem).cart.bytes@,
            spec_instr_reads_only(Instruction::Load(to, from)) ==> r is Ok && *final(mem) == *old(
                mem,
            ) && *final(self) == spec_exec_cpu(*old(self), *old(mem), Instruction::Load(to, from)),
            (spec_operand_is_mem(to) && !to.spec_is_16bit() && spec_read8_ok(from)) ==> ({
                let v = spec_read8_val(*old(self), *old(mem), from);
                let c1 = spec_after_operand(*old(self), from);
                &&& *final(self) == spec_after_operand(c1, to)
                &&& Mmu::spec_write_rel(*old(mem), *final(mem), spec_operand_addr(c1, to), v)
            }),
            (match to {
                InstructionOperand::DoubleMemoryLocationImmediate16(address) => (spec_opmove_ok(
                    from,
                ) ==> ({
                    let v = spec_read16_val(*old(self), *old(mem), from);
                    &&& *final(self) == spec_after_operand(*old(self), from)
                    &&& spec_store16_rel(*old(mem), *final(mem), address, v)
                })),
                _ => true,
            }),
    {
        let ghost c0 = *self;
        let ghost instruction = Instruction::Load(to, from);

                if to.is_16bit() {
                    let val = match self.get_u16(mem, from) {
                        Ok(v) => v,
                        Err(e) => {
                            return Err(e);
                        },
                    };
                    if let InstructionOperand::DoubleMemoryLocationImmediate16(address) = to {
                        let r1 = mem.write(address, val as u8);
                        let ghost mid = *mem;
                        let r2 = mem.write(address.wrapping_add(1), (val >> 8) as u8);
                        proof {
                            assert(Mmu::spec_write_rel(*old(mem), mid, address, val as u8)
                                && Mmu::spec_write_rel(
                                mid,
                                *mem,
                                spec_wadd16(address, 1),
                                (val >> 8) as u8,
                            ));
                        }
                        match r1 {
                            Ok(_) => {},
                            Err(e) => {
                                return Err(CpuError::MemoryError(e));
                            },
                        }
                        match r2 {
                            Ok(_) => {},
                            Err(e) => {
                                return Err(CpuError::MemoryError(e));
                            },
                        }
                    } else {
                        match self.set_u16(to, val) {
                            Ok(_) => {},
                            Err(e) => {
                                return Err(e);
                            },
                        }
                    }
                } else {
                    let val = match self.get_u8(mem, from) {
                        Ok(v) => v,
                        Err(e) => {
                            return Err(e);
                        },
                    };
                    match self.set_u8(mem, to, val) {
                        Ok(_) => {},
                        Err(e) => {
                            return Err(e);
                        },
                    }
                }
            
                proof {
                    if spec_instr_reads_only(instruction) {
                        assert(*self == spec_exec_cpu(c0, *old(mem), instruction)) by {
                            reveal(spec_exec_cpu);
                        }
                        assert(*mem == *old(mem));
                    }
                }

        Ok(())
    }

    /// Fetches, decodes and executes the instruction at PC.
    pub fn exec_next_instruction(&mut self, mem: &mut Mmu) -> (r: Result<usize, CpuError>)
        requires
            old(mem).wf(),
        ensures
            final(mem).wf(),
            final(mem).cart.bytes@ == old(mem).cart.bytes@,
            ({
                let op = old(mem).spec_read(old(self).pc);
                let b1 = old(mem).spec_read(spec_wadd16(old(self).pc, 1));
                let b2 = old(mem).spec_read(spec_wadd16(old(self).pc, 2));
                match Instruction::spec_decode(op, b1, b2) {
                    Err(e) => r == Err::<usize, CpuError>(CpuError::InstructionError(e))
                        && *final(self) == (Cpu { pc: spec_wadd16(old(self).pc, 1), ..*old(self) })
                        && *final(mem) == *old(mem),
                    Ok(p) => ({
                        let c1 = Cpu { pc: spec_wadd16(old(self).pc, p.1 as u16), ..*old(self) };
                        let c0 = Cpu {
                            ime: if c1.ime is ShouldEnable {
                                InterruptMasterState::Enabled
                            } else {
                                c1.ime
                            },
                            ..c1
                        };
                        &&& (r matches Ok(cy) ==> cy == p.0.spec_cycles() + spec_extra_cycles(
                            p.0,
                            c0.f,
                        ) && cy <= 12)
                        &&& (spec_instr_reads_only(p.0) ==> r is Ok && *final(mem) == *old(mem)
                            && *final(self) == spec_exec_cpu(c0, *old(mem), p.0))
                    }),
                }
            }),
    {
        let instruction = match self.fetch_instruction(mem) {
            Ok(i) => i,
            Err(e) => {
                return Err(CpuError::InstructionError(e));
            },
        };
        self.exec_instruction(mem, instruction)
    }
}

/// Which of the five interrupt lines is dispatched first: the lowest
/// set bit wins.
pub open spec fn spec_interrupt_index(mask: u8) -> int {
    if mask & INT_VBLANK != 0 {
        0
    } else if mask & INT_LCD_STAT != 0 {
        1
    } else if mask & INT_TIMER != 0 {
        2
    } else if mask & INT_SERIAL != 0 {
        3
    } else {
        4
    }
}

/// The interrupt bit belonging to that line.
pub open spec fn spec_interrupt_bit(mask: u8) -> u8 {
    if mask & INT_VBLANK != 0 {
        INT_VBLANK
    } else if mask & INT_LCD_STAT != 0 {
        INT_LCD_STAT
    } else if mask & INT_TIMER != 0 {
        INT_TIMER
    } else if mask & INT_SERIAL != 0 {
        INT_SERIAL
    } else {
        INT_JOYPAD
    }
}

impl Cpu {
    /// Vectored interrupt dispatch: with the master enable on and a
    /// line pending and enabled, the highest-priority line (VBlank
    /// first) is acknowledged: the master enable closes, PC is pushed,
    /// control vectors to 0x40 + 8 x line, and five machine cycles are
    /// charged. Returns the cycles spent and the bit acknowledged.
    pub fn process_interrupts(&mut self, mem: &mut Mmu, interrupts: u8) -> (r: (usize, u8))
        requires
            old(mem).wf(),
        ensures
            final(mem).wf(),
            final(mem).cart.bytes@ == old(mem).cart.bytes@,
            (!(old(self).ime is Enabled) || interrupts & INT_ALL == 0) ==> r == (0usize, 0u8)
                && *final(self) == *old(self) && *final(mem) == *old(mem),
            (old(self).ime is Enabled && interrupts & INT_ALL != 0) ==> ({
                let idx = spec_interrupt_index(interrupts);
                &&& r.0 == 5
                &&& r.1 == spec_interrupt_bit(interrupts)
                &&& *final(self) == (Cpu {
                    ime: InterruptMasterState::Disabled,
                    pc: (0x40 + 8 * idx) as u16,
                    sp: spec_wsub16(old(self).sp, 2),
                    ..*old(self)
                })
                &&& exists|mid: Mmu|
                    #[trigger] Mmu::spec_write_rel(
                        *old(mem),
                        mid,
                        spec_wsub16(old(self).sp, 1),
                        (old(self).pc >> 8) as u8,
                    ) && Mmu::spec_write_rel(
                        mid,
                        *final(mem),
                        spec_wsub16(old(self).sp, 2),
                        old(self).pc as u8,
                    )
            }),
    {
        if let InterruptMasterState::Enabled = self.ime {
        } else {
            return (0, 0);
        }
        proof {
            lemma_interrupt_mask_split(interrupts);
        }

        let (bit, vector): (u8, u16) = if interrupts & INT_VBLANK != 0 {
            (INT_VBLANK, 0x40)
        } else if interrupts & INT_LCD_STAT != 0 {
            (INT_LCD_STAT, 0x48)
        } else if interrupts & INT_TIMER != 0 {
            (INT_TIMER, 0x50)
        } else if interrupts & INT_SERIAL != 0 {
            (INT_SERIAL, 0x58)
        } else if interrupts & INT_JOYPAD != 0 {
            (INT_JOYPAD, 0x60)
        } else {
            return (0, 0);
        };

        self.ime = InterruptMasterState::Disabled;
        let pc = self.pc;
        let _ = self.push_u16(mem, pc);
        self.pc = vector;

        (5, bit)
    }
}

proof fn lemma_interrupt_mask_split(m: u8)
    by (bit_vector)
    ensures
        (m & 0x1f != 0) <==> (m & 0x01 != 0 || m & 0x02 != 0 || m & 0x04 != 0 || m & 0x08 != 0
            || m & 0x10 != 0),
{
}



impl Cpu {
    /// Decodes instructions from address 0 up to `max` without
    /// executing anything; PC is restored afterwards. Each entry pairs
    /// an address with what decodes there, or nothing for an invalid
    /// opcode.
    pub fn disassemble(&mut self, mem: &Mmu, max: u16) -> (r: Vec<(u16, Option<Instruction>)>)
        requires
            mem.wf(),
        ensures
            *final(self) == *old(self),
    {
        let old_pc = self.pc;
        let mut out: Vec<(u16, Option<Instruction>)> = Vec::new();

        self.pc = 0;
        while self.pc < max
            invariant
                mem.wf(),
                old_pc == old(self).pc,
                *self == (Cpu { pc: self.pc, ..*old(self) }),
            decreases 0x10000 - self.pc,
        {
            let here = self.pc;
            let entry = match self.fetch_instruction(mem) {
                Ok(instruction) => Some(instruction),
                Err(_) => None,
            };
            out.push((here, entry));
            if self.pc <= here {
                self.pc = old_pc;
                return out;
            }
        }

        self.pc = old_pc;
        out
    }
}

/// Writing a 16-bit register pair and reading it back yields the
/// written value - except AF, where the low nibble of F always reads
/// back as zero.
pub proof fn lemma_reg_pair_roundtrip(c: Cpu, v: u16)
    ensures
        c.spec_set_reg16(CpuRegister::BC, v).spec_bc() == v,
        c.spec_set_reg16(CpuRegister::DE, v).spec_de() == v,
        c.spec_set_reg16(CpuRegister::HL, v).spec_hl() == v,
        c.spec_set_reg16(CpuRegister::SP, v).sp == v,
        c.spec_set_reg16(CpuRegister::AF, v).spec_af() == v & 0xfff0,
{
    lemma_pair_pack(v);
    lemma_af_pack(v);
}

} // verus!
