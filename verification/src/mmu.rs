//! The memory bus: routes every 16-bit address to the cartridge, the
//! graphics unit, the timer or its own RAM, owns the interrupt
//! registers and the joypad port, and drives the whole machine one
//! instruction at a time.
use vstd::prelude::*;

use crate::cartridge::Cartridge;
use crate::cpu::{spec_exec_cpu, spec_extra_cycles, spec_instr_reads_only, spec_interrupt_bit, spec_interrupt_index, spec_wadd16, spec_wsub16};
use crate::cpu::{Cpu, CpuError, InterruptMasterState, INT_ALL, INT_JOYPAD};
use crate::instruction::Instruction;
use crate::gpu::Gpu;
use crate::memory::{MemoryError, MemoryOperation};
use crate::timer::Timer;

verus! {

/// One of the eight buttons. Directions share selector bit 4 of P1;
/// the action buttons share selector bit 5.
#[derive(Clone, Copy, PartialEq, Eq, Structural, Debug)]
pub enum JoypadButton {
    Up,
    Down,
    Left,
    Right,
    Start,
    Select,
    B,
    A,
}

impl JoypadButton {
    /// The P1 selector bit that must be low for this button's group to
    /// be visible.
    pub open spec fn spec_enabled_bit(self) -> u8 {
        match self {
            JoypadButton::Up => 0x10,
            JoypadButton::Down => 0x10,
            JoypadButton::Left => 0x10,
            JoypadButton::Right => 0x10,
            JoypadButton::Start => 0x20,
            JoypadButton::Select => 0x20,
            JoypadButton::B => 0x20,
            JoypadButton::A => 0x20,
        }
    }

    pub fn enabled_bit(&self) -> (r: u8)
        ensures
            r == self.spec_enabled_bit(),
    {
        match self {
            JoypadButton::Up => 0x10,
            JoypadButton::Down => 0x10,
            JoypadButton::Left => 0x10,
            JoypadButton::Right => 0x10,
            JoypadButton::Start => 0x20,
            JoypadButton::Select => 0x20,
            JoypadButton::B => 0x20,
            JoypadButton::A => 0x20,
        }
    }

    /// The button's own active-low bit in P1's low nibble.
    pub open spec fn spec_bit(self) -> u8 {
        match self {
            JoypadButton::Up => 0x04,
            JoypadButton::Down => 0x08,
            JoypadButton::Left => 0x02,
            JoypadButton::Right => 0x01,
            JoypadButton::Start => 0x08,
            JoypadButton::Select => 0x04,
            JoypadButton::B => 0x02,
            JoypadButton::A => 0x01,
        }
    }

    pub fn bit(&self) -> (r: u8)
        ensures
            r == self.spec_bit(),
    {
        match self {
            JoypadButton::Up => 0x04,
            JoypadButton::Down => 0x08,
            JoypadButton::Left => 0x02,
            JoypadButton::Right => 0x01,
            JoypadButton::Start => 0x08,
            JoypadButton::Select => 0x04,
            JoypadButton::B => 0x02,
            JoypadButton::A => 0x01,
        }
    }
}

/// Packs a four-entry palette into its register byte: entry `i` lands
/// in bits `2i` and `2i + 1`.
pub open spec fn spec_pack_palette(p: Seq<u8>) -> u8 {
    (p[0] | (p[1] << 2) | (p[2] << 4) | (p[3] << 6)) as u8
}

pub fn pack_palette(palette: &Vec<u8>) -> (r: u8)
    requires
        palette@.len() == 4,
    ensures
        r == spec_pack_palette(palette@),
{
    palette[0] | (palette[1] << 2) | (palette[2] << 4) | (palette[3] << 6)
}

/// Unpacks a palette register byte into its four 2-bit entries.
pub open spec fn spec_unpack_palette(b: u8) -> Seq<u8> {
    seq![b & 0b11, (b >> 2) & 0b11, (b >> 4) & 0b11, (b >> 6) & 0b11]
}

pub fn unpack_palette(palette: u8) -> (r: Vec<u8>)
    ensures
        r@ == spec_unpack_palette(palette),
        r@.len() == 4,
        forall|i: int| 0 <= i < 4 ==> r@[i] < 4,
{
    let mut v: Vec<u8> = Vec::new();
    v.push(palette & 0b11);
    v.push((palette >> 2) & 0b11);
    v.push((palette >> 4) & 0b11);
    v.push((palette >> 6) & 0b11);
    proof {
        lemma_palette_entry_bounds(palette);
        assert(v@ =~= spec_unpack_palette(palette));
    }
    v
}

/// Packing the unpacked entries of any byte gives the byte back, and
/// unpacking is therefore a left inverse of packing on unpacked
/// values: `unpack(pack(unpack(b))) == unpack(b)`.
pub proof fn lemma_palette_roundtrip(b: u8)
    ensures
        spec_pack_palette(spec_unpack_palette(b)) == b,
        spec_unpack_palette(spec_pack_palette(spec_unpack_palette(b))) == spec_unpack_palette(b),
{
    lemma_palette_pack_unpack(b);
}

proof fn lemma_palette_pack_unpack(b: u8)
    by (bit_vector)
    ensures
        ((b & 0b11) | (((b >> 2) & 0b11) << 2) | (((b >> 4) & 0b11) << 4) | (((b >> 6) & 0b11)
            << 6)) as u8 == b,
{
}

proof fn lemma_palette_entry_bounds(b: u8)
    by (bit_vector)
    ensures
        b & 0b11 < 4,
        (b >> 2) & 0b11 < 4,
        (b >> 4) & 0b11 < 4,
        (b >> 6) & 0b11 < 4,
{
}

/// The bus. The boot-ROM overlay covers 0x0000..=0x00FF until the
/// first non-zero write to 0xFF50.
pub struct Mmu {
    pub bios: Vec<u8>,
    pub use_bios: bool,
    pub cart: Cartridge,
    pub gpu: Gpu,
    pub timer: Timer,
    pub wram: Vec<u8>,
    pub hram: Vec<u8>,
    pub interrupts: u8,
    pub interrupts_enabled: u8,
    pub p1: u8,
    pub pressed: Vec<JoypadButton>,
}

impl Mmu {
    /// Component invariants plus the bus's own buffer sizes and the
    /// five-bit range of the interrupt registers.
    pub open spec fn wf(self) -> bool {
        &&& self.bios@.len() == 0x100
        &&& self.cart.bytes@.len() > 0
        &&& self.cart.mbc.wf()
        &&& self.gpu.wf()
        &&& self.timer.wf()
        &&& self.wram@.len() == 0x2000
        &&& self.hram@.len() == 0x7f
        &&& self.interrupts & !INT_ALL == 0
        &&& self.interrupts_enabled & !INT_ALL == 0
    }

    /// Assembles a bus around a boot ROM, a cartridge and a graphics
    /// unit; work RAM, high RAM and the registers start zeroed, and the
    /// boot-ROM overlay starts on.
    pub fn new(bios: Vec<u8>, cart: Cartridge, gpu: Gpu) -> (r: Mmu)
        requires
            bios@.len() == 0x100,
            cart.bytes@.len() > 0,
            cart.mbc.wf(),
            gpu.wf(),
        ensures
            r.wf(),
            r.bios@ == bios@,
            r.use_bios,
            r.cart == cart,
            r.gpu == gpu,
            r.timer == (Timer {
                divider: 0,
                counter: 0,
                modulo: 0xff,
                speed: 0,
                enabled: false,
                div_clock: 0,
                counter_clock: 0,
            }),
            r.interrupts == 0 && r.interrupts_enabled == 0,
            r.p1 == 0x0f,
            r.pressed@.len() == 0,
            forall|i: int| 0 <= i < 0x2000 ==> r.wram@[i] == 0,
            forall|i: int| 0 <= i < 0x7f ==> r.hram@[i] == 0,
    {
        proof {
            lemma_int_mask_facts();
        }
        Mmu {
            bios,
            use_bios: true,
            cart,
            gpu,
            timer: Timer::new(),
            wram: crate::gpu::zero_bytes(0x2000),
            hram: crate::gpu::zero_bytes(0x7f),
            interrupts: 0,
            interrupts_enabled: 0,
            p1: 0x0f,
            pressed: Vec::new(),
        }
    }
}

impl Mmu {
    /// The byte a read of `address` yields: the boot ROM under the
    /// overlay, then cartridge, video RAM, work RAM (and its mirror),
    /// OAM, the memory-mapped registers and high RAM; unmapped
    /// addresses read as 0xFF.
    #[verifier::opaque]
    pub open spec fn spec_read(self, address: u16) -> u8 {
        if address <= 0xff && self.use_bios {
            self.bios@[address as int]
        } else if address <= 0x7fff {
            self.cart.spec_read(address)
        } else if 0x8000 <= address <= 0x9fff {
            self.gpu.vram@[address - 0x8000]
        } else if 0xa000 <= address <= 0xbfff {
            self.cart.spec_read(address)
        } else if 0xc000 <= address <= 0xdfff {
            self.wram@[address - 0xc000]
        } else if 0xe000 <= address <= 0xfdff {
            self.wram@[address - 0xe000]
        } else if 0xfe00 <= address <= 0xfe9f {
            self.gpu.oam@[address - 0xfe00]
        } else if 0xfea0 <= address <= 0xfeff {
            0xff
        } else if address == 0xff00 {
            self.p1
        } else if address == 0xff04 {
            self.timer.divider
        } else if address == 0xff05 {
            self.timer.counter
        } else if address == 0xff06 {
            self.timer.modulo
        } else if address == 0xff07 {
            (self.timer.speed + if self.timer.enabled {
                4u8
            } else {
                0u8
            }) as u8
        } else if address == 0xff0f {
            self.interrupts
        } else if 0xff10 <= address <= 0xff26 {
            0
        } else if 0xff30 <= address <= 0xff3f {
            0
        } else if address == 0xff40 {
            self.gpu.lcd_control
        } else if address == 0xff41 {
            self.gpu.spec_stat()
        } else if address == 0xff42 {
            self.gpu.scroll_y
        } else if address == 0xff43 {
            self.gpu.scroll_x
        } else if address == 0xff44 {
            self.gpu.line
        } else if address == 0xff45 {
            self.gpu.lyc
        } else if address == 0xff47 {
            spec_pack_palette(self.gpu.bg_palette@)
        } else if address == 0xff48 {
            spec_pack_palette(self.gpu.obj_palette0@)
        } else if address == 0xff49 {
            spec_pack_palette(self.gpu.obj_palette1@)
        } else if address == 0xff4a {
            self.gpu.window_coords.1
        } else if address == 0xff4b {
            self.gpu.window_coords.0
        } else if 0xff80 <= address <= 0xfffe {
            self.hram@[address - 0xff80]
        } else if address == 0xffff {
            self.interrupts_enabled
        } else {
            0xff
        }
    }

    /// Serves a read anywhere in the 16-bit address space.
    pub fn read(&self, address: u16) -> (r: u8)
        requires
            self.wf(),
        ensures
            r == self.spec_read(address),
    {
        proof {
            reveal(Mmu::spec_read);
        }
        if address <= 0xff && self.use_bios {
            self.bios[address as usize]
        } else if address <= 0x7fff {
            self.cart.read(address)
        } else if 0x8000 <= address && address <= 0x9fff {
            self.gpu.vram[(address - 0x8000) as usize]
        } else if 0xa000 <= address && address <= 0xbfff {
            self.cart.read(address)
        } else if 0xc000 <= address && address <= 0xdfff {
            self.wram[(address - 0xc000) as usize]
        } else if 0xe000 <= address && address <= 0xfdff {
            self.wram[(address - 0xe000) as usize]
        } else if 0xfe00 <= address && address <= 0xfe9f {
            self.gpu.oam[(address - 0xfe00) as usize]
        } else if 0xfea0 <= address && address <= 0xfeff {
            0xff
        } else if address == 0xff00 {
            self.p1
        } else if address == 0xff04 {
            self.timer.divider
        } else if address == 0xff05 {
            self.timer.counter
        } else if address == 0xff06 {
            self.timer.modulo
        } else if address == 0xff07 {
            self.timer.timer_control()
        } else if address == 0xff0f {
            self.interrupts
        } else if 0xff10 <= address && address <= 0xff26 {
            0
        } else if 0xff30 <= address && address <= 0xff3f {
            0
        } else if address == 0xff40 {
            self.gpu.lcd_control
        } else if address == 0xff41 {
            self.gpu.stat()
        } else if address == 0xff42 {
            self.gpu.scroll_y
        } else if address == 0xff43 {
            self.gpu.scroll_x
        } else if address == 0xff44 {
            self.gpu.scanline()
        } else if address == 0xff45 {
            self.gpu.lyc
        } else if address == 0xff47 {
            pack_palette(&self.gpu.bg_palette)
        } else if address == 0xff48 {
            pack_palette(&self.gpu.obj_palette0)
        } else if address == 0xff49 {
            pack_palette(&self.gpu.obj_palette1)
        } else if address == 0xff4a {
            self.gpu.window_coords.1
        } else if address == 0xff4b {
            self.gpu.window_coords.0
        } else if 0xff80 <= address && address <= 0xfffe {
            self.hram[(address - 0xff80) as usize]
        } else if address == 0xffff {
            self.interrupts_enabled
        } else {
            0xff
        }
    }

    /// P1 after a selector write: the written selector bits over a
    /// released low nibble, with each held button's bit pulled low when
    /// its group is selected.
    pub open spec fn spec_apply_pressed(p1: u8, pressed: Seq<JoypadButton>, k: int) -> u8
        decreases pressed.len() - k,
    {
        if k < 0 || k >= pressed.len() {
            p1
        } else {
            let b = pressed[k];
            let p2 = if p1 & b.spec_enabled_bit() != 0 {
                p1
            } else {
                p1 & !b.spec_bit()
            };
            Mmu::spec_apply_pressed(p2, pressed, k + 1)
        }
    }

    /// How one bus write relates the machine before and after it, by
    /// address region.
    #[verifier::opaque]
    pub open spec fn spec_write_rel(pre: Mmu, post: Mmu, address: u16, value: u8) -> bool {

                if address <= 0xff && pre.use_bios {
                    post == pre
                } else if address <= 0x7fff || 0xa000 <= address <= 0xbfff {
                    &&& post == (Mmu { cart: post.cart, ..pre })
                    &&& Cartridge::spec_write_rel(pre.cart, post.cart, address, value)
                } else if 0x8000 <= address <= 0x9fff {
                    &&& post == (Mmu { gpu: post.gpu, ..pre })
                    &&& post.gpu == (Gpu {
                        vram: post.gpu.vram,
                        tiles: post.gpu.tiles,
                        ..pre.gpu
                    })
                    &&& post.gpu.vram@ == pre.gpu.vram@.update(
                        address - 0x8000,
                        value,
                    )
                    &&& spec_tile_row_rebuilt(pre.gpu, post.gpu, (address - 0x8000) as u16)
                } else if 0xc000 <= address <= 0xdfff {
                    &&& post == (Mmu { wram: post.wram, ..pre })
                    &&& post.wram@ == pre.wram@.update(address - 0xc000, value)
                } else if 0xe000 <= address <= 0xfdff {
                    &&& post == (Mmu { wram: post.wram, ..pre })
                    &&& post.wram@ == pre.wram@.update(address - 0xe000, value)
                } else if 0xfe00 <= address <= 0xfe9f {
                    &&& post == (Mmu { gpu: post.gpu, ..pre })
                    &&& post.gpu == (Gpu { oam: post.gpu.oam, ..pre.gpu })
                    &&& post.gpu.oam@ == pre.gpu.oam@.update(address - 0xfe00, value)
                } else if address == 0xff00 {
                    post == (Mmu {
                        p1: Mmu::spec_apply_pressed(
                            ((value & 0x30) | 0x0f) as u8,
                            pre.pressed@,
                            0,
                        ),
                        ..pre
                    })
                } else if address == 0xff04 {
                    post == (Mmu {
                        timer: Timer { divider: 0, div_clock: 0, ..pre.timer },
                        ..pre
                    })
                } else if address == 0xff05 {
                    post == (Mmu {
                        timer: Timer { counter: value, ..pre.timer },
                        ..pre
                    })
                } else if address == 0xff06 {
                    post == (Mmu {
                        timer: Timer { modulo: value, ..pre.timer },
                        ..pre
                    })
                } else if address == 0xff07 {
                    post == (Mmu {
                        timer: Timer {
                            speed: value & 0b11,
                            enabled: value & 0b100 != 0,
                            ..pre.timer
                        },
                        ..pre
                    })
                } else if address == 0xff0f {
                    post == (Mmu { interrupts: value & 0x1f, ..pre })
                } else if address == 0xff40 {
                    &&& post == (Mmu { gpu: post.gpu, ..pre })
                    &&& post.gpu == (Gpu { lcd_control: value, ..pre.gpu })
                } else if address == 0xff41 {
                    &&& post == (Mmu { gpu: post.gpu, ..pre })
                    &&& post.gpu == (Gpu {
                        stat_interrupt_source: value & 0x78,
                        ..pre.gpu
                    })
                } else if address == 0xff42 {
                    &&& post == (Mmu { gpu: post.gpu, ..pre })
                    &&& post.gpu == (Gpu { scroll_y: value, ..pre.gpu })
                } else if address == 0xff43 {
                    &&& post == (Mmu { gpu: post.gpu, ..pre })
                    &&& post.gpu == (Gpu { scroll_x: value, ..pre.gpu })
                } else if address == 0xff44 {
                    post == pre
                } else if address == 0xff45 {
                    &&& post == (Mmu { gpu: post.gpu, ..pre })
                    &&& post.gpu == (Gpu { lyc: value, ..pre.gpu })
                } else if address == 0xff46 {
                    &&& post == (Mmu { gpu: post.gpu, ..pre })
                    &&& post.gpu == (Gpu { oam: post.gpu.oam, ..pre.gpu })
                    &&& post.gpu.oam@.len() == 0xa0
                    &&& (forall|i: int|
                        0 <= i < 0xa0 ==> post.gpu.oam@[i] == pre.spec_read(
                            (((value as int) * 256 + i) % 0x10000) as u16,
                        ))
                } else if address == 0xff47 {
                    &&& post == (Mmu { gpu: post.gpu, ..pre })
                    &&& post.gpu == (Gpu {
                        bg_palette: post.gpu.bg_palette,
                        ..pre.gpu
                    })
                    &&& post.gpu.bg_palette@ == spec_unpack_palette(value)
                } else if address == 0xff48 {
                    &&& post == (Mmu { gpu: post.gpu, ..pre })
                    &&& post.gpu == (Gpu {
                        obj_palette0: post.gpu.obj_palette0,
                        ..pre.gpu
                    })
                    &&& post.gpu.obj_palette0@ == spec_unpack_palette(value)
                } else if address == 0xff49 {
                    &&& post == (Mmu { gpu: post.gpu, ..pre })
                    &&& post.gpu == (Gpu {
                        obj_palette1: post.gpu.obj_palette1,
                        ..pre.gpu
                    })
                    &&& post.gpu.obj_palette1@ == spec_unpack_palette(value)
                } else if address == 0xff4a {
                    &&& post == (Mmu { gpu: post.gpu, ..pre })
                    &&& post.gpu == (Gpu {
                        window_coords: (pre.gpu.window_coords.0, value),
                        ..pre.gpu
                    })
                } else if address == 0xff4b {
                    &&& post == (Mmu { gpu: post.gpu, ..pre })
                    &&& post.gpu == (Gpu {
                        window_coords: (value, pre.gpu.window_coords.1),
                        ..pre.gpu
                    })
                } else if address == 0xff50 {
                    post == (Mmu {
                        use_bios: pre.use_bios && value == 0,
                        ..pre
                    })
                } else if 0xff80 <= address <= 0xfffe {
                    &&& post == (Mmu { hram: post.hram, ..pre })
                    &&& post.hram@ == pre.hram@.update(address - 0xff80, value)
                } else if address == 0xffff {
                    post == (Mmu { interrupts_enabled: value & 0x1f, ..pre })
                } else {
                    post == pre
                }
    }

    /// Routes a write anywhere in the 16-bit address space. Only two
    /// writes are refused: into the boot ROM while the overlay is on,
    /// and to the read-only scanline register.
    pub fn write(&mut self, address: u16, value: u8) -> (r: Result<(), MemoryError>)
        requires
            old(self).wf(),
        ensures
            final(self).wf(),
            final(self).cart.bytes@ == old(self).cart.bytes@,
            r == if address <= 0xff && old(self).use_bios {
                Result::<(), MemoryError>::Err(
                    MemoryError::Illegal { address, op: MemoryOperation::Write },
                )
            } else if address == 0xff44 {
                Result::<(), MemoryError>::Err(MemoryError::ReadOnly { address })
            } else {
                Result::<(), MemoryError>::Ok(())
            },
            Mmu::spec_write_rel(*old(self), *final(self), address, value),
    {
        proof {
            reveal(Mmu::spec_write_rel);
            reveal(Mmu::spec_read);
            lemma_write_reg_masks(value);
        }
        if address <= 0xff && self.use_bios {
            Err(MemoryError::Illegal { address, op: MemoryOperation::Write })
        } else if address <= 0x7fff {
            self.cart.write(address, value);
            Ok(())
        } else if 0x8000 <= address && address <= 0x9fff {
            self.gpu.write_vram(address - 0x8000, value);
            Ok(())
        } else if 0xa000 <= address && address <= 0xbfff {
            self.cart.write(address, value);
            Ok(())
        } else if 0xc000 <= address && address <= 0xdfff {
            self.wram[(address - 0xc000) as usize] = value;
            Ok(())
        } else if 0xe000 <= address && address <= 0xfdff {
            self.wram[(address - 0xe000) as usize] = value;
            Ok(())
        } else if 0xfe00 <= address && address <= 0xfe9f {
            self.gpu.oam[(address - 0xfe00) as usize] = value;
            Ok(())
        } else if 0xfea0 <= address && address <= 0xfeff {
            Ok(())
        } else if address == 0xff00 {
            self.p1 = (value & 0x30) | 0x0f;

            let ghost base = self.p1;
            let mut i: usize = 0;
            while i < self.pressed.len()
                invariant
                    i <= self.pressed@.len(),
                    *self == (Mmu { p1: self.p1, ..*old(self) }),
                    Mmu::spec_apply_pressed(base, self.pressed@, 0) == Mmu::spec_apply_pressed(
                        self.p1,
                        self.pressed@,
                        i as int,
                    ),
                decreases self.pressed@.len() - i,
            {
                let button = self.pressed[i];

                if self.p1 & button.enabled_bit() == 0 {
                    self.p1 = self.p1 & !button.bit();
                }
                i = i + 1;
            }
            Ok(())
        } else if address == 0xff04 {
            self.timer.divider = 0;
            self.timer.div_clock = 0;
            Ok(())
        } else if address == 0xff05 {
            self.timer.counter = value;
            Ok(())
        } else if address == 0xff06 {
            self.timer.modulo = value;
            Ok(())
        } else if address == 0xff07 {
            self.timer.set_timer_control(value);
            Ok(())
        } else if address == 0xff0f {
            self.interrupts = value & 0x1f;
            Ok(())
        } else if address == 0xff40 {
            self.gpu.lcd_control = value;
            Ok(())
        } else if address == 0xff41 {
            self.gpu.set_stat(value);
            Ok(())
        } else if address == 0xff42 {
            self.gpu.scroll_y = value;
            Ok(())
        } else if address == 0xff43 {
            self.gpu.scroll_x = value;
            Ok(())
        } else if address == 0xff44 {
            Err(MemoryError::ReadOnly { address })
        } else if address == 0xff45 {
            self.gpu.lyc = value;
            Ok(())
        } else if address == 0xff46 {
            let base: u16 = (value as u16) << 8;
            proof {
                lemma_dma_base(value);
            }

            let mut copied: Vec<u8> = Vec::new();
            let mut i: usize = 0;
            while i < 0xa0
                invariant
                    i <= 0xa0,
                    self.wf(),
                    *self == *old(self),
                    base == (value as int) * 256,
                    base + 0xa0 <= 0x10000,
                    copied@.len() == i,
                    forall|j: int|
                        0 <= j < i ==> copied@[j] == old(self).spec_read(
                            (((value as int) * 256 + j) % 0x10000) as u16,
                        ),
                decreases 0xa0 - i,
            {
                let b = self.read(base.wrapping_add(i as u16));
                proof {
                    assert(base + i < 0x10000);
                    assert(base.wrapping_add(i as u16) == ((value as int) * 256 + i) % 0x10000);
                }
                copied.push(b);
                i = i + 1;
            }

            let mut j: usize = 0;
            while j < 0xa0
                invariant
                    j <= 0xa0,
                    self.wf(),
                    old(self).gpu.oam@.len() == 0xa0,
                    copied@.len() == 0xa0,
                    *self == (Mmu { gpu: self.gpu, ..*old(self) }),
                    self.gpu == (Gpu { oam: self.gpu.oam, ..old(self).gpu }),
                    self.gpu.oam@.len() == 0xa0,
                    forall|m: int| 0 <= m < j ==> self.gpu.oam@[m] == copied@[m],
                    forall|m: int| j <= m < 0xa0 ==> self.gpu.oam@[m] == old(self).gpu.oam@[m],
                    forall|m: int|
                        0 <= m < 0xa0 ==> copied@[m] == old(self).spec_read(
                            (((value as int) * 256 + m) % 0x10000) as u16,
                        ),
                decreases 0xa0 - j,
            {
                self.gpu.oam[j] = copied[j];
                j = j + 1;
            }
            proof {
                assert forall|m: int| 0 <= m < 0xa0 implies self.gpu.oam@[m] == old(
                    self,
                ).spec_read((((value as int) * 256 + m) % 0x10000) as u16) by {
                    assert(self.gpu.oam@[m] == copied@[m]);
                }
            }
            Ok(())
        } else if address == 0xff47 {
            self.gpu.bg_palette = unpack_palette(value);
            Ok(())
        } else if address == 0xff48 {
            self.gpu.obj_palette0 = unpack_palette(value);
            Ok(())
        } else if address == 0xff49 {
            self.gpu.obj_palette1 = unpack_palette(value);
            Ok(())
        } else if address == 0xff4a {
            self.gpu.window_coords.1 = value;
            Ok(())
        } else if address == 0xff4b {
            self.gpu.window_coords.0 = value;
            Ok(())
        } else if address == 0xff50 {
            if value != 0 {
                self.use_bios = false;
            }
            Ok(())
        } else if 0xff80 <= address && address <= 0xfffe {
            self.hram[(address - 0xff80) as usize] = value;
            Ok(())
        } else if address == 0xffff {
            self.interrupts_enabled = value & 0x1f;
            Ok(())
        } else {
            Ok(())
        }
    }
}

/// Rebuilding of the cached tile row that covers one written video-RAM
/// address, as `Gpu::write_vram` leaves it.
pub open spec fn spec_tile_row_rebuilt(pre: Gpu, post: Gpu, offset: u16) -> bool {
    let a = (offset & 0xfffe) as int;
    let tile = a / 16;
    let y = a % 16 / 2;
    &&& post.tiles@.len() == 384
    &&& if tile >= 384 {
        post.tiles@ == pre.tiles@
    } else {
        &&& (forall|k: int| 0 <= k < 384 && k != tile ==> post.tiles@[k] == pre.tiles@[k])
        &&& (forall|x: int|
            0 <= x < 8 ==> post.tiles@[tile].pixels@[x + y * 8] == #[trigger] crate::gpu::spec_tile_pixel(
                post.vram@[a],
                post.vram@[a + 1],
                x,
            ))
        &&& (forall|i: int|
            0 <= i < 64 && !(y * 8 <= i < y * 8 + 8) ==> post.tiles@[tile].pixels@[i]
                == pre.tiles@[tile].pixels@[i])
    }
}

/// With the boot overlay off, the bottom of the address space reads
/// from the cartridge: byte 0 of the bus is byte 0 of the ROM image.
pub proof fn lemma_overlay_off_reads_cartridge(m: Mmu)
    requires
        !m.use_bios,
    ensures
        m.spec_read(0) == m.cart.spec_read(0),
{
    reveal(Mmu::spec_read);
}

proof fn lemma_write_reg_masks(value: u8)
    by (bit_vector)
    ensures
        (value & 0x1f) & !0x1fu8 == 0,
        value & 0x1f < 0x20,
        value & 0b11 < 4,
        value & 0x78 == (value & 0x78) as u8,
{
}

proof fn lemma_dma_base(value: u8)
    by (bit_vector)
    ensures
        (value as u16) << 8 == (value as int) * 256,
        ((value as u16) << 8) as int + 0xa0 <= 0x10000,
{
}

/// The P1 byte and pending-interrupt mask after pressing the buttons
/// of `buttons` from position `k` on: a press pulls the button's bit
/// low and raises the joypad interrupt only when its group is selected
/// and the bit was still high.
pub open spec fn spec_press(p1: u8, ints: u8, buttons: Seq<JoypadButton>, k: int) -> (u8, u8)
    decreases buttons.len() - k,
{
    if k < 0 || k >= buttons.len() {
        (p1, ints)
    } else {
        let b = buttons[k];
        if p1 & b.spec_enabled_bit() != 0 {
            spec_press(p1, ints, buttons, k + 1)
        } else if p1 & b.spec_bit() != 0 {
            spec_press((p1 & !b.spec_bit()) as u8, (ints | INT_JOYPAD) as u8, buttons, k + 1)
        } else {
            spec_press(p1, ints, buttons, k + 1)
        }
    }
}

/// The held buttons left after releasing `buttons`: the ones not named.
pub open spec fn spec_retain_released(held: Seq<JoypadButton>, buttons: Seq<JoypadButton>) -> Seq<
    JoypadButton,
>
    decreases held.len(),
{
    if held.len() == 0 {
        Seq::empty()
    } else {
        spec_retain_released(held.drop_last(), buttons) + if buttons.contains(held.last()) {
            Seq::empty()
        } else {
            seq![held.last()]
        }
    }
}

impl Mmu {
    /// Presses buttons: they join the held set, and each press whose
    /// group is selected in P1 and whose bit was still high pulls the
    /// bit low and raises the joypad interrupt.
    pub fn press(&mut self, buttons: &[JoypadButton])
        requires
            old(self).wf(),
        ensures
            final(self).wf(),
            *final(self) == (Mmu {
                p1: final(self).p1,
                interrupts: final(self).interrupts,
                pressed: final(self).pressed,
                ..*old(self)
            }),
            final(self).pressed@ == old(self).pressed@ + buttons@,
            (final(self).p1, final(self).interrupts) == spec_press(
                old(self).p1,
                old(self).interrupts,
                buttons@,
                0,
            ),
    {
        let mut i: usize = 0;
        while i < buttons.len()
            invariant
                i <= buttons@.len(),
                self.wf(),
                *self == (Mmu {
                    p1: self.p1,
                    interrupts: self.interrupts,
                    pressed: self.pressed,
                    ..*old(self)
                }),
                self.pressed@ == old(self).pressed@ + buttons@.subrange(0, i as int),
                spec_press(old(self).p1, old(self).interrupts, buttons@, 0) == spec_press(
                    self.p1,
                    self.interrupts,
                    buttons@,
                    i as int,
                ),
            decreases buttons@.len() - i,
        {
            let button = buttons[i];
            self.pressed.push(button);
            proof {
                assert(old(self).pressed@ + buttons@.subrange(0, i as int + 1) =~= old(
                    self,
                ).pressed@ + buttons@.subrange(0, i as int) + seq![buttons@[i as int]]);
                lemma_joypad_masks(self.p1, button.spec_bit(), self.interrupts);
            }

            if self.p1 & button.enabled_bit() != 0 {
            } else if self.p1 & button.bit() != 0 {
                self.interrupts = self.interrupts | INT_JOYPAD;
                self.p1 = self.p1 & !button.bit();
            }
            i = i + 1;
        }
        proof {
            assert(buttons@.subrange(0, buttons@.len() as int) =~= buttons@);
        }
    }

    /// Releases buttons: they leave the held set, and the low nibble
    /// of P1 is recomputed from the selector bits and the buttons
    /// still held - so a released button of a selected group reads
    /// back high again.
    pub fn release(&mut self, buttons: &[JoypadButton])
        requires
            old(self).wf(),
        ensures
            final(self).wf(),
            *final(self) == (Mmu { p1: final(self).p1, pressed: final(self).pressed, ..*old(self) }),
            final(self).pressed@ == spec_retain_released(old(self).pressed@, buttons@),
            final(self).p1 == Mmu::spec_apply_pressed(
                ((old(self).p1 & 0x30) | 0x0f) as u8,
                spec_retain_released(old(self).pressed@, buttons@),
                0,
            ),
    {
        let mut kept: Vec<JoypadButton> = Vec::new();
        let mut i: usize = 0;
        proof {
            assert(old(self).pressed@.subrange(0, 0) =~= Seq::<JoypadButton>::empty());
        }
        while i < self.pressed.len()
            invariant
                i <= self.pressed@.len(),
                self.wf(),
                *self == *old(self),
                kept@ == spec_retain_released(old(self).pressed@.subrange(0, i as int), buttons@),
            decreases self.pressed@.len() - i,
        {
            let b = self.pressed[i];
            let mut found = false;
            let mut j: usize = 0;
            while j < buttons.len()
                invariant
                    j <= buttons@.len(),
                    b == old(self).pressed@[i as int],
                    i < old(self).pressed@.len(),
                    *self == *old(self),
                    found == exists|m: int| 0 <= m < j && buttons@[m] == b,
                decreases buttons@.len() - j,
            {
                if buttons[j] == b {
                    found = true;
                }
                j = j + 1;
            }
            proof {
                assert(found == buttons@.contains(b));
                assert(old(self).pressed@.subrange(0, i as int + 1).drop_last() =~= old(
                    self,
                ).pressed@.subrange(0, i as int));
                assert(old(self).pressed@.subrange(0, i as int + 1).last() == b);
            }
            if !found {
                kept.push(b);
            }
            i = i + 1;
        }
        proof {
            assert(old(self).pressed@.subrange(0, old(self).pressed@.len() as int) =~= old(
                self,
            ).pressed@);
        }
        self.pressed = kept;

        self.p1 = (self.p1 & 0x30) | 0x0f;
        let ghost base = self.p1;
        let mut k: usize = 0;
        while k < self.pressed.len()
            invariant
                k <= self.pressed@.len(),
                self.wf(),
                *self == (Mmu { p1: self.p1, pressed: self.pressed, ..*old(self) }),
                self.pressed@ == spec_retain_released(old(self).pressed@, buttons@),
                Mmu::spec_apply_pressed(base, self.pressed@, 0) == Mmu::spec_apply_pressed(
                    self.p1,
                    self.pressed@,
                    k as int,
                ),
            decreases self.pressed@.len() - k,
        {
            let button = self.pressed[k];

            if self.p1 & button.enabled_bit() == 0 {
                self.p1 = self.p1 & !button.bit();
            }
            k = k + 1;
        }
    }
}

proof fn lemma_joypad_masks(p1: u8, bit: u8, ints: u8)
    by (bit_vector)
    requires
        ints & !0x1fu8 == 0,
    ensures
        (ints | 0x10) & !0x1fu8 == 0,
{
}

/// One tick phase of a step: the graphics unit advances by four
/// T-cycles per machine cycle, the timer by the machine cycles, and
/// the interrupt bits both raise are merged into IF. Nothing else of
/// the bus changes.
pub open spec fn spec_tick_rel(pre: Mmu, post: Mmu, cycles: nat, frame: bool) -> bool {
    let gi = crate::gpu::spec_cycle_interrupts(
        pre.gpu.mode,
        pre.gpu.line,
        pre.gpu.mode_cycles as nat,
        4 * cycles,
        pre.gpu.stat_interrupt_source,
        pre.gpu.lyc,
    );
    let ti = crate::timer::spec_timer_ints(pre.timer, cycles);
    &&& crate::gpu::spec_cycle_rel(pre.gpu, post.gpu, 4 * cycles, frame, gi)
    &&& crate::timer::spec_cycle_rel(pre.timer, post.timer, cycles, ti)
    &&& post == (Mmu {
        gpu: post.gpu,
        timer: post.timer,
        interrupts: ((pre.interrupts | gi) | ti) as u8,
        ..pre
    })
}

/// The tail of one step, given the bus and processor as the
/// instruction phase left them (`m1`, `c1`) and the instruction's
/// machine-cycle cost `m`: the machine ticks by `m`; a halted
/// processor wakes as soon as a pending interrupt is enabled; and
/// dispatch - the highest-priority pending enabled line is
/// acknowledged out of IF, the master enable closes, PC is pushed and
/// vectors to 0x40 + 8 x line, and five more machine cycles tick -
/// happens exactly when the master enable was on when the step began
/// (`sampled`) and still is after the instruction.
/// The acknowledged dispatch at the end of a step: out of the pending
/// enabled lines of `mt`, the highest-priority one (lowest bit) is
/// taken: the master enable closes, the processor's PC is pushed onto
/// the stack in `mt`, control vectors to 0x40 + 8 x line, the line's
/// IF bit is cleared, and the five extra machine cycles tick the
/// machine once more.
pub open spec fn spec_dispatch_rel(
    mt: Mmu,
    post: Mmu,
    c2: Cpu,
    c_post: Cpu,
    f1: bool,
    frame: bool,
) -> bool {
    let pend = mt.interrupts & mt.interrupts_enabled;
    let idx = spec_interrupt_index(pend);
    let bit = spec_interrupt_bit(pend);
    &&& c_post == (Cpu {
        ime: InterruptMasterState::Disabled,
        pc: (0x40 + 8 * idx) as u16,
        sp: spec_wsub16(c2.sp, 2),
        ..c2
    })
    &&& exists|mid: Mmu, m2: Mmu, f2: bool|
        {
            &&& #[trigger] Mmu::spec_write_rel(mt, mid, spec_wsub16(c2.sp, 1), (c2.pc >> 8) as u8)
            &&& #[trigger] Mmu::spec_write_rel(mid, m2, spec_wsub16(c2.sp, 2), c2.pc as u8)
            &&& #[trigger] spec_tick_rel(
                Mmu { interrupts: (m2.interrupts & !bit) as u8, ..m2 },
                post,
                5,
                f2,
            )
            &&& frame == (f1 || f2)
        }
}

/// The tail of one step, given the bus and processor as the
/// instruction phase left them (`m1`, `c1`) and the instruction's
/// machine-cycle cost `m`: the machine ticks by `m`; a halted
/// processor wakes as soon as a pending interrupt is enabled; and
/// dispatch happens exactly when the master enable was on when the
/// step began (`sampled`) and still is after the instruction.
pub open spec fn spec_step_rel(
    m1: Mmu,
    post: Mmu,
    c1: Cpu,
    c_post: Cpu,
    m: nat,
    sampled: bool,
    frame: bool,
) -> bool {
    exists|mt: Mmu, f1: bool|
        {
            &&& #[trigger] spec_tick_rel(m1, mt, m, f1)
            &&& ({
                let pend = mt.interrupts & mt.interrupts_enabled;
                let c2 = if pend != 0 {
                    Cpu { halted: false, ..c1 }
                } else {
                    c1
                };
                if sampled && c2.ime is Enabled && pend != 0 {
                    spec_dispatch_rel(mt, post, c2, c_post, f1, frame)
                } else {
                    &&& post == mt
                    &&& c_post == c2
                    &&& frame == f1
                }
            })
        }
}

/// Everything one step promises of the bus and the processor, as a
/// relation over their values before and after and the step's result:
/// the decode of the bytes at PC decides between the invalid-opcode
/// error, and `spec_step_rel` seeded with the executed instruction's
/// exact cost and effect (stated for every instruction that does not
/// write memory).
pub open spec fn spec_step_post(
    pre_m: Mmu,
    post_m: Mmu,
    pre_c: Cpu,
    post_c: Cpu,
    r: Result<bool, CpuError>,
) -> bool {

                let pre = pre_m;
                let c_pre = pre_c;
                let sampled = c_pre.ime is Enabled;
                &&& (c_pre.halted ==> r is Ok && spec_step_rel(
                    pre,
                    post_m,
                    c_pre,
                    post_c,
                    1,
                    sampled,
                    r->Ok_0,
                ))
                &&& (!c_pre.halted ==> ({
                    let op = pre.spec_read(c_pre.pc);
                    let b1 = pre.spec_read(spec_wadd16(c_pre.pc, 1));
                    let b2 = pre.spec_read(spec_wadd16(c_pre.pc, 2));
                    (match Instruction::spec_decode(op, b1, b2) {
                        Err(e) => r == Err::<bool, CpuError>(CpuError::InstructionError(e))
                            && post_c == (Cpu { pc: spec_wadd16(c_pre.pc, 1), ..c_pre })
                            && post_m == pre,
                        Ok(p) => ({
                            let c1 = Cpu { pc: spec_wadd16(c_pre.pc, p.1 as u16), ..c_pre };
                            let c0 = Cpu {
                                ime: if c1.ime is ShouldEnable {
                                    InterruptMasterState::Enabled
                                } else {
                                    c1.ime
                                },
                                ..c1
                            };
                            let m = p.0.spec_cycles() + spec_extra_cycles(p.0, c0.f);
                            spec_instr_reads_only(p.0) ==> r is Ok && spec_step_rel(
                                pre,
                                post_m,
                                spec_exec_cpu(c0, pre, p.0),
                                post_c,
                                m,
                                sampled,
                                r->Ok_0,
                            )
                        }),
                    })
                }))
            
}

impl Mmu {
    /// Drives the whole machine one instruction forward: executes the
    /// instruction at PC (or spends one idle machine cycle when
    /// halted), then lets `spec_step_rel` happen: the graphics unit
    /// and timer advance by the instruction's cost, their interrupts
    /// merge into IF, a halted processor wakes on a pending enabled
    /// interrupt, and vectored dispatch fires when the master enable
    /// was on both before and after the instruction - which gives EI
    /// its one-instruction delay. Returns whether a frame completed.
    pub fn step(&mut self, cpu: &mut Cpu) -> (r: Result<bool, CpuError>)
        requires
            old(self).wf(),
        ensures
            final(self).wf(),
            final(self).cart.bytes@ == old(self).cart.bytes@,
            spec_step_post(*old(self), *final(self), *old(cpu), *final(cpu), r),
    {
        let sampled = if let InterruptMasterState::Enabled = cpu.ime {
            true
        } else {
            false
        };

        let cycles: usize;
        if cpu.halted {
            cycles = 1;
        } else {
            match cpu.exec_next_instruction(self) {
                Ok(c) => {
                    cycles = c;
                },
                Err(e) => {
                    return Err(e);
                },
            }
        }
        let ghost m_exec = *self;
        let ghost c_exec = *cpu;

        let (frame, gpu_ints) = self.gpu.cycle(4 * cycles);
        proof {
            lemma_or_int_mask(self.interrupts, gpu_ints);
        }
        self.interrupts = self.interrupts | gpu_ints;

        let timer_ints = self.timer.cycle(cycles);
        proof {
            lemma_timer_bit_mask(timer_ints);
            lemma_or_int_mask(self.interrupts, timer_ints);
        }
        self.interrupts = self.interrupts | timer_ints;

        let ghost mt = *self;
        proof {
            assert(crate::gpu::spec_cycle_rel(
                m_exec.gpu,
                mt.gpu,
                4 * (cycles as nat),
                frame,
                gpu_ints,
            ));
            assert(crate::timer::spec_cycle_rel(m_exec.timer, mt.timer, cycles as nat, timer_ints));
            assert(spec_tick_rel(m_exec, mt, cycles as nat, frame));
        }

        let to_process = self.interrupts & self.interrupts_enabled;

        if to_process != 0 {
            cpu.halted = false;
        }
        let ghost c2g = *cpu;

        let mut frame2 = false;
        let still_enabled = if let InterruptMasterState::Enabled = cpu.ime {
            true
        } else {
            false
        };
        if sampled && still_enabled {
            proof {
                lemma_pend_mask(mt.interrupts, mt.interrupts_enabled);
            }
            let (extra, handled) = cpu.process_interrupts(self, to_process);
            let ghost m2 = *self;
            proof {
                lemma_and_int_mask(self.interrupts, handled);
                lemma_and_not_mask(self.interrupts, handled);
            }
            self.interrupts = self.interrupts & !handled;
            let ghost m2b = *self;

            if extra != 0 {
                let (f2, gpu_ints2) = self.gpu.cycle(4 * extra);
                proof {
                    lemma_or_int_mask(self.interrupts, gpu_ints2);
                }
                self.interrupts = self.interrupts | gpu_ints2;
                frame2 = f2;

                let timer_ints2 = self.timer.cycle(extra);
                proof {
                    lemma_timer_bit_mask(timer_ints2);
                    lemma_or_int_mask(self.interrupts, timer_ints2);
                }
                self.interrupts = self.interrupts | timer_ints2;

                let ghost m3 = *self;
                proof {
                    assert(crate::gpu::spec_cycle_rel(
                        m2b.gpu,
                        m3.gpu,
                        4 * (extra as nat),
                        f2,
                        gpu_ints2,
                    ));
                    assert(crate::timer::spec_cycle_rel(
                        m2b.timer,
                        m3.timer,
                        extra as nat,
                        timer_ints2,
                    ));
                    assert(m3 == (Mmu {
                        gpu: m3.gpu,
                        timer: m3.timer,
                        interrupts: ((m2b.interrupts | gpu_ints2) | timer_ints2) as u8,
                        ..m2b
                    }));
                    assert(spec_tick_rel(m2b, m3, extra as nat, f2));

                    let pend = mt.interrupts & mt.interrupts_enabled;
                    let bitg = spec_interrupt_bit(pend);
                    assert(handled == bitg);
                    let midw = choose|mid: Mmu|
                        #[trigger] Mmu::spec_write_rel(
                            mt,
                            mid,
                            spec_wsub16(c2g.sp, 1),
                            (c2g.pc >> 8) as u8,
                        ) && Mmu::spec_write_rel(mid, m2, spec_wsub16(c2g.sp, 2), c2g.pc as u8);
                    assert(Mmu::spec_write_rel(
                        mt,
                        midw,
                        spec_wsub16(c2g.sp, 1),
                        (c2g.pc >> 8) as u8,
                    ));
                    assert(Mmu::spec_write_rel(midw, m2, spec_wsub16(c2g.sp, 2), c2g.pc as u8));
                    assert(m2b == (Mmu { interrupts: (m2.interrupts & !bitg) as u8, ..m2 }));
                    assert(spec_tick_rel(
                        Mmu { interrupts: (m2.interrupts & !bitg) as u8, ..m2 },
                        m3,
                        5,
                        f2,
                    ));
                    assert(c2g == (Cpu { halted: false, ..c_exec }));
                    assert(spec_dispatch_rel(mt, m3, c2g, *cpu, frame, frame || frame2));
                    assert(spec_tick_rel(m_exec, mt, cycles as nat, frame));
                    assert(spec_step_rel(
                        m_exec,
                        *self,
                        c_exec,
                        *cpu,
                        cycles as nat,
                        sampled,
                        frame || frame2,
                    ));
                }
            } else {
                proof {
                    assert(*self == mt);
                    assert(spec_step_rel(
                        m_exec,
                        *self,
                        c_exec,
                        *cpu,
                        cycles as nat,
                        sampled,
                        frame || frame2,
                    ));
                }
            }
        } else {
            proof {
                assert(spec_step_rel(
                    m_exec,
                    *self,
                    c_exec,
                    *cpu,
                    cycles as nat,
                    sampled,
                    frame || frame2,
                ));
            }
        }

        Ok(frame || frame2)
    }
}

proof fn lemma_pend_mask(a: u8, b: u8)
    by (bit_vector)
    requires
        a & !0x1fu8 == 0,
    ensures
        (a & b) & !0x1fu8 == 0,
        ((a & b) & 0x1f != 0) <==> ((a & b) != 0),
{
}

proof fn lemma_and_not_mask(a: u8, h: u8)
    by (bit_vector)
    ensures
        h == 0 ==> a & !h == a,
{
}

proof fn lemma_or_int_mask(a: u8, b: u8)
    by (bit_vector)
    requires
        a & !0x1fu8 == 0,
        b & !0x1fu8 == 0,
    ensures
        (a | b) & !0x1fu8 == 0,
{
}

proof fn lemma_and_int_mask(a: u8, b: u8)
    by (bit_vector)
    requires
        a & !0x1fu8 == 0,
    ensures
        (a & !b) & !0x1fu8 == 0,
{
}

proof fn lemma_timer_bit_mask(t: u8)
    by (bit_vector)
    requires
        t == 4 || t == 0,
    ensures
        t & !0x1fu8 == 0,
{
}


proof fn lemma_int_mask_facts()
    by (bit_vector)
    ensures
        0u8 & !0x1fu8 == 0,
{
}


/// The boot-ROM overlay is a latch: any non-zero write to 0xFF50
/// turns it off, address 0 then reads from the cartridge, and a later
/// write of zero cannot turn it back on.
pub proof fn lemma_boot_overlay_latch(pre: Mmu, mid: Mmu, post: Mmu, v1: u8, v2: u8)
    requires
        Mmu::spec_write_rel(pre, mid, 0xff50, v1),
        v1 != 0,
        Mmu::spec_write_rel(mid, post, 0xff50, v2),
    ensures
        !mid.use_bios,
        !post.use_bios,
        mid.spec_read(0) == mid.cart.spec_read(0),
{
    reveal(Mmu::spec_write_rel);
    reveal(Mmu::spec_read);
}

} // verus!
