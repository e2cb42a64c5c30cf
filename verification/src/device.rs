//! The assembled machine: processor plus bus, with RGB copies of the
//! framebuffers for a display collaborator.
use vstd::prelude::*;

use crate::cartridge::Cartridge;
use crate::cpu::{Cpu, CpuError};
use crate::gpu::{Gpu, FRAMEBUFFER_SIZE};
use crate::instruction::Instruction;
use crate::mmu::{JoypadButton, Mmu};

verus! {

/// Bytes in the RGB copy of the display framebuffer (three per
/// pixel), and in the RGB tile-sheet rendering of the first 384
/// cached tiles (16 x 24 tiles of 8 x 8 pixels).
pub const DISPLAY_RGB_SIZE: usize = 69120;

pub const TILE_RGB_SIZE: usize = 73728;

/// The grey level a 2-bit colour index shows: white down to black.
pub open spec fn spec_shade(v: u8) -> u8 {
    if v == 0 {
        255
    } else if v == 1 {
        192
    } else if v == 2 {
        96
    } else {
        0
    }
}

fn shade(v: u8) -> (r: u8)
    ensures
        r == spec_shade(v),
{
    if v == 0 {
        255
    } else if v == 1 {
        192
    } else if v == 2 {
        96
    } else {
        0
    }
}

/// The whole machine.
pub struct Device {
    pub cpu: Cpu,
    pub mmu: Mmu,
    pub tile_framebuffer: Vec<u8>,
    pub display_framebuffer: Vec<u8>,
}

impl Device {
    pub open spec fn wf(self) -> bool {
        &&& self.mmu.wf()
        &&& self.tile_framebuffer@.len() == TILE_RGB_SIZE
        &&& self.display_framebuffer@.len() == DISPLAY_RGB_SIZE
    }

    /// Assembles a machine around a cartridge and a 256-byte boot ROM.
    pub fn new(cart: Cartridge, bios: Vec<u8>) -> (r: Device)
        requires
            bios@.len() == 0x100,
            cart.bytes@.len() > 0,
            cart.mbc.wf(),
        ensures
            r.wf(),
            r.cpu == Cpu::spec_new(),
            r.mmu.cart == cart,
            r.mmu.use_bios,
            r.mmu.bios@ == bios@,
    {
        Device {
            cpu: Cpu::new(),
            mmu: Mmu::new(bios, cart, Gpu::new()),
            tile_framebuffer: crate::gpu::zero_bytes(TILE_RGB_SIZE),
            display_framebuffer: crate::gpu::zero_bytes(DISPLAY_RGB_SIZE),
        }
    }

    /// Returns the processor and the graphics timing to their power-on
    /// state and re-enables the boot-ROM overlay.
    pub fn reset(&mut self)
        requires
            old(self).wf(),
        ensures
            final(self).wf(),
            final(self).cpu == Cpu::spec_new(),
            final(self).mmu.use_bios,
    {
        self.cpu.reset();
        self.mmu.gpu.reset();
        self.mmu.use_bios = true;
    }

    /// Runs one instruction (with its graphics, timer and interrupt
    /// work), exactly as the bus's step relation states; when it
    /// completed a frame, the RGB copy of the framebuffer is
    /// refreshed to the new picture. Returns whether it did.
    pub fn step(&mut self) -> (r: Result<bool, CpuError>)
        requires
            old(self).wf(),
        ensures
            final(self).wf(),
            final(self).mmu.cart.bytes@ == old(self).mmu.cart.bytes@,
            crate::mmu::spec_step_post(
                old(self).mmu,
                final(self).mmu,
                old(self).cpu,
                final(self).cpu,
                r,
            ),
            r == Ok::<bool, CpuError>(true) ==> forall|k: int|
                0 <= k < DISPLAY_RGB_SIZE ==> #[trigger] final(self).display_framebuffer@[k]
                    == spec_shade(final(self).mmu.gpu.framebuffer@[k / 3]),
            r != Ok::<bool, CpuError>(true) ==> final(self).display_framebuffer@ == old(
                self,
            ).display_framebuffer@ && final(self).tile_framebuffer@ == old(
                self,
            ).tile_framebuffer@,
    {
        let frame = match self.mmu.step(&mut self.cpu) {
            Ok(f) => f,
            Err(e) => {
                return Err(e);
            },
        };
        if frame {
            self.update_framebuffers();
            Ok(true)
        } else {
            Ok(false)
        }
    }

    /// Steps until a frame completes. Gives up (returning false) after
    /// a generous bound, so a machine whose LCD never finishes a frame
    /// cannot hang the caller.
    pub fn step_frame(&mut self) -> (r: Result<bool, CpuError>)
        requires
            old(self).wf(),
        ensures
            final(self).wf(),
            final(self).mmu.cart.bytes@ == old(self).mmu.cart.bytes@,
            r == Ok::<bool, CpuError>(true) ==> forall|k: int|
                0 <= k < DISPLAY_RGB_SIZE ==> #[trigger] final(self).display_framebuffer@[k]
                    == spec_shade(final(self).mmu.gpu.framebuffer@[k / 3]),
    {
        let mut fuel: usize = 10_000_000;
        while fuel > 0
            invariant
                self.wf(),
                self.mmu.cart.bytes@ == old(self).mmu.cart.bytes@,
            decreases fuel,
        {
            match self.step() {
                Ok(true) => {
                    return Ok(true);
                },
                Ok(false) => {},
                Err(e) => {
                    return Err(e);
                },
            }
            fuel = fuel - 1;
        }
        Ok(false)
    }

    /// Steps until a frame completes or PC reaches `pc`, with the same
    /// bound as `step_frame`.
    pub fn step_frame_until_pc(&mut self, pc: u16) -> (r: Result<bool, CpuError>)
        requires
            old(self).wf(),
        ensures
            final(self).wf(),
            final(self).mmu.cart.bytes@ == old(self).mmu.cart.bytes@,
            r == Ok::<bool, CpuError>(true) ==> forall|k: int|
                0 <= k < DISPLAY_RGB_SIZE ==> #[trigger] final(self).display_framebuffer@[k]
                    == spec_shade(final(self).mmu.gpu.framebuffer@[k / 3]),
    {
        let mut fuel: usize = 10_000_000;
        while fuel > 0
            invariant
                self.wf(),
                self.mmu.cart.bytes@ == old(self).mmu.cart.bytes@,
            decreases fuel,
        {
            match self.step() {
                Ok(true) => {
                    return Ok(true);
                },
                Ok(false) => {},
                Err(e) => {
                    return Err(e);
                },
            }
            if self.cpu.pc == pc {
                return Ok(false);
            }
            fuel = fuel - 1;
        }
        Ok(false)
    }

    /// Skips the instruction at PC without executing it.
    pub fn skip(&mut self)
        requires
            old(self).wf(),
        ensures
            final(self).wf(),
            final(self).mmu == old(self).mmu,
    {
        let _ = self.cpu.fetch_instruction(&self.mmu);
    }

    pub fn cpu(&self) -> (r: &Cpu)
        ensures
            r == &self.cpu,
    {
        &self.cpu
    }

    pub fn cpu_mut(&mut self) -> (r: &mut Cpu)
        ensures
            *r == old(self).cpu,
            *final(self) == (Device { cpu: *final(r), ..*old(self) }),
    {
        &mut self.cpu
    }

    pub fn gpu(&self) -> (r: &Gpu)
        ensures
            r == &self.mmu.gpu,
    {
        &self.mmu.gpu
    }

    pub fn cart(&self) -> (r: &Cartridge)
        ensures
            r == &self.mmu.cart,
    {
        &self.mmu.cart
    }

    /// Decodes instructions from address 0 up to `max`, without
    /// touching the machine: each entry is an address and what decodes
    /// there (or nothing, for an invalid opcode).
    pub fn disassemble(&mut self, max: u16) -> (r: Vec<(u16, Option<Instruction>)>)
        requires
            old(self).wf(),
        ensures
            *final(self) == *old(self),
    {
        self.cpu.disassemble(&self.mmu, max)
    }

    /// Presses buttons, exactly as the bus does: they join the held
    /// set, and a press whose group is selected and whose bit was high
    /// pulls it low and raises the joypad interrupt.
    pub fn press(&mut self, buttons: &[JoypadButton])
        requires
            old(self).wf(),
        ensures
            final(self).wf(),
            *final(self) == (Device { mmu: final(self).mmu, ..*old(self) }),
            final(self).mmu == (Mmu {
                p1: final(self).mmu.p1,
                interrupts: final(self).mmu.interrupts,
                pressed: final(self).mmu.pressed,
                ..old(self).mmu
            }),
            final(self).mmu.pressed@ == old(self).mmu.pressed@ + buttons@,
            (final(self).mmu.p1, final(self).mmu.interrupts) == crate::mmu::spec_press(
                old(self).mmu.p1,
                old(self).mmu.interrupts,
                buttons@,
                0,
            ),
    {
        self.mmu.press(buttons);
    }

    /// Releases buttons, exactly as the bus does: they leave the held
    /// set and P1's low nibble is recomputed from the buttons still
    /// held.
    pub fn release(&mut self, buttons: &[JoypadButton])
        requires
            old(self).wf(),
        ensures
            final(self).wf(),
            *final(self) == (Device { mmu: final(self).mmu, ..*old(self) }),
            final(self).mmu == (Mmu {
                p1: final(self).mmu.p1,
                pressed: final(self).mmu.pressed,
                ..old(self).mmu
            }),
            final(self).mmu.pressed@ == crate::mmu::spec_retain_released(
                old(self).mmu.pressed@,
                buttons@,
            ),
            final(self).mmu.p1 == Mmu::spec_apply_pressed(
                ((old(self).mmu.p1 & 0x30) | 0x0f) as u8,
                crate::mmu::spec_retain_released(old(self).mmu.pressed@, buttons@),
                0,
            ),
    {
        self.mmu.release(buttons);
    }

    pub fn tile_framebuffer(&self) -> (r: &Vec<u8>)
        ensures
            r == &self.tile_framebuffer,
    {
        &self.tile_framebuffer
    }

    pub fn display_framebuffer(&self) -> (r: &Vec<u8>)
        ensures
            r == &self.display_framebuffer,
    {
        &self.display_framebuffer
    }

    /// Re-renders the RGB copies: every display pixel becomes the grey
    /// shade of its palette index, and the tile sheet shows the first
    /// 384 cached tiles through the background palette.
    fn update_framebuffers(&mut self)
        requires
            old(self).wf(),
        ensures
            final(self).wf(),
            *final(self) == (Device {
                tile_framebuffer: final(self).tile_framebuffer,
                display_framebuffer: final(self).display_framebuffer,
                ..*old(self)
            }),
            forall|k: int|
                0 <= k < DISPLAY_RGB_SIZE ==> #[trigger] final(self).display_framebuffer@[k]
                    == spec_shade(old(self).mmu.gpu.framebuffer@[k / 3]),
    {
        let mut tile_x: usize = 0;
        while tile_x < 16
            invariant
                tile_x <= 16,
                self.wf(),
                *self == (Device { tile_framebuffer: self.tile_framebuffer, ..*old(self) }),
            decreases 16 - tile_x,
        {
            let mut tile_y: usize = 0;
            while tile_y < 24
                invariant
                    tile_x < 16,
                    tile_y <= 24,
                    self.wf(),
                    *self == (Device { tile_framebuffer: self.tile_framebuffer, ..*old(self) }),
                decreases 24 - tile_y,
            {
                let mut x: usize = 0;
                while x < 8
                    invariant
                        tile_x < 16,
                        tile_y < 24,
                        x <= 8,
                        self.wf(),
                        *self == (Device {
                            tile_framebuffer: self.tile_framebuffer,
                            ..*old(self)
                        }),
                    decreases 8 - x,
                {
                    let mut y: usize = 0;
                    while y < 8
                        invariant
                            tile_x < 16,
                            tile_y < 24,
                            x < 8,
                            y <= 8,
                            self.wf(),
                            *self == (Device {
                                tile_framebuffer: self.tile_framebuffer,
                                ..*old(self)
                            }),
                        decreases 8 - y,
                    {
                        let pixel = self.mmu.gpu.tiles[tile_x + tile_y * 16].get(x, y);
                        let colour = shade(self.mmu.gpu.bg_palette[pixel as usize]);

                        proof {
                            assert(8 * tile_x + x + 16 * 8 * 8 * tile_y + 16 * 8 * y < 24576)
                                by (nonlinear_arith)
                                requires
                                    tile_x < 16,
                                    tile_y < 24,
                                    x < 8,
                                    y < 8,
                            ;
                        }
                        let index: usize = 3 * (8 * tile_x + x + 16 * 8 * 8 * tile_y + 16 * 8 * y);
                        self.tile_framebuffer[index] = colour;
                        self.tile_framebuffer[index + 1] = colour;
                        self.tile_framebuffer[index + 2] = colour;
                        y = y + 1;
                    }
                    x = x + 1;
                }
                tile_y = tile_y + 1;
            }
            tile_x = tile_x + 1;
        }

        let mut i: usize = 0;
        while i < FRAMEBUFFER_SIZE
            invariant
                i <= FRAMEBUFFER_SIZE,
                self.wf(),
                *self == (Device {
                    tile_framebuffer: self.tile_framebuffer,
                    display_framebuffer: self.display_framebuffer,
                    ..*old(self)
                }),
                forall|k: int|
                    0 <= k < 3 * i ==> #[trigger] self.display_framebuffer@[k] == spec_shade(
                        old(self).mmu.gpu.framebuffer@[k / 3],
                    ),
            decreases FRAMEBUFFER_SIZE - i,
        {
            let colour = shade(self.mmu.gpu.framebuffer[i]);
            self.display_framebuffer[i * 3] = colour;
            self.display_framebuffer[i * 3 + 1] = colour;
            self.display_framebuffer[i * 3 + 2] = colour;
            i = i + 1;
        }
    }
}

} // verus!
