//! End-to-end scenarios: timer and joypad interrupts, the EI delay,
//! branch costs, OAM DMA, boot-ROM execution, and error surfacing.
use gameboy::cartridge::Cartridge;
use gameboy::cpu::{alu_add8, alu_addsp, alu_daa, alu_sub8};
use gameboy::cpu::{Cpu, CpuError, InstructionError, InterruptMasterState};
use gameboy::gpu::Gpu;
use gameboy::memory::{MemoryError, MemoryOperation};
use gameboy::mmu::{JoypadButton, Mmu};

const LOGO: [u8; 0x30] = [
    0xCE, 0xED, 0x66, 0x66, 0xCC, 0x0D, 0x00, 0x0B, 0x03, 0x73, 0x00, 0x83, 0x00, 0x0C, 0x00,
    0x0D, 0x00, 0x08, 0x11, 0x1F, 0x88, 0x89, 0x00, 0x0E, 0xDC, 0xCC, 0x6E, 0xE6, 0xDD, 0xDD,
    0xD9, 0x99, 0xBB, 0xBB, 0x67, 0x63, 0x6E, 0x0E, 0xEC, 0xCC, 0xDD, 0xDC, 0x99, 0x9F, 0xBB,
    0xB9, 0x33, 0x3E,
];

fn rom_with_program(program: &[u8]) -> Vec<u8> {
    let mut rom = vec![0u8; 0x8000];
    rom[0x104..0x134].copy_from_slice(&LOGO);
    rom[0x100..0x100 + program.len()].copy_from_slice(program);
    let mut x = 0u8;
    for i in 0x134..=0x14c {
        x = x.wrapping_sub(rom[i]).wrapping_sub(1);
    }
    rom[0x14d] = x;
    rom
}

fn machine(program: &[u8]) -> (Cpu, Mmu) {
    let cart = Cartridge::from_bytes(rom_with_program(program)).unwrap();
    let mut mmu = Mmu::new(vec![0u8; 0x100], cart, Gpu::new());
    mmu.use_bios = false;
    let mut cpu = Cpu::new();
    cpu.pc = 0x100;
    cpu.sp = 0xfffe;
    (cpu, mmu)
}

#[test]
fn timer_overflow_raises_and_dispatches() {
    let (mut cpu, mut mmu) = machine(&[0x00, 0x00, 0x00, 0x00, 0x00, 0x00]);
    mmu.write(0xff07, 0x05).unwrap();  // TAC: enabled, period 4 M-cycles
    mmu.write(0xff05, 0xff).unwrap();  // TIMA
    mmu.write(0xff06, 0x00).unwrap();  // TMA
    mmu.write(0xffff, 0x04).unwrap();  // IE: timer
    mmu.write(0xff0f, 0x00).unwrap();
    cpu.ime = InterruptMasterState::Enabled;

    let mut dispatched_at = None;
    for step in 0..8 {
        mmu.step(&mut cpu).unwrap();
        if cpu.pc == 0x0050 {
            dispatched_at = Some(step);
            break;
        }
    }
    assert!(dispatched_at.is_some(), "the timer interrupt vectored to 0x0050");
    assert_eq!(cpu.ime, InterruptMasterState::Disabled);
    assert_eq!(cpu.sp, 0xfffc);
    assert_eq!(mmu.interrupts & 0x04, 0, "the timer bit was acknowledged");
    // The pushed return address points into the NOP run.
    let lo = mmu.read(0xfffc);
    let hi = mmu.read(0xfffd);
    let pushed = ((hi as u16) << 8) | lo as u16;
    assert_eq!(pushed, 0x0104);
}

#[test]
fn ei_delays_dispatch_by_one_instruction() {
    let (mut cpu, mut mmu) = machine(&[0xfb, 0x00, 0x00, 0x00]);  // EI; NOP; NOP
    mmu.write(0xffff, 0x01).unwrap();  // IE: VBlank
    mmu.interrupts = 0x01;  // IF: VBlank already pending
    assert_eq!(cpu.ime, InterruptMasterState::Disabled);

    mmu.step(&mut cpu).unwrap();  // EI
    assert_eq!(cpu.pc, 0x101, "no dispatch on the EI step");
    assert_eq!(cpu.ime, InterruptMasterState::ShouldEnable);

    mmu.step(&mut cpu).unwrap();  // first NOP
    assert_eq!(cpu.pc, 0x102, "no dispatch after the first NOP");
    assert_eq!(cpu.ime, InterruptMasterState::Enabled);

    mmu.step(&mut cpu).unwrap();  // second NOP, then dispatch
    assert_eq!(cpu.pc, 0x0040, "the VBlank vector is taken after the second NOP");
    assert_eq!(cpu.ime, InterruptMasterState::Disabled);
}

#[test]
fn jr_nz_taken_vs_not() {
    // JR NZ, +5 with Z clear: 3 machine cycles, PC advances by 2 + 5.
    let (mut cpu, mut mmu) = machine(&[0x20, 0x05]);
    cpu.f = 0x00;
    let cycles = cpu.exec_next_instruction(&mut mmu).unwrap();
    assert_eq!(cycles, 3);
    assert_eq!(cpu.pc, 0x107);

    // With Z set: 2 machine cycles, PC advances by 2.
    let (mut cpu, mut mmu) = machine(&[0x20, 0x05]);
    cpu.f = 0x80;
    let cycles = cpu.exec_next_instruction(&mut mmu).unwrap();
    assert_eq!(cycles, 2);
    assert_eq!(cpu.pc, 0x102);
}

#[test]
fn oam_dma_copies_a0_bytes() {
    let (_, mut mmu) = machine(&[]);
    for i in 0..0xa0u16 {
        mmu.write(0xc100 + i, (i as u8).wrapping_mul(3).wrapping_add(7)).unwrap();
    }
    mmu.write(0xff46, 0xc1).unwrap();
    for i in 0..0xa0u16 {
        assert_eq!(mmu.read(0xfe00 + i), (i as u8).wrapping_mul(3).wrapping_add(7));
    }
}

#[test]
fn button_press_raises_interrupt_once() {
    let (_, mut mmu) = machine(&[]);
    mmu.write(0xffff, 0x10).unwrap();  // IE: joypad
    mmu.write(0xff00, 0x20).unwrap();  // select the direction group
    assert_eq!(mmu.read(0xff00), 0x2f);

    mmu.press(&[JoypadButton::Down]);
    assert_eq!(mmu.interrupts & 0x10, 0x10, "the press raised the joypad interrupt");
    assert_eq!(mmu.read(0xff00), 0x27, "Down pulls bit 3 low");

    mmu.interrupts = 0;
    mmu.press(&[JoypadButton::Down]);
    assert_eq!(mmu.interrupts & 0x10, 0, "a second press without release raises nothing");

    mmu.release(&[JoypadButton::Down]);
    assert_eq!(
        mmu.read(0xff00),
        0x2f,
        "a released button of the selected group reads high at once"
    );
    mmu.write(0xff00, 0x20).unwrap();
    assert_eq!(mmu.read(0xff00), 0x2f);
}

#[test]
fn release_keeps_other_held_buttons() {
    // Start and Down share bit 3 across the two groups: releasing
    // Start while the directions are selected must not lift Down's
    // bit, which the recomputation from the held set guarantees.
    let (_, mut mmu) = machine(&[]);
    mmu.write(0xff00, 0x20).unwrap();  // select the direction group
    mmu.press(&[JoypadButton::Down, JoypadButton::Start]);
    assert_eq!(mmu.read(0xff00) & 0x08, 0, "Down is held");

    mmu.release(&[JoypadButton::Start]);
    assert_eq!(mmu.read(0xff00) & 0x08, 0, "Down stays held after releasing Start");

    mmu.release(&[JoypadButton::Down]);
    assert_eq!(mmu.read(0xff00), 0x2f, "all direction bits read high again");
}

#[test]
fn reset_zeroes_the_whole_processor() {
    let (mut cpu, _) = machine(&[]);
    cpu.set_af(0x1234);
    cpu.sp = 0xfffe;
    cpu.pc = 0x4242;
    cpu.halted = true;
    cpu.ime = InterruptMasterState::Enabled;
    cpu.reset();
    assert_eq!(cpu.af(), 0);
    assert_eq!(cpu.sp, 0, "the stack pointer is zeroed too");
    assert_eq!(cpu.pc, 0);
    assert!(!cpu.halted);
    assert_eq!(cpu.ime, InterruptMasterState::Disabled);
}

#[test]
fn boot_rom_draws_pixels() {
    // A small boot program: set the palette, switch the LCD on, write
    // one tile row and one tile-map entry, then spin.
    let program: [u8; 18] = [
        0x3e, 0xfc,  // LD A, 0xFC
        0xe0, 0x47,  // LDH (0x47), A   palette
        0x21, 0x10, 0x80,  // LD HL, 0x8010
        0x36, 0xff,  // LD (HL), 0xFF   tile 1, row 0
        0x21, 0x00, 0x98,  // LD HL, 0x9800
        0x36, 0x01,  // LD (HL), 0x01   map entry -> tile 1
        0x3e, 0x91,  // LD A, 0x91
        0xe0, 0x40,  // LDH (0x40), A   LCD on, background on
    ];
    let mut bios = vec![0u8; 0x100];
    bios[..program.len()].copy_from_slice(&program);
    bios[program.len()] = 0x18;  // JR -2: spin in place
    bios[program.len() + 1] = 0xfe;

    let cart = Cartridge::from_bytes(rom_with_program(&[])).unwrap();
    let mut device = gameboy::device::Device::new(cart, bios);

    let mut frames = 0;
    for _ in 0..60 {
        if device.step_frame().unwrap() {
            frames += 1;
        }
    }
    assert_eq!(frames, 60);
    assert!(
        device.gpu().framebuffer.iter().any(|p| *p != 0),
        "the framebuffer shows at least one lit pixel"
    );
    assert!(device.display_framebuffer().iter().any(|p| *p != 255));
}

#[test]
fn invalid_opcode_is_surfaced() {
    let (mut cpu, mut mmu) = machine(&[0xd3]);
    let r = cpu.exec_next_instruction(&mut mmu);
    assert_eq!(
        r,
        Err(CpuError::InstructionError(InstructionError::InvalidOpcode { opcode: 0xd3 }))
    );
    assert_eq!(cpu.pc, 0x101, "the invalid byte is still consumed");
}

#[test]
fn read_only_and_overlay_writes_are_refused() {
    let (_, mut mmu) = machine(&[]);
    assert_eq!(mmu.write(0xff44, 1), Err(MemoryError::ReadOnly { address: 0xff44 }));
    let cart = Cartridge::from_bytes(rom_with_program(&[])).unwrap();
    let mut covered = Mmu::new(vec![0u8; 0x100], cart, Gpu::new());
    assert_eq!(
        covered.write(0x0010, 1),
        Err(MemoryError::Illegal { address: 0x0010, op: MemoryOperation::Write })
    );
}

#[test]
fn halt_wakes_on_pending_interrupt() {
    // HALT, then a timer tick wakes the processor even with IME off.
    let (mut cpu, mut mmu) = machine(&[0x76, 0x00, 0x00]);
    mmu.write(0xff07, 0x05).unwrap();
    mmu.write(0xff05, 0xff).unwrap();
    mmu.write(0xffff, 0x04).unwrap();
    cpu.ime = InterruptMasterState::Disabled;

    mmu.step(&mut cpu).unwrap();  // executes HALT
    assert!(cpu.halted);
    for _ in 0..8 {
        mmu.step(&mut cpu).unwrap();
        if !cpu.halted {
            break;
        }
    }
    assert!(!cpu.halted, "a pending, enabled interrupt ends the halt");
    assert_eq!(cpu.pc, 0x101, "without IME the processor does not vector");
}

#[test]
fn alu_examples() {
    // 0x15 + 0x27 in BCD: the raw sum 0x3C adjusts to 0x42.
    let (sum, f) = alu_add8(0x15, 0x27, 0);
    assert_eq!(sum, 0x3c);
    let (adjusted, f2) = alu_daa(sum, f);
    assert_eq!(adjusted, 0x42);
    assert_eq!(f2 & 0x10, 0);

    // Subtraction borrows set C and H as the reference semantics say.
    let (d, f) = alu_sub8(0x10, 0x01, 0);
    assert_eq!(d, 0x0f);
    assert_eq!(f & 0x40, 0x40);
    assert_eq!(f & 0x20, 0x20);
    assert_eq!(f & 0x10, 0);

    // ADD SP, 8 from 0xFFF8 wraps and sets both H and C.
    let (sp, f) = alu_addsp(0xfff8, 8);
    assert_eq!(sp, 0x0000);
    assert_eq!(f, 0x30);
}

#[test]
fn store_sp_writes_both_bytes() {
    // LD (0xC123), SP stores the stack pointer little-endian.
    let (mut cpu, mut mmu) = machine(&[0x08, 0x23, 0xc1]);
    cpu.sp = 0xbeef;
    let cycles = cpu.exec_next_instruction(&mut mmu).unwrap();
    assert_eq!(cycles, 5);
    assert_eq!(cpu.pc, 0x103);
    assert_eq!(mmu.read(0xc123), 0xef);
    assert_eq!(mmu.read(0xc124), 0xbe);
}

#[test]
fn push_and_pop_roundtrip() {
    // PUSH BC; POP DE moves the pair through the stack.
    let (mut cpu, mut mmu) = machine(&[0xc5, 0xd1]);
    cpu.set_bc(0x1234);
    cpu.exec_next_instruction(&mut mmu).unwrap();
    assert_eq!(cpu.sp, 0xfffc);
    cpu.exec_next_instruction(&mut mmu).unwrap();
    assert_eq!(cpu.sp, 0xfffe);
    assert_eq!(cpu.de(), 0x1234);
}

#[test]
fn vram_write_rebuilds_tile_cache() {
    let (_, mut mmu) = machine(&[]);
    mmu.write(0x8010, 0b1010_0001).unwrap();  // tile 1, row 0, low byte
    mmu.write(0x8011, 0b0110_0001).unwrap();  // tile 1, row 0, high byte
    let tile = &mmu.gpu.tiles[1];
    assert_eq!(tile.pixels[0], 1);
    assert_eq!(tile.pixels[1], 2);
    assert_eq!(tile.pixels[2], 3);
    assert_eq!(tile.pixels[3], 0);
    assert_eq!(tile.pixels[7], 3);
}
