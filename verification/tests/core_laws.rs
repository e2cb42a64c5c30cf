//! Concrete instances of the library's stated laws: register-pair
//! round trips, palette packing, frame timing, header validation,
//! banking, save-RAM round trips and the boot overlay latch.
use gameboy::cartridge::{Cartridge, CartridgeError, MBC};
use gameboy::cpu::Cpu;
use gameboy::gpu::{Gpu, GpuMode};
use gameboy::mmu::{pack_palette, unpack_palette, Mmu};

const LOGO: [u8; 0x30] = [
    0xCE, 0xED, 0x66, 0x66, 0xCC, 0x0D, 0x00, 0x0B, 0x03, 0x73, 0x00, 0x83, 0x00, 0x0C, 0x00,
    0x0D, 0x00, 0x08, 0x11, 0x1F, 0x88, 0x89, 0x00, 0x0E, 0xDC, 0xCC, 0x6E, 0xE6, 0xDD, 0xDD,
    0xD9, 0x99, 0xBB, 0xBB, 0x67, 0x63, 0x6E, 0x0E, 0xEC, 0xCC, 0xDD, 0xDC, 0x99, 0x9F, 0xBB,
    0xB9, 0x33, 0x3E,
];

fn rom_with(kind: u8, ram_code: u8) -> Vec<u8> {
    let mut rom = vec![0u8; 0x8000];
    rom[0x104..0x134].copy_from_slice(&LOGO);
    rom[0x147] = kind;
    rom[0x149] = ram_code;
    let mut x = 0u8;
    for i in 0x134..=0x14c {
        x = x.wrapping_sub(rom[i]).wrapping_sub(1);
    }
    rom[0x14d] = x;
    rom
}

fn mmu_with(rom: Vec<u8>) -> Mmu {
    let cart = Cartridge::from_bytes(rom).unwrap();
    Mmu::new(vec![0u8; 0x100], cart, Gpu::new())
}

#[test]
fn register_pair_roundtrip() {
    let mut cpu = Cpu::new();
    cpu.set_bc(0x1234);
    assert_eq!(cpu.bc(), 0x1234);
    cpu.set_de(0xfedc);
    assert_eq!(cpu.de(), 0xfedc);
    cpu.set_hl(0x00ff);
    assert_eq!(cpu.hl(), 0x00ff);
    cpu.set_af(0xabcd);
    assert_eq!(cpu.af(), 0xabc0, "the low nibble of F reads back as zero");
    cpu.set_af(0xffff);
    assert_eq!(cpu.af(), 0xfff0);
}

#[test]
fn palette_roundtrip() {
    for b in 0..=0xffu8 {
        let unpacked = unpack_palette(b);
        assert_eq!(pack_palette(&unpacked), b);
        assert_eq!(unpack_palette(pack_palette(&unpacked)), unpacked);
    }
    assert_eq!(unpack_palette(0b11100100), vec![0, 1, 2, 3]);
    assert_eq!(pack_palette(&vec![0, 1, 2, 3]), 0b11100100);
}

#[test]
fn frame_takes_70224_cycles() {
    let mut gpu = Gpu::new();
    gpu.mode = GpuMode::OamRead;
    let mut frames = 0usize;
    for _ in 0..17556 {
        let (frame, _) = gpu.cycle(4);
        if frame {
            frames += 1;
        }
    }
    assert_eq!(frames, 1, "exactly one frame in 70224 T-cycles");
    assert_eq!(gpu.mode, GpuMode::OamRead);
    assert_eq!(gpu.line, 0);
    assert_eq!(gpu.mode_cycles, 0);
}

#[test]
fn line_budget() {
    // One visible line: 80 (OAM) + 172 (VRAM) + 204 (HBlank) = 456 T.
    let mut gpu = Gpu::new();
    gpu.mode = GpuMode::OamRead;
    for _ in 0..114 {
        gpu.cycle(4);
    }
    assert_eq!(gpu.mode, GpuMode::OamRead);
    assert_eq!(gpu.line, 1);
    assert_eq!(gpu.mode_cycles, 0);
    assert_eq!(144 * 456 + 10 * 456, 70224);
}

#[test]
fn header_checksum_validates() {
    let rom = rom_with(0x00, 0x00);
    let cart = Cartridge::from_bytes(rom.clone()).unwrap();
    assert!(cart.verify());

    let mut bad_logo = rom.clone();
    bad_logo[0x104] ^= 0xff;
    let cart = Cartridge::from_bytes(bad_logo).unwrap();
    assert!(!cart.verify());

    let mut bad_sum = rom;
    bad_sum[0x14d] = bad_sum[0x14d].wrapping_add(1);
    let cart = Cartridge::from_bytes(bad_sum).unwrap();
    assert!(!cart.verify());
}

#[test]
fn mbc1_bank_one_never_zero() {
    let rom = rom_with(0x01, 0x02);
    let mut cart = Cartridge::from_bytes(rom).unwrap();
    cart.write(0x2000, 0x00);
    match cart.mbc {
        MBC::MBC1(s) => assert_eq!(s.bank1, 1),
        _ => panic!("expected an MBC1 cartridge"),
    }
    cart.write(0x2000, 0x13);
    match cart.mbc {
        MBC::MBC1(s) => assert_eq!(s.bank1, 0x13),
        _ => panic!("expected an MBC1 cartridge"),
    }
}

#[test]
fn mbc1_rom_banking_reads() {
    let mut rom = rom_with(0x01, 0x00);
    rom[0x4000] = 0x11;
    rom[0x4123] = 0x22;
    let mut cart = Cartridge::from_bytes(rom).unwrap();
    // Bank 1 is selected after reset: the switchable window shows it.
    assert_eq!(cart.read(0x4000), 0x11);
    assert_eq!(cart.read(0x4123), 0x22);
    assert_eq!(cart.read(0x0000), 0x00);
    // Selecting bank 2 on a two-bank image wraps modulo the ROM size.
    cart.write(0x2000, 0x02);
    assert_eq!(cart.read(0x4000), cart.bytes[0]);
}

#[test]
fn save_ram_roundtrip() {
    let rom = rom_with(0x01, 0x02);
    let mut cart = Cartridge::from_bytes(rom.clone()).unwrap();
    cart.write(0x0000, 0x0a);  // open the RAM gate
    cart.write(0xa000, 0x5a);
    cart.write(0xa123, 0xc3);
    let saved = cart.save_ram();

    let mut fresh = Cartridge::from_bytes(rom).unwrap();
    assert!(fresh.load_ram(saved.clone()));
    assert_eq!(fresh.save_ram(), saved);
    fresh.write(0x0000, 0x0a);
    assert_eq!(fresh.read(0xa000), 0x5a);
    assert_eq!(fresh.read(0xa123), 0xc3);
}

#[test]
fn load_ram_rejects_wrong_size() {
    let rom = rom_with(0x01, 0x02);
    let mut cart = Cartridge::from_bytes(rom).unwrap();
    assert!(!cart.load_ram(vec![1, 2, 3]));
    assert_eq!(cart.ram.len(), 0x2000);
    assert!(cart.ram.iter().all(|b| *b == 0));
}

#[test]
fn boot_overlay_latch() {
    let mut rom = rom_with(0x00, 0x00);
    rom[0] = 0x55;
    let cart = Cartridge::from_bytes(rom).unwrap();
    let mut bios = vec![0u8; 0x100];
    bios[0] = 0xaa;
    let mut mmu = Mmu::new(bios, cart, Gpu::new());

    assert_eq!(mmu.read(0x0000), 0xaa, "the overlay serves the boot ROM");
    mmu.write(0xff50, 0x01).unwrap();
    assert_eq!(mmu.read(0x0000), 0x55, "cartridge byte 0 after the overlay is off");
    mmu.write(0xff50, 0x00).unwrap();
    assert_eq!(mmu.read(0x0000), 0x55, "writing zero does not re-enable the overlay");
    assert!(!mmu.use_bios);
}

#[test]
fn unsupported_cartridges_are_refused() {
    let rom = rom_with(0x1b, 0x00);
    match Cartridge::from_bytes(rom) {
        Err(e) => assert_eq!(e, CartridgeError::UnsupportedController { kind: 0x1b }),
        Ok(_) => panic!("an unsupported controller byte must be refused"),
    }
    match Cartridge::from_bytes(vec![0u8; 0x100]) {
        Err(e) => assert_eq!(e, CartridgeError::MissingHeader),
        Ok(_) => panic!("a short image must be refused"),
    }
}

#[test]
fn title_bytes_stop_at_nul() {
    let mut rom = rom_with(0x00, 0x00);
    rom[0x134] = b'A';
    rom[0x135] = b'B';
    rom[0x136] = 0;
    // keep the header checksum valid after editing the title
    let mut x = 0u8;
    for i in 0x134..=0x14c {
        x = x.wrapping_sub(rom[i]).wrapping_sub(1);
    }
    rom[0x14d] = x;
    let cart = Cartridge::from_bytes(rom).unwrap();
    assert_eq!(cart.title_bytes(), vec![b'A', b'B']);
}

#[test]
fn timer_control_roundtrip() {
    let rom = rom_with(0x00, 0x00);
    let mut mmu = mmu_with(rom);
    mmu.write(0xff07, 0x05).unwrap();
    assert_eq!(mmu.read(0xff07), 0x05);
    assert_eq!(mmu.timer.speed, 1);
    assert!(mmu.timer.enabled);
}

#[test]
fn stat_register_assembles() {
    let mut gpu = Gpu::new();
    gpu.mode = GpuMode::VramRead;
    gpu.set_stat(0xff);
    gpu.lyc = 0;
    // sources 0x78, mode 3, LY == LYC coincidence bit
    assert_eq!(gpu.stat(), 0x78 | 0x03 | 0x04);
    gpu.lyc = 5;
    assert_eq!(gpu.stat(), 0x78 | 0x03);
}
