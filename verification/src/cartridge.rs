//! Cartridges: the ROM image, optional battery-backed RAM, and the bank
//! controllers that remap both into the CPU's address window.
use vstd::prelude::*;

use crate::memory::{Memory, MemoryError};

verus! {

/// The 48-byte logo bitmap every valid header carries at 0x104.
pub open spec fn spec_logo() -> Seq<u8> {
    seq![
        0xCEu8, 0xED, 0x66, 0x66, 0xCC, 0x0D, 0x00, 0x0B, 0x03, 0x73, 0x00, 0x83, 0x00, 0x0C, 0x00,
        0x0D, 0x00, 0x08, 0x11, 0x1F, 0x88, 0x89, 0x00, 0x0E, 0xDC, 0xCC, 0x6E, 0xE6, 0xDD, 0xDD,
        0xD9, 0x99, 0xBB, 0xBB, 0x67, 0x63, 0x6E, 0x0E, 0xEC, 0xCC, 0xDD, 0xDC, 0x99, 0x9F, 0xBB,
        0xB9, 0x33, 0x3E,
    ]
}

/// Building a cartridge can fail: the image may be shorter than its
/// header, or name a bank controller this core does not model.
#[derive(Clone, Copy, PartialEq, Eq, Structural, Debug)]
pub enum CartridgeError {
    MissingHeader,
    UnsupportedController { kind: u8 },
}

/// MBC1 registers: RAM gate, banking mode, and the two bank numbers.
/// `bank1` is never zero: the hardware remaps writes of 0 to 1.
#[derive(Clone, Copy, PartialEq, Eq, Structural, Debug)]
pub struct MBC1State {
    pub enable_ram: bool,
    pub ram_mode: bool,
    pub bank1: u8,
    pub bank2: u8,
}

impl MBC1State {
    pub open spec fn wf(self) -> bool {
        &&& self.bank1 != 0
        &&& self.bank1 < 0x20
        &&& self.bank2 < 4
    }

    pub fn new() -> (r: MBC1State)
        ensures
            r == (MBC1State { enable_ram: false, ram_mode: false, bank1: 1, bank2: 0 }),
            r.wf(),
    {
        MBC1State { enable_ram: false, ram_mode: false, bank1: 1, bank2: 0 }
    }

    /// Byte offset of the bank mapped at 0x0000 (affected by `bank2`
    /// only in RAM-banking mode).
    pub open spec fn spec_rom_offset_low(self) -> int {
        if self.ram_mode {
            0x4000 * ((self.bank2 << 5) as int)
        } else {
            0
        }
    }

    /// Byte offset of the switchable bank mapped at 0x4000.
    pub open spec fn spec_rom_offset_high(self) -> int {
        0x4000 * (((self.bank2 << 5) | self.bank1) as int)
    }

    pub fn rom_offset(&self) -> (r: (usize, usize))
        requires
            self.wf(),
        ensures
            r.0 == self.spec_rom_offset_low(),
            r.1 == self.spec_rom_offset_high(),
    {
        proof {
            lemma_mbc1_banks(self.bank1, self.bank2);
        }
        let lower: usize = if self.ram_mode {
            (self.bank2 << 5) as usize
        } else {
            0
        };
        let upper: usize = ((self.bank2 << 5) | self.bank1) as usize;
        (0x4000 * lower, 0x4000 * upper)
    }

    /// Byte offset of the RAM bank mapped at 0xA000.
    pub open spec fn spec_ram_offset(self) -> int {
        if self.ram_mode {
            0x2000 * (self.bank2 as int)
        } else {
            0
        }
    }

    pub fn ram_offset(&self) -> (r: usize)
        requires
            self.wf(),
        ensures
            r == self.spec_ram_offset(),
    {
        let bank: usize = if self.ram_mode {
            self.bank2 as usize
        } else {
            0
        };
        0x2000 * bank
    }
}

/// MBC3 registers (the real-time clock is not modelled). `bank` is
/// never zero.
#[derive(Clone, Copy, PartialEq, Eq, Structural, Debug)]
pub struct MBC3State {
    pub bank: u8,
    pub map_select: u8,
}

impl MBC3State {
    pub open spec fn wf(self) -> bool {
        &&& self.bank != 0
        &&& self.map_select < 16
    }

    pub fn new() -> (r: MBC3State)
        ensures
            r == (MBC3State { bank: 1, map_select: 0 }),
            r.wf(),
    {
        MBC3State { bank: 1, map_select: 0 }
    }
}

/// Which bank controller the cartridge carries.
#[derive(Clone, Copy, PartialEq, Eq, Structural, Debug)]
pub enum MBC {
    RomOnly,
    MBC1(MBC1State),
    MBC3(MBC3State),
}

impl MBC {
    pub open spec fn wf(self) -> bool {
        match self {
            MBC::RomOnly => true,
            MBC::MBC1(s) => s.wf(),
            MBC::MBC3(s) => s.wf(),
        }
    }
}

/// RAM size in bytes named by header byte 0x149.
pub open spec fn spec_ram_size(code: u8) -> usize {
    if code == 0x02 {
        0x2000
    } else if code == 0x03 {
        0x8000
    } else if code == 0x04 {
        0x20000
    } else if code == 0x05 {
        0x10000
    } else {
        0
    }
}

/// A cartridge: the immutable ROM image, the external RAM buffer, and
/// the bank-controller registers.
pub struct Cartridge {
    pub bytes: Vec<u8>,
    pub ram: Vec<u8>,
    pub mbc: MBC,
}

impl Cartridge {
    /// The image covers at least the header, the RAM buffer has the
    /// size its header byte names, and the controller registers are in
    /// range.
    pub open spec fn wf(self) -> bool {
        &&& self.bytes@.len() >= 0x150
        &&& self.ram@.len() == spec_ram_size(self.bytes@[0x149])
        &&& self.mbc.wf()
    }

    /// The controller variant a header type byte names, if supported.
    pub open spec fn spec_mbc_for(kind: u8) -> Option<MBC> {
        if kind == 0x00 {
            Some(MBC::RomOnly)
        } else if 0x01 <= kind <= 0x03 {
            Some(MBC::MBC1(MBC1State { enable_ram: false, ram_mode: false, bank1: 1, bank2: 0 }))
        } else if kind == 0x13 {
            Some(MBC::MBC3(MBC3State { bank: 1, map_select: 0 }))
        } else {
            None
        }
    }

    /// Builds a cartridge from a raw ROM image. Fails on an image too
    /// short to hold the header, and on an unsupported controller type
    /// byte; otherwise the RAM buffer starts zeroed with the size named
    /// at 0x149.
    pub fn from_bytes(bytes: Vec<u8>) -> (r: Result<Cartridge, CartridgeError>)
        ensures
            bytes@.len() < 0x150 ==> r == Result::<Cartridge, CartridgeError>::Err(
                CartridgeError::MissingHeader,
            ),
            bytes@.len() >= 0x150 && Cartridge::spec_mbc_for(bytes@[0x147]) is None ==> r
                == Result::<Cartridge, CartridgeError>::Err(
                CartridgeError::UnsupportedController { kind: bytes@[0x147] },
            ),
            bytes@.len() >= 0x150 && Cartridge::spec_mbc_for(bytes@[0x147]) is Some ==> ({
                &&& r is Ok
                &&& r->Ok_0.bytes@ == bytes@
                &&& Cartridge::spec_mbc_for(bytes@[0x147]) == Some(r->Ok_0.mbc)
                &&& r->Ok_0.ram@.len() == spec_ram_size(bytes@[0x149])
                &&& forall|i: int| 0 <= i < r->Ok_0.ram@.len() ==> r->Ok_0.ram@[i] == 0
                &&& r->Ok_0.wf()
            }),
    {
        if bytes.len() < 0x150 {
            return Err(CartridgeError::MissingHeader);
        }

        let kind = bytes[0x147];
        let mbc = if kind == 0x00 {
            MBC::RomOnly
        } else if 0x01 <= kind && kind <= 0x03 {
            MBC::MBC1(MBC1State::new())
        } else if kind == 0x13 {
            MBC::MBC3(MBC3State::new())
        } else {
            return Err(CartridgeError::UnsupportedController { kind });
        };

        let ram_code = bytes[0x149];
        let ram_size: usize = if ram_code == 0x02 {
            0x2000
        } else if ram_code == 0x03 {
            0x8000
        } else if ram_code == 0x04 {
            0x20000
        } else if ram_code == 0x05 {
            0x10000
        } else {
            0
        };

        let mut ram: Vec<u8> = Vec::new();
        let mut i: usize = 0;
        while i < ram_size
            invariant
                i <= ram_size,
                ram@.len() == i,
                forall|j: int| 0 <= j < i ==> ram@[j] == 0,
            decreases ram_size - i,
        {
            ram.push(0);
            i = i + 1;
        }

        Ok(Cartridge { bytes, ram, mbc })
    }

    /// The title field: bytes 0x134..0x144 up to the first NUL.
    pub fn title_bytes(&self) -> (r: Vec<u8>)
        requires
            self.wf(),
        ensures
            r@.len() <= 16,
            forall|i: int| 0 <= i < r@.len() ==> r@[i] == self.bytes@[0x134 + i] && r@[i] != 0,
            r@.len() < 16 ==> self.bytes@[0x134 + r@.len() as int] == 0,
    {
        let mut out: Vec<u8> = Vec::new();
        let mut i: usize = 0;
        while i < 16
            invariant
                i <= 16,
                self.wf(),
                out@.len() == i,
                forall|j: int| 0 <= j < i ==> out@[j] == self.bytes@[0x134 + j] && out@[j] != 0,
            decreases 16 - i,
        {
            let b = self.bytes[0x134 + i];
            if b == 0 {
                return out;
            }
            out.push(b);
            i = i + 1;
        }
        out
    }

    /// The header checksum: the running byte `x - b - 1` folded over
    /// bytes 0x134..=0x14C, starting from zero.
    pub open spec fn spec_checksum_from(bytes: Seq<u8>, i: int, acc: u8) -> u8
        decreases 0x14d - i,
    {
        if i < 0x134 || i >= 0x14d {
            acc
        } else {
            Cartridge::spec_checksum_from(
                bytes,
                i + 1,
                spec_wrap_sub(spec_wrap_sub(acc, bytes[i]), 1),
            )
        }
    }

    pub open spec fn spec_header_checksum(bytes: Seq<u8>) -> u8 {
        Cartridge::spec_checksum_from(bytes, 0x134, 0)
    }

    /// True exactly when the computed header checksum equals the byte
    /// stored at 0x14D.
    pub fn verify_header_checksum(&self) -> (r: bool)
        requires
            self.wf(),
        ensures
            r == (Cartridge::spec_header_checksum(self.bytes@) == self.bytes@[0x14d]),
    {
        let mut x: u8 = 0;
        let mut i: usize = 0x134;
        while i < 0x14d
            invariant
                0x134 <= i <= 0x14d,
                self.wf(),
                Cartridge::spec_checksum_from(self.bytes@, 0x134, 0)
                    == Cartridge::spec_checksum_from(self.bytes@, i as int, x),
            decreases 0x14d - i,
        {
            x = x.wrapping_sub(self.bytes[i]).wrapping_sub(1);
            i = i + 1;
        }
        x == self.bytes[0x14d]
    }

    /// True exactly when the logo bytes at 0x104..=0x133 match the
    /// fixed bitmap and the header checksum is right.
    pub fn verify(&self) -> (r: bool)
        requires
            self.wf(),
        ensures
            r == (self.bytes@.subrange(0x104, 0x134) == spec_logo()
                && Cartridge::spec_header_checksum(self.bytes@) == self.bytes@[0x14d]),
    {
        let logo: Vec<u8> = logo_vec();
        let mut i: usize = 0;
        while i < 0x30
            invariant
                i <= 0x30,
                self.wf(),
                logo@ == spec_logo(),
                forall|j: int| 0 <= j < i ==> self.bytes@[0x104 + j] == spec_logo()[j],
            decreases 0x30 - i,
        {
            if self.bytes[0x104 + i] != logo[i] {
                proof {
                    assert(self.bytes@.subrange(0x104, 0x134)[i as int] != spec_logo()[i as int]);
                }
                return false;
            }
            i = i + 1;
        }
        proof {
            assert(self.bytes@.subrange(0x104, 0x134) =~= spec_logo());
        }
        self.verify_header_checksum()
    }

    /// A copy of the external RAM, for the collaborator to persist.
    pub fn save_ram(&self) -> (r: Vec<u8>)
        ensures
            r@ == self.ram@,
    {
        let mut out: Vec<u8> = Vec::new();
        let mut i: usize = 0;
        while i < self.ram.len()
            invariant
                i <= self.ram@.len(),
                out@ == self.ram@.subrange(0, i as int),
            decreases self.ram@.len() - i,
        {
            out.push(self.ram[i]);
            i = i + 1;
        }
        proof {
            assert(out@ =~= self.ram@);
        }
        out
    }

    /// Restores persisted external RAM. A payload of the wrong size is
    /// rejected and leaves the cartridge unchanged.
    pub fn load_ram(&mut self, data: Vec<u8>) -> (r: bool)
        ensures
            r == (data@.len() == old(self).ram@.len()),
            r ==> final(self).ram@ == data@,
            !r ==> final(self).ram@ == old(self).ram@,
            final(self).bytes@ == old(self).bytes@,
            final(self).mbc == old(self).mbc,
            old(self).wf() ==> final(self).wf(),
    {
        if data.len() == self.ram.len() {
            self.ram = data;
            true
        } else {
            false
        }
    }
}

/// The new MBC1 register file after a command write into the ROM
/// window (0x0000..=0x7FFF).
pub open spec fn spec_mbc1_ctrl(s: MBC1State, address: u16, value: u8) -> MBC1State {
    if address <= 0x1fff {
        MBC1State { enable_ram: (value & 0xf) == 0xa, ..s }
    } else if address <= 0x3fff {
        MBC1State {
            bank1: if value & 0x1f == 0 {
                1
            } else {
                value & 0x1f
            },
            ..s
        }
    } else if address <= 0x5fff {
        MBC1State { bank2: value & 0b11, ..s }
    } else {
        MBC1State { ram_mode: value & 0b1 == 1, ..s }
    }
}

/// The new MBC3 register file after a command write into the ROM
/// window.
pub open spec fn spec_mbc3_ctrl(s: MBC3State, address: u16, value: u8) -> MBC3State {
    if address <= 0x1fff {
        s
    } else if address <= 0x3fff {
        MBC3State {
            bank: if value == 0 {
                1
            } else {
                value
            },
            ..s
        }
    } else if address <= 0x5fff {
        MBC3State { map_select: value & 0b1111, ..s }
    } else {
        s
    }
}

/// External RAM after a banked write: the byte at
/// `(offset + (address & 0x1FFF)) mod len` is replaced; an absent RAM
/// buffer swallows the write.
pub open spec fn spec_ram_write(ram: Seq<u8>, offset: int, address: u16, value: u8) -> Seq<u8> {
    if ram.len() == 0 {
        ram
    } else {
        ram.update((offset + (address & 0x1fff)) % (ram.len() as int), value)
    }
}

/// A banked RAM read: the byte at `(offset + (address & 0x1FFF)) mod
/// len`, or 0xFF when there is no RAM.
pub open spec fn spec_ram_read(ram: Seq<u8>, offset: int, address: u16) -> u8 {
    if ram.len() == 0 {
        0xff
    } else {
        ram[(offset + (address & 0x1fff)) % (ram.len() as int)]
    }
}

impl Cartridge {
    /// The byte a read of `address` yields, given the current banking
    /// registers. ROM offsets wrap modulo the image length; disabled or
    /// absent RAM reads as 0xFF.
    pub open spec fn spec_read(self, address: u16) -> u8 {
        let len = self.bytes@.len() as int;
        match self.mbc {
            MBC::RomOnly => {
                if (address as int) < len {
                    self.bytes@[address as int]
                } else {
                    0xff
                }
            },
            MBC::MBC1(s) => {
                if address <= 0x3fff {
                    self.bytes@[(s.spec_rom_offset_low() + (address & 0x3fff)) % len]
                } else if address <= 0x7fff {
                    self.bytes@[(s.spec_rom_offset_high() + (address & 0x3fff)) % len]
                } else if 0xa000 <= address <= 0xbfff && s.enable_ram {
                    spec_ram_read(self.ram@, s.spec_ram_offset(), address)
                } else {
                    0xff
                }
            },
            MBC::MBC3(s) => {
                if address <= 0x3fff {
                    self.bytes@[((address & 0x3fff) as int) % len]
                } else if address <= 0x7fff {
                    self.bytes@[(0x4000 * (s.bank as int) + (address & 0x3fff)) % len]
                } else if 0xa000 <= address <= 0xbfff && s.map_select <= 0x03 {
                    spec_ram_read(self.ram@, 0x2000 * ((s.map_select & 0b11) as int), address)
                } else {
                    0xff
                }
            },
        }
    }

    fn read_ram(&self, offset: usize, address: u16) -> (r: u8)
        requires
            offset <= 0x6_0000,
        ensures
            r == spec_ram_read(self.ram@, offset as int, address),
    {
        if self.ram.len() == 0 {
            0xff
        } else {
            let idx: usize = (offset + ((address & 0x1fff) as usize)) % self.ram.len();
            self.ram[idx]
        }
    }

    fn write_ram(&mut self, offset: usize, address: u16, value: u8)
        requires
            offset <= 0x6_0000,
        ensures
            final(self).ram@ == spec_ram_write(old(self).ram@, offset as int, address, value),
            final(self).bytes@ == old(self).bytes@,
            final(self).mbc == old(self).mbc,
    {
        if self.ram.len() == 0 {
            return ;
        }

        let idx: usize = (offset + ((address & 0x1fff) as usize)) % self.ram.len();
        self.ram[idx] = value;
    }

    /// Serves a read from the ROM windows (0x0000..=0x7FFF) or the
    /// external RAM window (0xA000..=0xBFFF) through the current banks.
    pub fn read(&self, address: u16) -> (r: u8)
        requires
            self.bytes@.len() > 0,
            self.mbc.wf(),
        ensures
            r == self.spec_read(address),
    {
        match self.mbc {
            MBC::RomOnly => {
                if (address as usize) < self.bytes.len() {
                    self.bytes[address as usize]
                } else {
                    0xff
                }
            },
            MBC::MBC1(state) => {
                if address <= 0x3fff {
                    let (lower, _) = state.rom_offset();
                    proof {
                        lemma_addr_masks(address);
                        lemma_mbc1_banks(state.bank1, state.bank2);
                        lemma_bank_or_is_add(
                            ((state.bank2 << 5) as usize),
                            ((address & 0x3fff) as usize),
                        );
                    }
                    let idx: usize = (lower | ((address & 0x3fff) as usize)) % self.bytes.len();
                    self.bytes[idx]
                } else if address <= 0x7fff {
                    let (_, upper) = state.rom_offset();
                    proof {
                        lemma_addr_masks(address);
                        lemma_mbc1_banks(state.bank1, state.bank2);
                        lemma_bank_or_is_add(
                            (((state.bank2 << 5) | state.bank1) as usize),
                            ((address & 0x3fff) as usize),
                        );
                    }
                    let idx: usize = (upper | ((address & 0x3fff) as usize)) % self.bytes.len();
                    self.bytes[idx]
                } else if 0xa000 <= address && address <= 0xbfff && state.enable_ram {
                    self.read_ram(state.ram_offset(), address)
                } else {
                    0xff
                }
            },
            MBC::MBC3(state) => {
                if address <= 0x3fff {
                    let idx: usize = ((address & 0x3fff) as usize) % self.bytes.len();
                    self.bytes[idx]
                } else if address <= 0x7fff {
                    proof {
                        lemma_addr_masks(address);
                        lemma_bank_or_is_add((state.bank as usize), ((address & 0x3fff) as usize));
                    }
                    let idx: usize = ((0x4000 * (state.bank as usize)) | ((address & 0x3fff)
                        as usize)) % self.bytes.len();
                    self.bytes[idx]
                } else if 0xa000 <= address && address <= 0xbfff && state.map_select <= 0x03 {
                    proof {
                        lemma_write_masks(state.map_select);
                    }
                    self.read_ram(0x2000 * ((state.map_select & 0b11) as usize), address)
                } else {
                    0xff
                }
            },
        }
    }

    /// How one write relates the cartridge before and after: the ROM
    /// image never changes; the ROM windows carry controller commands;
    /// and the RAM window stores through the current bank while RAM
    /// is enabled. Writes anywhere else have no effect.
    pub open spec fn spec_write_rel(pre: Cartridge, post: Cartridge, address: u16, value: u8) -> bool {
        &&& post.bytes@ == pre.bytes@
        &&& match pre.mbc {
            MBC::RomOnly => post.mbc == pre.mbc && post.ram@ == pre.ram@,
            MBC::MBC1(s) => {
                if address <= 0x7fff {
                    post.mbc == MBC::MBC1(spec_mbc1_ctrl(s, address, value)) && post.ram@
                        == pre.ram@
                } else if 0xa000 <= address <= 0xbfff && s.enable_ram {
                    post.mbc == pre.mbc && post.ram@ == spec_ram_write(
                        pre.ram@,
                        s.spec_ram_offset(),
                        address,
                        value,
                    )
                } else {
                    post.mbc == pre.mbc && post.ram@ == pre.ram@
                }
            },
            MBC::MBC3(s) => {
                if address <= 0x7fff {
                    post.mbc == MBC::MBC3(spec_mbc3_ctrl(s, address, value)) && post.ram@
                        == pre.ram@
                } else if 0xa000 <= address <= 0xbfff && s.map_select <= 0x03 {
                    post.mbc == pre.mbc && post.ram@ == spec_ram_write(
                        pre.ram@,
                        0x2000 * ((s.map_select & 0b11) as int),
                        address,
                        value,
                    )
                } else {
                    post.mbc == pre.mbc && post.ram@ == pre.ram@
                }
            },
        }
    }

    /// Routes a write: the ROM windows carry bank-controller commands,
    /// and the RAM window stores through the current bank while RAM
    /// is enabled. Writes anywhere else have no effect.
    pub fn write(&mut self, address: u16, value: u8)
        requires
            old(self).mbc.wf(),
        ensures
            final(self).mbc.wf(),
            old(self).wf() ==> final(self).wf(),
            final(self).ram@.len() == old(self).ram@.len(),
            Cartridge::spec_write_rel(*old(self), *final(self), address, value),
    {
        proof {
            lemma_write_masks(value);
        }
        match self.mbc {
            MBC::RomOnly => {},
            MBC::MBC1(state) => {
                if address <= 0x1fff {
                    self.mbc = MBC::MBC1(MBC1State { enable_ram: (value & 0xf) == 0xa, ..state });
                } else if address <= 0x3fff {
                    let bank1 = if value & 0x1f == 0 {
                        1
                    } else {
                        value & 0x1f
                    };
                    self.mbc = MBC::MBC1(MBC1State { bank1, ..state });
                } else if address <= 0x5fff {
                    self.mbc = MBC::MBC1(MBC1State { bank2: value & 0b11, ..state });
                } else if address <= 0x7fff {
                    self.mbc = MBC::MBC1(MBC1State { ram_mode: value & 0b1 == 1, ..state });
                } else if 0xa000 <= address && address <= 0xbfff && state.enable_ram {
                    let offset = state.ram_offset();
                    self.write_ram(offset, address, value);
                }
            },
            MBC::MBC3(state) => {
                if address <= 0x1fff {
                } else if address <= 0x3fff {
                    let bank = if value == 0 {
                        1
                    } else {
                        value
                    };
                    self.mbc = MBC::MBC3(MBC3State { bank, ..state });
                } else if address <= 0x5fff {
                    self.mbc = MBC::MBC3(MBC3State { map_select: value & 0b1111, ..state });
                } else if address <= 0x7fff {
                } else if 0xa000 <= address && address <= 0xbfff && state.map_select <= 0x03 {
                    proof {
                        lemma_write_masks(state.map_select);
                    }
                    let offset: usize = 0x2000 * ((state.map_select & 0b11) as usize);
                    self.write_ram(offset, address, value);
                }
            },
        }
    }
}

/// Writing zero to the MBC1 bank-1 register selects bank 1, never
/// bank 0.
pub proof fn lemma_mbc1_bank_zero_remap(s: MBC1State, address: u16)
    requires
        0x2000 <= address <= 0x3fff,
    ensures
        spec_mbc1_ctrl(s, address, 0).bank1 == 1,
{
    assert(0u8 & 0x1f == 0) by (bit_vector);
}

impl Memory for Cartridge {
    fn read(&self, address: u16) -> Result<u8, MemoryError> {
        if self.bytes.len() == 0 || !self.mbc.is_wf() {
            return Err(MemoryError::Unmapped { address });
        }
        Ok(Cartridge::read(self, address))
    }

    fn write(&mut self, address: u16, value: u8) -> Result<(), MemoryError> {
        if !self.mbc.is_wf() {
            return Err(MemoryError::Unmapped { address });
        }
        Cartridge::write(self, address, value);
        Ok(())
    }
}

impl MBC {
    /// Runtime check of the register invariants, for callers that hold
    /// a cartridge of unknown provenance.
    pub fn is_wf(&self) -> (r: bool)
        ensures
            r == self.wf(),
    {
        match self {
            MBC::RomOnly => true,
            MBC::MBC1(s) => s.bank1 != 0 && s.bank1 < 0x20 && s.bank2 < 4,
            MBC::MBC3(s) => s.bank != 0 && s.map_select < 16,
        }
    }
}

/// For a bank base that is a multiple of 0x4000 and an offset below
/// 0x4000, bitwise OR coincides with addition.
proof fn lemma_bank_or_is_add(k: usize, x: usize)
    by (bit_vector)
    requires
        k < 0x100,
        x < 0x4000,
    ensures
        ((k << 14) | x) == (k << 14) + x,
        (k << 14) == 0x4000 * k,
        0usize | x == x,
{
}

proof fn lemma_write_masks(value: u8)
    by (bit_vector)
    ensures
        value & 0x1f < 0x20,
        value & 0b11 < 4,
        value & 0b1111 < 16,
{
}

proof fn lemma_addr_masks(address: u16)
    by (bit_vector)
    ensures
        address & 0x3fff < 0x4000,
        address & 0x1fff < 0x2000,
{
}

/// The logo bitmap as a vector, element for element `spec_logo()`.
#[verifier::rlimit(60)]
fn logo_vec() -> (r: Vec<u8>)
    ensures
        r@ == spec_logo(),
{
    let mut v: Vec<u8> = Vec::new();
    v.push(0xCE);
    v.push(0xED);
    v.push(0x66);
    v.push(0x66);
    v.push(0xCC);
    v.push(0x0D);
    v.push(0x00);
    v.push(0x0B);
    v.push(0x03);
    v.push(0x73);
    v.push(0x00);
    v.push(0x83);
    v.push(0x00);
    v.push(0x0C);
    v.push(0x00);
    v.push(0x0D);
    v.push(0x00);
    v.push(0x08);
    v.push(0x11);
    v.push(0x1F);
    v.push(0x88);
    v.push(0x89);
    v.push(0x00);
    v.push(0x0E);
    v.push(0xDC);
    v.push(0xCC);
    v.push(0x6E);
    v.push(0xE6);
    v.push(0xDD);
    v.push(0xDD);
    v.push(0xD9);
    v.push(0x99);
    v.push(0xBB);
    v.push(0xBB);
    v.push(0x67);
    v.push(0x63);
    v.push(0x6E);
    v.push(0x0E);
    v.push(0xEC);
    v.push(0xCC);
    v.push(0xDD);
    v.push(0xDC);
    v.push(0x99);
    v.push(0x9F);
    v.push(0xBB);
    v.push(0xB9);
    v.push(0x33);
    v.push(0x3E);
    proof {
        assert(v@ =~= spec_logo());
    }
    v
}

/// 8-bit wrap-around subtraction, as a spec value.
pub open spec fn spec_wrap_sub(x: u8, y: u8) -> u8 {
    if x >= y {
        (x - y) as u8
    } else {
        (x - y + 256) as u8
    }
}

proof fn lemma_mbc1_banks(bank1: u8, bank2: u8)
    by (bit_vector)
    requires
        bank1 < 0x20,
        bank2 < 4,
    ensures
        ((bank2 << 5) | bank1) < 0x80,
        (bank2 << 5) < 0x80,
{
}


/// Saved external RAM reloads into any fresh cartridge built from the
/// same image: the header byte fixes the RAM size, so the copy that
/// `save_ram` hands out has exactly the length `load_ram` demands, and
/// the restored buffer then equals the saved one.
pub proof fn lemma_save_ram_roundtrip(c1: Cartridge, c2: Cartridge)
    requires
        c1.wf(),
        c2.wf(),
        c1.bytes@ == c2.bytes@,
    ensures
        c1.ram@.len() == c2.ram@.len(),
{
}

} // verus!
