//! The cartridge address decoder: PRG-ROM and CHR-RAM bank windows,
//! on-board nametable SRAM, PRG-RAM, palette RAM, and the MMC1-style serial
//! shift register. NROM images simply never touch the shift register.
//!
//! Out-of-range bank indices that a game could program through the shift
//! register are clamped by the storage mirroring masks at access time; the
//! contracts state the clamp explicitly.
use vstd::prelude::*;

verus! {

/// Why a cartridge image was rejected.
#[derive(Debug, Clone, Copy, PartialEq, Eq)]
pub enum LoadError {
    /// The four magic bytes 'N', 'E', 'S', 0x1A are missing.
    BadHeader,
    /// The header flags mark the image as an iNES 2.0 file.
    Ines2,
    /// The header announces zero 16 KiB PRG blocks.
    NoData,
    /// The header announces more PRG blocks than the 256 KiB PRG space holds.
    TooLarge,
    /// The mapper id is neither NROM (0) nor MMC1 (1).
    UnsupportedMapper,
    /// The file ends before the announced PRG data does.
    Truncated,
}

/// The control half of the mapper: the serial shift register, the three mode
/// fields, and the four bank window offsets.
pub ghost struct MapperRegs {
    pub shift: u8,
    pub mirroring: u8,
    pub prg_mode: u8,
    pub chr_mode: u8,
    pub first_cpu_bank: int,
    pub last_cpu_bank: int,
    pub first_ppu_bank: int,
    pub last_ppu_bank: int,
    pub num_blocks: u8,
}

/// A header byte of the image, reading past the end as zero (a short file
/// behaves like one padded with zeros, as a buffered reader hands it out).
pub open spec fn spec_header_byte(data: Seq<u8>, i: int) -> u8 {
    if 0 <= i < data.len() {
        data[i]
    } else {
        0
    }
}

/// The iNES mapper id: the high nibbles of header bytes 6 and 7.
pub open spec fn spec_ines_mapper(data: Seq<u8>) -> u8 {
    ((spec_header_byte(data, 6) & 0xF0) >> 4) | (spec_header_byte(data, 7) & 0xF0)
}

/// The verdict `load` reaches on an image, checks in order: magic bytes,
/// iNES version, block count bounds, mapper id, then enough PRG data.
pub open spec fn spec_load_verdict(data: Seq<u8>) -> Result<(), LoadError> {
    let blocks = spec_header_byte(data, 4);
    if !(spec_header_byte(data, 0) == 0x4E && spec_header_byte(data, 1) == 0x45
        && spec_header_byte(data, 2) == 0x53 && spec_header_byte(data, 3) == 0x1A) {
        Err(LoadError::BadHeader)
    } else if spec_header_byte(data, 7) & 0x0C == 0x08 {
        Err(LoadError::Ines2)
    } else if blocks == 0 {
        Err(LoadError::NoData)
    } else if blocks > 16 {
        Err(LoadError::TooLarge)
    } else if spec_ines_mapper(data) != 0 && spec_ines_mapper(data) != 1 {
        Err(LoadError::UnsupportedMapper)
    } else if data.len() < 16 + 16384 * (blocks as int) {
        Err(LoadError::Truncated)
    } else {
        Ok(())
    }
}

/// One serial write shifts bit 0 of the data into the top of the 5-bit
/// register, which empties downward.
pub open spec fn spec_shift_next(shift: u8, data: u8) -> u8 {
    (shift >> 1u32) | ((data & 1) << 4u32)
}

/// The mapper control state after one CPU write to 0x8000..0xFFFF with bit 7
/// of the data clear. The fifth serial write (the register's sentinel bit has
/// reached bit 0) commits the gathered value to the register that bits 13 and
/// 14 of the address select, then rearms the register.
pub open spec fn spec_mmc1_commit(regs: MapperRegs, address: u16, data: u8) -> MapperRegs {
    let v = spec_shift_next(regs.shift, data);
    let committed =
        if address & 0x6000 == 0x0000 {
            MapperRegs {
                mirroring: v & 0x3,
                prg_mode: (v & 0xC) >> 2u32,
                chr_mode: (v & 0x10) >> 4u32,
                ..regs
            }
        } else if address & 0x6000 == 0x2000 {
            if regs.chr_mode == 0 {
                MapperRegs { first_ppu_bank: ((v as usize) & 0x1E000usize) as int, ..regs }
            } else {
                MapperRegs { first_ppu_bank: v * 4096, ..regs }
            }
        } else if address & 0x6000 == 0x4000 {
            if regs.chr_mode != 0 {
                MapperRegs { last_ppu_bank: v * 4096, ..regs }
            } else {
                regs
            }
        } else {
            if regs.prg_mode == 0 || regs.prg_mode == 1 {
                MapperRegs {
                    first_cpu_bank: (v & 0xE) * 16384,
                    last_cpu_bank: (v & 0xE) * 16384 + 16384,
                    ..regs
                }
            } else if regs.prg_mode == 2 {
                MapperRegs { first_cpu_bank: 0, last_cpu_bank: v * 16384, ..regs }
            } else if regs.prg_mode == 3 {
                MapperRegs {
                    first_cpu_bank: v * 16384,
                    last_cpu_bank: if regs.num_blocks == 0 { 0 } else { 16384 * (regs.num_blocks - 1) },
                    ..regs
                }
            } else {
                regs
            }
        };
    MapperRegs { shift: 0x10, ..committed }
}

/// The mapper control state after any CPU write.
pub open spec fn spec_mmc1_write(regs: MapperRegs, address: u16, data: u8) -> MapperRegs {
    if address & 0x8000 == 0 {
        regs
    } else if data & 0x80 != 0 {
        MapperRegs { shift: 0x10, ..regs }
    } else if regs.shift & 1 == 0 {
        MapperRegs { shift: spec_shift_next(regs.shift, data), ..regs }
    } else {
        spec_mmc1_commit(regs, address, data)
    }
}

/// Where in the 4 KiB nametable SRAM a PPU address in 0x2000..0x3EFF lands,
/// for each mirroring mode: one-screen lower, one-screen upper, vertical,
/// horizontal; other mode values leave the 4 KiB window unfolded.
pub open spec fn spec_nt_index(mirroring: u8, address: u16) -> int {
    let a = address % 0x1000;
    if mirroring == 0 || mirroring == 1 {
        (a % 0x400) as int
    } else if mirroring == 2 {
        (a % 0x800) as int
    } else if mirroring == 3 {
        (a & 0xBFF) as int
    } else {
        a as int
    }
}

/// Which of the 32 palette RAM bytes a PPU address at and above 0x3F00
/// selects: 0x3F10, 0x3F14, 0x3F18 and 0x3F1C mirror the backdrop entries
/// 0x3F00, 0x3F04, 0x3F08 and 0x3F0C.
pub open spec fn spec_palette_index(address: u16) -> int {
    if address & 0x13 == 0x10 {
        (address % 16) as int
    } else {
        (address % 32) as int
    }
}

/// Which CHR-RAM byte a PPU address below 0x2000 reaches on a write: the 8 KiB
/// window in CHR mode 0, else one of the two 4 KiB windows. The index wraps at
/// the 32 KiB the CHR-RAM holds.
pub open spec fn spec_chr_write_index(regs: MapperRegs, address: u16) -> int {
    if regs.chr_mode == 0 {
        (regs.first_ppu_bank + address) % 32768
    } else if address & 0x1000 != 0 {
        (regs.last_ppu_bank + address % 0x1000) % 32768
    } else {
        (regs.first_ppu_bank + address) % 32768
    }
}

/// The byte a 16 KiB PRG window hands out: the bank base plus the low
/// fourteen address bits, wrapped onto the 256 KiB PRG space.
pub open spec fn spec_prg_read(prg: Seq<u8>, bank: int, address: u16) -> u8 {
    prg[(bank + address % 0x4000) % 262144]
}

/// The palette byte a video-bus address at or above 0x3F00 selects, with
/// backdrop mirroring; other addresses read other storage.
pub open spec fn spec_palette_read(palette: Seq<u8>, address: u16) -> u8 {
    palette[spec_palette_index(address % 0x4000)]
}

/// Palette RAM after a video-bus write at or above 0x3F00.
pub open spec fn spec_palette_store(palette: Seq<u8>, address: u16, data: u8) -> Seq<u8> {
    palette.update(spec_palette_index(address % 0x4000), data)
}

/// Fold a bank base plus an in-window offset onto the 32 KiB of CHR-RAM.
fn chr_index(base: usize, offset: u16) -> (index: usize)
    requires
        offset < 0x4000,
    ensures
        index == (base + offset) % 32768,
        index < 32768,
{
    let folded = ((base % 32768) + offset as usize) % 32768;
    proof {
        vstd::arithmetic::div_mod::lemma_add_mod_noop(base as int, offset as int, 32768);
    }
    folded
}

/// Fold a bank base plus an in-window offset onto the 256 KiB PRG space.
fn prg_index(base: usize, offset: u16) -> (index: usize)
    requires
        offset < 0x4000,
    ensures
        index == (base + offset) % 262144,
        index < 262144,
{
    let folded = ((base % 262144) + offset as usize) % 262144;
    proof {
        vstd::arithmetic::div_mod::lemma_add_mod_noop(base as int, offset as int, 262144);
    }
    folded
}

pub struct Mapper {
    num_blocks: u8,
    first_cpu_bank: usize,
    last_cpu_bank: usize,
    first_ppu_bank: usize,
    last_ppu_bank: usize,
    memory: Box<[u8; 262144]>,
    shift: u8,
    mirroring: u8,
    prg_mode: u8,
    chr_mode: u8,
    chr_ram: Box<[u8; 32768]>,
    nametables: [u8; 4096],
    prgram: Box<[u8; 16384]>,
    palettes: [u8; 32],
}

impl Mapper {
    /// The control registers and bank windows, as one value.
    pub closed spec fn regs(&self) -> MapperRegs {
        MapperRegs {
            shift: self.shift,
            mirroring: self.mirroring,
            prg_mode: self.prg_mode,
            chr_mode: self.chr_mode,
            first_cpu_bank: self.first_cpu_bank as int,
            last_cpu_bank: self.last_cpu_bank as int,
            first_ppu_bank: self.first_ppu_bank as int,
            last_ppu_bank: self.last_ppu_bank as int,
            num_blocks: self.num_blocks,
        }
    }

    /// The 256 KiB PRG space.
    pub closed spec fn prg(&self) -> Seq<u8> {
        self.memory@
    }

    /// The 32 KiB CHR-RAM.
    pub closed spec fn chr(&self) -> Seq<u8> {
        self.chr_ram@
    }

    /// The 4 KiB nametable SRAM.
    pub closed spec fn nt(&self) -> Seq<u8> {
        self.nametables@
    }

    /// The 16 KiB PRG-RAM (the CPU window folds it to its first 8 KiB).
    pub closed spec fn prg_ram(&self) -> Seq<u8> {
        self.prgram@
    }

    /// The 32 bytes of palette RAM.
    pub closed spec fn palette(&self) -> Seq<u8> {
        self.palettes@
    }

    pub fn new() -> (mapper: Mapper)
        ensures
            mapper.prg().len() == 262144,
            mapper.chr().len() == 32768,
            mapper.nt().len() == 4096,
            mapper.prg_ram().len() == 16384,
            mapper.palette().len() == 32,
            mapper.regs() == (MapperRegs {
                shift: 0,
                mirroring: 0,
                prg_mode: 0,
                chr_mode: 0,
                first_cpu_bank: 0,
                last_cpu_bank: 0,
                first_ppu_bank: 0,
                last_ppu_bank: 0,
                num_blocks: 0,
            }),
            forall|i: int| 0 <= i < 262144 ==> mapper.prg()[i] == 0u8,
            forall|i: int| 0 <= i < 32768 ==> mapper.chr()[i] == 0u8,
            forall|i: int| 0 <= i < 4096 ==> mapper.nt()[i] == 0u8,
            forall|i: int| 0 <= i < 16384 ==> mapper.prg_ram()[i] == 0u8,
            forall|i: int| 0 <= i < 32 ==> mapper.palette()[i] == 0u8,
    {
        Mapper {
            num_blocks: 0,
            first_cpu_bank: 0,
            last_cpu_bank: 0,
            first_ppu_bank: 0,
            last_ppu_bank: 0,
            memory: Box::new([0; 262144]),
            shift: 0,
            mirroring: 0,
            prg_mode: 0,
            chr_mode: 0,
            chr_ram: Box::new([0; 32768]),
            nametables: [0; 4096],
            prgram: Box::new([0; 16384]),
            palettes: [0; 32],
        }
    }

    /// Parse an iNES 1.0 image and install its PRG data: 16-byte header,
    /// then `blocks` times 16 KiB of PRG-ROM. Succeeds exactly when the
    /// header checks of `spec_load_verdict` all pass; on failure nothing but
    /// the recorded block count has changed.
    pub fn load(&mut self, data: &[u8]) -> (result: Result<(), LoadError>)
        ensures
            result == spec_load_verdict(data@),
            final(self).prg().len() == old(self).prg().len(),
            final(self).chr() == old(self).chr(),
            final(self).nt() == old(self).nt(),
            final(self).prg_ram() == old(self).prg_ram(),
            final(self).palette() == old(self).palette(),
            result is Ok ==> {
                let blocks = spec_header_byte(data@, 4) as int;
                &&& final(self).regs() == (MapperRegs {
                    shift: 0x10,
                    mirroring: old(self).regs().mirroring,
                    prg_mode: old(self).regs().prg_mode,
                    chr_mode: 0,
                    first_cpu_bank: 0,
                    last_cpu_bank: 16384 * (blocks - 1),
                    first_ppu_bank: 0,
                    last_ppu_bank: 0,
                    num_blocks: spec_header_byte(data@, 4),
                })
                &&& forall|i: int| 0 <= i < 16384 * blocks ==> final(self).prg()[i] == data@[16 + i]
                &&& forall|i: int| 16384 * blocks <= i < 262144 ==> final(self).prg()[i] == old(self).prg()[i]
            },
            result is Err ==> final(self).prg() == old(self).prg()
                && final(self).regs() == (MapperRegs { num_blocks: final(self).regs().num_blocks, ..old(self).regs() }),
    {
        let mut header: [u8; 16] = [0; 16];
        let mut i: usize = 0;
        while i < 16 && i < data.len()
            invariant
                i <= 16,
                i <= data@.len(),
                forall|j: int| 0 <= j < i ==> header@[j] == data@[j],
                forall|j: int| i <= j < 16 ==> header@[j] == 0u8,
            decreases 16 - i,
        {
            header[i] = data[i];
            i += 1;
        }
        assert(forall|j: int| 0 <= j < 16 ==> header@[j] == spec_header_byte(data@, j));

        if !(header[0] == 0x4E && header[1] == 0x45 && header[2] == 0x53 && header[3] == 0x1A) {
            return Err(LoadError::BadHeader);
        }

        if header[7] & 0x0C == 0x08 {
            return Err(LoadError::Ines2);
        }

        self.num_blocks = header[4];

        if self.num_blocks == 0 {
            return Err(LoadError::NoData);
        } else if self.num_blocks > 16 {
            return Err(LoadError::TooLarge);
        }

        let low_nibble = (header[6] & 0xF0) >> 4u32;
        let high_nibble = header[7] & 0xF0;
        let mapper = low_nibble | high_nibble;
        if mapper != 0 && mapper != 1 {
            return Err(LoadError::UnsupportedMapper);
        }

        let memory_size: usize = 16384 * (self.num_blocks as usize);
        if data.len() < 16 + memory_size {
            return Err(LoadError::Truncated);
        }

        let mut k: usize = 0;
        while k < memory_size
            invariant
                k <= memory_size,
                memory_size == 16384 * (self.num_blocks as int),
                self.num_blocks <= 16,
                data@.len() >= 16 + memory_size,
                forall|j: int| 0 <= j < k ==> self.memory@[j] == data@[16 + j],
                forall|j: int| k <= j < 262144 ==> self.memory@[j] == old(self).memory@[j],
                self.num_blocks == spec_header_byte(data@, 4),
                self.chr_ram@ == old(self).chr_ram@,
                self.nametables@ == old(self).nametables@,
                self.prgram@ == old(self).prgram@,
                self.palettes@ == old(self).palettes@,
                self.first_cpu_bank == old(self).first_cpu_bank,
                self.last_cpu_bank == old(self).last_cpu_bank,
                self.first_ppu_bank == old(self).first_ppu_bank,
                self.last_ppu_bank == old(self).last_ppu_bank,
                self.shift == old(self).shift,
                self.mirroring == old(self).mirroring,
                self.prg_mode == old(self).prg_mode,
                self.chr_mode == old(self).chr_mode,
            decreases memory_size - k,
        {
            self.memory[k] = data[16 + k];
            k += 1;
        }

        self.first_cpu_bank = 0;
        self.last_cpu_bank = 16384 * (self.num_blocks as usize - 1);
        self.first_ppu_bank = 0;
        self.last_ppu_bank = 0;
        self.shift = 0x10;
        self.chr_mode = 0;
        Ok(())
    }

    /// A CPU write: 0x4020..0x7FFF lands in PRG-RAM (folded to 8 KiB);
    /// 0x8000..0xFFFF feeds the MMC1 serial shift register.
    pub fn cpu_write(&mut self, address: u16, data: u8)
        ensures
            final(self).regs() == spec_mmc1_write(old(self).regs(), address, data),
            final(self).prg_ram() == if 0x4020 <= address <= 0x7FFF {
                old(self).prg_ram().update((address % 0x2000) as int, data)
            } else {
                old(self).prg_ram()
            },
            final(self).prg() == old(self).prg(),
            final(self).chr() == old(self).chr(),
            final(self).nt() == old(self).nt(),
            final(self).palette() == old(self).palette(),
    {
        if address >= 0x4020 && address <= 0x7FFF {
            self.prgram[(address % 0x2000) as usize] = data;
        }
        if address & 0x8000 == 0 {
            return;
        }
        if data & 0x80 != 0 {
            self.shift = 0x10;
            return;
        }

        let last = self.shift & 1 != 0;
        self.shift = (self.shift >> 1u32) | ((data & 1) << 4u32);
        if !last {
            return;
        }

        if address & 0x6000 == 0x0000 {
            self.mirroring = self.shift & 0x3;
            self.prg_mode = (self.shift & 0xC) >> 2u32;
            self.chr_mode = (self.shift & 0x10) >> 4u32;
        } else if address & 0x6000 == 0x2000 {
            if self.chr_mode == 0 {
                self.first_ppu_bank = self.shift as usize & (0x1E * 4096);
            } else {
                self.first_ppu_bank = self.shift as usize * 4096;
            }
        } else if address & 0x6000 == 0x4000 {
            // The 8 KiB CHR mode ignores the second window.
            if self.chr_mode != 0 {
                self.last_ppu_bank = self.shift as usize * 4096;
            }
        } else {
            if self.prg_mode == 0 || self.prg_mode == 1 {
                // 32 KiB mode: one aligned pair of banks.
                self.first_cpu_bank = ((self.shift & 0xE) as usize) * 16384;
                self.last_cpu_bank = self.first_cpu_bank + 16384;
            } else if self.prg_mode == 2 {
                // First window fixed at 0x8000, second switched.
                self.first_cpu_bank = 0;
                self.last_cpu_bank = self.shift as usize * 16384;
            } else if self.prg_mode == 3 {
                // Second window fixed at 0xC000, first switched.
                self.first_cpu_bank = self.shift as usize * 16384;
                self.last_cpu_bank = if self.num_blocks == 0 {
                    0
                } else {
                    16384 * (self.num_blocks as usize - 1)
                };
            }
        }
        self.shift = 0x10;
    }

    /// A CPU read: PRG-RAM below 0x8000, then the two 16 KiB PRG windows;
    /// unclaimed addresses read as 0. Window offsets wrap at the 256 KiB the
    /// PRG space holds.
    pub fn cpu_read(&mut self, address: u16) -> (data: u8)
        ensures
            *final(self) == *old(self),
            data == if 0x4020 <= address <= 0x7FFF {
                old(self).prg_ram()[(address % 0x2000) as int]
            } else if address & 0xC000 == 0x8000 {
                old(self).prg()[(old(self).regs().first_cpu_bank + address % 0x4000) % 262144]
            } else if address & 0xC000 == 0xC000 {
                old(self).prg()[(old(self).regs().last_cpu_bank + address % 0x4000) % 262144]
            } else {
                0u8
            },
    {
        if address >= 0x4020 && address <= 0x7FFF {
            return self.prgram[(address % 0x2000) as usize];
        }
        if address & 0xC000 == 0x8000 {
            return self.memory[prg_index(self.first_cpu_bank, address % 0x4000)];
        }
        if address & 0xC000 == 0xC000 {
            return self.memory[prg_index(self.last_cpu_bank, address % 0x4000)];
        }

        0
    }

    /// A PPU write, after folding the address to 0x0000..0x3FFF: CHR-RAM
    /// below 0x2000, nametable SRAM (folded by the mirroring mode) below
    /// 0x3F00, palette RAM above.
    #[verifier::rlimit(50)]
    pub fn ppu_write(&mut self, address: u16, data: u8)
        ensures
            final(self).regs() == old(self).regs(),
            final(self).prg() == old(self).prg(),
            final(self).prg_ram() == old(self).prg_ram(),
            ({
                let a = address % 0x4000;
                if a <= 0x1FFF {
                    final(self).chr() == old(self).chr().update(spec_chr_write_index(old(self).regs(), a), data)
                        && final(self).nt() == old(self).nt()
                        && final(self).palette() == old(self).palette()
                } else if a <= 0x3EFF {
                    final(self).nt() == old(self).nt().update(spec_nt_index(old(self).regs().mirroring, a), data)
                        && final(self).chr() == old(self).chr()
                        && final(self).palette() == old(self).palette()
                } else {
                    final(self).palette() == old(self).palette().update(spec_palette_index(a), data)
                        && final(self).chr() == old(self).chr()
                        && final(self).nt() == old(self).nt()
                }
            }),
    {
        let address = address % 0x4000;
        if address <= 0x1FFF {
            if self.chr_mode == 0 {
                // One 8 KiB window.
                let index = chr_index(self.first_ppu_bank, address);
                self.chr_ram[index] = data;
            } else if address & 0x1000 != 0 {
                let index = chr_index(self.last_ppu_bank, address % 0x1000);
                self.chr_ram[index] = data;
            } else {
                let index = chr_index(self.first_ppu_bank, address);
                self.chr_ram[index] = data;
            }
        } else if address <= 0x3EFF {
            let window = address % 0x1000;
            let real_address: usize;
            if self.mirroring == 0 || self.mirroring == 1 {
                // One-screen mirroring, lower or upper bank.
                real_address = (window % 0x400) as usize;
            } else if self.mirroring == 2 {
                // Vertical mirroring.
                real_address = (window % 0x800) as usize;
            } else if self.mirroring == 3 {
                // Horizontal mirroring.
                assert((window & 0xBFF) < 4096) by (bit_vector);
                real_address = (window & 0xBFF) as usize;
            } else {
                real_address = window as usize;
            }
            self.nametables[real_address] = data;
        } else {
            if address & 0x13 == 0x10 {
                // Backdrop mirroring.
                self.palettes[(address % 16) as usize] = data;
            } else {
                self.palettes[(address % 32) as usize] = data;
            }
        }
    }

    /// A PPU read, after folding the address to 0x0000..0x3FFF: the first
    /// CHR window below 0x2000, nametable SRAM below 0x3F00, palette RAM
    /// above.
    #[verifier::rlimit(50)]
    pub fn ppu_read(&mut self, address: u16) -> (data: u8)
        ensures
            *final(self) == *old(self),
            ({
                let a = address % 0x4000;
                if a <= 0x1FFF {
                    data == old(self).chr()[(old(self).regs().first_ppu_bank + a) % 32768]
                } else if a <= 0x3EFF {
                    data == old(self).nt()[spec_nt_index(old(self).regs().mirroring, a)]
                } else {
                    data == old(self).palette()[spec_palette_index(a)]
                }
            }),
    {
        let address = address % 0x4000;
        if address <= 0x1FFF {
            self.chr_ram[chr_index(self.first_ppu_bank, address)]
        } else if address <= 0x3EFF {
            let window = address % 0x1000;
            let real_address: usize;
            if self.mirroring == 0 || self.mirroring == 1 {
                real_address = (window % 0x400) as usize;
            } else if self.mirroring == 2 {
                real_address = (window % 0x800) as usize;
            } else if self.mirroring == 3 {
                assert((window & 0xBFF) < 4096) by (bit_vector);
                real_address = (window & 0xBFF) as usize;
            } else {
                real_address = window as usize;
            }
            self.nametables[real_address]
        } else {
            if address & 0x13 == 0x10 {
                self.palettes[(address % 16) as usize]
            } else {
                self.palettes[(address % 32) as usize]
            }
        }
    }
}

} // verus!
