//! The picture processing unit: one dot per master tick, 341 dots by 262
//! scanlines per frame. Each visible dot runs sprite evaluation (at the
//! line's first dot), the background fetch, the sprite shifters, and the
//! priority multiplexer, then writes one RGBA pixel.
use vstd::prelude::*;
use crate::mapper::{spec_palette_read, spec_palette_store};

verus! {

/// The PPU's side of the video bus: pattern tables, nametables and palette
/// RAM, all decoded by the mapper. Palette RAM (0x3F00 and up, after the
/// 14-bit fold) obeys plain store/load laws over the `palette` view; no
/// video-bus access can touch the CPU-visible cartridge windows.
pub trait BusOps {
    /// The 32 bytes of palette RAM behind the bus.
    spec fn palette(&self) -> Seq<u8>;

    /// The cartridge PRG space, untouchable from the video bus.
    spec fn prg(&self) -> Seq<u8>;

    /// The CPU-side PRG window offsets, untouchable from the video bus.
    spec fn prg_banks(&self) -> (int, int);

    fn read(&mut self, address: u16) -> (data: u8)
        ensures
            final(self).palette() == old(self).palette(),
            final(self).prg() == old(self).prg(),
            final(self).prg_banks() == old(self).prg_banks(),
            address % 0x4000 > 0x3EFF ==> data == spec_palette_read(old(self).palette(), address);

    fn write(&mut self, address: u16, data: u8)
        ensures
            final(self).prg() == old(self).prg(),
            final(self).prg_banks() == old(self).prg_banks(),
            address % 0x4000 > 0x3EFF ==> final(self).palette()
                == spec_palette_store(old(self).palette(), address, data),
            !(address % 0x4000 > 0x3EFF) ==> final(self).palette() == old(self).palette();
}

/// The CPU-visible register file and scroll state.
pub ghost struct PpuRegs {
    pub base_nametable: u16,
    pub addr_increment: u8,
    pub sprite_pattern_table: u16,
    pub background_pattern_table: u16,
    pub sprite_size: u8,
    pub nmi_enable: bool,
    pub render_background_enable: bool,
    pub render_sprite_enable: bool,
    pub oam_addr: u8,
    pub ppu_addr: u16,
    pub first_addr: bool,
    pub first_scroll_write: bool,
    pub scroll_x: u16,
    pub scroll_y: u16,
}

/// Whether a CPU address selects the PPU register window 0x2000..0x3FFF.
pub open spec fn spec_is_ppu_register(address: u16) -> bool {
    address & 0xE000 == 0x2000
}

/// The nametable base address bits 0 and 1 of PPUCTRL select.
pub open spec fn spec_base_nametable(data: u8) -> u16 {
    if data & 3 == 0 {
        0x2000
    } else if data & 3 == 1 {
        0x2400
    } else if data & 3 == 2 {
        0x2800
    } else {
        0x2C00
    }
}

/// Whether a sprite's vertical range covers a scanline.
pub open spec fn spec_sprite_in_range(oam: Seq<u8>, i: int, y: int, size: u8) -> bool {
    y > oam[4 * i] && y <= oam[4 * i] + size
}

/// How many of the first `n` sprites in OAM cover the scanline.
pub open spec fn spec_sprites_in_range(oam: Seq<u8>, y: int, size: u8, n: int) -> int
    decreases n,
{
    if n <= 0 {
        0
    } else {
        spec_sprites_in_range(oam, y, size, n - 1)
            + if spec_sprite_in_range(oam, n - 1, y, size) { 1int } else { 0int }
    }
}

/// Sprite evaluation keeps at most eight sprites: the count of copied
/// sprites is the in-range count, capped at eight.
pub open spec fn spec_secondary_count(oam: Seq<u8>, y: int, size: u8) -> int {
    if spec_sprites_in_range(oam, y, size, 64) <= 8 {
        spec_sprites_in_range(oam, y, size, 64)
    } else {
        8
    }
}

proof fn lemma_sprites_in_range_monotone(oam: Seq<u8>, y: int, size: u8, n: int, m: int)
    requires
        0 <= n <= m,
    ensures
        spec_sprites_in_range(oam, y, size, n) <= spec_sprites_in_range(oam, y, size, m),
    decreases m,
{
    if n < m {
        lemma_sprites_in_range_monotone(oam, y, size, n, m - 1);
    }
}

pub struct Ppu {
    pub nmi_state: bool,
    pub pixels: Box<[u8; 245760]>,
    primary_oam: [u8; 256],
    secondary_oam: [u8; 32],
    sprite_counter: [u8; 8],
    sprite_attribute: [u8; 8],
    sprite_pattern1: [u8; 8],
    sprite_pattern2: [u8; 8],
    sprite_pixel: u8,
    sprite_palette: u8,
    sprite_index: usize,
    sprite_priority: u8,
    sprite_zero_hit: bool,
    sprite_zero_present: bool,
    active_sprites: usize,
    secondary_sprites: usize,
    ppu_addr: u16,
    oam_addr: u8,
    first_addr: bool,
    render_x: u16,
    render_y: u16,
    vblank_started: bool,
    base_nametable: u16,
    addr_increment: u8,
    sprite_pattern_table: u16,
    background_pattern_table: u16,
    sprite_size: u8,
    nmi_enable: bool,
    render_sprite_enable: bool,
    render_background_enable: bool,
    first_scroll_write: bool,
    background_pattern1: u8,
    background_pattern2: u8,
    background_attribute: u8,
    background_pixel: u8,
    background_counter: u8,
    scroll_x: u16,
    scroll_y: u16,
    frame: bool,
}

impl Ppu {
    /// The current scan position (dot, scanline).
    pub closed spec fn pos(&self) -> (int, int) {
        (self.render_x as int, self.render_y as int)
    }

    /// The current dot index within the 341 x 262 frame.
    pub open spec fn dot(&self) -> int {
        self.pos().1 * 341 + self.pos().0
    }

    /// The frame-ready flag the driver polls.
    pub closed spec fn frame_flag(&self) -> bool {
        self.frame
    }

    /// The NMI line the frame driver samples.
    pub closed spec fn nmi(&self) -> bool {
        self.nmi_state
    }

    /// The 256 x 240 RGBA framebuffer, as bytes.
    pub closed spec fn framebuffer(&self) -> Seq<u8> {
        self.pixels@
    }

    pub closed spec fn vblank(&self) -> bool {
        self.vblank_started
    }

    pub closed spec fn sprite_zero(&self) -> bool {
        self.sprite_zero_hit
    }

    pub closed spec fn zero_present(&self) -> bool {
        self.sprite_zero_present
    }

    /// The CPU-visible register file.
    pub closed spec fn regs(&self) -> PpuRegs {
        PpuRegs {
            base_nametable: self.base_nametable,
            addr_increment: self.addr_increment,
            sprite_pattern_table: self.sprite_pattern_table,
            background_pattern_table: self.background_pattern_table,
            sprite_size: self.sprite_size,
            nmi_enable: self.nmi_enable,
            render_background_enable: self.render_background_enable,
            render_sprite_enable: self.render_sprite_enable,
            oam_addr: self.oam_addr,
            ppu_addr: self.ppu_addr,
            first_addr: self.first_addr,
            first_scroll_write: self.first_scroll_write,
            scroll_x: self.scroll_x,
            scroll_y: self.scroll_y,
        }
    }

    /// The 256 bytes of primary sprite memory.
    pub closed spec fn oam(&self) -> Seq<u8> {
        self.primary_oam@
    }

    pub closed spec fn secondary_count(&self) -> int {
        self.secondary_sprites as int
    }

    pub closed spec fn active_count(&self) -> int {
        self.active_sprites as int
    }

    pub closed spec fn sprite_pixel_value(&self) -> u8 {
        self.sprite_pixel
    }

    pub closed spec fn background_pixel_value(&self) -> u8 {
        self.background_pixel
    }

    pub closed spec fn sprite_pixel_index(&self) -> int {
        self.sprite_index as int
    }

    /// The structural invariant: the scan position is inside the frame, the
    /// sprite banks hold at most eight entries, and the register file holds
    /// only values its writes can produce.
    pub open spec fn wf(&self) -> bool {
        &&& 0 <= self.pos().0 < 341
        &&& 0 <= self.pos().1 < 262
        &&& self.secondary_count() <= 8
        &&& self.active_count() <= 8
        &&& self.regs().scroll_x <= 255
        &&& self.regs().scroll_y <= 255
        &&& self.regs().base_nametable <= 0x2C00
        &&& self.regs().sprite_pattern_table <= 0x1000
        &&& self.regs().background_pattern_table <= 0x1000
        &&& self.regs().sprite_size <= 16
        &&& self.sprite_pixel_index() < 8
    }

    pub fn new() -> (ppu: Ppu)
        ensures
            ppu.wf(),
            ppu.pos() == (0int, 0int),
            !ppu.frame_flag(),
            !ppu.vblank(),
            !ppu.sprite_zero(),
            !ppu.nmi(),
            ppu.regs() == (PpuRegs {
                base_nametable: 0u16,
                addr_increment: 1u8,
                sprite_pattern_table: 0u16,
                background_pattern_table: 0u16,
                sprite_size: 8u8,
                nmi_enable: false,
                render_background_enable: false,
                render_sprite_enable: false,
                oam_addr: 0u8,
                ppu_addr: 0u16,
                first_addr: true,
                first_scroll_write: true,
                scroll_x: 0u16,
                scroll_y: 0u16,
            }),
            forall|i: int| 0 <= i < 256 ==> ppu.oam()[i] == 0u8,
            ppu.oam().len() == 256,
            ppu.framebuffer().len() == 245760,
            forall|i: int| 0 <= i < 245760 ==> ppu.framebuffer()[i] == 0u8,
    {
        Ppu {
            nmi_state: false,
            pixels: Box::new([0; 245760]),
            primary_oam: [0; 256],
            secondary_oam: [0; 32],
            sprite_counter: [0; 8],
            sprite_attribute: [0; 8],
            sprite_pattern1: [0; 8],
            sprite_pattern2: [0; 8],
            sprite_pixel: 0,
            sprite_palette: 0,
            sprite_index: 0,
            sprite_priority: 0,
            sprite_zero_hit: false,
            sprite_zero_present: false,
            active_sprites: 0,
            secondary_sprites: 0,
            ppu_addr: 0,
            oam_addr: 0,
            first_addr: true,
            render_x: 0,
            render_y: 0,
            vblank_started: false,
            base_nametable: 0,
            addr_increment: 1,
            sprite_pattern_table: 0,
            background_pattern_table: 0,
            sprite_size: 8,
            nmi_enable: false,
            render_sprite_enable: false,
            render_background_enable: false,
            first_scroll_write: true,
            background_pattern1: 0,
            background_pattern2: 0,
            background_attribute: 0,
            background_pixel: 0,
            background_counter: 0,
            scroll_x: 0,
            scroll_y: 0,
            frame: false,
        }
    }

    /// Sample the NMI line.
    pub fn nmi_line(&self) -> (raised: bool)
        ensures
            raised == self.nmi(),
    {
        self.nmi_state
    }

    /// Drive the NMI line; the frame driver lowers it after latching it
    /// into the CPU.
    pub fn set_nmi_state(&mut self, value: bool)
        ensures
            final(self).nmi() == value,
            final(self).wf() == old(self).wf(),
            final(self).pos() == old(self).pos(),
            final(self).frame_flag() == old(self).frame_flag(),
            final(self).vblank() == old(self).vblank(),
            final(self).sprite_zero() == old(self).sprite_zero(),
            final(self).regs() == old(self).regs(),
            final(self).oam() == old(self).oam(),
    {
        self.nmi_state = value;
    }

    /// Hand the frame-ready flag to the driver and rearm it.
    pub fn fetch_frame(&mut self) -> (ready: bool)
        ensures
            ready == old(self).frame_flag(),
            !final(self).frame_flag(),
            final(self).pos() == old(self).pos(),
            old(self).wf() ==> final(self).wf(),
            final(self).vblank() == old(self).vblank(),
            final(self).sprite_zero() == old(self).sprite_zero(),
            final(self).nmi() == old(self).nmi(),
            final(self).regs() == old(self).regs(),
            final(self).oam() == old(self).oam(),
            final(self).framebuffer() == old(self).framebuffer(),
            final(self).secondary_count() == old(self).secondary_count(),
            final(self).active_count() == old(self).active_count(),
    {
        let result = self.frame;
        self.frame = false;
        result
    }

    /// One dot of work. The scan position advances by exactly one dot,
    /// wrapping from (340, 261) to (0, 0); so a frame is exactly
    /// 341 x 262 = 89342 dots long. Vertical blank begins at dot (1, 241),
    /// which raises the frame-ready flag and, if enabled, the NMI line; the
    /// wrap to (0, 0) clears the vertical-blank and sprite-zero-hit flags,
    /// so sprite-zero-hit is always false at (0, 0).
    #[verifier::rlimit(100)]
    pub fn tick<B: BusOps>(&mut self, ppu_bus: &mut B)
        requires
            old(self).wf(),
        ensures
            final(self).wf(),
            final(self).dot() == (old(self).dot() + 1) % 89342,
            final(self).frame_flag() == (old(self).frame_flag() || old(self).pos() == (1int, 241int)),
            old(self).pos() == (1int, 241int) ==> final(self).vblank(),
            old(self).pos() == (1int, 241int) && old(self).regs().nmi_enable ==> final(self).nmi(),
            old(self).pos() == (1int, 241int) && !old(self).regs().nmi_enable ==>
                final(self).nmi() == old(self).nmi(),
            !(old(self).pos() == (1int, 241int)) ==> final(self).nmi() == old(self).nmi(),
            !(old(self).pos() == (1int, 241int)) ==> final(self).vblank()
                == (old(self).vblank() && !(old(self).pos() == (340int, 261int))),
            final(self).pos() == (0int, 0int) ==> !final(self).sprite_zero() && !final(self).vblank(),
            old(self).sprite_zero() && !(old(self).pos() == (340int, 261int)) ==> final(self).sprite_zero(),
            final(self).regs() == old(self).regs(),
            final(self).oam() == old(self).oam(),
            final(self).framebuffer().len() == old(self).framebuffer().len(),
            forall|j: int| 0 <= j < old(self).framebuffer().len()
                && !(old(self).pos().1 * 1024 + old(self).pos().0 * 4 <= j
                    <= old(self).pos().1 * 1024 + old(self).pos().0 * 4 + 3)
                ==> final(self).framebuffer()[j] == old(self).framebuffer()[j],
            old(self).pos().1 >= 240 || old(self).pos().0 >= 256 ==>
                final(self).framebuffer() == old(self).framebuffer(),
            old(self).pos().1 < 240 && old(self).pos().0 == 0 ==>
                final(self).secondary_count() == spec_secondary_count(
                    old(self).oam(), old(self).pos().1, old(self).regs().sprite_size)
                && final(self).zero_present() == spec_sprite_in_range(
                    old(self).oam(), 0, old(self).pos().1, old(self).regs().sprite_size),
            !(old(self).pos().1 < 240 && old(self).pos().0 == 0) ==>
                final(self).secondary_count() == old(self).secondary_count()
                && final(self).zero_present() == old(self).zero_present(),
            final(ppu_bus).palette() == old(ppu_bus).palette(),
            final(ppu_bus).prg() == old(ppu_bus).prg(),
            final(ppu_bus).prg_banks() == old(ppu_bus).prg_banks(),
    {
        if self.render_y < 240 && self.render_x < 256 {
            if self.render_x == 0 {
                self.load_secondary_oam();
            }

            if self.render_background_enable {
                self.fetch_background(ppu_bus);
            }

            if self.render_sprite_enable {
                self.update_x_position(ppu_bus);
                self.render_sprites();
            }
            self.render_pixel(ppu_bus);
        }

        if self.render_x == 1 && self.render_y == 241 {
            self.vblank_started = true;
            if self.nmi_enable {
                self.nmi_state = true;
            }
            self.frame = true;
        }

        self.render_x = self.render_x + 1;
        if self.render_x == 341 {
            self.render_x = 0;
            self.render_y = self.render_y + 1;
            if self.render_y == 262 {
                self.vblank_started = false;
                self.sprite_zero_hit = false;
                self.render_y = 0;
            }
        }
    }

    /// A CPU write to the register window 0x2000..0x3FFF (mirrored every
    /// eight bytes). Writes outside the window are ignored. PPUDATA writes
    /// go to the video bus at the address latch, which then advances by the
    /// configured increment.
    #[verifier::rlimit(100)]
    pub fn cpu_write<B: BusOps>(&mut self, ppu_bus: &mut B, address: u16, data: u8)
        ensures
            final(self).pos() == old(self).pos(),
            final(self).frame_flag() == old(self).frame_flag(),
            final(self).vblank() == old(self).vblank(),
            final(self).sprite_zero() == old(self).sprite_zero(),
            final(self).nmi() == old(self).nmi(),
            old(self).wf() ==> final(self).wf(),
            final(self).secondary_count() == old(self).secondary_count(),
            final(self).active_count() == old(self).active_count(),
            final(self).framebuffer() == old(self).framebuffer(),
            final(ppu_bus).prg() == old(ppu_bus).prg(),
            final(ppu_bus).prg_banks() == old(ppu_bus).prg_banks(),
            !(spec_is_ppu_register(address) && address % 8 == 7) ==>
                final(ppu_bus).palette() == old(ppu_bus).palette(),
            spec_is_ppu_register(address) && address % 8 == 7
                && old(self).regs().ppu_addr % 0x4000 > 0x3EFF ==>
                final(ppu_bus).palette() == spec_palette_store(
                    old(ppu_bus).palette(), old(self).regs().ppu_addr, data),
            spec_is_ppu_register(address) && address % 8 == 7
                && !(old(self).regs().ppu_addr % 0x4000 > 0x3EFF) ==>
                final(ppu_bus).palette() == old(ppu_bus).palette(),
            !spec_is_ppu_register(address) ==> *final(self) == *old(self),
            spec_is_ppu_register(address) && address % 8 == 0 ==> final(self).oam() == old(self).oam()
                && final(self).regs() == (PpuRegs {
                    base_nametable: spec_base_nametable(data),
                    addr_increment: if data & 0x4 != 0 { 32u8 } else { 1u8 },
                    sprite_pattern_table: if data & 0x8 != 0 { 0x1000u16 } else { 0u16 },
                    background_pattern_table: if data & 0x10 != 0 { 0x1000u16 } else { 0u16 },
                    sprite_size: if data & 0x20 != 0 { 16u8 } else { 8u8 },
                    nmi_enable: data & 0x80 != 0,
                    ..old(self).regs()
                }),
            spec_is_ppu_register(address) && address % 8 == 1 ==> final(self).oam() == old(self).oam()
                && final(self).regs() == (PpuRegs {
                    render_background_enable: data & 0x08 != 0,
                    render_sprite_enable: data & 0x10 != 0,
                    ..old(self).regs()
                }),
            spec_is_ppu_register(address) && address % 8 == 2 ==> *final(self) == *old(self),
            spec_is_ppu_register(address) && address % 8 == 3 ==> final(self).oam() == old(self).oam()
                && final(self).regs() == (PpuRegs { oam_addr: data, ..old(self).regs() }),
            spec_is_ppu_register(address) && address % 8 == 4 ==>
                final(self).oam() == old(self).oam().update(old(self).regs().oam_addr as int, data)
                && final(self).regs() == (PpuRegs {
                    oam_addr: old(self).regs().oam_addr.wrapping_add(1),
                    ..old(self).regs()
                }),
            spec_is_ppu_register(address) && address % 8 == 5 ==> final(self).oam() == old(self).oam()
                && final(self).regs() == (PpuRegs {
                    scroll_x: if old(self).regs().first_scroll_write { data as u16 } else { old(self).regs().scroll_x },
                    scroll_y: if old(self).regs().first_scroll_write { old(self).regs().scroll_y } else { data as u16 },
                    first_scroll_write: !old(self).regs().first_scroll_write,
                    ..old(self).regs()
                }),
            spec_is_ppu_register(address) && address % 8 == 6 ==> final(self).oam() == old(self).oam()
                && final(self).regs() == (PpuRegs {
                    ppu_addr: if old(self).regs().first_addr {
                        (data as u16) << 8u32
                    } else {
                        old(self).regs().ppu_addr | data as u16
                    },
                    first_addr: !old(self).regs().first_addr,
                    ..old(self).regs()
                }),
            spec_is_ppu_register(address) && address % 8 == 7 ==> final(self).oam() == old(self).oam()
                && final(self).regs() == (PpuRegs {
                    ppu_addr: old(self).regs().ppu_addr.wrapping_add(old(self).regs().addr_increment as u16),
                    ..old(self).regs()
                }),
    {
        if address & 0xE000 == 0x2000 {
            // Addresses 0x2000..0x3FFF fold onto the eight registers.
            let register = address % 8;
            if register == 0 {
                // PPUCTRL.
                self.base_nametable = if data & 3 == 0 {
                    0x2000
                } else if data & 3 == 1 {
                    0x2400
                } else if data & 3 == 2 {
                    0x2800
                } else {
                    0x2C00
                };
                self.addr_increment = if data & 0x4 != 0 { 32 } else { 1 };
                self.sprite_pattern_table = if data & 0x8 != 0 { 0x1000 } else { 0x0 };
                self.background_pattern_table = if data & 0x10 != 0 { 0x1000 } else { 0x0 };
                self.sprite_size = if data & 0x20 != 0 { 16 } else { 8 };
                self.nmi_enable = data & 0x80 != 0;
            } else if register == 1 {
                // PPUMASK.
                self.render_background_enable = data & 0x08 != 0;
                self.render_sprite_enable = data & 0x10 != 0;
            } else if register == 2 {
                // PPUSTATUS is read-only.
            } else if register == 3 {
                // OAMADDR.
                self.oam_addr = data;
            } else if register == 4 {
                // OAMDATA, post-incrementing the sprite memory address.
                self.primary_oam[self.oam_addr as usize] = data;
                self.oam_addr = self.oam_addr.wrapping_add(1);
            } else if register == 5 {
                // PPUSCROLL, a two-write register: X offset, then Y offset.
                if self.first_scroll_write {
                    self.scroll_x = data as u16;
                } else {
                    self.scroll_y = data as u16;
                }
                self.first_scroll_write = !self.first_scroll_write;
            } else if register == 6 {
                // PPUADDR, a two-write register: high byte, then low byte.
                if self.first_addr {
                    self.ppu_addr = (data as u16) << 8u32;
                } else {
                    self.ppu_addr = self.ppu_addr | data as u16;
                }
                self.first_addr = !self.first_addr;
            } else {
                // PPUDATA.
                ppu_bus.write(self.ppu_addr, data);
                self.ppu_addr = self.ppu_addr.wrapping_add(self.addr_increment as u16);
            }
        }
    }

    /// A CPU read from the register window. Reading PPUSTATUS returns the
    /// vertical-blank and sprite-zero-hit bits, clears the vertical-blank
    /// flag, and rewinds both two-write toggles. Reading PPUDATA returns the
    /// byte at the address latch and advances the latch. Every other
    /// register, and every address outside the window, reads as 0.
    #[verifier::rlimit(60)]
    pub fn cpu_read<B: BusOps>(&mut self, ppu_bus: &mut B, address: u16) -> (data: u8)
        ensures
            final(self).pos() == old(self).pos(),
            final(self).frame_flag() == old(self).frame_flag(),
            final(self).sprite_zero() == old(self).sprite_zero(),
            final(self).nmi() == old(self).nmi(),
            final(self).oam() == old(self).oam(),
            final(self).framebuffer() == old(self).framebuffer(),
            final(ppu_bus).palette() == old(ppu_bus).palette(),
            final(ppu_bus).prg() == old(ppu_bus).prg(),
            final(ppu_bus).prg_banks() == old(ppu_bus).prg_banks(),
            spec_is_ppu_register(address) && address % 8 == 7
                && old(self).regs().ppu_addr % 0x4000 > 0x3EFF ==>
                data == spec_palette_read(old(ppu_bus).palette(), old(self).regs().ppu_addr),
            old(self).wf() ==> final(self).wf(),
            !spec_is_ppu_register(address) ==> data == 0 && *final(self) == *old(self),
            spec_is_ppu_register(address) && address % 8 == 2 ==>
                data == (if old(self).vblank() { 0x80u8 } else { 0u8 })
                    + (if old(self).sprite_zero() { 0x40u8 } else { 0u8 })
                && !final(self).vblank()
                && final(self).regs() == (PpuRegs {
                    first_addr: true,
                    first_scroll_write: true,
                    ..old(self).regs()
                }),
            spec_is_ppu_register(address) && address % 8 == 7 ==>
                final(self).vblank() == old(self).vblank()
                && final(self).regs() == (PpuRegs {
                    ppu_addr: old(self).regs().ppu_addr.wrapping_add(old(self).regs().addr_increment as u16),
                    ..old(self).regs()
                }),
            spec_is_ppu_register(address) && !(address % 8 == 2) && !(address % 8 == 7) ==>
                data == 0 && *final(self) == *old(self),
    {
        if address & 0xE000 == 0x2000 {
            let register = address % 8;
            if register == 2 {
                // PPUSTATUS.
                let mut data = 0u8;
                if self.vblank_started {
                    self.vblank_started = false;
                    data = data + 0x80;
                }
                if self.sprite_zero_hit {
                    data = data + 0x40;
                }
                self.first_addr = true;
                self.first_scroll_write = true;
                data
            } else if register == 7 {
                // PPUDATA.
                let value = ppu_bus.read(self.ppu_addr);
                self.ppu_addr = self.ppu_addr.wrapping_add(self.addr_increment as u16);
                value
            } else {
                0
            }
        } else {
            0
        }
    }

    /// Sprite evaluation at the first dot of a scanline: scan the 64
    /// sprites in order and copy those covering this line into secondary
    /// OAM, stopping after eight; remember whether sprite 0 was among them.
    fn load_secondary_oam(&mut self)
        ensures
            final(self).secondary_count()
                == spec_secondary_count(old(self).oam(), old(self).pos().1, old(self).regs().sprite_size),
            final(self).zero_present() == spec_sprite_in_range(
                old(self).oam(), 0, old(self).pos().1, old(self).regs().sprite_size),
            final(self).active_count() == 0,
            0 <= final(self).secondary_count() <= 8,
            final(self).pos() == old(self).pos(),
            final(self).frame_flag() == old(self).frame_flag(),
            final(self).vblank() == old(self).vblank(),
            final(self).sprite_zero() == old(self).sprite_zero(),
            final(self).nmi() == old(self).nmi(),
            final(self).regs() == old(self).regs(),
            final(self).oam() == old(self).oam(),
            final(self).framebuffer() == old(self).framebuffer(),
            final(self).sprite_pixel_value() == old(self).sprite_pixel_value(),
            final(self).background_pixel_value() == old(self).background_pixel_value(),
            final(self).sprite_pixel_index() == old(self).sprite_pixel_index(),
    {
        self.active_sprites = 0;
        self.secondary_sprites = 0;
        self.secondary_oam = [0xFF; 32];
        self.sprite_counter = [0; 8];
        self.sprite_zero_present = false;
        let mut sprite: usize = 0;
        while sprite < 64 && self.secondary_sprites < 8
            invariant
                sprite <= 64,
                self.secondary_sprites as int == spec_sprites_in_range(
                    self.primary_oam@, self.render_y as int, self.sprite_size, sprite as int),
                self.secondary_sprites <= 8,
                self.sprite_zero_present == (sprite > 0 && spec_sprite_in_range(
                    self.primary_oam@, 0, self.render_y as int, self.sprite_size)),
                self.active_sprites == 0,
                self.primary_oam@ == old(self).primary_oam@,
                self.render_x == old(self).render_x,
                self.render_y == old(self).render_y,
                self.sprite_size == old(self).sprite_size,
                self.sprite_zero_hit == old(self).sprite_zero_hit,
                self.vblank_started == old(self).vblank_started,
                self.frame == old(self).frame,
                self.nmi_state == old(self).nmi_state,
                self.regs() == old(self).regs(),
                self.pixels@ == old(self).pixels@,
                self.sprite_pixel == old(self).sprite_pixel,
                self.background_pixel == old(self).background_pixel,
                self.sprite_index == old(self).sprite_index,
            decreases 64 - sprite,
        {
            let sprite_offset = sprite * 4;
            let sprite_y = self.primary_oam[sprite_offset];
            let sprite_index = self.primary_oam[sprite_offset + 1];
            let sprite_attr = self.primary_oam[sprite_offset + 2];
            let sprite_x = self.primary_oam[sprite_offset + 3];
            if self.render_y > sprite_y as u16
                && self.render_y <= sprite_y as u16 + self.sprite_size as u16 {
                self.secondary_oam[self.secondary_sprites * 4] = sprite_y;
                self.secondary_oam[self.secondary_sprites * 4 + 1] = sprite_index;
                self.secondary_oam[self.secondary_sprites * 4 + 2] = sprite_attr;
                self.secondary_oam[self.secondary_sprites * 4 + 3] = sprite_x;
                self.sprite_counter[self.secondary_sprites] = sprite_x;

                self.secondary_sprites = self.secondary_sprites + 1;

                if sprite_offset == 0 {
                    self.sprite_zero_present = true;
                }
            }

            sprite = sprite + 1;
        }
        proof {
            lemma_sprites_in_range_monotone(
                self.primary_oam@, self.render_y as int, self.sprite_size, sprite as int, 64);
        }
    }

    /// Count each copied sprite's X counter down; when one reaches zero,
    /// fetch its two pattern-plane bytes for this line (honouring vertical
    /// flip and the 8x16 mode's table selection) and latch its attributes
    /// into the active-sprite bank, which holds at most eight sprites.
    #[verifier::rlimit(60)]
    fn update_x_position<B: BusOps>(&mut self, ppu_bus: &mut B)
        requires
            old(self).wf(),
        ensures
            final(self).active_count() <= 8,
            final(self).secondary_count() == old(self).secondary_count(),
            final(self).pos() == old(self).pos(),
            final(self).frame_flag() == old(self).frame_flag(),
            final(self).vblank() == old(self).vblank(),
            final(self).sprite_zero() == old(self).sprite_zero(),
            final(self).zero_present() == old(self).zero_present(),
            final(self).nmi() == old(self).nmi(),
            final(self).regs() == old(self).regs(),
            final(self).oam() == old(self).oam(),
            final(self).framebuffer() == old(self).framebuffer(),
            final(self).sprite_pixel_value() == old(self).sprite_pixel_value(),
            final(self).background_pixel_value() == old(self).background_pixel_value(),
            final(self).sprite_pixel_index() == old(self).sprite_pixel_index(),
            final(ppu_bus).palette() == old(ppu_bus).palette(),
            final(ppu_bus).prg() == old(ppu_bus).prg(),
            final(ppu_bus).prg_banks() == old(ppu_bus).prg_banks(),
    {
        let mut sprite_offset: usize = 0;
        while sprite_offset < self.secondary_sprites
            invariant
                self.secondary_sprites <= 8,
                self.active_sprites <= 8,
                sprite_offset <= 8,
                self.secondary_sprites == old(self).secondary_sprites,
                self.sprite_pattern_table <= 0x1000,
                self.sprite_size <= 16,
                self.render_x == old(self).render_x,
                self.render_y == old(self).render_y,
                self.frame == old(self).frame,
                self.vblank_started == old(self).vblank_started,
                self.sprite_zero_hit == old(self).sprite_zero_hit,
                self.sprite_zero_present == old(self).sprite_zero_present,
                self.nmi_state == old(self).nmi_state,
                self.regs() == old(self).regs(),
                self.primary_oam@ == old(self).primary_oam@,
                self.pixels@ == old(self).pixels@,
                self.sprite_pixel == old(self).sprite_pixel,
                self.background_pixel == old(self).background_pixel,
                self.sprite_index == old(self).sprite_index,
                ppu_bus.palette() == old(ppu_bus).palette(),
                ppu_bus.prg() == old(ppu_bus).prg(),
                ppu_bus.prg_banks() == old(ppu_bus).prg_banks(),
            decreases self.secondary_sprites - sprite_offset,
        {
            self.sprite_counter[sprite_offset] = self.sprite_counter[sprite_offset].wrapping_sub(1);
            if self.sprite_counter[sprite_offset] != 0 {
                sprite_offset = sprite_offset + 1;
                continue;
            }

            let sprite_attribute = self.secondary_oam[sprite_offset * 4 + 2];
            let vertical_flip = sprite_attribute & 0x80 != 0;

            // The line within the sprite; out-of-range sprite data folds
            // into the sixteen lines a pattern pair can hold.
            let offset_y = (self.render_y
                .wrapping_sub(self.secondary_oam[sprite_offset * 4] as u16)
                .wrapping_sub(1)) % 16;

            if self.active_sprites < 8 {
                if self.sprite_size == 8 {
                    let sprite_index = self.secondary_oam[sprite_offset * 4 + 1] as u16;

                    if vertical_flip {
                        self.sprite_pattern1[self.active_sprites] = ppu_bus
                            .read(self.sprite_pattern_table + (sprite_index * 16) + 8 - (offset_y % 8));
                        self.sprite_pattern2[self.active_sprites] = ppu_bus
                            .read(self.sprite_pattern_table + (sprite_index * 16) + 8 - (offset_y % 8) + 8);
                    } else {
                        self.sprite_pattern1[self.active_sprites] = ppu_bus
                            .read(self.sprite_pattern_table + (sprite_index * 16) + (offset_y % 8));
                        self.sprite_pattern2[self.active_sprites] = ppu_bus
                            .read(self.sprite_pattern_table + (sprite_index * 16) + (offset_y % 8) + 8);
                    }
                } else {
                    // 8x16 sprites: bit 0 of the index selects the pattern
                    // table; the bottom half uses the next tile.
                    let is_bottom = offset_y >= 8;

                    let sprite_index_value = self.secondary_oam[sprite_offset * 4 + 1];
                    let pattern_table: u16 = if sprite_index_value & 0x1 != 0 { 0x1000 } else { 0x0 };

                    let sprite_index_offset: u16 = if is_bottom { 1 } else { 0 };
                    let sprite_index = (sprite_index_value as u16) / 2 + sprite_index_offset;

                    self.sprite_pattern1[self.active_sprites] =
                        ppu_bus.read(pattern_table + (sprite_index * 16) + offset_y);
                    self.sprite_pattern2[self.active_sprites] =
                        ppu_bus.read(pattern_table + (sprite_index * 16) + offset_y + 8);
                }

                self.sprite_attribute[self.active_sprites] = sprite_attribute;
                self.active_sprites = self.active_sprites + 1;
            }
            sprite_offset = sprite_offset + 1;
        }
    }

    /// Fetch the background tile, attribute and pattern bytes for this dot
    /// and derive the two-bit background pixel, honouring the scroll
    /// offsets and nametable wrap-around.
    #[verifier::rlimit(100)]
    fn fetch_background<B: BusOps>(&mut self, ppu_bus: &mut B)
        requires
            old(self).wf(),
        ensures
            final(self).pos() == old(self).pos(),
            final(self).frame_flag() == old(self).frame_flag(),
            final(self).vblank() == old(self).vblank(),
            final(self).sprite_zero() == old(self).sprite_zero(),
            final(self).zero_present() == old(self).zero_present(),
            final(self).nmi() == old(self).nmi(),
            final(self).regs() == old(self).regs(),
            final(self).oam() == old(self).oam(),
            final(self).framebuffer() == old(self).framebuffer(),
            final(self).secondary_count() == old(self).secondary_count(),
            final(self).active_count() == old(self).active_count(),
            final(self).sprite_pixel_value() == old(self).sprite_pixel_value(),
            final(self).sprite_pixel_index() == old(self).sprite_pixel_index(),
            final(ppu_bus).palette() == old(ppu_bus).palette(),
            final(ppu_bus).prg() == old(ppu_bus).prg(),
            final(ppu_bus).prg_banks() == old(ppu_bus).prg_banks(),
    {
        let mut fetch_x = self.render_x + self.scroll_x;
        let mut fetch_y = self.render_y + self.scroll_y;
        let mut nametable_addr = self.base_nametable;
        if fetch_y >= 240 {
            fetch_y = fetch_y - 240;
            nametable_addr = nametable_addr + 0x800;
        }
        if fetch_x >= 256 {
            fetch_x = fetch_x - 256;
            nametable_addr = nametable_addr + 0x400;
        }
        let nametable_col_index = fetch_x / 8;
        let nametable_row_index = fetch_y / 8;
        let nametable_index = nametable_col_index + (nametable_row_index * 32);
        let pattern_index = ppu_bus.read(nametable_addr + nametable_index);
        self.background_pattern1 = ppu_bus
            .read(self.background_pattern_table + (pattern_index as u16 * 16) + (fetch_y % 8));
        self.background_pattern2 = ppu_bus
            .read(self.background_pattern_table + (pattern_index as u16 * 16) + (fetch_y % 8) + 8);
        let attribute_table = (nametable_addr / 0x400) * 0x400 + 0x3C0;
        let attribute_addr = attribute_table + (fetch_x / 32) + ((fetch_y / 32) * 8);
        self.background_attribute = ppu_bus.read(attribute_addr);
        self.latch_background_pixel(fetch_x, fetch_y);
    }

    /// Fold the fetched attribute byte to its quadrant's two bits and shift
    /// the pattern planes so their top bits hold this dot's pixel.
    fn latch_background_pixel(&mut self, fetch_x: u16, fetch_y: u16)
        ensures
            final(self).pos() == old(self).pos(),
            final(self).frame_flag() == old(self).frame_flag(),
            final(self).vblank() == old(self).vblank(),
            final(self).sprite_zero() == old(self).sprite_zero(),
            final(self).zero_present() == old(self).zero_present(),
            final(self).nmi() == old(self).nmi(),
            final(self).regs() == old(self).regs(),
            final(self).oam() == old(self).oam(),
            final(self).framebuffer() == old(self).framebuffer(),
            final(self).secondary_count() == old(self).secondary_count(),
            final(self).active_count() == old(self).active_count(),
            final(self).sprite_pixel_value() == old(self).sprite_pixel_value(),
            final(self).sprite_pixel_index() == old(self).sprite_pixel_index(),
    {
        self.background_counter = 8;
        if (fetch_x / 16) % 2 != 0 {
            self.background_attribute = self.background_attribute >> 2u32;
        }
        if (fetch_y / 16) % 2 != 0 {
            self.background_attribute = self.background_attribute >> 4u32;
        }
        self.background_attribute = self.background_attribute & 0x3;
        self.background_pattern1 = self.background_pattern1 << ((fetch_x % 8) as u32);
        self.background_pattern2 = self.background_pattern2 << ((fetch_x % 8) as u32);

        self.background_pixel =
            ((self.background_pattern1 & 0x80) >> 6u32) | ((self.background_pattern2 & 0x80) >> 7u32);
        self.background_counter = self.background_counter - 1;
    }

    /// Pick the first active sprite whose shifters hold an opaque pixel at
    /// this dot, then shift every active sprite one bit along, in the
    /// direction its horizontal-flip attribute selects.
    #[verifier::rlimit(60)]
    fn render_sprites(&mut self)
        requires
            old(self).active_count() <= 8,
            old(self).sprite_pixel_index() < 8,
        ensures
            final(self).active_count() == old(self).active_count(),
            final(self).secondary_count() == old(self).secondary_count(),
            final(self).pos() == old(self).pos(),
            final(self).frame_flag() == old(self).frame_flag(),
            final(self).vblank() == old(self).vblank(),
            final(self).sprite_zero() == old(self).sprite_zero(),
            final(self).zero_present() == old(self).zero_present(),
            final(self).nmi() == old(self).nmi(),
            final(self).regs() == old(self).regs(),
            final(self).oam() == old(self).oam(),
            final(self).framebuffer() == old(self).framebuffer(),
            final(self).background_pixel_value() == old(self).background_pixel_value(),
            final(self).sprite_pixel_index() < 8,
    {
        self.sprite_pixel = 0;
        let mut index: usize = 0;
        while index < self.active_sprites
            invariant
                self.active_sprites <= 8,
                index <= 8,
                self.sprite_index < 8,
                self.active_sprites == old(self).active_sprites,
                self.secondary_sprites == old(self).secondary_sprites,
                self.render_x == old(self).render_x,
                self.render_y == old(self).render_y,
                self.frame == old(self).frame,
                self.vblank_started == old(self).vblank_started,
                self.sprite_zero_hit == old(self).sprite_zero_hit,
                self.sprite_zero_present == old(self).sprite_zero_present,
                self.nmi_state == old(self).nmi_state,
                self.regs() == old(self).regs(),
                self.primary_oam@ == old(self).primary_oam@,
                self.pixels@ == old(self).pixels@,
                self.background_pixel == old(self).background_pixel,
            decreases self.active_sprites - index,
        {
            let sprite_attribute = self.sprite_attribute[index];
            let horizontal_flip = sprite_attribute & 0x40 != 0;
            let bitmask: u8 = if horizontal_flip { 0x1 } else { 0x80 };
            let pattern1 = self.sprite_pattern1[index] & bitmask != 0;
            let pattern2 = self.sprite_pattern2[index] & bitmask != 0;
            if self.sprite_pixel == 0 && (pattern1 || pattern2) {
                self.sprite_index = index;
                self.sprite_pixel = if pattern1 { 1 } else { 0 };
                self.sprite_pixel = self.sprite_pixel + if pattern2 { 2 } else { 0 };
                self.sprite_palette = sprite_attribute & 0x3;
                self.sprite_priority = if sprite_attribute & 0x20 != 0 { 1 } else { 0 };
            }

            if horizontal_flip {
                self.sprite_pattern1[index] = self.sprite_pattern1[index] >> 1u32;
                self.sprite_pattern2[index] = self.sprite_pattern2[index] >> 1u32;
            } else {
                self.sprite_pattern1[index] = self.sprite_pattern1[index] << 1u32;
                self.sprite_pattern2[index] = self.sprite_pattern2[index] << 1u32;
            }
            index = index + 1;
        }
    }

    /// Multiplex the background and sprite pixels by the priority rule,
    /// look the winner's colour up in palette RAM, record a sprite-zero hit
    /// when both pixels are opaque (never at dot 255), and write the pixel.
    fn render_pixel<B: BusOps>(&mut self, ppu_bus: &mut B)
        requires
            old(self).sprite_pixel_index() < 8,
        ensures
            final(self).pos() == old(self).pos(),
            final(self).frame_flag() == old(self).frame_flag(),
            final(self).vblank() == old(self).vblank(),
            final(self).nmi() == old(self).nmi(),
            final(self).regs() == old(self).regs(),
            final(self).oam() == old(self).oam(),
            final(self).secondary_count() == old(self).secondary_count(),
            final(self).active_count() == old(self).active_count(),
            final(self).zero_present() == old(self).zero_present(),
            final(self).sprite_pixel_index() == old(self).sprite_pixel_index(),
            final(self).sprite_pixel_value() == old(self).sprite_pixel_value(),
            final(self).background_pixel_value() == old(self).background_pixel_value(),
            final(self).sprite_zero() == (old(self).sprite_zero()
                || (old(self).background_pixel_value() != 0
                    && old(self).sprite_pixel_value() != 0
                    && old(self).sprite_pixel_index() == 0
                    && old(self).zero_present()
                    && old(self).regs().render_background_enable
                    && old(self).regs().render_sprite_enable
                    && old(self).pos().0 != 255)),
            final(ppu_bus).palette() == old(ppu_bus).palette(),
            final(ppu_bus).prg() == old(ppu_bus).prg(),
            final(ppu_bus).prg_banks() == old(ppu_bus).prg_banks(),
            final(self).framebuffer().len() == old(self).framebuffer().len(),
            forall|j: int| 0 <= j < old(self).framebuffer().len()
                && !(old(self).pos().1 * 1024 + old(self).pos().0 * 4 <= j
                    <= old(self).pos().1 * 1024 + old(self).pos().0 * 4 + 3)
                ==> final(self).framebuffer()[j] == old(self).framebuffer()[j],
            old(self).pos().1 >= 240 || old(self).pos().0 >= 256 ==>
                final(self).framebuffer() == old(self).framebuffer(),
    {
        let color: u8;
        if self.sprite_pixel != 0 && (self.sprite_priority == 0 || self.background_pixel == 0) {
            color =
                ppu_bus.read(0x3F10 + (self.sprite_palette as u16 * 4) + self.sprite_pixel as u16);
        } else if self.background_pixel != 0 {
            color = ppu_bus.read(
                0x3F00 + (self.background_attribute as u16 * 4) + self.background_pixel as u16,
            );
        } else {
            color = ppu_bus.read(0x3F00);
        }

        if self.background_pixel != 0
            && self.sprite_pixel != 0
            && self.sprite_index == 0
            && self.sprite_zero_present
            && self.render_background_enable
            && self.render_sprite_enable
            && self.render_x != 255
        {
            self.sprite_zero_hit = true;
        }
        self.write_pixel(color);
    }

    /// Write one RGBA pixel of the 256 x 240 framebuffer from the decoded
    /// colour table; out-of-range positions and colours are dropped.
    fn write_pixel(&mut self, color: u8)
        ensures
            final(self).sprite_pixel_index() == old(self).sprite_pixel_index(),
            final(self).sprite_pixel_value() == old(self).sprite_pixel_value(),
            final(self).background_pixel_value() == old(self).background_pixel_value(),
            final(self).pos() == old(self).pos(),
            final(self).frame_flag() == old(self).frame_flag(),
            final(self).vblank() == old(self).vblank(),
            final(self).sprite_zero() == old(self).sprite_zero(),
            final(self).zero_present() == old(self).zero_present(),
            final(self).nmi() == old(self).nmi(),
            final(self).regs() == old(self).regs(),
            final(self).oam() == old(self).oam(),
            final(self).secondary_count() == old(self).secondary_count(),
            final(self).active_count() == old(self).active_count(),
            old(self).pos().0 < 256 && old(self).pos().1 < 240 && color < 64 ==>
                final(self).pixels@ == old(self).pixels@
                    .update(old(self).pos().1 * 1024 + old(self).pos().0 * 4, final(self).pixels@[old(self).pos().1 * 1024 + old(self).pos().0 * 4])
                    .update(old(self).pos().1 * 1024 + old(self).pos().0 * 4 + 1, final(self).pixels@[old(self).pos().1 * 1024 + old(self).pos().0 * 4 + 1])
                    .update(old(self).pos().1 * 1024 + old(self).pos().0 * 4 + 2, final(self).pixels@[old(self).pos().1 * 1024 + old(self).pos().0 * 4 + 2])
                    .update(old(self).pos().1 * 1024 + old(self).pos().0 * 4 + 3, 0xFFu8),
            !(old(self).pos().0 < 256 && old(self).pos().1 < 240 && color < 64) ==>
                final(self).framebuffer() == old(self).framebuffer(),
    {
        let colors: [u8; 192] = [
            84, 84, 84, 0, 30, 116, 8, 16, 144, 48, 0, 136, 68, 0, 100, 92, 0, 48, 84, 4, 0, 60,
            24, 0, 32, 42, 0, 8, 58, 0, 0, 64, 0, 0, 60, 0, 0, 50, 60, 0, 0, 0, 0, 0, 0, 0, 0, 0,
            152, 150, 152, 8, 76, 196, 48, 50, 236, 92, 30, 228, 136, 20, 176, 160, 20, 100, 152,
            34, 32, 120, 60, 0, 84, 90, 0, 40, 114, 0, 8, 124, 0, 0, 118, 40, 0, 102, 120, 0, 0, 0,
            0, 0, 0, 0, 0, 0, 236, 238, 236, 76, 154, 236, 120, 124, 236, 176, 98, 236, 228, 84,
            236, 236, 88, 180, 236, 106, 100, 212, 136, 32, 160, 170, 0, 116, 196, 0, 76, 208, 32,
            56, 204, 108, 56, 180, 204, 60, 60, 60, 0, 0, 0, 0, 0, 0, 236, 238, 236, 168, 204, 236,
            188, 188, 236, 212, 178, 236, 236, 174, 236, 236, 174, 212, 236, 180, 176, 228, 196,
            144, 204, 210, 120, 180, 222, 120, 168, 226, 144, 152, 226, 180, 160, 214, 228, 160,
            162, 160, 0, 0, 0, 0, 0, 0,
        ];

        if self.render_x < 256 && self.render_y < 240 && color < 64 {
            let pixel_index = self.render_y as usize * 1024 + self.render_x as usize * 4;
            let color_index = color as usize * 3;
            self.pixels[pixel_index] = colors[color_index];
            self.pixels[pixel_index + 1] = colors[color_index + 1];
            self.pixels[pixel_index + 2] = colors[color_index + 2];
            self.pixels[pixel_index + 3] = 0xFF;
        }
    }
}

/// The frame-ready signal rises at exactly one dot of the 89342-dot frame:
/// dot (1, 241), where vertical blank begins. With `tick`'s dot-advance
/// clause, two consecutive risings are therefore exactly 341 x 262 dots
/// apart.
pub proof fn lemma_frame_signal_unique(x: int, y: int)
    requires
        0 <= x < 341,
        0 <= y < 262,
    ensures
        (y * 341 + x == 241 * 341 + 1) <==> (x == 1 && y == 241),
{
    if y * 341 + x == 241 * 341 + 1 {
        assert(y == 241) by (nonlinear_arith)
            requires 0 <= x < 341 && 0 <= y < 262 && y * 341 + x == 241 * 341 + 1;
    }
}

/// The dot right after the vertical-blank dot is (2, 241): where the frame
/// driver stops after consuming the frame-ready flag.
pub proof fn lemma_vblank_exit_position(x: int, y: int)
    requires
        0 <= x < 341,
        0 <= y < 262,
    ensures
        (y * 341 + x == 241 * 341 + 2) <==> (x == 2 && y == 241),
{
    if y * 341 + x == 241 * 341 + 2 {
        assert(y == 241) by (nonlinear_arith)
            requires 0 <= x < 341 && 0 <= y < 262 && y * 341 + x == 241 * 341 + 2;
    }
}

} // verus!
