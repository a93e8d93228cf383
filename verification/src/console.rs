//! The bus fabric and the frame driver. The CPU-visible bus routes each
//! access to work RAM, the PPU register window, the DMA port, the
//! controller port and the cartridge; the frame driver ticks the PPU every
//! master cycle and lets the CPU (or an armed DMA burst) work every third.
use vstd::prelude::*;
use crate::cpu;
use crate::cpu::{Cpu6502, CycleResult};
use crate::dma::Dma;
use crate::joystick::Joystick;
use crate::mapper::Mapper;
use crate::memory::Memory;
use crate::mapper::{spec_palette_read, spec_palette_store, spec_prg_read};
use crate::memory::{spec_ram_read, spec_ram_write};
use crate::ppu::spec_is_ppu_register;
use crate::ppu;
use crate::ppu::Ppu;

verus! {

impl ppu::BusOps for Mapper {
    open spec fn palette(&self) -> Seq<u8> {
        Mapper::palette(self)
    }

    open spec fn prg(&self) -> Seq<u8> {
        Mapper::prg(self)
    }

    open spec fn prg_banks(&self) -> (int, int) {
        (self.regs().first_cpu_bank, self.regs().last_cpu_bank)
    }

    fn write(&mut self, address: u16, data: u8)
        ensures
            final(self).prg() == old(self).prg(),
            final(self).prg_banks() == old(self).prg_banks(),
            address % 0x4000 > 0x3EFF ==> ppu::BusOps::palette(final(self))
                == spec_palette_store(ppu::BusOps::palette(old(self)), address, data),
            !(address % 0x4000 > 0x3EFF) ==> ppu::BusOps::palette(final(self))
                == ppu::BusOps::palette(old(self)),
    {
        self.ppu_write(address, data);
    }

    fn read(&mut self, address: u16) -> (data: u8)
        ensures
            ppu::BusOps::palette(final(self)) == ppu::BusOps::palette(old(self)),
            final(self).prg() == old(self).prg(),
            final(self).prg_banks() == old(self).prg_banks(),
            address % 0x4000 > 0x3EFF ==> data
                == spec_palette_read(ppu::BusOps::palette(old(self)), address),
    {
        self.ppu_read(address)
    }
}

/// The bus as a DMA burst sees it: every device but the DMA engine itself.
pub struct DmaBus {
    pub mapper: Mapper,
    pub memory: Memory,
    pub ppu: Ppu,
    pub joystick: Joystick,
}

impl DmaBus {
    pub fn new(mapper: Mapper, memory: Memory, ppu: Ppu, joystick: Joystick) -> (bus: DmaBus)
        ensures
            bus.mapper == mapper,
            bus.memory == memory,
            bus.ppu == ppu,
            bus.joystick == joystick,
    {
        DmaBus { mapper, memory, ppu, joystick }
    }
}

impl cpu::BusOps for DmaBus {
    open spec fn ram(&self) -> Seq<u8> {
        self.memory@
    }

    open spec fn inv(&self) -> bool {
        self.ppu.wf()
    }

    open spec fn frame_clock(&self) -> int {
        self.ppu.dot()
    }

    open spec fn frame_pending(&self) -> bool {
        self.ppu.frame_flag()
    }

    open spec fn prg(&self) -> Seq<u8> {
        self.mapper.prg()
    }

    open spec fn prg_banks(&self) -> (int, int) {
        (self.mapper.regs().first_cpu_bank, self.mapper.regs().last_cpu_bank)
    }

    open spec fn oam(&self) -> Seq<u8> {
        self.ppu.oam()
    }

    open spec fn oam_addr(&self) -> u8 {
        self.ppu.regs().oam_addr
    }

    fn write(&mut self, address: u16, data: u8)
        ensures
            old(self).inv() ==> final(self).inv(),
            final(self).frame_clock() == old(self).frame_clock(),
            final(self).frame_pending() == old(self).frame_pending(),
            final(self).ram() == spec_ram_write(old(self).ram(), address, data),
            final(self).prg() == old(self).prg(),
            address < 0x8000 ==> final(self).prg_banks() == old(self).prg_banks(),
            spec_is_ppu_register(address) && address % 8 == 3 ==>
                final(self).oam() == old(self).oam() && final(self).oam_addr() == data,
            spec_is_ppu_register(address) && address % 8 == 4 ==>
                final(self).oam() == old(self).oam().update(old(self).oam_addr() as int, data)
                && final(self).oam_addr() == old(self).oam_addr().wrapping_add(1),
            !(spec_is_ppu_register(address) && (address % 8 == 3 || address % 8 == 4)) ==>
                final(self).oam() == old(self).oam() && final(self).oam_addr() == old(self).oam_addr(),
    {
        proof {
            assert(address < 0x8000 ==> address & 0x8000 == 0) by (bit_vector);
        }
        self.mapper.cpu_write(address, data);
        self.memory.cpu_write(address, data);
        self.joystick.cpu_write(address, data);
        self.ppu.cpu_write(&mut self.mapper, address, data);
    }

    fn read(&mut self, address: u16) -> (data: u8)
        ensures
            old(self).inv() ==> final(self).inv(),
            final(self).frame_clock() == old(self).frame_clock(),
            final(self).frame_pending() == old(self).frame_pending(),
            final(self).ram() == old(self).ram(),
            final(self).prg() == old(self).prg(),
            final(self).prg_banks() == old(self).prg_banks(),
            final(self).oam() == old(self).oam(),
            final(self).oam_addr() == old(self).oam_addr(),
            address < 0x2000 ==> data == spec_ram_read(old(self).ram(), address),
            address & 0xC000 == 0x8000 ==> data == spec_prg_read(
                old(self).prg(), old(self).prg_banks().0, address),
            address & 0xC000 == 0xC000 ==> data == spec_prg_read(
                old(self).prg(), old(self).prg_banks().1, address),
    {
        proof {
            assert(address < 0x2000 ==> address & 0xC000 == 0 && !(address & 0xE000 == 0x2000))
                by (bit_vector);
            assert(address & 0xC000 == 0x8000 ==> !(address < 0x2000)
                && !(0x4020 <= address <= 0x7FFF) && address != 0x4016
                && !(address & 0xE000 == 0x2000)) by (bit_vector);
            assert(address & 0xC000 == 0xC000 ==> !(address < 0x2000)
                && !(0x4020 <= address <= 0x7FFF) && address != 0x4016
                && !(address & 0xE000 == 0x2000)) by (bit_vector);
        }
        let data = self.mapper.cpu_read(address)
            | self.memory.cpu_read(address)
            | self.joystick.cpu_read(address)
            | self.ppu.cpu_read(&mut self.mapper, address);
        proof {
            if address < 0x2000 {
                let value = spec_ram_read(old(self).ram(), address);
                assert(((0u8 | value) | 0u8) | 0u8 == value) by (bit_vector);
            }
            if address & 0xC000 == 0x8000 {
                let value = spec_prg_read(old(self).prg(), old(self).prg_banks().0, address);
                assert(((value | 0u8) | 0u8) | 0u8 == value) by (bit_vector);
            }
            if address & 0xC000 == 0xC000 {
                let value = spec_prg_read(old(self).prg(), old(self).prg_banks().1, address);
                assert(((value | 0u8) | 0u8) | 0u8 == value) by (bit_vector);
            }
        }
        data
    }
}

/// The bus as the CPU sees it: the DMA bus plus the DMA port at 0x4014.
pub struct CpuBus {
    pub inner: DmaBus,
    pub dma: Dma,
}

impl CpuBus {
    pub fn new(mapper: Mapper, memory: Memory, ppu: Ppu, dma: Dma, joystick: Joystick) -> (bus: CpuBus)
        ensures
            bus.inner.mapper == mapper,
            bus.inner.memory == memory,
            bus.inner.ppu == ppu,
            bus.inner.joystick == joystick,
            bus.dma == dma,
    {
        CpuBus { inner: DmaBus { mapper, memory, ppu, joystick }, dma }
    }
}

impl cpu::BusOps for CpuBus {
    open spec fn ram(&self) -> Seq<u8> {
        self.inner.memory@
    }

    open spec fn inv(&self) -> bool {
        self.inner.ppu.wf()
    }

    open spec fn frame_clock(&self) -> int {
        self.inner.ppu.dot()
    }

    open spec fn frame_pending(&self) -> bool {
        self.inner.ppu.frame_flag()
    }

    open spec fn prg(&self) -> Seq<u8> {
        self.inner.mapper.prg()
    }

    open spec fn prg_banks(&self) -> (int, int) {
        (self.inner.mapper.regs().first_cpu_bank, self.inner.mapper.regs().last_cpu_bank)
    }

    open spec fn oam(&self) -> Seq<u8> {
        self.inner.ppu.oam()
    }

    open spec fn oam_addr(&self) -> u8 {
        self.inner.ppu.regs().oam_addr
    }

    fn write(&mut self, address: u16, data: u8)
        ensures
            old(self).inv() ==> final(self).inv(),
            final(self).frame_clock() == old(self).frame_clock(),
            final(self).frame_pending() == old(self).frame_pending(),
            final(self).ram() == spec_ram_write(old(self).ram(), address, data),
            final(self).prg() == old(self).prg(),
            address < 0x8000 ==> final(self).prg_banks() == old(self).prg_banks(),
            spec_is_ppu_register(address) && address % 8 == 3 ==>
                final(self).oam() == old(self).oam() && final(self).oam_addr() == data,
            spec_is_ppu_register(address) && address % 8 == 4 ==>
                final(self).oam() == old(self).oam().update(old(self).oam_addr() as int, data)
                && final(self).oam_addr() == old(self).oam_addr().wrapping_add(1),
            !(spec_is_ppu_register(address) && (address % 8 == 3 || address % 8 == 4)) ==>
                final(self).oam() == old(self).oam() && final(self).oam_addr() == old(self).oam_addr(),
    {
        self.dma.cpu_write(address, data);
        cpu::BusOps::write(&mut self.inner, address, data);
    }

    fn read(&mut self, address: u16) -> (data: u8)
        ensures
            old(self).inv() ==> final(self).inv(),
            final(self).frame_clock() == old(self).frame_clock(),
            final(self).frame_pending() == old(self).frame_pending(),
            final(self).ram() == old(self).ram(),
            final(self).prg() == old(self).prg(),
            final(self).prg_banks() == old(self).prg_banks(),
            final(self).oam() == old(self).oam(),
            final(self).oam_addr() == old(self).oam_addr(),
            address < 0x2000 ==> data == spec_ram_read(old(self).ram(), address),
            address & 0xC000 == 0x8000 ==> data == spec_prg_read(
                old(self).prg(), old(self).prg_banks().0, address),
            address & 0xC000 == 0xC000 ==> data == spec_prg_read(
                old(self).prg(), old(self).prg_banks().1, address),
    {
        cpu::BusOps::read(&mut self.inner, address)
    }
}

/// Run the machine for exactly one video frame: tick the PPU once per
/// master cycle; every third cycle let an armed DMA burst do one sub-cycle,
/// else let the CPU do one. A raised PPU NMI line is latched into the CPU
/// between cycles. Returns true when the CPU reached an undefined
/// micro-state (a halting illegal opcode), which is fatal; otherwise the
/// loop ends with the frame-ready flag consumed.
pub fn exec_frame(
    cpu: &mut Cpu6502,
    bus: &mut CpuBus,
    tick_offset: &mut usize,
) -> (halted: bool)
    requires
        old(bus).inner.ppu.wf(),
        *old(tick_offset) <= 2,
    ensures
        final(bus).inner.ppu.wf(),
        *final(tick_offset) <= 2,
        !halted ==> !final(bus).inner.ppu.frame_flag(),
        !halted && !old(bus).inner.ppu.frame_flag() ==>
            final(bus).inner.ppu.pos() == (2int, 241int),
{
    loop
        invariant
            bus.inner.ppu.wf(),
            *tick_offset <= 2,
            old(bus).inner.ppu.frame_flag() || !bus.inner.ppu.frame_flag(),
        decreases (82182 - bus.inner.ppu.dot()) % 89342,
    {
        *tick_offset = *tick_offset + 1;
        if bus.inner.ppu.nmi_line() {
            bus.inner.ppu.set_nmi_state(false);
            cpu.set_nmi();
        }

        if *tick_offset == 3 {
            *tick_offset = 0;

            if bus.dma.active() {
                bus.dma.execute(&mut bus.inner);
            } else {
                let result = cpu.tick(bus);

                match result {
                    CycleResult::Error => {
                        return true;
                    }
                    _ => {}
                }
            }
        }

        let ghost pre = bus.inner.ppu.pos();
        bus.inner.ppu.tick(&mut bus.inner.mapper);
        if bus.inner.ppu.fetch_frame() {
            proof {
                ppu::lemma_frame_signal_unique(pre.0, pre.1);
                ppu::lemma_vblank_exit_position(bus.inner.ppu.pos().0, bus.inner.ppu.pos().1);
            }
            return false;
        }
        proof {
            // The frame flag is still clear, so the dot just finished was
            // not the vertical-blank dot and the distance to it shrank.
            ppu::lemma_frame_signal_unique(pre.0, pre.1);
            let d_pre = pre.1 * 341 + pre.0;
            let d_new = bus.inner.ppu.dot();
            assert(d_new == (d_pre + 1) % 89342);
            assert(0 <= d_pre < 89342);
            assert(d_pre != 82182);
            if d_pre < 82182 {
                assert(d_new == d_pre + 1);
                assert((82182 - d_pre) % 89342 == 82182 - d_pre);
                assert((82182 - d_new) % 89342 == 82182 - d_new);
            } else if d_pre < 89341 {
                assert(d_new == d_pre + 1);
                assert((82182 - d_pre) % 89342 == 82182 - d_pre + 89342);
                assert((82182 - d_new) % 89342 == 82182 - d_new + 89342);
            } else {
                assert(d_new == 0);
                assert((82182 - d_pre) % 89342 == 82183);
                assert((82182 - d_new) % 89342 == 82182);
            }
        }
    }
}

} // verus!
