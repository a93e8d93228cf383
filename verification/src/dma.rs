//! The sprite DMA engine: a write to 0x4014 arms a 512-sub-cycle burst that
//! copies one 256-byte page into sprite memory through OAMDATA, while the
//! CPU is stalled.
use vstd::prelude::*;
use crate::cpu::BusOps;
use crate::memory::spec_ram_read;

verus! {

pub struct Dma {
    requested: bool,
    page: u8,
    value: u8,
    progress: usize,
}

impl Dma {
    /// The engine state: (active, source page, transfer latch, progress).
    pub closed spec fn state(&self) -> (bool, u8, u8, int) {
        (self.requested, self.page, self.value, self.progress as int)
    }

    pub fn new() -> (dma: Dma)
        ensures
            dma.state() == (false, 0u8, 0u8, 0int),
    {
        Dma {
            requested: false,
            page: 0,
            value: 0,
            progress: 0,
        }
    }

    /// A write to 0x4014 latches the source page and arms the burst from
    /// the beginning; any other address is ignored.
    pub fn cpu_write(&mut self, address: u16, data: u8)
        ensures
            address == 0x4014 ==> final(self).state() == (true, data, old(self).state().2, 0int),
            address != 0x4014 ==> final(self).state() == old(self).state(),
    {
        if address == 0x4014 {
            self.requested = true;
            self.page = data;
            self.progress = 0;
        }
    }

    /// Whether a burst is in flight, which stalls the CPU.
    pub fn active(&self) -> (active: bool)
        ensures
            active == self.state().0,
    {
        self.requested
    }

    /// One burst sub-cycle. Even cycles read byte `progress / 2` of the
    /// source page into the latch; odd cycles write the latch through
    /// OAMDATA (0x2004) into the sprite memory cell the OAM address selects,
    /// advancing that address. The very first cycle also rewinds OAMADDR
    /// (0x2003). Progress advances by one and the burst disarms after cycle
    /// 511, so 512 sub-cycles copy the whole source page into sprite memory.
    pub fn execute<B: BusOps>(&mut self, bus: &mut B)
        ensures
            old(bus).inv() ==> final(bus).inv(),
            final(bus).frame_clock() == old(bus).frame_clock(),
            final(bus).frame_pending() == old(bus).frame_pending(),
            final(bus).prg() == old(bus).prg(),
            old(self).state().3 == 0 ==> final(bus).oam() == old(bus).oam()
                && final(bus).oam_addr() == 0,
            old(self).state().3 % 2 == 1 ==> final(bus).oam()
                == old(bus).oam().update(old(bus).oam_addr() as int, old(self).state().2)
                && final(bus).oam_addr() == old(bus).oam_addr().wrapping_add(1),
            old(self).state().3 % 2 == 0 && old(self).state().3 != 0 ==>
                final(bus).oam() == old(bus).oam()
                && final(bus).oam_addr() == old(bus).oam_addr(),
            final(self).state().1 == old(self).state().1,
            final(self).state().3 < 512,
            old(self).state().3 < 511 ==> final(self).state()
                == (old(self).state().0, old(self).state().1, final(self).state().2, old(self).state().3 + 1),
            old(self).state().3 >= 511 ==> final(self).state()
                == (false, old(self).state().1, final(self).state().2, 0int),
            old(self).state().3 % 2 == 0 ==> ({
                let source = ((old(self).state().1 as u16) << 8u32) | (((old(self).state().3 / 2) % 0x100) as u16);
                &&& (source < 0x2000 ==> final(self).state().2 == spec_ram_read(old(bus).ram(), source))
                &&& final(bus).ram() == old(bus).ram()
            }),
            old(self).state().3 % 2 == 1 ==> final(self).state().2 == old(self).state().2
                && final(bus).ram() == old(bus).ram(),
    {
        proof {
            assert(0x2003u16 & 0xE000 == 0x2000 && 0x2004u16 & 0xE000 == 0x2000) by (bit_vector);
        }
        if self.progress == 0 {
            bus.write(0x2003, 0);
        }

        if self.progress % 2 != 0 {
            bus.write(0x2004, self.value);
        } else {
            let address_high = (self.page as u16) << 8u32;
            let address_low = ((self.progress / 2) % 0x100) as u16;
            let memory_address = address_high | address_low;
            self.value = bus.read(memory_address);
        }

        if self.progress >= 511 {
            self.requested = false;
            self.progress = 0;
        } else {
            self.progress = self.progress + 1;
        }
    }
}

} // verus!
