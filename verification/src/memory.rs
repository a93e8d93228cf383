//! The console's 2 KiB of work RAM, visible at 0x0000..0x1FFF and mirrored
//! there four times.
use vstd::prelude::*;

verus! {

/// Index into the 2 KiB RAM backing a CPU address: the low eleven bits.
pub open spec fn spec_ram_index(address: u16) -> int {
    (address % 2048) as int
}

/// RAM contents after a CPU write: addresses at and above 0x2000 belong to
/// other devices and leave RAM untouched.
pub open spec fn spec_ram_write(ram: Seq<u8>, address: u16, data: u8) -> Seq<u8> {
    if address < 0x2000 && spec_ram_index(address) < ram.len() {
        ram.update(spec_ram_index(address), data)
    } else {
        ram
    }
}

/// What a CPU read returns from RAM: the mirrored byte below 0x2000, and 0
/// elsewhere (this device does not claim the address).
pub open spec fn spec_ram_read(ram: Seq<u8>, address: u16) -> u8 {
    if address < 0x2000 && spec_ram_index(address) < ram.len() {
        ram[spec_ram_index(address)]
    } else {
        0
    }
}

pub struct Memory {
    ram: [u8; 2048],
}

impl View for Memory {
    type V = Seq<u8>;

    closed spec fn view(&self) -> Seq<u8> {
        self.ram@
    }
}

impl Memory {
    pub fn new() -> (memory: Memory)
        ensures
            memory@.len() == 2048,
            forall|i: int| 0 <= i < 2048 ==> memory@[i] == 0u8,
    {
        Memory { ram: [0; 2048] }
    }

    pub fn cpu_write(&mut self, address: u16, data: u8)
        ensures
            final(self)@ == spec_ram_write(old(self)@, address, data),
    {
        if address < 0x2000 {
            self.ram[(address % 2048) as usize] = data;
        }
    }

    pub fn cpu_read(&mut self, address: u16) -> (data: u8)
        ensures
            data == spec_ram_read(old(self)@, address),
            final(self)@ == old(self)@,
    {
        if address < 0x2000 {
            return self.ram[(address % 2048) as usize];
        }
        0
    }
}

} // verus!
