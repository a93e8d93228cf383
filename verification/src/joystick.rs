//! The controller port: an 8-bit button latch read out one bit at a time
//! through address 0x4016. Canonical bit order, from the most significant
//! bit down: A, B, Select, Start, Up, Down, Left, Right.
use vstd::prelude::*;

verus! {

/// Button state after one read of 0x4016: the read index advances modulo 8.
pub open spec fn spec_next_index(index: u8) -> u8 {
    if index == 7 || index == 255 {
        0u8
    } else {
        (index + 1) as u8
    }
}

pub struct Joystick {
    strobe: u8,
    index1: u8,
    index2: u8,
    jd1: u8,
    jd2: u8,
}

impl Joystick {
    /// The latch state: (strobe, read index of pad one, buttons of pad one).
    pub closed spec fn latch(&self) -> (u8, u8, u8) {
        (self.strobe, self.index1, self.jd1)
    }

    /// Buttons of pad one, as the bit mask the shift register holds.
    pub closed spec fn buttons(&self) -> u8 {
        self.jd1
    }

    /// Read index of pad one.
    pub closed spec fn index(&self) -> u8 {
        self.index1
    }

    /// The strobe latch.
    pub closed spec fn strobe(&self) -> u8 {
        self.strobe
    }

    pub fn new() -> (joystick: Joystick)
        ensures
            joystick.latch() == (0u8, 0u8, 0u8),
    {
        Joystick { strobe: 0, index1: 0, index2: 0, jd1: 0, jd2: 0 }
    }

    /// A write to 0x4016 latches the strobe bit and rewinds both read
    /// indices; any other address is ignored.
    pub fn cpu_write(&mut self, address: u16, data: u8)
        ensures
            address == 0x4016 ==> final(self).latch() == ((data & 1) as u8, 0u8, old(self).buttons()),
            address != 0x4016 ==> final(self).latch() == old(self).latch(),
    {
        if address == 0x4016 {
            self.strobe = data & 1;
            self.index1 = 0;
            self.index2 = 0;
        }
    }

    /// A read of 0x4016 returns the button bit the index selects (1 if
    /// pressed, 0 if not) and advances the index modulo 8; any other address
    /// returns 0 and changes nothing.
    pub fn cpu_read(&mut self, address: u16) -> (data: u8)
        ensures
            address == 0x4016 ==> {
                &&& data == (if old(self).buttons() & (0x80u8 >> (old(self).index() % 8) as u32) != 0 { 1u8 } else { 0u8 })
                &&& final(self).index() == spec_next_index(old(self).index())
                &&& final(self).buttons() == old(self).buttons()
            },
            address != 0x4016 ==> data == 0 && final(self).latch() == old(self).latch(),
            old(self).index() < 8 ==> final(self).index() < 8,
            final(self).strobe() == old(self).strobe(),
    {
        if address == 0x4016 {
            let data = self.jd1 & (0x80u8 >> (self.index1 % 8) as u32);
            self.index1 = self.index1.wrapping_add(1);
            if self.index1 == 8 {
                self.index1 = 0;
            }
            return if data != 0 { 1 } else { 0 };
        }
        0
    }

    pub fn press_start(&mut self)
        ensures
            final(self).buttons() == old(self).buttons() | 0x10,
            final(self).index() == old(self).index(),
            final(self).strobe() == old(self).strobe(),
    {
        self.jd1 = self.jd1 | 0x10;
    }

    pub fn press_select(&mut self)
        ensures
            final(self).buttons() == old(self).buttons() | 0x20,
            final(self).index() == old(self).index(),
            final(self).strobe() == old(self).strobe(),
    {
        self.jd1 = self.jd1 | 0x20;
    }

    pub fn press_up(&mut self)
        ensures
            final(self).buttons() == old(self).buttons() | 0x08,
            final(self).index() == old(self).index(),
            final(self).strobe() == old(self).strobe(),
    {
        self.jd1 = self.jd1 | 0x08;
    }

    pub fn press_down(&mut self)
        ensures
            final(self).buttons() == old(self).buttons() | 0x04,
            final(self).index() == old(self).index(),
            final(self).strobe() == old(self).strobe(),
    {
        self.jd1 = self.jd1 | 0x04;
    }

    pub fn press_left(&mut self)
        ensures
            final(self).buttons() == old(self).buttons() | 0x02,
            final(self).index() == old(self).index(),
            final(self).strobe() == old(self).strobe(),
    {
        self.jd1 = self.jd1 | 0x02;
    }

    pub fn press_right(&mut self)
        ensures
            final(self).buttons() == old(self).buttons() | 0x01,
            final(self).index() == old(self).index(),
            final(self).strobe() == old(self).strobe(),
    {
        self.jd1 = self.jd1 | 0x01;
    }

    pub fn press_a(&mut self)
        ensures
            final(self).buttons() == old(self).buttons() | 0x80,
            final(self).index() == old(self).index(),
            final(self).strobe() == old(self).strobe(),
    {
        self.jd1 = self.jd1 | 0x80;
    }

    pub fn press_b(&mut self)
        ensures
            final(self).buttons() == old(self).buttons() | 0x40,
            final(self).index() == old(self).index(),
            final(self).strobe() == old(self).strobe(),
    {
        self.jd1 = self.jd1 | 0x40;
    }

    pub fn release_start(&mut self)
        ensures
            final(self).buttons() == old(self).buttons() & !0x10,
            final(self).index() == old(self).index(),
            final(self).strobe() == old(self).strobe(),
    {
        self.jd1 = self.jd1 & !0x10;
    }

    pub fn release_select(&mut self)
        ensures
            final(self).buttons() == old(self).buttons() & !0x20,
            final(self).index() == old(self).index(),
            final(self).strobe() == old(self).strobe(),
    {
        self.jd1 = self.jd1 & !0x20;
    }

    pub fn release_up(&mut self)
        ensures
            final(self).buttons() == old(self).buttons() & !0x08,
            final(self).index() == old(self).index(),
            final(self).strobe() == old(self).strobe(),
    {
        self.jd1 = self.jd1 & !0x08;
    }

    pub fn release_down(&mut self)
        ensures
            final(self).buttons() == old(self).buttons() & !0x04,
            final(self).index() == old(self).index(),
            final(self).strobe() == old(self).strobe(),
    {
        self.jd1 = self.jd1 & !0x04;
    }

    pub fn release_left(&mut self)
        ensures
            final(self).buttons() == old(self).buttons() & !0x02,
            final(self).index() == old(self).index(),
            final(self).strobe() == old(self).strobe(),
    {
        self.jd1 = self.jd1 & !0x02;
    }

    pub fn release_right(&mut self)
        ensures
            final(self).buttons() == old(self).buttons() & !0x01,
            final(self).index() == old(self).index(),
            final(self).strobe() == old(self).strobe(),
    {
        self.jd1 = self.jd1 & !0x01;
    }

    pub fn release_a(&mut self)
        ensures
            final(self).buttons() == old(self).buttons() & !0x80,
            final(self).index() == old(self).index(),
            final(self).strobe() == old(self).strobe(),
    {
        self.jd1 = self.jd1 & !0x80;
    }

    pub fn release_b(&mut self)
        ensures
            final(self).buttons() == old(self).buttons() & !0x40,
            final(self).index() == old(self).index(),
            final(self).strobe() == old(self).strobe(),
    {
        self.jd1 = self.jd1 & !0x40;
    }
}

} // verus!
