//! The picture unit's address register, written one byte at a time through
//! a latch: high byte first, then low byte.
use vstd::prelude::*;

verus! {

/// The 16-bit address and the latch that says which half comes next.
pub struct PpuAddr {
    addr: u16,
    is_lower_addr: bool,
}

impl View for PpuAddr {
    type V = (u16, bool);

    /// The address, and whether the next write gives its low half.
    closed spec fn view(&self) -> (u16, bool) {
        (self.addr, self.is_lower_addr)
    }
}

impl PpuAddr {
    /// Address 0, expecting the high half next.
    pub fn new() -> (r: PpuAddr)
        ensures
            r@ == (0u16, false),
    {
        PpuAddr { addr: 0, is_lower_addr: false }
    }

    /// The address.
    pub fn read(&self) -> (r: u16)
        ensures
            r == self@.0,
    {
        self.addr
    }

    /// Whether the next write gives the low half.
    pub fn is_lower_addr(&self) -> (r: bool)
        ensures
            r == self@.1,
    {
        self.is_lower_addr
    }

    /// Moves the address on by `offset`.
    pub fn update(&mut self, offset: u8)
        requires
            old(self)@.0 + offset <= u16::MAX,
        ensures
            final(self)@ == ((old(self)@.0 + offset) as u16, old(self)@.1),
    {
        self.addr = self.addr + offset as u16;
    }

    /// One write through the latch: the first sets the address to `data`
    /// shifted into the high half, the second adds `data` to it. Each write
    /// flips the latch.
    pub fn write(&mut self, data: u16)
        requires
            old(self)@.1 ==> old(self)@.0 + data <= u16::MAX,
        ensures
            final(self)@.0 == if old(self)@.1 {
                (old(self)@.0 + data) as u16
            } else {
                (data as int % 0x100 * 0x100) as u16
            },
            final(self)@.1 == !old(self)@.1,
    {
        if self.is_lower_addr {
            self.addr = self.addr + data;
        } else {
            self.addr = (data % 0x100) * 0x100;
        }
        self.is_lower_addr = !self.is_lower_addr;
    }

    /// Makes the next write give the high half.
    pub fn reset_latch(&mut self)
        ensures
            final(self)@ == (old(self)@.0, false),
    {
        self.is_lower_addr = false;
    }
}

} // verus!
