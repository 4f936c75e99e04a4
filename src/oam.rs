//! The sprite-memory address register and the port that reads and writes
//! through it.
use vstd::prelude::*;

use crate::bus::Ram;

verus! {

/// The address into sprite memory that the next data access uses.
pub struct Oam {
    addr: u16,
}

impl View for Oam {
    type V = u16;

    closed spec fn view(&self) -> u16 {
        self.addr
    }
}

impl Oam {
    /// An address register at 0.
    pub fn new() -> (r: Oam)
        ensures
            r@ == 0,
    {
        Oam { addr: 0 }
    }

    /// Sets the address back to 0.
    pub fn reset_addr(&mut self)
        ensures
            final(self)@ == 0,
    {
        self.addr = 0;
    }

    /// The current address.
    pub fn get_addr(&self) -> (r: u16)
        ensures
            r == self@,
    {
        self.addr
    }

    /// Sets the address to `data`.
    pub fn write_addr(&mut self, data: u8)
        ensures
            final(self)@ == data as u16,
    {
        self.addr = data as u16;
    }

    /// Writes `data` to sprite memory at the address, then moves the address
    /// on by one.
    pub fn write_data(&mut self, ram: &mut Ram, data: u8)
        requires
            (old(self)@ as int) < old(ram)@.len(),
            old(self)@ < u16::MAX,
        ensures
            final(ram)@ == old(ram)@.update(old(self)@ as int, data),
            final(self)@ == old(self)@ + 1,
    {
        ram.write(self.addr, data);
        self.addr = self.addr + 1;
    }

    /// The byte of sprite memory at the address.
    pub fn read_data(&self, ram: &Ram) -> (r: u8)
        requires
            (self@ as int) < ram@.len(),
        ensures
            r == ram@[self@ as int],
    {
        ram.read(self.addr)
    }
}

} // verus!
