//! The memory bus that the CPU reads and writes, and a plain RAM behind it.
use vstd::prelude::*;

verus! {

/// A byte-addressed bus over the 16-bit address space. Every address holds
/// one byte: a read returns it and changes nothing, a write replaces it and
/// leaves every other address as it was.
pub trait CpuBus {
    /// Whether the bus is ready for use.
    spec fn bus_inv(&self) -> bool;

    /// The byte that the bus holds at `addr`.
    spec fn peek(&self, addr: u16) -> u8;

    fn read(&self, addr: u16) -> (r: u8)
        requires
            self.bus_inv(),
        ensures
            r == self.peek(addr),
    ;

    fn write(&mut self, addr: u16, data: u8)
        requires
            old(self).bus_inv(),
        ensures
            final(self).bus_inv(),
            final(self).peek(addr) == data,
            forall|a: u16| a != addr ==> #[trigger] final(self).peek(a) == old(self).peek(a),
    ;
}

/// The whole address space of a bus as a map from address to byte.
pub open spec fn mem_of<B: CpuBus + ?Sized>(b: &B) -> Map<u16, u8> {
    Map::new(|a: u16| true, |a: u16| b.peek(a))
}

/// After a store of `value` at `addr` (the contract of `STA`, `STX` and
/// `STY`), a read of `addr` returns `value`, and every other address reads
/// as it did before.
pub proof fn lemma_store_round_trip<B: CpuBus>(before: &B, after: &B, value: u8, addr: u16, other: u16)
    requires
        mem_of(after) == mem_of(before).insert(addr, value),
    ensures
        after.peek(addr) == value,
        other != addr ==> after.peek(other) == before.peek(other),
{
    assert(mem_of(after)[addr] == after.peek(addr));
    assert(mem_of(after)[other] == after.peek(other));
    assert(mem_of(before)[other] == before.peek(other));
}

/// Size of the full 16-bit address space.
pub const ADDRESS_SPACE: usize = 0x10000;

/// A block of zero-initialised bytes. One that spans the full address space
/// serves as a CPU bus.
pub struct Ram {
    data: Vec<u8>,
}

impl View for Ram {
    type V = Seq<u8>;

    closed spec fn view(&self) -> Seq<u8> {
        self.data@
    }
}

impl Ram {
    /// A RAM of `size` bytes, all zero.
    pub fn new(size: usize) -> (r: Ram)
        ensures
            r@ == Seq::new(size as nat, |i: int| 0u8),
    {
        let mut data: Vec<u8> = Vec::new();
        let mut i: usize = 0;
        while i < size
            invariant
                i <= size,
                data@ == Seq::new(i as nat, |k: int| 0u8),
            decreases size - i,
        {
            data.push(0);
            i = i + 1;
        }
        Ram { data }
    }

    /// The number of bytes.
    pub fn len(&self) -> (r: usize)
        ensures
            r == self@.len(),
    {
        self.data.len()
    }

    /// The byte at `addr`.
    pub fn read(&self, addr: u16) -> (r: u8)
        requires
            (addr as int) < self@.len(),
        ensures
            r == self@[addr as int],
    {
        self.data[addr as usize]
    }

    /// Replaces the byte at `addr`.
    pub fn write(&mut self, addr: u16, data: u8)
        requires
            (addr as int) < old(self)@.len(),
        ensures
            final(self)@ == old(self)@.update(addr as int, data),
    {
        self.data.set(addr as usize, data);
    }
}

impl CpuBus for Ram {
    open spec fn bus_inv(&self) -> bool {
        self@.len() == ADDRESS_SPACE
    }

    open spec fn peek(&self, addr: u16) -> u8 {
        self@[addr as int]
    }

    fn read(&self, addr: u16) -> (r: u8) {
        Ram::read(self, addr)
    }

    fn write(&mut self, addr: u16, data: u8) {
        Ram::write(self, addr, data);
    }
}

} // verus!
