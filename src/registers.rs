//! The processor's architectural state and its flag-update helpers.
use vstd::prelude::*;

verus! {

/// The status flags, each held as its own boolean.
#[derive(Clone, Copy, Debug, PartialEq, Eq, Structural)]
pub struct Status {
    pub negative: bool,
    pub overflow: bool,
    pub break_mode: bool,
    pub decimal: bool,
    pub interrupt: bool,
    pub zero: bool,
    pub carry: bool,
}

/// The register file: accumulator, index registers, stack pointer,
/// program counter and status flags.
#[allow(non_snake_case)]
#[derive(Clone, Copy, Debug, PartialEq, Eq, Structural)]
pub struct Registers {
    pub A: u8,
    pub X: u8,
    pub Y: u8,
    pub S: u8,
    pub PC: u16,
    pub P: Status,
}

/// Bit 7 of a byte, the sign that the negative flag copies.
pub open spec fn sign_bit(v: u8) -> bool {
    (v & 0x80) != 0
}

/// The flags after a result `v` has been loaded, moved or counted: negative
/// and zero follow `v`, every other flag is kept.
pub open spec fn with_nz(p: Status, v: u8) -> Status {
    Status { negative: sign_bit(v), zero: v == 0, ..p }
}

/// The packed status byte: bit 7 negative, 6 overflow, 5 always set,
/// 4 break, 3 decimal, 2 interrupt, 1 zero, 0 carry.
pub open spec fn packed(p: Status) -> int {
    (if p.negative { 0x80int } else { 0 }) + (if p.overflow { 0x40int } else { 0 }) + 0x20
        + (if p.break_mode { 0x10int } else { 0 }) + (if p.decimal { 0x08int } else { 0 })
        + (if p.interrupt { 0x04int } else { 0 }) + (if p.zero { 0x02int } else { 0 })
        + (if p.carry { 0x01int } else { 0 })
}

/// Whether bit `n` of `v` is set.
pub open spec fn bit(v: u8, n: u8) -> bool {
    (v >> n) & 1 == 1
}

proof fn lemma_pack_bits(n: u8, o: u8, b: u8, d: u8, i: u8, z: u8, c: u8)
    by (bit_vector)
    requires
        n <= 1, o <= 1, b <= 1, d <= 1, i <= 1, z <= 1, c <= 1,
    ensures
        (n << 7 | o << 6 | 0x20u8 | b << 4 | d << 3 | i << 2 | z << 1 | c) as int
            == n as int * 128 + o as int * 64 + 32 + b as int * 16 + d as int * 8
            + i as int * 4 + z as int * 2 + c as int,
{
}

/// The flags at power-on: interrupts masked, break set, all else clear.
pub open spec fn power_on_status() -> Status {
    Status {
        negative: false,
        overflow: false,
        break_mode: true,
        decimal: false,
        interrupt: true,
        zero: false,
        carry: false,
    }
}

impl Status {
    /// The flags at power-on.
    pub fn new() -> (r: Status)
        ensures
            r == power_on_status(),
    {
        Status {
            negative: false,
            overflow: false,
            break_mode: true,
            decimal: false,
            interrupt: true,
            zero: false,
            carry: false,
        }
    }

    /// Packs the flags into the byte that the stack holds.
    pub fn to_u8(&self) -> (r: u8)
        ensures
            r as int == packed(*self),
    {
        let n: u8 = if self.negative { 1 } else { 0 };
        let o: u8 = if self.overflow { 1 } else { 0 };
        let b: u8 = if self.break_mode { 1 } else { 0 };
        let d: u8 = if self.decimal { 1 } else { 0 };
        let i: u8 = if self.interrupt { 1 } else { 0 };
        let z: u8 = if self.zero { 1 } else { 0 };
        let c: u8 = if self.carry { 1 } else { 0 };
        proof {
            lemma_pack_bits(n, o, b, d, i, z, c);
        }
        n << 7 | o << 6 | 0x20u8 | b << 4 | d << 3 | i << 2 | z << 1 | c
    }

    /// Unpacks a status byte; bit 5 is ignored.
    pub fn from_u8(v: u8) -> (r: Status)
        ensures
            r.negative == bit(v, 7),
            r.overflow == bit(v, 6),
            r.break_mode == bit(v, 4),
            r.decimal == bit(v, 3),
            r.interrupt == bit(v, 2),
            r.zero == bit(v, 1),
            r.carry == bit(v, 0),
    {
        Status {
            negative: (v >> 7u8) & 1 == 1,
            overflow: (v >> 6u8) & 1 == 1,
            break_mode: (v >> 4u8) & 1 == 1,
            decimal: (v >> 3u8) & 1 == 1,
            interrupt: (v >> 2u8) & 1 == 1,
            zero: (v >> 1u8) & 1 == 1,
            carry: (v >> 0u8) & 1 == 1,
        }
    }
}

impl Registers {
    /// The register file at power-on.
    pub fn new() -> (r: Registers)
        ensures
            r.A == 0,
            r.X == 0,
            r.Y == 0,
            r.S == 0xFD,
            r.PC == 0,
            r.P == power_on_status(),
    {
        Registers { A: 0, X: 0, Y: 0, S: 0xFD, PC: 0, P: Status::new() }
    }

    /// Sets the negative flag from bit 7 of `value`.
    pub fn update_negative(&mut self, value: u8)
        ensures
            *final(self) == (Registers { P: Status { negative: sign_bit(value), ..old(self).P }, ..*old(self) }),
    {
        self.P.negative = (value & 0x80) != 0;
    }

    /// Sets the zero flag from whether `value` is zero.
    pub fn update_zero(&mut self, value: u8)
        ensures
            *final(self) == (Registers { P: Status { zero: value == 0, ..old(self).P }, ..*old(self) }),
    {
        self.P.zero = value == 0;
    }
}

} // verus!
