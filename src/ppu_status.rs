//! The picture unit's status register.
use vstd::prelude::*;

verus! {

/// The status flags that the CPU reads from the picture unit.
#[derive(Clone, Copy, Debug, PartialEq, Eq, Structural)]
pub struct PpuStatus {
    /// Set during vertical blank; cleared by reading the register.
    pub vblank_flag: bool,
    /// Set when sprite 0 hits the background.
    pub sprite_hit: bool,
    /// Set when a scanline holds more than eight sprites.
    pub sprite_overflow: bool,
}

proof fn lemma_status_bits(v: u8, h: u8, o: u8)
    by (bit_vector)
    requires
        v <= 1, h <= 1, o <= 1,
    ensures
        (o << 5u8 | h << 6u8 | v << 7u8) as int == o as int * 32 + h as int * 64 + v as int * 128,
{
}

impl PpuStatus {
    /// All flags clear.
    pub fn new() -> (r: PpuStatus)
        ensures
            !r.vblank_flag && !r.sprite_hit && !r.sprite_overflow,
    {
        PpuStatus { vblank_flag: false, sprite_hit: false, sprite_overflow: false }
    }

    /// The register byte: bit 7 vertical blank, bit 6 sprite hit, bit 5
    /// sprite overflow, the rest clear.
    pub fn to_u8(&self) -> (r: u8)
        ensures
            r as int == (if self.vblank_flag { 0x80int } else { 0 }) + (if self.sprite_hit {
                0x40int
            } else {
                0
            }) + (if self.sprite_overflow { 0x20int } else { 0 }),
    {
        let v: u8 = if self.vblank_flag { 1 } else { 0 };
        let h: u8 = if self.sprite_hit { 1 } else { 0 };
        let o: u8 = if self.sprite_overflow { 1 } else { 0 };
        proof {
            lemma_status_bits(v, h, o);
        }
        o << 5u8 | h << 6u8 | v << 7u8
    }
}

} // verus!
