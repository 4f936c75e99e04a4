//! Fetching from the instruction stream and resolving operands by
//! addressing mode.
use vstd::prelude::*;

use crate::bus::{mem_of, CpuBus};
use crate::opecode::AddressingMode;
use crate::registers::Registers;

verus! {

/// `a + n` in the 16-bit address space, wrapping at the top.
pub open spec fn addr_add(a: u16, n: int) -> u16 {
    ((a as int + n) % 0x10000) as u16
}

/// `a + b` within the zero page, wrapping at its end.
pub open spec fn zp_add(a: u8, b: u8) -> u8 {
    ((a as int + b as int) % 0x100) as u8
}

/// The 16-bit value of a little-endian pair of bytes.
pub open spec fn word(lo: u8, hi: u8) -> u16 {
    (hi as int * 0x100 + lo as int) as u16
}

/// A branch offset byte read as a signed displacement.
pub open spec fn signed_offset(b: u8) -> int {
    if b < 0x80 { b as int } else { b as int - 0x100 }
}

/// The address after `a` within the same page: the indirect jump reads the
/// high byte of its target from here, as the original silicon does, so a
/// pointer at the end of a page takes its high byte from the page's start.
pub open spec fn same_page_next(a: u16) -> u16 {
    (a as int / 0x100 * 0x100 + (a as int % 0x100 + 1) % 0x100) as u16
}

/// How many operand bytes follow the opcode in each mode.
pub open spec fn operand_len(mode: AddressingMode) -> int {
    match mode {
        AddressingMode::Implied | AddressingMode::Accumulator => 0,
        AddressingMode::Absolute | AddressingMode::AbsoluteX | AddressingMode::AbsoluteY
        | AddressingMode::IndirectAbsolute => 2,
        _ => 1,
    }
}

/// The operand of an instruction whose operand bytes start at `r.PC`: the
/// value itself in immediate mode, 0 where there is none, else the
/// effective address (for relative mode, the branch target).
pub open spec fn resolve(r: Registers, m: Map<u16, u8>, mode: AddressingMode) -> u16 {
    let b0 = m[r.PC];
    let b1 = m[addr_add(r.PC, 1)];
    let abs = word(b0, b1);
    match mode {
        AddressingMode::Implied | AddressingMode::Accumulator => 0,
        AddressingMode::Immediate | AddressingMode::ZeroPage => b0 as u16,
        AddressingMode::ZeroPageX => zp_add(b0, r.X) as u16,
        AddressingMode::ZeroPageY => zp_add(b0, r.Y) as u16,
        AddressingMode::Relative => addr_add(r.PC, 1 + signed_offset(b0)),
        AddressingMode::Absolute => abs,
        AddressingMode::AbsoluteX => addr_add(abs, r.X as int),
        AddressingMode::AbsoluteY => addr_add(abs, r.Y as int),
        AddressingMode::IndirectAbsolute => word(m[abs], m[same_page_next(abs)]),
        AddressingMode::PreIndexedIndirect => {
            let p = zp_add(b0, r.X);
            word(m[p as u16], m[zp_add(p, 1) as u16])
        },
        AddressingMode::PostIndexedIndirect => addr_add(
            word(m[b0 as u16], m[zp_add(b0, 1) as u16]),
            r.Y as int,
        ),
    }
}

/// Reads of the instruction stream and of operands.
pub struct Controller;

impl Controller {
    /// Reads the byte at `PC` and moves `PC` past it.
    pub fn fetch<T: CpuBus>(registers: &mut Registers, bus: &T) -> (r: u8)
        requires
            bus.bus_inv(),
        ensures
            r == bus.peek(old(registers).PC),
            *final(registers) == (Registers { PC: addr_add(old(registers).PC, 1), ..*old(registers) }),
    {
        let r = bus.read(registers.PC);
        registers.PC = registers.PC.wrapping_add(1);
        r
    }

    /// Reads a little-endian word from the instruction stream.
    fn fetch_word<T: CpuBus>(registers: &mut Registers, bus: &T) -> (r: u16)
        requires
            bus.bus_inv(),
        ensures
            r == word(bus.peek(old(registers).PC), bus.peek(addr_add(old(registers).PC, 1))),
            *final(registers) == (Registers { PC: addr_add(old(registers).PC, 2), ..*old(registers) }),
    {
        let lo = Controller::fetch(registers, bus);
        let hi = Controller::fetch(registers, bus);
        (hi as u16) * 0x100 + (lo as u16)
    }

    /// Reads a little-endian word from two bus addresses.
    fn read_word<T: CpuBus>(bus: &T, lo_addr: u16, hi_addr: u16) -> (r: u16)
        requires
            bus.bus_inv(),
        ensures
            r == word(bus.peek(lo_addr), bus.peek(hi_addr)),
    {
        let lo = bus.read(lo_addr);
        let hi = bus.read(hi_addr);
        (hi as u16) * 0x100 + (lo as u16)
    }

    /// Reads a branch offset and returns the target that it gives, counted
    /// from the address after the offset byte.
    fn fetch_relative<T: CpuBus>(registers: &mut Registers, bus: &T) -> (r: u16)
        requires
            bus.bus_inv(),
        ensures
            r == addr_add(old(registers).PC, 1 + signed_offset(bus.peek(old(registers).PC))),
            *final(registers) == (Registers { PC: addr_add(old(registers).PC, 1), ..*old(registers) }),
    {
        let offset = Controller::fetch(registers, bus);
        let base = registers.PC.wrapping_add(offset as u16);
        if offset < 0x80 {
            base
        } else {
            base.wrapping_sub(0x100)
        }
    }

    /// Reads a pointer and follows it, with the page wrap of the indirect
    /// jump.
    fn fetch_indirect<T: CpuBus>(registers: &mut Registers, bus: &T) -> (r: u16)
        requires
            bus.bus_inv(),
        ensures
            ({
                let abs = word(bus.peek(old(registers).PC), bus.peek(addr_add(old(registers).PC, 1)));
                r == word(bus.peek(abs), bus.peek(same_page_next(abs)))
            }),
            *final(registers) == (Registers { PC: addr_add(old(registers).PC, 2), ..*old(registers) }),
    {
        let ptr = Controller::fetch_word(registers, bus);
        let next = ptr / 0x100 * 0x100 + (ptr % 0x100 + 1) % 0x100;
        Controller::read_word(bus, ptr, next)
    }

    /// Reads a zero-page byte, adds `index` within the zero page and follows
    /// the pointer found there.
    fn fetch_zero_page_pointer<T: CpuBus>(registers: &mut Registers, bus: &T, index: u8) -> (r: u16)
        requires
            bus.bus_inv(),
        ensures
            ({
                let p = zp_add(bus.peek(old(registers).PC), index);
                r == word(bus.peek(p as u16), bus.peek(zp_add(p, 1) as u16))
            }),
            *final(registers) == (Registers { PC: addr_add(old(registers).PC, 1), ..*old(registers) }),
    {
        let p = Controller::fetch(registers, bus).wrapping_add(index);
        Controller::read_word(bus, p as u16, p.wrapping_add(1) as u16)
    }

    /// Reads a zero-page address and adds `index` within the zero page.
    fn fetch_zero_page_indexed<T: CpuBus>(registers: &mut Registers, bus: &T, index: u8) -> (r: u16)
        requires
            bus.bus_inv(),
        ensures
            r == zp_add(bus.peek(old(registers).PC), index) as u16,
            *final(registers) == (Registers { PC: addr_add(old(registers).PC, 1), ..*old(registers) }),
    {
        Controller::fetch(registers, bus).wrapping_add(index) as u16
    }

    /// Reads an absolute address and adds `index` to it, wrapping.
    fn fetch_absolute_indexed<T: CpuBus>(registers: &mut Registers, bus: &T, index: u8) -> (r: u16)
        requires
            bus.bus_inv(),
        ensures
            r == addr_add(
                word(bus.peek(old(registers).PC), bus.peek(addr_add(old(registers).PC, 1))),
                index as int,
            ),
            *final(registers) == (Registers { PC: addr_add(old(registers).PC, 2), ..*old(registers) }),
    {
        Controller::fetch_word(registers, bus).wrapping_add(index as u16)
    }

    /// Reads a zero-page pointer, follows it and adds `index` to the address
    /// found, wrapping.
    fn fetch_post_indexed<T: CpuBus>(registers: &mut Registers, bus: &T, index: u8) -> (r: u16)
        requires
            bus.bus_inv(),
        ensures
            ({
                let p = bus.peek(old(registers).PC);
                r == addr_add(word(bus.peek(p as u16), bus.peek(zp_add(p, 1) as u16)), index as int)
            }),
            *final(registers) == (Registers { PC: addr_add(old(registers).PC, 1), ..*old(registers) }),
    {
        let base = Controller::fetch_zero_page_pointer(registers, bus, 0);
        base.wrapping_add(index as u16)
    }

    /// Resolves the operand of `mode` and moves `PC` past its bytes.
    pub fn fetch_opeland<T: CpuBus>(registers: &mut Registers, bus: &T, mode: AddressingMode) -> (r: u16)
        requires
            bus.bus_inv(),
        ensures
            r == resolve(*old(registers), mem_of(bus), mode),
            *final(registers) == (Registers {
                PC: addr_add(old(registers).PC, operand_len(mode)),
                ..*old(registers)
            }),
    {
        let x = registers.X;
        let y = registers.Y;
        match mode {
            AddressingMode::Implied | AddressingMode::Accumulator => 0,
            AddressingMode::Immediate | AddressingMode::ZeroPage => {
                Controller::fetch(registers, bus) as u16
            },
            AddressingMode::ZeroPageX => Controller::fetch_zero_page_indexed(registers, bus, x),
            AddressingMode::ZeroPageY => Controller::fetch_zero_page_indexed(registers, bus, y),
            AddressingMode::Relative => Controller::fetch_relative(registers, bus),
            AddressingMode::Absolute => Controller::fetch_word(registers, bus),
            AddressingMode::AbsoluteX => Controller::fetch_absolute_indexed(registers, bus, x),
            AddressingMode::AbsoluteY => Controller::fetch_absolute_indexed(registers, bus, y),
            AddressingMode::IndirectAbsolute => Controller::fetch_indirect(registers, bus),
            AddressingMode::PreIndexedIndirect => {
                Controller::fetch_zero_page_pointer(registers, bus, x)
            },
            AddressingMode::PostIndexedIndirect => Controller::fetch_post_indexed(registers, bus, y),
        }
    }
}

} // verus!
