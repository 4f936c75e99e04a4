//! What one instruction does to the machine, as mathematics: registers and
//! the whole address space before and after.
use vstd::prelude::*;

use crate::controller::{addr_add, operand_len, resolve, word};
use crate::opecode::{opecode_of, AddressingMode, Command};
use crate::registers::{sign_bit, with_nz, Registers, Status};

verus! {

/// `x` reduced to a byte, wrapping modulo 256.
pub open spec fn wrap8(x: int) -> u8 {
    (x % 0x100) as u8
}

/// The stack slot that the 8-bit stack pointer `s` designates.
pub open spec fn stack_addr(s: u8) -> u16 {
    (0x100 + s as int) as u16
}

/// High byte of a word.
pub open spec fn hi_byte(w: u16) -> u8 {
    (w as int / 0x100) as u8
}

/// Low byte of a word.
pub open spec fn lo_byte(w: u16) -> u8 {
    (w as int % 0x100) as u8
}

/// `r` with the accumulator loaded with `v`.
pub open spec fn load_a(r: Registers, v: u8) -> Registers {
    Registers { A: v, P: with_nz(r.P, v), ..r }
}

/// `r` with X loaded with `v`.
pub open spec fn load_x(r: Registers, v: u8) -> Registers {
    Registers { X: v, P: with_nz(r.P, v), ..r }
}

/// `r` with Y loaded with `v`.
pub open spec fn load_y(r: Registers, v: u8) -> Registers {
    Registers { Y: v, P: with_nz(r.P, v), ..r }
}

/// The flags after comparing register value `reg` with `v`: carry when
/// `reg >= v`, zero when equal, negative from bit 7 of `reg - v`.
pub open spec fn compared(p: Status, reg: u8, v: u8) -> Status {
    Status { carry: reg >= v, zero: reg == v, negative: sign_bit(wrap8(reg - v)), ..p }
}

/// `r` with `PC` set to `target` when `taken`, else `r` itself.
pub open spec fn branch(r: Registers, taken: bool, target: u16) -> Registers {
    if taken { Registers { PC: target, ..r } } else { r }
}

/// The registers and memory after `JSR`: the address of the call's last
/// byte (`PC - 1`) pushed high byte first, then `PC` set to `target`.
pub open spec fn call(r: Registers, m: Map<u16, u8>, target: u16) -> (Registers, Map<u16, u8>) {
    let ret = addr_add(r.PC, -1);
    (
        Registers { S: wrap8(r.S - 2), PC: target, ..r },
        m.insert(stack_addr(r.S), hi_byte(ret)).insert(stack_addr(wrap8(r.S - 1)), lo_byte(ret)),
    )
}

/// The registers after `RTS`: the address that `JSR` pushed is pulled,
/// low byte first, and `PC` is set one past it.
pub open spec fn ret(r: Registers, m: Map<u16, u8>) -> Registers {
    let lo = m[stack_addr(wrap8(r.S + 1))];
    let hi = m[stack_addr(wrap8(r.S + 2))];
    Registers { S: wrap8(r.S + 2), PC: addr_add(word(lo, hi), 1), ..r }
}

/// The byte an instruction works on: the operand itself in immediate mode,
/// else the byte at the operand's address.
pub open spec fn operand_value(mode: AddressingMode, opeland: u16, m: Map<u16, u8>) -> u8 {
    if mode == AddressingMode::Immediate { opeland as u8 } else { m[opeland] }
}

/// The instructions that the engine carries out.
pub open spec fn is_implemented(c: Command) -> bool {
    match c {
        Command::LDA | Command::LDX | Command::LDY | Command::STA | Command::STX | Command::STY
        | Command::TAX | Command::TAY | Command::TXA | Command::TYA | Command::TSX | Command::TXS
        | Command::INX | Command::INY | Command::DEX | Command::DEY | Command::CMP | Command::CPX
        | Command::CPY | Command::BNE | Command::BEQ | Command::BPL | Command::BMI | Command::BCC
        | Command::BCS | Command::BVC | Command::BVS | Command::JMP | Command::JSR | Command::RTS
        | Command::SEI | Command::CLI | Command::SED | Command::CLD | Command::SEC | Command::CLC
        | Command::CLV | Command::NOP => true,
        _ => false,
    }
}

/// What instruction `c` in `mode` with resolved operand `opeland` does to
/// registers `r` (whose `PC` is already past the instruction) and memory
/// `m`. Instructions the engine does not carry out leave both unchanged.
pub open spec fn apply(
    c: Command,
    mode: AddressingMode,
    r: Registers,
    m: Map<u16, u8>,
    opeland: u16,
) -> (Registers, Map<u16, u8>) {
    let v = operand_value(mode, opeland, m);
    let p = r.P;
    match c {
        Command::LDA => (load_a(r, v), m),
        Command::LDX => (load_x(r, v), m),
        Command::LDY => (load_y(r, v), m),
        Command::STA => (r, m.insert(opeland, r.A)),
        Command::STX => (r, m.insert(opeland, r.X)),
        Command::STY => (r, m.insert(opeland, r.Y)),
        Command::TAX => (load_x(r, r.A), m),
        Command::TAY => (load_y(r, r.A), m),
        Command::TXA => (load_a(r, r.X), m),
        Command::TYA => (load_a(r, r.Y), m),
        Command::TSX => (load_x(r, r.S), m),
        Command::TXS => (Registers { S: r.X, ..r }, m),
        Command::INX => (load_x(r, wrap8(r.X + 1)), m),
        Command::INY => (load_y(r, wrap8(r.Y + 1)), m),
        Command::DEX => (load_x(r, wrap8(r.X - 1)), m),
        Command::DEY => (load_y(r, wrap8(r.Y - 1)), m),
        Command::CMP => (Registers { P: compared(p, r.A, v), ..r }, m),
        Command::CPX => (Registers { P: compared(p, r.X, v), ..r }, m),
        Command::CPY => (Registers { P: compared(p, r.Y, v), ..r }, m),
        Command::BNE => (branch(r, !p.zero, opeland), m),
        Command::BEQ => (branch(r, p.zero, opeland), m),
        Command::BPL => (branch(r, !p.negative, opeland), m),
        Command::BMI => (branch(r, p.negative, opeland), m),
        Command::BCC => (branch(r, !p.carry, opeland), m),
        Command::BCS => (branch(r, p.carry, opeland), m),
        Command::BVC => (branch(r, !p.overflow, opeland), m),
        Command::BVS => (branch(r, p.overflow, opeland), m),
        Command::JMP => (Registers { PC: opeland, ..r }, m),
        Command::JSR => call(r, m, opeland),
        Command::RTS => (ret(r, m), m),
        Command::SEI => (Registers { P: Status { interrupt: true, ..p }, ..r }, m),
        Command::CLI => (Registers { P: Status { interrupt: false, ..p }, ..r }, m),
        Command::SED => (Registers { P: Status { decimal: true, ..p }, ..r }, m),
        Command::CLD => (Registers { P: Status { decimal: false, ..p }, ..r }, m),
        Command::SEC => (Registers { P: Status { carry: true, ..p }, ..r }, m),
        Command::CLC => (Registers { P: Status { carry: false, ..p }, ..r }, m),
        Command::CLV => (Registers { P: Status { overflow: false, ..p }, ..r }, m),
        _ => (r, m),
    }
}

/// Why a step could not be carried out. Every opcode byte has a table
/// entry, so the only failure is an instruction that the engine does not
/// carry out.
#[derive(Clone, Copy, Debug, PartialEq, Eq, Structural)]
pub enum ExecError {
    /// The opcode at `pc` names an instruction that the engine does not
    /// carry out.
    UnimplementedOpcode { opcode: u8, pc: u16 },
}

/// One step of the machine from registers `r` and memory `m`: the
/// registers, memory and base cycle count after the instruction at `r.PC`,
/// or the error for an opcode the engine does not carry out.
pub open spec fn step_spec(r: Registers, m: Map<u16, u8>) -> Result<
    (Registers, Map<u16, u8>, usize),
    ExecError,
> {
    let op = m[r.PC];
    let entry = opecode_of(op);
    if !is_implemented(entry.command) {
        Err(ExecError::UnimplementedOpcode { opcode: op, pc: r.PC })
    } else {
        let r1 = Registers { PC: addr_add(r.PC, 1), ..r };
        let opeland = resolve(r1, m, entry.mode);
        let r2 = Registers { PC: addr_add(r1.PC, operand_len(entry.mode)), ..r1 };
        let after = apply(entry.command, entry.mode, r2, m, opeland);
        Ok((after.0, after.1, entry.cycle))
    }
}

/// A return after a call gives back the registers as they were when the
/// call was made: `PC` past the calling instruction, `S` where it stood.
pub proof fn lemma_call_then_return(r: Registers, m: Map<u16, u8>, target: u16)
    ensures
        ret(call(r, m, target).0, call(r, m, target).1) == r,
{
    let after = call(r, m, target);
    let w = addr_add(r.PC, -1);
    assert(wrap8(after.0.S + 1) == wrap8(r.S - 1));
    assert(wrap8(after.0.S + 2) == r.S);
    assert(stack_addr(wrap8(r.S - 1)) != stack_addr(r.S));
    assert(word(lo_byte(w), hi_byte(w)) == w);
}

} // verus!
