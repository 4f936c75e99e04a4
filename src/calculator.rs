//! The instruction engine: one step fetches, decodes, resolves and carries
//! out a single instruction.
use vstd::prelude::*;

use crate::bus::{mem_of, CpuBus};
use crate::controller::{addr_add, resolve, Controller};
use crate::opecode::{AddressingMode, Command, Opecode};
use crate::registers::{Registers, Status};
use crate::semantics::{
    apply, branch, call, compared, is_implemented, load_a, load_x, load_y, ret, stack_addr, step_spec,
    wrap8, ExecError,
};

verus! {

/// Carries out instructions on a register file and a bus.
pub struct Calculator;

#[allow(non_snake_case)]
impl Calculator {
    /// Carries out the instruction at `PC` and returns its base cycle count.
    /// An opcode that names an instruction the engine does not carry out
    /// gives `UnimplementedOpcode` with that byte and its address, and
    /// changes nothing.
    pub fn execute<T: CpuBus>(registers: &mut Registers, bus: &mut T) -> (r: Result<usize, ExecError>)
        requires
            old(bus).bus_inv(),
        ensures
            final(bus).bus_inv(),
            match step_spec(*old(registers), mem_of(old(bus))) {
                Ok(t) => r == Ok::<usize, ExecError>(t.2) && *final(registers) == t.0
                    && mem_of(final(bus)) == t.1,
                Err(e) => r == Err::<usize, ExecError>(e) && *final(registers) == *old(registers)
                    && *final(bus) == *old(bus),
            },
    {
        let pc = registers.PC;
        let run_opecode = bus.read(pc);
        let opecode_rule = Opecode::lookup(run_opecode);
        if !Calculator::handles(opecode_rule.command) {
            return Err(ExecError::UnimplementedOpcode { opcode: run_opecode, pc });
        }
        registers.PC = pc.wrapping_add(1);
        let command = opecode_rule.command;
        let mode = opecode_rule.mode;
        let ghost m0 = mem_of(bus);
        let ghost r1 = *registers;
        let opeland = Controller::fetch_opeland(registers, bus, mode);
        let ghost r2 = *registers;
        Calculator::dispatch(command, mode, registers, bus, opeland);
        proof {
            let s = step_spec(*old(registers), m0);
            assert(is_implemented(command));
            assert(r1 == Registers { PC: addr_add(old(registers).PC, 1), ..*old(registers) });
            assert(opeland == resolve(r1, m0, mode));
            assert(s == Ok::<(Registers, Map<u16, u8>, usize), ExecError>((
                apply(command, mode, r2, m0, opeland).0,
                apply(command, mode, r2, m0, opeland).1,
                opecode_rule.cycle,
            )));
        }
        Ok(opecode_rule.cycle)
    }

    /// Carries out `command` in `mode` on the resolved operand `opeland`.
    fn dispatch<T: CpuBus>(
        command: Command,
        mode: AddressingMode,
        registers: &mut Registers,
        bus: &mut T,
        opeland: u16,
    )
        requires
            old(bus).bus_inv(),
        ensures
            final(bus).bus_inv(),
            (*final(registers), mem_of(final(bus))) == apply(
                command,
                mode,
                *old(registers),
                mem_of(old(bus)),
                opeland,
            ),
    {
        let immediate = mode == AddressingMode::Immediate;
        match command {
            Command::LDA => if immediate {
                Calculator::LDA_immediate(registers, opeland)
            } else {
                Calculator::LDA(registers, bus, opeland)
            },
            Command::LDX => if immediate {
                Calculator::LDX_immediate(registers, opeland)
            } else {
                Calculator::LDX(registers, bus, opeland)
            },
            Command::LDY => if immediate {
                Calculator::LDY_immediate(registers, opeland)
            } else {
                Calculator::LDY(registers, bus, opeland)
            },
            Command::STA => Calculator::STA(registers, bus, opeland),
            Command::STX => Calculator::STX(registers, bus, opeland),
            Command::STY => Calculator::STY(registers, bus, opeland),
            Command::TAX => Calculator::TAX(registers),
            Command::TAY => Calculator::TAY(registers),
            Command::TXA => Calculator::TXA(registers),
            Command::TYA => Calculator::TYA(registers),
            Command::TSX => Calculator::TSX(registers),
            Command::TXS => Calculator::TXS(registers),
            Command::INX => Calculator::INX(registers),
            Command::INY => Calculator::INY(registers),
            Command::DEX => Calculator::DEX(registers),
            Command::DEY => Calculator::DEY(registers),
            Command::CMP => if immediate {
                Calculator::CMP_immediate(registers, opeland)
            } else {
                Calculator::CMP(registers, bus, opeland)
            },
            Command::CPX => if immediate {
                Calculator::CPX_immediate(registers, opeland)
            } else {
                Calculator::CPX(registers, bus, opeland)
            },
            Command::CPY => if immediate {
                Calculator::CPY_immediate(registers, opeland)
            } else {
                Calculator::CPY(registers, bus, opeland)
            },
            Command::BNE => Calculator::BNE(registers, opeland),
            Command::BEQ => Calculator::BEQ(registers, opeland),
            Command::BPL => Calculator::BPL(registers, opeland),
            Command::BMI => Calculator::BMI(registers, opeland),
            Command::BCC => Calculator::BCC(registers, opeland),
            Command::BCS => Calculator::BCS(registers, opeland),
            Command::BVC => Calculator::BVC(registers, opeland),
            Command::BVS => Calculator::BVS(registers, opeland),
            Command::JMP => Calculator::JMP(registers, opeland),
            Command::JSR => Calculator::JSR(registers, bus, opeland),
            Command::RTS => Calculator::RTS(registers, bus),
            Command::SEI => Calculator::SEI(registers),
            Command::CLI => Calculator::CLI(registers),
            Command::SED => Calculator::SED(registers),
            Command::CLD => Calculator::CLD(registers),
            Command::SEC => Calculator::SEC(registers),
            Command::CLC => Calculator::CLC(registers),
            Command::CLV => Calculator::CLV(registers),
            _ => {},
        }
    }

    /// Whether the engine carries out `command`.
    fn handles(command: Command) -> (r: bool)
        ensures
            r == is_implemented(command),
    {
        match command {
            Command::LDA | Command::LDX | Command::LDY | Command::STA | Command::STX
            | Command::STY | Command::TAX | Command::TAY | Command::TXA | Command::TYA
            | Command::TSX | Command::TXS | Command::INX | Command::INY | Command::DEX
            | Command::DEY | Command::CMP | Command::CPX | Command::CPY | Command::BNE
            | Command::BEQ | Command::BPL | Command::BMI | Command::BCC | Command::BCS
            | Command::BVC | Command::BVS | Command::JMP | Command::JSR | Command::RTS
            | Command::SEI | Command::CLI | Command::SED | Command::CLD | Command::SEC
            | Command::CLC | Command::CLV | Command::NOP => true,
            _ => false,
        }
    }

    /// `LDA` from memory: loads the byte at `opeland`.
    pub fn LDA<T: CpuBus>(registers: &mut Registers, bus: &mut T, opeland: u16)
        requires
            old(bus).bus_inv(),
        ensures
            *final(registers) == load_a(*old(registers), old(bus).peek(opeland)),
            *final(bus) == *old(bus),
    {
        let v = bus.read(opeland);
        Calculator::LDA_immediate(registers, v as u16);
    }

    /// `LDA` immediate: loads the low byte of `opeland`.
    pub fn LDA_immediate(registers: &mut Registers, opeland: u16)
        ensures
            *final(registers) == load_a(*old(registers), opeland as u8),
    {
        registers.A = opeland as u8;
        registers.update_negative(registers.A);
        registers.update_zero(registers.A);
    }

    /// `LDX` from memory: loads the byte at `opeland`.
    pub fn LDX<T: CpuBus>(registers: &mut Registers, bus: &mut T, opeland: u16)
        requires
            old(bus).bus_inv(),
        ensures
            *final(registers) == load_x(*old(registers), old(bus).peek(opeland)),
            *final(bus) == *old(bus),
    {
        let v = bus.read(opeland);
        Calculator::LDX_immediate(registers, v as u16);
    }

    /// `LDX` immediate: loads the low byte of `opeland`.
    pub fn LDX_immediate(registers: &mut Registers, opeland: u16)
        ensures
            *final(registers) == load_x(*old(registers), opeland as u8),
    {
        registers.X = opeland as u8;
        registers.update_negative(registers.X);
        registers.update_zero(registers.X);
    }

    /// `LDY` from memory: loads the byte at `opeland`.
    pub fn LDY<T: CpuBus>(registers: &mut Registers, bus: &mut T, opeland: u16)
        requires
            old(bus).bus_inv(),
        ensures
            *final(registers) == load_y(*old(registers), old(bus).peek(opeland)),
            *final(bus) == *old(bus),
    {
        let v = bus.read(opeland);
        Calculator::LDY_immediate(registers, v as u16);
    }

    /// `LDY` immediate: loads the low byte of `opeland`.
    pub fn LDY_immediate(registers: &mut Registers, opeland: u16)
        ensures
            *final(registers) == load_y(*old(registers), opeland as u8),
    {
        registers.Y = opeland as u8;
        registers.update_negative(registers.Y);
        registers.update_zero(registers.Y);
    }

    /// `STA`: writes `A` to `opeland`; no flag changes.
    pub fn STA<T: CpuBus>(registers: &Registers, bus: &mut T, opeland: u16)
        requires
            old(bus).bus_inv(),
        ensures
            final(bus).bus_inv(),
            mem_of(final(bus)) == mem_of(old(bus)).insert(opeland, registers.A),
    {
        bus.write(opeland, registers.A);
        assert(mem_of(bus) =~= mem_of(old(bus)).insert(opeland, registers.A));
    }

    /// `STX`: writes `X` to `opeland`; no flag changes.
    pub fn STX<T: CpuBus>(registers: &Registers, bus: &mut T, opeland: u16)
        requires
            old(bus).bus_inv(),
        ensures
            final(bus).bus_inv(),
            mem_of(final(bus)) == mem_of(old(bus)).insert(opeland, registers.X),
    {
        bus.write(opeland, registers.X);
        assert(mem_of(bus) =~= mem_of(old(bus)).insert(opeland, registers.X));
    }

    /// `STY`: writes `Y` to `opeland`; no flag changes.
    pub fn STY<T: CpuBus>(registers: &Registers, bus: &mut T, opeland: u16)
        requires
            old(bus).bus_inv(),
        ensures
            final(bus).bus_inv(),
            mem_of(final(bus)) == mem_of(old(bus)).insert(opeland, registers.Y),
    {
        bus.write(opeland, registers.Y);
        assert(mem_of(bus) =~= mem_of(old(bus)).insert(opeland, registers.Y));
    }

    /// `TXS`: copies X to the stack pointer; no flag changes.
    pub fn TXS(registers: &mut Registers)
        ensures
            *final(registers) == (Registers { S: old(registers).X, ..*old(registers) }),
    {
        registers.S = registers.X;
    }

    /// `TAX`: copies A to X, setting negative and zero from it.
    pub fn TAX(registers: &mut Registers)
        ensures
            *final(registers) == load_x(*old(registers), old(registers).A),
    {
        registers.X = registers.A;
        registers.update_negative(registers.X);
        registers.update_zero(registers.X);
    }

    /// `TAY`: copies A to Y, setting negative and zero from it.
    pub fn TAY(registers: &mut Registers)
        ensures
            *final(registers) == load_y(*old(registers), old(registers).A),
    {
        registers.Y = registers.A;
        registers.update_negative(registers.Y);
        registers.update_zero(registers.Y);
    }

    /// `TXA`: copies X to A, setting negative and zero from it.
    pub fn TXA(registers: &mut Registers)
        ensures
            *final(registers) == load_a(*old(registers), old(registers).X),
    {
        registers.A = registers.X;
        registers.update_negative(registers.A);
        registers.update_zero(registers.A);
    }

    /// `TYA`: copies Y to A, setting negative and zero from it.
    pub fn TYA(registers: &mut Registers)
        ensures
            *final(registers) == load_a(*old(registers), old(registers).Y),
    {
        registers.A = registers.Y;
        registers.update_negative(registers.A);
        registers.update_zero(registers.A);
    }

    /// `TSX`: copies S to X, setting negative and zero from it.
    pub fn TSX(registers: &mut Registers)
        ensures
            *final(registers) == load_x(*old(registers), old(registers).S),
    {
        registers.X = registers.S;
        registers.update_negative(registers.X);
        registers.update_zero(registers.X);
    }

    /// `INX`: adds one to X, wrapping, and sets negative and zero
    /// from the result.
    pub fn INX(registers: &mut Registers)
        ensures
            *final(registers) == load_x(*old(registers), wrap8(old(registers).X + 1)),
    {
        registers.X = registers.X.wrapping_add(1);
        registers.update_negative(registers.X);
        registers.update_zero(registers.X);
    }

    /// `INY`: adds one to Y, wrapping, and sets negative and zero
    /// from the result.
    pub fn INY(registers: &mut Registers)
        ensures
            *final(registers) == load_y(*old(registers), wrap8(old(registers).Y + 1)),
    {
        registers.Y = registers.Y.wrapping_add(1);
        registers.update_negative(registers.Y);
        registers.update_zero(registers.Y);
    }

    /// `DEX`: subtracts one from X, wrapping, and sets negative and zero
    /// from the result.
    pub fn DEX(registers: &mut Registers)
        ensures
            *final(registers) == load_x(*old(registers), wrap8(old(registers).X - 1)),
    {
        registers.X = registers.X.wrapping_sub(1);
        registers.update_negative(registers.X);
        registers.update_zero(registers.X);
    }

    /// `DEY`: subtracts one from Y, wrapping, and sets negative and zero
    /// from the result.
    pub fn DEY(registers: &mut Registers)
        ensures
            *final(registers) == load_y(*old(registers), wrap8(old(registers).Y - 1)),
    {
        registers.Y = registers.Y.wrapping_sub(1);
        registers.update_negative(registers.Y);
        registers.update_zero(registers.Y);
    }

    /// Sets the flags from comparing `reg` with `v`; no register changes.
    fn compare(registers: &mut Registers, reg: u8, v: u8)
        ensures
            *final(registers) == (Registers { P: compared(old(registers).P, reg, v), ..*old(registers) }),
    {
        let diff = reg.wrapping_sub(v);
        registers.update_negative(diff);
        registers.update_zero(diff);
        registers.P.carry = reg >= v;
    }

    /// `CMP` from memory: compares A with the byte at `opeland`.
    pub fn CMP<T: CpuBus>(registers: &mut Registers, bus: &mut T, opeland: u16)
        requires
            old(bus).bus_inv(),
        ensures
            *final(registers) == (Registers {
                P: compared(old(registers).P, old(registers).A, old(bus).peek(opeland)),
                ..*old(registers)
            }),
            *final(bus) == *old(bus),
    {
        let v = bus.read(opeland);
        let reg = registers.A;
        Calculator::compare(registers, reg, v);
    }

    /// `CMP` immediate: compares A with the low byte of `opeland`.
    pub fn CMP_immediate(registers: &mut Registers, opeland: u16)
        ensures
            *final(registers) == (Registers {
                P: compared(old(registers).P, old(registers).A, opeland as u8),
                ..*old(registers)
            }),
    {
        let reg = registers.A;
        Calculator::compare(registers, reg, opeland as u8);
    }

    /// `CPX` from memory: compares X with the byte at `opeland`.
    pub fn CPX<T: CpuBus>(registers: &mut Registers, bus: &mut T, opeland: u16)
        requires
            old(bus).bus_inv(),
        ensures
            *final(registers) == (Registers {
                P: compared(old(registers).P, old(registers).X, old(bus).peek(opeland)),
                ..*old(registers)
            }),
            *final(bus) == *old(bus),
    {
        let v = bus.read(opeland);
        let reg = registers.X;
        Calculator::compare(registers, reg, v);
    }

    /// `CPX` immediate: compares X with the low byte of `opeland`.
    pub fn CPX_immediate(registers: &mut Registers, opeland: u16)
        ensures
            *final(registers) == (Registers {
                P: compared(old(registers).P, old(registers).X, opeland as u8),
                ..*old(registers)
            }),
    {
        let reg = registers.X;
        Calculator::compare(registers, reg, opeland as u8);
    }

    /// `CPY` from memory: compares Y with the byte at `opeland`.
    pub fn CPY<T: CpuBus>(registers: &mut Registers, bus: &mut T, opeland: u16)
        requires
            old(bus).bus_inv(),
        ensures
            *final(registers) == (Registers {
                P: compared(old(registers).P, old(registers).Y, old(bus).peek(opeland)),
                ..*old(registers)
            }),
            *final(bus) == *old(bus),
    {
        let v = bus.read(opeland);
        let reg = registers.Y;
        Calculator::compare(registers, reg, v);
    }

    /// `CPY` immediate: compares Y with the low byte of `opeland`.
    pub fn CPY_immediate(registers: &mut Registers, opeland: u16)
        ensures
            *final(registers) == (Registers {
                P: compared(old(registers).P, old(registers).Y, opeland as u8),
                ..*old(registers)
            }),
    {
        let reg = registers.Y;
        Calculator::compare(registers, reg, opeland as u8);
    }

    /// `BNE`: jumps to `opeland` when zero is clear.
    pub fn BNE(registers: &mut Registers, opeland: u16)
        ensures
            *final(registers) == branch(*old(registers), !old(registers).P.zero, opeland),
    {
        if !registers.P.zero {
            registers.PC = opeland;
        }
    }

    /// `BEQ`: jumps to `opeland` when zero is set.
    pub fn BEQ(registers: &mut Registers, opeland: u16)
        ensures
            *final(registers) == branch(*old(registers), old(registers).P.zero, opeland),
    {
        if registers.P.zero {
            registers.PC = opeland;
        }
    }

    /// `BPL`: jumps to `opeland` when negative is clear.
    pub fn BPL(registers: &mut Registers, opeland: u16)
        ensures
            *final(registers) == branch(*old(registers), !old(registers).P.negative, opeland),
    {
        if !registers.P.negative {
            registers.PC = opeland;
        }
    }

    /// `BMI`: jumps to `opeland` when negative is set.
    pub fn BMI(registers: &mut Registers, opeland: u16)
        ensures
            *final(registers) == branch(*old(registers), old(registers).P.negative, opeland),
    {
        if registers.P.negative {
            registers.PC = opeland;
        }
    }

    /// `BCC`: jumps to `opeland` when carry is clear.
    pub fn BCC(registers: &mut Registers, opeland: u16)
        ensures
            *final(registers) == branch(*old(registers), !old(registers).P.carry, opeland),
    {
        if !registers.P.carry {
            registers.PC = opeland;
        }
    }

    /// `BCS`: jumps to `opeland` when carry is set.
    pub fn BCS(registers: &mut Registers, opeland: u16)
        ensures
            *final(registers) == branch(*old(registers), old(registers).P.carry, opeland),
    {
        if registers.P.carry {
            registers.PC = opeland;
        }
    }

    /// `BVC`: jumps to `opeland` when overflow is clear.
    pub fn BVC(registers: &mut Registers, opeland: u16)
        ensures
            *final(registers) == branch(*old(registers), !old(registers).P.overflow, opeland),
    {
        if !registers.P.overflow {
            registers.PC = opeland;
        }
    }

    /// `BVS`: jumps to `opeland` when overflow is set.
    pub fn BVS(registers: &mut Registers, opeland: u16)
        ensures
            *final(registers) == branch(*old(registers), old(registers).P.overflow, opeland),
    {
        if registers.P.overflow {
            registers.PC = opeland;
        }
    }

    /// `JMP`: sets `PC` to `opeland`.
    pub fn JMP(registers: &mut Registers, opeland: u16)
        ensures
            *final(registers) == (Registers { PC: opeland, ..*old(registers) }),
    {
        registers.PC = opeland;
    }

    /// `JSR`: pushes `PC - 1`, high byte first, and sets `PC` to `opeland`.
    pub fn JSR<T: CpuBus>(registers: &mut Registers, bus: &mut T, opeland: u16)
        requires
            old(bus).bus_inv(),
        ensures
            final(bus).bus_inv(),
            (*final(registers), mem_of(final(bus))) == call(*old(registers), mem_of(old(bus)), opeland),
    {
        let pc = registers.PC.wrapping_sub(1);
        Calculator::push((pc / 0x100) as u8, registers, bus);
        Calculator::push((pc % 0x100) as u8, registers, bus);
        registers.PC = opeland;
        assert(mem_of(bus) =~= call(*old(registers), mem_of(old(bus)), opeland).1);
    }

    /// `RTS`: pulls the address that `JSR` pushed and sets `PC` one past it.
    pub fn RTS<T: CpuBus>(registers: &mut Registers, bus: &mut T)
        requires
            old(bus).bus_inv(),
        ensures
            *final(registers) == ret(*old(registers), mem_of(old(bus))),
            *final(bus) == *old(bus),
    {
        let lo = Calculator::pull(registers, bus);
        let hi = Calculator::pull(registers, bus);
        registers.PC = ((hi as u16) * 0x100 + (lo as u16)).wrapping_add(1);
    }

    /// `SEI`: sets the interrupt-disable flag; nothing else changes.
    pub fn SEI(registers: &mut Registers)
        ensures
            *final(registers) == (Registers { P: Status { interrupt: true, ..old(registers).P }, ..*old(registers) }),
    {
        registers.P.interrupt = true;
    }

    /// `CLI`: clears the interrupt-disable flag; nothing else changes.
    pub fn CLI(registers: &mut Registers)
        ensures
            *final(registers) == (Registers { P: Status { interrupt: false, ..old(registers).P }, ..*old(registers) }),
    {
        registers.P.interrupt = false;
    }

    /// `SED`: sets the decimal flag; nothing else changes.
    pub fn SED(registers: &mut Registers)
        ensures
            *final(registers) == (Registers { P: Status { decimal: true, ..old(registers).P }, ..*old(registers) }),
    {
        registers.P.decimal = true;
    }

    /// `CLD`: clears the decimal flag; nothing else changes.
    pub fn CLD(registers: &mut Registers)
        ensures
            *final(registers) == (Registers { P: Status { decimal: false, ..old(registers).P }, ..*old(registers) }),
    {
        registers.P.decimal = false;
    }

    /// `SEC`: sets the carry flag; nothing else changes.
    pub fn SEC(registers: &mut Registers)
        ensures
            *final(registers) == (Registers { P: Status { carry: true, ..old(registers).P }, ..*old(registers) }),
    {
        registers.P.carry = true;
    }

    /// `CLC`: clears the carry flag; nothing else changes.
    pub fn CLC(registers: &mut Registers)
        ensures
            *final(registers) == (Registers { P: Status { carry: false, ..old(registers).P }, ..*old(registers) }),
    {
        registers.P.carry = false;
    }

    /// `CLV`: clears the overflow flag; nothing else changes.
    pub fn CLV(registers: &mut Registers)
        ensures
            *final(registers) == (Registers { P: Status { overflow: false, ..old(registers).P }, ..*old(registers) }),
    {
        registers.P.overflow = false;
    }

    /// Writes `data` to the stack slot at `S`, then moves `S` down one.
    fn push<T: CpuBus>(data: u8, registers: &mut Registers, bus: &mut T)
        requires
            old(bus).bus_inv(),
        ensures
            final(bus).bus_inv(),
            mem_of(final(bus)) == mem_of(old(bus)).insert(stack_addr(old(registers).S), data),
            *final(registers) == (Registers { S: wrap8(old(registers).S - 1), ..*old(registers) }),
    {
        let addr = 0x100 + registers.S as u16;
        bus.write(addr, data);
        registers.S = registers.S.wrapping_sub(1);
        assert(mem_of(bus) =~= mem_of(old(bus)).insert(stack_addr(old(registers).S), data));
    }

    /// Moves `S` up one, then reads the stack slot it designates.
    fn pull<T: CpuBus>(registers: &mut Registers, bus: &mut T) -> (r: u8)
        requires
            old(bus).bus_inv(),
        ensures
            r == old(bus).peek(stack_addr(wrap8(old(registers).S + 1))),
            *final(registers) == (Registers { S: wrap8(old(registers).S + 1), ..*old(registers) }),
            *final(bus) == *old(bus),
    {
        registers.S = registers.S.wrapping_add(1);
        bus.read(0x100 + registers.S as u16)
    }
}

} // verus!
