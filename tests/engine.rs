use nes::{
    AddressingMode, Calculator, Command, Controller, CpuBus, ExecError, Opecode, Ram, Registers,
    Status,
};

fn bus_with(program: &[(u16, u8)]) -> Ram {
    let mut bus = Ram::new(0x10000);
    for &(addr, byte) in program {
        CpuBus::write(&mut bus, addr, byte);
    }
    bus
}

#[test]
fn flags_follow_bit_seven_and_zero() {
    let mut registers = Registers::new();
    for &(v, negative, zero) in &[(0x00u8, false, true), (0x7F, false, false), (0x80, true, false), (0xFF, true, false)] {
        registers.update_negative(v);
        registers.update_zero(v);
        assert_eq!(registers.P.negative, negative);
        assert_eq!(registers.P.zero, zero);
    }
}

#[test]
fn update_negative_leaves_other_flags() {
    let mut registers = Registers::new();
    registers.P.carry = true;
    registers.P.zero = true;
    registers.update_negative(0x80);
    assert!(registers.P.negative);
    assert!(registers.P.carry);
    assert!(registers.P.zero);
    assert!(registers.P.interrupt);
}

#[test]
fn inx_wraps_to_zero() {
    let mut registers = Registers::new();
    registers.X = 0xFF;
    Calculator::INX(&mut registers);
    assert_eq!(registers.X, 0x00);
    assert_eq!(registers.P.zero, true);
    assert_eq!(registers.P.negative, false);
}

#[test]
fn iny_and_dey_wrap() {
    let mut registers = Registers::new();
    registers.Y = 0xFF;
    Calculator::INY(&mut registers);
    assert_eq!(registers.Y, 0x00);
    assert!(registers.P.zero);
    Calculator::DEY(&mut registers);
    assert_eq!(registers.Y, 0xFF);
    assert!(registers.P.negative);
    assert!(!registers.P.zero);
}

#[test]
fn compare_leaves_register_alone() {
    let mut registers = Registers::new();
    registers.A = 0x40;
    Calculator::CMP_immediate(&mut registers, 0x41);
    assert_eq!(registers.A, 0x40);
    assert!(!registers.P.carry);
    assert!(!registers.P.zero);
    assert!(registers.P.negative);

    registers.Y = 0x05;
    Calculator::CPY_immediate(&mut registers, 0x05);
    assert_eq!(registers.Y, 0x05);
    assert!(registers.P.carry);
    assert!(registers.P.zero);
    assert!(!registers.P.negative);
}

#[test]
fn compare_negative_comes_from_the_difference() {
    let mut registers = Registers::new();
    registers.X = 0x90;
    Calculator::CPX_immediate(&mut registers, 0x01);
    assert!(registers.P.carry);
    assert!(registers.P.negative);
}

#[test]
fn branches_follow_their_flag() {
    let mut registers = Registers::new();
    registers.PC = 0x0200;
    registers.P.zero = true;
    Calculator::BNE(&mut registers, 0x0300);
    assert_eq!(registers.PC, 0x0200);
    Calculator::BEQ(&mut registers, 0x0300);
    assert_eq!(registers.PC, 0x0300);
    registers.P.carry = false;
    Calculator::BCS(&mut registers, 0x0400);
    assert_eq!(registers.PC, 0x0300);
    Calculator::BCC(&mut registers, 0x0400);
    assert_eq!(registers.PC, 0x0400);
}

#[test]
fn jsr_pushes_address_of_its_last_byte() {
    let mut registers = Registers::new();
    let mut bus = Ram::new(0x10000);
    registers.PC = 0x02;
    registers.S = 0x05;
    Calculator::JSR(&mut registers, &mut bus, 0x10);
    assert_eq!(bus.read(0x0105), (0x01u16 >> 8) as u8);
    assert_eq!(bus.read(0x0104), (0x01u16 & 0xFF) as u8);
}

#[test]
fn jsr_then_rts_restores_registers() {
    let mut registers = Registers::new();
    let mut bus = Ram::new(0x10000);
    registers.PC = 0x8003;
    registers.S = 0xFD;
    let before = registers;
    Calculator::JSR(&mut registers, &mut bus, 0x9000);
    assert_eq!(registers.PC, 0x9000);
    Calculator::RTS(&mut registers, &mut bus);
    assert_eq!(registers, before);
}

#[test]
fn push_wraps_stack_pointer() {
    let mut registers = Registers::new();
    let mut bus = Ram::new(0x10000);
    registers.PC = 0x1234;
    registers.S = 0x00;
    Calculator::JSR(&mut registers, &mut bus, 0x0000);
    assert_eq!(registers.S, 0xFE);
    assert_eq!(bus.read(0x0100), 0x12);
    assert_eq!(bus.read(0x01FF), 0x33);
}

#[test]
fn store_then_read_round_trip() {
    let mut registers = Registers::new();
    let mut bus = Ram::new(0x10000);
    registers.A = 0x11;
    registers.X = 0x22;
    registers.Y = 0x33;
    Calculator::STA(&registers, &mut bus, 0x0200);
    Calculator::STX(&registers, &mut bus, 0x0201);
    Calculator::STY(&registers, &mut bus, 0x0202);
    assert_eq!(bus.read(0x0200), 0x11);
    assert_eq!(bus.read(0x0201), 0x22);
    assert_eq!(bus.read(0x0202), 0x33);
    assert_eq!(bus.read(0x0203), 0x00);
}

#[test]
fn transfers_and_flag_instructions() {
    let mut registers = Registers::new();
    registers.X = 0x00;
    registers.P.zero = false;
    Calculator::TXS(&mut registers);
    assert_eq!(registers.S, 0x00);
    assert!(!registers.P.zero);

    registers.A = 0x80;
    Calculator::TAX(&mut registers);
    assert_eq!(registers.X, 0x80);
    assert!(registers.P.negative);
    Calculator::TAY(&mut registers);
    assert_eq!(registers.Y, 0x80);
    Calculator::TSX(&mut registers);
    assert_eq!(registers.X, 0x00);
    assert!(registers.P.zero);
    Calculator::TXA(&mut registers);
    assert_eq!(registers.A, 0x00);

    Calculator::SEC(&mut registers);
    assert!(registers.P.carry);
    Calculator::CLC(&mut registers);
    assert!(!registers.P.carry);
    Calculator::SED(&mut registers);
    assert!(registers.P.decimal);
    Calculator::CLI(&mut registers);
    assert!(!registers.P.interrupt);
    Calculator::SEI(&mut registers);
    assert!(registers.P.interrupt);
    registers.P.overflow = true;
    Calculator::CLV(&mut registers);
    assert!(!registers.P.overflow);
}

#[test]
fn load_from_memory_sets_flags() {
    let mut registers = Registers::new();
    let mut bus = bus_with(&[(0x0040, 0x00), (0x0041, 0xC0)]);
    Calculator::LDA(&mut registers, &mut bus, 0x0041);
    assert_eq!(registers.A, 0xC0);
    assert!(registers.P.negative);
    Calculator::LDY(&mut registers, &mut bus, 0x0040);
    assert_eq!(registers.Y, 0x00);
    assert!(registers.P.zero);
    Calculator::LDX_immediate(&mut registers, 0x0105);
    assert_eq!(registers.X, 0x05);
    assert!(!registers.P.zero);
    assert!(!registers.P.negative);
}

#[test]
fn every_byte_has_a_table_entry() {
    for op in 0u16..=0xFF {
        let entry = Opecode::lookup(op as u8);
        assert!(entry.cycle >= 2 && entry.cycle <= 8);
    }
}

#[test]
fn table_entries() {
    let lda = Opecode::lookup(0xA9);
    assert_eq!(lda.command, Command::LDA);
    assert_eq!(lda.mode, AddressingMode::Immediate);
    assert_eq!(lda.cycle, 2);

    let jmp = Opecode::lookup(0x6C);
    assert_eq!(jmp.command, Command::JMP);
    assert_eq!(jmp.mode, AddressingMode::IndirectAbsolute);
    assert_eq!(jmp.cycle, 5);

    let dcp = Opecode::lookup(0xDB);
    assert_eq!(dcp.command, Command::DCP);
    assert_eq!(dcp.mode, AddressingMode::AbsoluteY);
    assert_eq!(dcp.cycle, 7);

    let none = Opecode::lookup(0x0B);
    assert_eq!(none.command, Command::Undefined);
    assert_eq!(none.mode, AddressingMode::Implied);
    assert_eq!(none.cycle, 2);

    let isb = Opecode::lookup(0xFF);
    assert_eq!(isb.command, Command::ISB);
    assert_eq!(isb.mode, AddressingMode::AbsoluteX);
    assert_eq!(isb.cycle, 7);
}

#[test]
fn execute_runs_a_small_program() {
    // LDX #$03; DEX; BNE -3; STX $10; JMP $0000
    let mut bus = bus_with(&[
        (0x0000, 0xA2), (0x0001, 0x03),
        (0x0002, 0xCA),
        (0x0003, 0xD0), (0x0004, 0xFD),
        (0x0005, 0x86), (0x0006, 0x10),
    ]);
    let mut registers = Registers::new();
    let mut cycles: usize = 0;
    while registers.PC != 0x0007 {
        cycles += Calculator::execute(&mut registers, &mut bus).unwrap();
    }
    assert_eq!(registers.X, 0);
    assert!(registers.P.zero);
    assert_eq!(bus.read(0x0010), 0);
    assert_eq!(cycles, 2 + 3 * (2 + 2) + 3);
}

#[test]
fn execute_unimplemented_reports_byte_and_address() {
    let mut bus = bus_with(&[(0x0300, 0x69), (0x0301, 0x01)]);
    let mut registers = Registers::new();
    registers.PC = 0x0300;
    let before = registers;
    let r = Calculator::execute(&mut registers, &mut bus);
    assert_eq!(r, Err(ExecError::UnimplementedOpcode { opcode: 0x69, pc: 0x0300 }));
    assert_eq!(registers, before);

    let mut bus = bus_with(&[(0x0000, 0x0B)]);
    let mut registers = Registers::new();
    let r = Calculator::execute(&mut registers, &mut bus);
    assert_eq!(r, Err(ExecError::UnimplementedOpcode { opcode: 0x0B, pc: 0x0000 }));
}

#[test]
fn execute_jsr_and_rts() {
    let mut bus = bus_with(&[
        (0x8000, 0x20), (0x8001, 0x00), (0x8002, 0x90),
        (0x9000, 0x60),
    ]);
    let mut registers = Registers::new();
    registers.PC = 0x8000;
    assert_eq!(Calculator::execute(&mut registers, &mut bus), Ok(6));
    assert_eq!(registers.PC, 0x9000);
    assert_eq!(registers.S, 0xFB);
    assert_eq!(bus.read(0x01FD), 0x80);
    assert_eq!(bus.read(0x01FC), 0x02);
    assert_eq!(Calculator::execute(&mut registers, &mut bus), Ok(6));
    assert_eq!(registers.PC, 0x8003);
    assert_eq!(registers.S, 0xFD);
}

#[test]
fn indirect_jump_stays_in_its_page() {
    let mut bus = bus_with(&[
        (0x0000, 0x6C), (0x0001, 0xFF), (0x0002, 0x02),
        (0x02FF, 0x34), (0x0200, 0x12), (0x0300, 0x56),
    ]);
    let mut registers = Registers::new();
    assert_eq!(Calculator::execute(&mut registers, &mut bus), Ok(5));
    assert_eq!(registers.PC, 0x1234);
}

#[test]
fn zero_page_indexed_wraps_in_page_zero() {
    let mut bus = bus_with(&[(0x0000, 0xB5), (0x0001, 0xF0), (0x0010, 0x77), (0x0110, 0x99)]);
    let mut registers = Registers::new();
    registers.X = 0x20;
    assert_eq!(Calculator::execute(&mut registers, &mut bus), Ok(4));
    assert_eq!(registers.A, 0x77);
    assert_eq!(registers.PC, 0x0002);
}

#[test]
fn operand_resolution_by_mode() {
    let bus = bus_with(&[
        (0x0000, 0xFE), (0x0001, 0x12),
        (0x00FE, 0x00), (0x00FF, 0x40),
        (0x000E, 0x78), (0x000F, 0x56),
        (0x0012, 0x10), (0x0013, 0x20),
        (0x0022, 0xCD), (0x0023, 0xAB),
    ]);
    let mut registers = Registers::new();
    registers.X = 0x10;
    registers.Y = 0x05;

    let cases = [
        (AddressingMode::Implied, 0x0000u16, 0x0000u16),
        (AddressingMode::Accumulator, 0x0000, 0x0000),
        (AddressingMode::Immediate, 0x00FE, 0x0001),
        (AddressingMode::ZeroPage, 0x00FE, 0x0001),
        (AddressingMode::ZeroPageX, 0x000E, 0x0001),
        (AddressingMode::ZeroPageY, 0x0003, 0x0001),
        (AddressingMode::Relative, 0xFFFF, 0x0001),
        (AddressingMode::Absolute, 0x12FE, 0x0002),
        (AddressingMode::AbsoluteX, 0x130E, 0x0002),
        (AddressingMode::AbsoluteY, 0x1303, 0x0002),
        (AddressingMode::PreIndexedIndirect, 0x5678, 0x0001),
        (AddressingMode::PostIndexedIndirect, 0x4005, 0x0001),
    ];
    for &(mode, operand, pc) in cases.iter() {
        let mut r = registers;
        assert_eq!(Controller::fetch_opeland(&mut r, &bus, mode), operand);
        assert_eq!(r.PC, pc);
        assert_eq!(r.X, registers.X);
    }

    registers.X = 0x14;
    let mut r = registers;
    assert_eq!(Controller::fetch_opeland(&mut r, &bus, AddressingMode::PreIndexedIndirect), 0x2010);
}

#[test]
fn relative_offsets_go_both_ways() {
    let bus = bus_with(&[(0x0100, 0x10), (0x0200, 0x80)]);
    let mut registers = Registers::new();
    registers.PC = 0x0100;
    assert_eq!(Controller::fetch_opeland(&mut registers, &bus, AddressingMode::Relative), 0x0111);
    registers.PC = 0x0200;
    assert_eq!(Controller::fetch_opeland(&mut registers, &bus, AddressingMode::Relative), 0x0181);
}

#[test]
fn absolute_indexed_wraps_address_space() {
    let bus = bus_with(&[(0x0000, 0xFF), (0x0001, 0xFF)]);
    let mut registers = Registers::new();
    registers.Y = 0x02;
    assert_eq!(Controller::fetch_opeland(&mut registers, &bus, AddressingMode::AbsoluteY), 0x0001);
}

#[test]
fn status_packs_and_unpacks() {
    let p = Status::new();
    assert_eq!(p.to_u8(), 0x34);
    let q = Status::from_u8(0xC3);
    assert!(q.negative && q.overflow && q.zero && q.carry);
    assert!(!q.break_mode && !q.decimal && !q.interrupt);
    assert_eq!(q.to_u8(), 0xE3);
    assert_eq!(Status::from_u8(p.to_u8()), p);
}

#[test]
fn power_on_registers() {
    let registers = Registers::new();
    assert_eq!(registers.A, 0);
    assert_eq!(registers.X, 0);
    assert_eq!(registers.Y, 0);
    assert_eq!(registers.S, 0xFD);
    assert_eq!(registers.PC, 0);
    assert!(registers.P.interrupt);
}

#[test]
fn undocumented_nops_skip_their_operand_bytes() {
    for &(op, len, cycles) in &[
        (0x80u8, 2u16, 2usize), (0xE2, 2, 2),
        (0x04, 2, 3), (0x14, 2, 4),
        (0x0C, 3, 4), (0x1C, 3, 4),
        (0xEA, 1, 2), (0x1A, 1, 2),
    ] {
        let mut bus = bus_with(&[(0x0400, op), (0x0401, 0x10), (0x0402, 0x20)]);
        let mut registers = Registers::new();
        registers.PC = 0x0400;
        let before = registers;
        assert_eq!(Calculator::execute(&mut registers, &mut bus), Ok(cycles));
        assert_eq!(registers.PC, 0x0400 + len);
        assert_eq!(Registers { PC: before.PC, ..registers }, before);
    }
}

#[test]
fn jam_opcodes_are_reported() {
    for &op in &[0x02u8, 0x12, 0x22, 0x32, 0x42, 0x52, 0x62, 0x72, 0x92, 0xB2, 0xD2, 0xF2] {
        assert_eq!(Opecode::lookup(op).command, Command::JAM);
        let mut bus = bus_with(&[(0x0010, op)]);
        let mut registers = Registers::new();
        registers.PC = 0x0010;
        let before = registers;
        let r = Calculator::execute(&mut registers, &mut bus);
        assert_eq!(r, Err(ExecError::UnimplementedOpcode { opcode: op, pc: 0x0010 }));
        assert_eq!(registers, before);
    }
}
