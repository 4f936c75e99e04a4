#![allow(non_snake_case)]

use nes::{Calculator, CpuBus, Ram, Registers};

struct PatternArgs {
    addr: u16,
    opeland: u8,
    x: u8,
    negative: bool,
    zero: bool,
    carry: bool,
}

#[test]
fn BPL_is_true_negative_test() {
    let mut registers = Registers::new();
    registers.P.negative = true;
    registers.PC = 0x00;

    Calculator::BPL(&mut registers, 0xCB);
    assert_eq!(registers.PC, 0x00);
}

#[test]
fn BPL_is_false_negative_test() {
    let mut registers = Registers::new();
    registers.P.negative = false;

    Calculator::BPL(&mut registers, 0xCB);
    assert_eq!(registers.PC, 0xCB);
}

#[test]
fn CLD_test() {
    let mut registers = Registers::new();
    registers.P.decimal = true;

    Calculator::CLD(&mut registers);
    assert_eq!(registers.P.decimal, false);
}

#[test]
fn CPX_test() {
    let mut registers = Registers::new();
    let mut bus = Ram::new(0x10000);

    let patterns = vec![
        PatternArgs { addr: 0x0010, x: 0x20, opeland: 0x30, negative: true, zero: false, carry: false },
        PatternArgs { addr: 0x0010, x: 0x20, opeland: 0x20, negative: false, zero: true, carry: true },
        PatternArgs { addr: 0x0010, x: 0x20, opeland: 0x10, negative: false, zero: false, carry: true },
    ];

    for args in patterns.iter() {
        let addr = args.addr;
        let opeland = args.opeland;
        CpuBus::write(&mut bus, addr, opeland);

        registers.X = args.x;
        Calculator::CPX(&mut registers, &mut bus, addr);

        assert_eq!(registers.P.negative, args.negative);
        assert_eq!(registers.P.zero, args.zero);
        assert_eq!(registers.P.carry, args.carry);
    }
}

#[test]
fn DEX_test() {
    let mut registers = Registers::new();
    let opeland = 0x20;
    registers.X = opeland + 1;

    Calculator::DEX(&mut registers);
    assert_eq!(registers.X, opeland);
    assert_eq!(registers.P.negative, false);
    assert_eq!(registers.P.zero, false);
}

#[test]
fn DEX_test_overflow() {
    let mut registers = Registers::new();
    registers.X = 0x00;

    Calculator::DEX(&mut registers);
    assert_eq!(registers.X, 0xFF);
    assert_eq!(registers.P.negative, true);
    assert_eq!(registers.P.zero, false);
}

#[test]
fn DEX_update_zero_test() {
    let mut registers = Registers::new();
    let opeland = 0x00;
    registers.X = opeland + 1;

    Calculator::DEX(&mut registers);
    assert_eq!(registers.X, opeland);
    assert_eq!(registers.P.negative, false);
    assert_eq!(registers.P.zero, true);
}

#[test]
fn DEX_update_negative_test() {
    let mut registers = Registers::new();
    let opeland = 0x90;
    registers.X = opeland + 1;

    Calculator::DEX(&mut registers);
    assert_eq!(registers.X, opeland);
    assert_eq!(registers.P.negative, true);
    assert_eq!(registers.P.zero, false);
}

#[test]
fn JSR_test() {
    let mut registers = Registers::new();
    let mut bus = Ram::new(0x10000);
    let opeland = 0x10;

    registers.PC = 0x02;
    registers.S = 0x05;

    Calculator::JSR(&mut registers, &mut bus, opeland);

    assert_eq!(registers.PC, opeland);
    assert_eq!(registers.S, 0x03);
}

#[test]
fn STX_test() {
    let mut registers = Registers::new();
    let mut bus = Ram::new(0x10000);
    let opeland = 0x90;

    registers.X = 0x89;
    Calculator::STX(&registers, &mut bus, opeland);

    let actual = bus.read(opeland as u16);
    assert_eq!(actual, registers.X);
}

#[test]
fn TYA_test() {
    let mut registers = Registers::new();
    let opeland = 0x10;
    registers.Y = opeland;

    Calculator::TYA(&mut registers);
    assert_eq!(registers.A, opeland);
    assert_eq!(registers.P.negative, false);
    assert_eq!(registers.P.zero, false);
}

#[test]
fn TYA_update_zero_test() {
    let mut registers = Registers::new();
    let opeland = 0x00;
    registers.Y = opeland;

    Calculator::TYA(&mut registers);
    assert_eq!(registers.A, opeland);
    assert_eq!(registers.P.negative, false);
    assert_eq!(registers.P.zero, true);
}

#[test]
fn TYA_update_negative_test() {
    let mut registers = Registers::new();
    let opeland = 0x90;
    registers.Y = opeland;

    Calculator::TYA(&mut registers);
    assert_eq!(registers.A, opeland);
    assert_eq!(registers.P.negative, true);
    assert_eq!(registers.P.zero, false);
}
