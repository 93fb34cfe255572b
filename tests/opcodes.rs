use nest::bus::Bus;
use nest::cpu::{Cpu6502, IRQ_PROGRAM_COUNTER};
use nest::flags::{Flags6502, FLAG_B, FLAG_C, FLAG_D, FLAG_I, FLAG_N, FLAG_U, FLAG_V, FLAG_Z};
use nest::ppu::Ppu2C02;

const START_PC: u16 = 0x0110;
const START_ADDR_ABS: u16 = 0x0080;

/// A bus whose processor sits at `START_PC`, decoding an Immediate
/// instruction, with `START_ADDR_ABS` as the resolved address.
fn setup() -> Bus {
    let mut bus = Bus::new(Cpu6502::new(), Ppu2C02::new());
    bus.cpu.opcode = 0x09;
    bus.cpu.pc = START_PC;
    bus.cpu.addr_abs = START_ADDR_ABS;
    bus
}

fn check_flag(status: Flags6502, flag: u8, expected: bool) {
    assert_eq!(status.bits & flag != 0, expected, "flag {:#04x} is not {}", flag, expected);
}

#[test]
#[allow(non_snake_case)]
fn branch_test() {
    let mut bus = setup();
    bus.cpu.addr_rel = 0x0010;

    bus.cpu.branch();

    assert_eq!(bus.cpu.pc, START_PC + 0x0010, "Branched to wrong address");
}

#[test]
#[allow(non_snake_case)]
fn opcodes_ADC_test() {
    let mut bus = setup();

    bus.cpu_write(START_ADDR_ABS, 10);
    bus.cpu.a = 30;

    bus.cpu.ADC(&bus.memory);

    let status = bus.cpu.status;

    assert_eq!(bus.cpu.a, 40, "Accumulator value incorrect after add");
    check_flag(status, FLAG_Z, false);
    check_flag(status, FLAG_C, false);
    check_flag(status, FLAG_V, false);
    check_flag(status, FLAG_N, false);
}

#[test]
#[allow(non_snake_case)]
fn ADC_carry_test() {
    let mut bus = setup();

    bus.cpu_write(START_ADDR_ABS, 1);
    bus.cpu.a = 0xFF;

    bus.cpu.ADC(&bus.memory);

    let status = bus.cpu.status;

    assert_eq!(bus.cpu.a, 0, "Accumulator value incorrect after add");

    check_flag(status, FLAG_Z, true);
    check_flag(status, FLAG_C, true);
    check_flag(status, FLAG_V, false);
    check_flag(status, FLAG_N, false);
}

#[test]
#[allow(non_snake_case)]
fn ADC_negative_test() {
    let mut bus = setup();

    bus.cpu_write(START_ADDR_ABS, 1);
    bus.cpu.a = 0x7F;

    bus.cpu.ADC(&bus.memory);

    let status = bus.cpu.status;

    assert_eq!(bus.cpu.a, 0x80, "Accumulator value incorrect after add");

    check_flag(status, FLAG_Z, false);
    check_flag(status, FLAG_C, false);
    check_flag(status, FLAG_V, true);
    check_flag(status, FLAG_N, true);
}

#[test]
#[allow(non_snake_case)]
fn opcodes_AND_test() {
    let mut bus = setup();

    bus.cpu_write(START_ADDR_ABS, 1);
    bus.cpu.a = 0x7F;

    bus.cpu.AND(&bus.memory);

    let status = bus.cpu.status;

    assert_eq!(bus.cpu.a, 0x01, "Accumulator value incorrect after and");
    check_flag(status, FLAG_Z, false);
    check_flag(status, FLAG_N, false);
}

#[test]
#[allow(non_snake_case)]
fn AND_zero_test() {
    let mut bus = setup();

    bus.cpu_write(START_ADDR_ABS, 0x80);
    bus.cpu.a = 0x7F;

    bus.cpu.AND(&bus.memory);

    let status = bus.cpu.status;

    assert_eq!(bus.cpu.a, 0x00, "Accumulator value incorrect after and");
    check_flag(status, FLAG_Z, true);
    check_flag(status, FLAG_N, false);
}

#[test]
#[allow(non_snake_case)]
fn AND_negative_test() {
    let mut bus = setup();

    bus.cpu_write(START_ADDR_ABS, 0x81);
    bus.cpu.a = 0xF0;

    bus.cpu.AND(&bus.memory);

    let status = bus.cpu.status;

    assert_eq!(bus.cpu.a, 0x80, "Accumulator value incorrect after and");
    check_flag(status, FLAG_Z, false);
    check_flag(status, FLAG_N, true);
}

#[test]
#[allow(non_snake_case)]
fn opcodes_ASL_test() {
    let mut bus = setup();

    bus.cpu_write(START_ADDR_ABS, 0x3F);
    bus.cpu.a = 0x3F;

    bus.cpu.ASL(&mut bus.memory);

    let status = bus.cpu.status;

    assert_eq!(bus.cpu.a, 0x3F, "Accumulator modified, despite addressing mode not implied");
    assert_eq!(bus.cpu_read(START_ADDR_ABS, false), 0x7E, "Read value incorrect after left shift");
    check_flag(status, FLAG_C, false);
    check_flag(status, FLAG_Z, false);
    check_flag(status, FLAG_N, false);
}

#[test]
#[allow(non_snake_case)]
fn ASL_immediate_test() {
    let mut bus = setup();

    bus.cpu.a = 0xFF;

    // instruction with implied addressing mode
    bus.cpu.opcode = 0x00;

    bus.cpu.ASL(&mut bus.memory);

    let status = bus.cpu.status;

    assert_eq!(bus.cpu.a, 0xFE, "Accumulator value incorrect after left shift");
    check_flag(status, FLAG_C, true);
    check_flag(status, FLAG_Z, false);
    check_flag(status, FLAG_N, true);
}

#[test]
#[allow(non_snake_case)]
fn ASL_zero_test() {
    let mut bus = setup();

    bus.cpu.a = 0x80;

    // instruction with implied addressing mode
    bus.cpu.opcode = 0x00;

    bus.cpu.ASL(&mut bus.memory);

    let status = bus.cpu.status;

    assert_eq!(bus.cpu.a, 0x00, "Accumulator value incorrect after left shift");
    check_flag(status, FLAG_C, true);
    check_flag(status, FLAG_Z, true);
    check_flag(status, FLAG_N, false);
}

#[test]
#[allow(non_snake_case)]
fn opcodes_BCC_test() {
    let mut bus = setup();
    bus.cpu.addr_rel = 0x0010;

    bus.cpu.status = Flags6502::carry();
    bus.cpu.BCC();
    assert_eq!(bus.cpu.pc, START_PC, "Branched, despite C flag being set");

    bus.cpu.status = Flags6502::empty();
    bus.cpu.BCC();
    assert_eq!(bus.cpu.pc, START_PC + 0x0010, "Did not branch, despite C flag being clear");
}

#[test]
#[allow(non_snake_case)]
fn opcodes_BCS_test() {
    let mut bus = setup();
    bus.cpu.addr_rel = 0x0010;

    bus.cpu.status = Flags6502::empty();
    bus.cpu.BCS();
    assert_eq!(bus.cpu.pc, START_PC, "Branched, despite C flag being clear");

    bus.cpu.status = Flags6502::carry();
    bus.cpu.BCS();
    assert_eq!(bus.cpu.pc, START_PC + 0x0010, "Did not branch, despite C flag being set");
}

#[test]
#[allow(non_snake_case)]
fn opcodes_BEQ_test() {
    let mut bus = setup();
    bus.cpu.addr_rel = 0x0010;

    bus.cpu.status = Flags6502::empty();
    bus.cpu.BEQ();
    assert_eq!(bus.cpu.pc, START_PC, "Branched, despite Z flag being clear");

    bus.cpu.status = Flags6502::zero();
    bus.cpu.BEQ();
    assert_eq!(bus.cpu.pc, START_PC + 0x0010, "Did not branch, despite Z flag being set");
}

#[test]
#[allow(non_snake_case)]
fn opcodes_BNE_test() {
    let mut bus = setup();
    bus.cpu.addr_rel = 0x0010;

    bus.cpu.status = Flags6502::zero();
    bus.cpu.BNE();
    assert_eq!(bus.cpu.pc, START_PC, "Branched, despite Z flag being set");

    bus.cpu.status = Flags6502::empty();
    bus.cpu.BNE();
    assert_eq!(bus.cpu.pc, START_PC + 0x0010, "Did not branch, despite Z flag being clear");
}

#[test]
#[allow(non_snake_case)]
fn opcodes_BPL_test() {
    let mut bus = setup();
    bus.cpu.addr_rel = 0x0010;

    bus.cpu.status = Flags6502::negative();
    bus.cpu.BPL();
    assert_eq!(bus.cpu.pc, START_PC, "Branched, despite N flag being set");

    bus.cpu.status = Flags6502::empty();
    bus.cpu.BPL();
    assert_eq!(bus.cpu.pc, START_PC + 0x0010, "Did not branch, despite N flag being clear");
}

#[test]
#[allow(non_snake_case)]
fn opcodes_BMI_test() {
    let mut bus = setup();
    bus.cpu.addr_rel = 0x0010;

    bus.cpu.status = Flags6502::empty();
    bus.cpu.BMI();
    assert_eq!(bus.cpu.pc, START_PC, "Branched, despite N flag being clear");

    bus.cpu.status = Flags6502::negative();
    bus.cpu.BMI();
    assert_eq!(bus.cpu.pc, START_PC + 0x0010, "Did not branch, despite N flag being set");
}

#[test]
#[allow(non_snake_case)]
fn opcodes_BVC_test() {
    let mut bus = setup();
    bus.cpu.addr_rel = 0x0010;

    bus.cpu.status = Flags6502::overflow();
    bus.cpu.BVC();
    assert_eq!(bus.cpu.pc, START_PC, "Branched, despite V flag being set");

    bus.cpu.status = Flags6502::empty();
    bus.cpu.BVC();
    assert_eq!(bus.cpu.pc, START_PC + 0x0010, "Did not branch, despite V flag being clear");
}

#[test]
#[allow(non_snake_case)]
fn opcodes_BVS_test() {
    let mut bus = setup();
    bus.cpu.addr_rel = 0x0010;

    bus.cpu.status = Flags6502::empty();
    bus.cpu.BVS();
    assert_eq!(bus.cpu.pc, START_PC, "Branched, despite V flag being clear");

    bus.cpu.status = Flags6502::overflow();
    bus.cpu.BVS();
    assert_eq!(bus.cpu.pc, START_PC + 0x0010, "Did not branch, despite V flag being set");
}

#[test]
#[allow(non_snake_case)]
fn opcodes_BRK_test() {
    let mut bus = setup();
    bus.cpu.status = Flags6502::empty();

    bus.cpu.BRK(&mut bus.memory);

    assert_eq!(bus.cpu.pc, 0x0000, "New program counter incorrectly read");

    let stored_status = Flags6502::from_bits(bus.cpu.pop_stack(&bus.memory)).unwrap();
    check_flag(stored_status, FLAG_I, true);
    check_flag(stored_status, FLAG_B, true);
    check_flag(stored_status, FLAG_U, true);

    let old_pc = {
        let lo = bus.cpu.pop_stack(&bus.memory);
        let hi = bus.cpu.pop_stack(&bus.memory);
        (lo as u16) | ((hi as u16) << 8)
    };

    assert_eq!(old_pc, START_PC + 1, "Old program counter not read/saved correctly");

    let status = bus.cpu.status;
    check_flag(status, FLAG_I, true);
    check_flag(status, FLAG_B, false);
}

#[test]
#[allow(non_snake_case)]
fn opcodes_BIT_test() {
    let mut bus = setup();

    bus.cpu_write(START_ADDR_ABS, 0xF0);
    bus.cpu.a = 0x0F;

    bus.cpu.BIT(&bus.memory);

    let status = bus.cpu.status;

    check_flag(status, FLAG_Z, true);
    check_flag(status, FLAG_V, true);
    check_flag(status, FLAG_N, true);
}

#[test]
#[allow(non_snake_case)]
fn CLC_test() {
    let mut bus = setup();
    bus.cpu.set_flag(Flags6502::carry(), true);
    bus.cpu.CLC();
    assert!(!bus.cpu.get_flag(Flags6502::carry()), "C flag set, but should be cleared");
}

#[test]
#[allow(non_snake_case)]
fn CLD_test() {
    let mut bus = setup();
    bus.cpu.set_flag(Flags6502::decimal(), true);
    bus.cpu.CLD();
    assert!(!bus.cpu.get_flag(Flags6502::decimal()), "D flag set, but should be cleared");
}

#[test]
#[allow(non_snake_case)]
fn CLI_test() {
    let mut bus = setup();
    bus.cpu.set_flag(Flags6502::interrupt_disable(), true);
    bus.cpu.CLI();
    assert!(!bus.cpu.get_flag(Flags6502::interrupt_disable()), "I flag set, but should be cleared");
}

#[test]
#[allow(non_snake_case)]
fn CLV_test() {
    let mut bus = setup();
    bus.cpu.set_flag(Flags6502::overflow(), true);
    bus.cpu.CLV();
    assert!(!bus.cpu.get_flag(Flags6502::overflow()), "V flag set, but should be cleared");
}

#[test]
#[allow(non_snake_case)]
fn opcodes_CMP_test() {
    let mut bus = setup();

    bus.cpu_write(START_ADDR_ABS, 10);
    bus.cpu.a = 10;

    bus.cpu.CMP(&bus.memory);

    let status = bus.cpu.status;

    check_flag(status, FLAG_Z, true);
    check_flag(status, FLAG_C, true);
    check_flag(status, FLAG_N, false);
}

#[test]
#[allow(non_snake_case)]
fn CMP_negative_test() {
    let mut bus = setup();

    bus.cpu_write(START_ADDR_ABS, 30);
    bus.cpu.a = 10;

    bus.cpu.CMP(&bus.memory);

    let status = bus.cpu.status;

    check_flag(status, FLAG_Z, false);
    check_flag(status, FLAG_C, false);
    check_flag(status, FLAG_N, true);
}

#[test]
#[allow(non_snake_case)]
fn CPX_test() {
    let mut bus = setup();

    bus.cpu_write(START_ADDR_ABS, 10);
    bus.cpu.x = 10;

    bus.cpu.CPX(&bus.memory);

    let status = bus.cpu.status;

    check_flag(status, FLAG_Z, true);
    check_flag(status, FLAG_C, true);
    check_flag(status, FLAG_N, false);
}

#[test]
#[allow(non_snake_case)]
fn CPX_negative_test() {
    let mut bus = setup();

    bus.cpu_write(START_ADDR_ABS, 30);
    bus.cpu.x = 10;

    bus.cpu.CPX(&bus.memory);

    let status = bus.cpu.status;

    check_flag(status, FLAG_Z, false);
    check_flag(status, FLAG_C, false);
    check_flag(status, FLAG_N, true);
}

#[test]
#[allow(non_snake_case)]
fn CPY_test() {
    let mut bus = setup();

    bus.cpu_write(START_ADDR_ABS, 10);
    bus.cpu.y = 10;

    bus.cpu.CPY(&bus.memory);

    let status = bus.cpu.status;

    check_flag(status, FLAG_Z, true);
    check_flag(status, FLAG_C, true);
    check_flag(status, FLAG_N, false);
}

#[test]
#[allow(non_snake_case)]
fn CPY_negative_test() {
    let mut bus = setup();

    bus.cpu_write(START_ADDR_ABS, 30);
    bus.cpu.y = 10;

    bus.cpu.CPY(&bus.memory);

    let status = bus.cpu.status;

    check_flag(status, FLAG_Z, false);
    check_flag(status, FLAG_C, false);
    check_flag(status, FLAG_N, true);
}

#[test]
#[allow(non_snake_case)]
fn DEC_test() {
    let mut bus = setup();

    bus.cpu_write(START_ADDR_ABS, 1);

    bus.cpu.DEC(&mut bus.memory);

    let status = bus.cpu.status;

    assert_eq!(bus.cpu_read(START_ADDR_ABS, false), 0, "Memory value not decremented correctly");
    check_flag(status, FLAG_Z, true);
    check_flag(status, FLAG_N, false);
}

#[test]
#[allow(non_snake_case)]
fn DEC_negative_test() {
    let mut bus = setup();

    bus.cpu_write(START_ADDR_ABS, 0);

    bus.cpu.DEC(&mut bus.memory);

    let status = bus.cpu.status;

    assert_eq!(bus.cpu_read(START_ADDR_ABS, false), 0xFF, "Memory value not decremented correctly");
    check_flag(status, FLAG_Z, false);
    check_flag(status, FLAG_N, true);
}

#[test]
#[allow(non_snake_case)]
fn DEX_test() {
    let mut bus = setup();

    bus.cpu.x = 1;

    bus.cpu.DEX();

    let status = bus.cpu.status;

    assert_eq!(bus.cpu.x, 0, "x register not decremented correctly");
    check_flag(status, FLAG_Z, true);
    check_flag(status, FLAG_N, false);
}

#[test]
#[allow(non_snake_case)]
fn DEX_negative_test() {
    let mut bus = setup();

    bus.cpu.x = 0;

    bus.cpu.DEX();

    let status = bus.cpu.status;

    assert_eq!(bus.cpu.x, 255, "x register not decremented correctly");
    check_flag(status, FLAG_Z, false);
    check_flag(status, FLAG_N, true);
}

#[test]
#[allow(non_snake_case)]
fn DEY_test() {
    let mut bus = setup();

    bus.cpu.y = 1;

    bus.cpu.DEY();

    let status = bus.cpu.status;

    assert_eq!(bus.cpu.y, 0, "y register not decremented correctly");
    check_flag(status, FLAG_Z, true);
    check_flag(status, FLAG_N, false);
}

#[test]
#[allow(non_snake_case)]
fn DEY_negative_test() {
    let mut bus = setup();

    bus.cpu.y = 0;

    bus.cpu.DEY();

    let status = bus.cpu.status;

    assert_eq!(bus.cpu.y, 255, "y register not decremented correctly");
    check_flag(status, FLAG_Z, false);
    check_flag(status, FLAG_N, true);
}

#[test]
#[allow(non_snake_case)]
fn EOR_test() {
    let mut bus = setup();

    bus.cpu_write(START_ADDR_ABS, 0xF0);
    bus.cpu.a = 0x0F;

    bus.cpu.EOR(&bus.memory);

    let status = bus.cpu.status;

    assert_eq!(bus.cpu.a, 0xFF, "Accumulator value incorrect after XOR");
    check_flag(status, FLAG_Z, false);
    check_flag(status, FLAG_N, true);
}

#[test]
#[allow(non_snake_case)]
fn EOR_zero_test() {
    let mut bus = setup();

    bus.cpu_write(START_ADDR_ABS, 0x0F);
    bus.cpu.a = 0x0F;

    bus.cpu.EOR(&bus.memory);

    let status = bus.cpu.status;

    assert_eq!(bus.cpu.a, 0x00, "Accumulator value incorrect after XOR");
    check_flag(status, FLAG_Z, true);
    check_flag(status, FLAG_N, false);
}

#[test]
#[allow(non_snake_case)]
fn INC_test() {
    let mut bus = setup();

    bus.cpu_write(START_ADDR_ABS, 255);

    bus.cpu.INC(&mut bus.memory);

    let status = bus.cpu.status;

    assert_eq!(bus.cpu_read(START_ADDR_ABS, false), 0, "Memory value not incremented correctly");
    check_flag(status, FLAG_Z, true);
    check_flag(status, FLAG_N, false);
}

#[test]
#[allow(non_snake_case)]
fn INC_negative_test() {
    let mut bus = setup();

    bus.cpu_write(START_ADDR_ABS, 0x7F);

    bus.cpu.INC(&mut bus.memory);

    let status = bus.cpu.status;

    assert_eq!(bus.cpu_read(START_ADDR_ABS, false), 0x80, "Memory value not incremented correctly");
    check_flag(status, FLAG_Z, false);
    check_flag(status, FLAG_N, true);
}

#[test]
#[allow(non_snake_case)]
fn INX_test() {
    let mut bus = setup();

    bus.cpu.x = 255;

    bus.cpu.INX();

    let status = bus.cpu.status;

    assert_eq!(bus.cpu.x, 0, "x register not incremented correctly");
    check_flag(status, FLAG_Z, true);
    check_flag(status, FLAG_N, false);
}

#[test]
#[allow(non_snake_case)]
fn INX_negative_test() {
    let mut bus = setup();

    bus.cpu.x = 0x7F;

    bus.cpu.INX();

    let status = bus.cpu.status;

    assert_eq!(bus.cpu.x, 0x80, "x register not incremented correctly");
    check_flag(status, FLAG_Z, false);
    check_flag(status, FLAG_N, true);
}

#[test]
#[allow(non_snake_case)]
fn INY_test() {
    let mut bus = setup();

    bus.cpu.y = 255;

    bus.cpu.INY();

    let status = bus.cpu.status;

    assert_eq!(bus.cpu.y, 0, "y register not incremented correctly");
    check_flag(status, FLAG_Z, true);
    check_flag(status, FLAG_N, false);
}

#[test]
#[allow(non_snake_case)]
fn INY_negative_test() {
    let mut bus = setup();

    bus.cpu.y = 0x7F;

    bus.cpu.INY();

    let status = bus.cpu.status;

    assert_eq!(bus.cpu.y, 0x80, "y register not incremented correctly");
    check_flag(status, FLAG_Z, false);
    check_flag(status, FLAG_N, true);
}

#[test]
#[allow(non_snake_case)]
fn JMP_test() {
    let mut bus = setup();

    bus.cpu.JMP();
    assert_eq!(bus.cpu.pc, START_ADDR_ABS, "Jump to incorrect address");
}

#[test]
#[allow(non_snake_case)]
fn JSR_test() {
    let mut bus = setup();

    bus.cpu.JSR(&mut bus.memory);
    assert_eq!(bus.cpu.pc, START_ADDR_ABS, "Jump to incorrect address");

    let old_addr = {
        let lo = bus.cpu.pop_stack(&bus.memory);
        let hi = bus.cpu.pop_stack(&bus.memory);
        (lo as u16) | ((hi as u16) << 8)
    };

    assert_eq!(old_addr, START_PC - 1, "Old address saved/read incorrectly");
}

#[test]
#[allow(non_snake_case)]
fn LDA_test() {
    let mut bus = setup();

    bus.cpu_write(START_ADDR_ABS, 0x80);
    bus.cpu.LDA(&bus.memory);

    let status = bus.cpu.status;

    assert_eq!(bus.cpu.a, 0x80, "data not loaded correctly");
    check_flag(status, FLAG_Z, false);
    check_flag(status, FLAG_N, true);
}

#[test]
#[allow(non_snake_case)]
fn LDA_zero_test() {
    let mut bus = setup();

    bus.cpu_write(START_ADDR_ABS, 0x00);
    bus.cpu.LDA(&bus.memory);

    let status = bus.cpu.status;

    assert_eq!(bus.cpu.a, 0x00, "data not loaded correctly");
    check_flag(status, FLAG_Z, true);
    check_flag(status, FLAG_N, false);
}

#[test]
#[allow(non_snake_case)]
fn LDX_test() {
    let mut bus = setup();

    bus.cpu_write(START_ADDR_ABS, 0x80);
    bus.cpu.LDX(&bus.memory);

    let status = bus.cpu.status;

    assert_eq!(bus.cpu.x, 0x80, "data not loaded correctly");
    check_flag(status, FLAG_Z, false);
    check_flag(status, FLAG_N, true);
}

#[test]
#[allow(non_snake_case)]
fn LDX_zero_test() {
    let mut bus = setup();

    bus.cpu_write(START_ADDR_ABS, 0x00);
    bus.cpu.LDX(&bus.memory);

    let status = bus.cpu.status;

    assert_eq!(bus.cpu.x, 0x00, "data not loaded correctly");
    check_flag(status, FLAG_Z, true);
    check_flag(status, FLAG_N, false);
}

#[test]
#[allow(non_snake_case)]
fn LDY_test() {
    let mut bus = setup();

    bus.cpu_write(START_ADDR_ABS, 0x80);
    bus.cpu.LDY(&bus.memory);

    let status = bus.cpu.status;

    assert_eq!(bus.cpu.y, 0x80, "data not loaded correctly");
    check_flag(status, FLAG_Z, false);
    check_flag(status, FLAG_N, true);
}

#[test]
#[allow(non_snake_case)]
fn LDY_zero_test() {
    let mut bus = setup();

    bus.cpu_write(START_ADDR_ABS, 0x00);
    bus.cpu.LDY(&bus.memory);

    let status = bus.cpu.status;

    assert_eq!(bus.cpu.y, 0x00, "data not loaded correctly");
    check_flag(status, FLAG_Z, true);
    check_flag(status, FLAG_N, false);
}

#[test]
#[allow(non_snake_case)]
fn LSR_test() {
    let mut bus = setup();

    bus.cpu_write(START_ADDR_ABS, 0x01);
    bus.cpu.a = 0x01;

    bus.cpu.LSR(&mut bus.memory);

    let status = bus.cpu.status;

    assert_eq!(bus.cpu.a, 0x01, "Accumulator modified, despite addressing mode not implied");
    assert_eq!(bus.cpu_read(START_ADDR_ABS, false), 0x00, "Read value incorrect after right shift");
    check_flag(status, FLAG_C, true);
    check_flag(status, FLAG_Z, true);
    check_flag(status, FLAG_N, false);
}

#[test]
#[allow(non_snake_case)]
fn LSR_immediate_test() {
    let mut bus = setup();

    bus.cpu.a = 0xFE;

    // instruction with implied addressing mode
    bus.cpu.opcode = 0x00;

    bus.cpu.LSR(&mut bus.memory);

    let status = bus.cpu.status;

    assert_eq!(bus.cpu.a, 0x7F, "Accumulator value incorrect after right shift");
    check_flag(status, FLAG_C, false);
    check_flag(status, FLAG_Z, false);
    check_flag(status, FLAG_N, false);
}

#[test]
#[allow(non_snake_case)]
fn NOP_test() {
    let mut bus = setup();

    bus.cpu.NOP();
    // huh
}

#[test]
#[allow(non_snake_case)]
fn ORA_test() {
    let mut bus = setup();

    bus.cpu_write(START_ADDR_ABS, 0xF0);
    bus.cpu.a = 0x0F;

    bus.cpu.ORA(&bus.memory);

    let status = bus.cpu.status;

    assert_eq!(bus.cpu.a, 0xFF, "Accumulator value incorrect after OR");
    check_flag(status, FLAG_Z, false);
    check_flag(status, FLAG_N, true);
}

#[test]
#[allow(non_snake_case)]
fn ORA_zero_test() {
    let mut bus = setup();

    bus.cpu_write(START_ADDR_ABS, 0x00);
    bus.cpu.a = 0x00;

    bus.cpu.ORA(&bus.memory);

    let status = bus.cpu.status;

    assert_eq!(bus.cpu.a, 0x00, "Accumulator value incorrect after OR");
    check_flag(status, FLAG_Z, true);
    check_flag(status, FLAG_N, false);
}

#[test]
#[allow(non_snake_case)]
fn PHA_test() {
    let mut bus = setup();
    bus.cpu.a = 10;
    bus.cpu.PHA(&mut bus.memory);

    assert_eq!(bus.cpu.pop_stack(&bus.memory), 10, "Accumulator not pushed to stack");
}

#[test]
#[allow(non_snake_case)]
fn PHP_test() {
    let mut bus = setup();
    bus.cpu.status = Flags6502::from_bits(0x0F).unwrap();
    bus.cpu.PHP(&mut bus.memory);
    let status = bus.cpu.pop_stack(&bus.memory);
    assert_ne!(status, 0x0F, "B and U flag not pushed to stack");
    assert_eq!(status, 0x3F, "Status not pushed to stack");
}

#[test]
#[allow(non_snake_case)]
fn PLA_test() {
    let mut bus = setup();
    bus.cpu.push_stack(&mut bus.memory, 0xF0);
    bus.cpu.PLA(&bus.memory);

    let status = bus.cpu.status;
    assert_eq!(bus.cpu.a, 0xF0, "Accumulator not popped from stack");
    check_flag(status, FLAG_Z, false);
    check_flag(status, FLAG_N, true);
}

#[test]
#[allow(non_snake_case)]
fn PLA_zero_test() {
    let mut bus = setup();
    bus.cpu.push_stack(&mut bus.memory, 0x00);
    bus.cpu.PLA(&bus.memory);

    let status = bus.cpu.status;
    assert_eq!(bus.cpu.a, 0x00, "Accumulator not popped from stack");
    check_flag(status, FLAG_Z, true);
    check_flag(status, FLAG_N, false);
}

#[test]
#[allow(non_snake_case)]
fn PLP_test() {
    let mut bus = setup();
    bus.cpu.push_stack(&mut bus.memory, 0x0F);
    bus.cpu.PLP(&bus.memory);

    let status = bus.cpu.status.bits();
    assert_ne!(status, 0x0F, "Unused flag not pulled from stack");
    assert_eq!(status, 0x2F, "Status not pulled from stack");
}

#[test]
#[allow(non_snake_case)]
fn ROL_test() {
    let mut bus = setup();

    bus.cpu_write(START_ADDR_ABS, 0x80);
    bus.cpu.a = 0x80;

    bus.cpu.ROL(&mut bus.memory);

    let status = bus.cpu.status;

    assert_eq!(bus.cpu.a, 0x80, "Accumulator modified, despite addressing mode not implied");
    assert_eq!(bus.cpu_read(START_ADDR_ABS, false), 0x01, "Read value incorrect after left bit rotate");
    check_flag(status, FLAG_C, true);
    check_flag(status, FLAG_Z, false);
    check_flag(status, FLAG_N, false);
}

#[test]
#[allow(non_snake_case)]
fn ROL_immediate_test() {
    let mut bus = setup();

    bus.cpu.a = 0x40;

    // instruction with implied addressing mode
    bus.cpu.opcode = 0x00;

    bus.cpu.ROL(&mut bus.memory);

    let status = bus.cpu.status;

    assert_eq!(bus.cpu.a, 0x80, "Accumulator value incorrect after left bit rotate");
    check_flag(status, FLAG_C, false);
    check_flag(status, FLAG_Z, false);
    check_flag(status, FLAG_N, true);
}

#[test]
#[allow(non_snake_case)]
fn ROL_zero_test() {
    let mut bus = setup();

    bus.cpu.a = 0x00;

    // instruction with implied addressing mode
    bus.cpu.opcode = 0x00;

    bus.cpu.ROL(&mut bus.memory);

    let status = bus.cpu.status;

    assert_eq!(bus.cpu.a, 0x00, "Accumulator value incorrect after left bit rotate");
    check_flag(status, FLAG_C, false);
    check_flag(status, FLAG_Z, true);
    check_flag(status, FLAG_N, false);
}

#[test]
#[allow(non_snake_case)]
fn ROR_test() {
    let mut bus = setup();

    bus.cpu_write(START_ADDR_ABS, 0x01);
    bus.cpu.a = 0x01;

    bus.cpu.ROR(&mut bus.memory);

    let status = bus.cpu.status;

    assert_eq!(bus.cpu.a, 0x01, "Accumulator modified, despite addressing mode not implied");
    assert_eq!(bus.cpu_read(START_ADDR_ABS, false), 0x80, "Read value incorrect after right bit rotate");
    check_flag(status, FLAG_C, true);
    check_flag(status, FLAG_Z, false);
    check_flag(status, FLAG_N, true);
}

#[test]
#[allow(non_snake_case)]
fn ROR_immediate_test() {
    let mut bus = setup();

    bus.cpu.a = 0x40;

    // instruction with implied addressing mode
    bus.cpu.opcode = 0x00;

    bus.cpu.ROR(&mut bus.memory);

    let status = bus.cpu.status;

    assert_eq!(bus.cpu.a, 0x20, "Accumulator value incorrect after right bit rotate");
    check_flag(status, FLAG_C, false);
    check_flag(status, FLAG_Z, false);
    check_flag(status, FLAG_N, false);
}

#[test]
#[allow(non_snake_case)]
fn ROR_zero_test() {
    let mut bus = setup();

    bus.cpu.a = 0x00;

    // instruction with implied addressing mode
    bus.cpu.opcode = 0x00;

    bus.cpu.ROR(&mut bus.memory);

    let status = bus.cpu.status;

    assert_eq!(bus.cpu.a, 0x00, "Accumulator value incorrect after right bit rotate");
    check_flag(status, FLAG_C, false);
    check_flag(status, FLAG_Z, true);
    check_flag(status, FLAG_N, false);
}

#[test]
#[allow(non_snake_case)]
fn RTI_test() {
    let mut bus = setup();
    bus.cpu.status = Flags6502::empty();

    assert_eq!(bus.cpu.pc, START_PC);

    bus.cpu.BRK(&mut bus.memory);

    assert_eq!(bus.cpu.pc, 0x0000);

    bus.cpu.RTI(&bus.memory);

    assert_eq!(bus.cpu.pc, START_PC + 1, "RTI did not return to connect address");

    let status = bus.cpu.status;
    check_flag(status, FLAG_B, false);
    check_flag(status, FLAG_U, false);
}

#[test]
#[allow(non_snake_case)]
fn RTS_test() {
    let mut bus = setup();

    bus.cpu.push_stack(&mut bus.memory, 0x12);
    bus.cpu.push_stack(&mut bus.memory, 0x33);

    bus.cpu.RTS(&bus.memory);

    assert_eq!(bus.cpu.pc, 0x1234, "Returned to wrong address");
}

#[test]
#[allow(non_snake_case)]
fn SBC_no_carry_test() {
    let mut bus = setup();

    bus.cpu_write(START_ADDR_ABS, 10);
    bus.cpu.a = 30;

    bus.cpu.SBC(&bus.memory);

    let status = bus.cpu.status;

    assert_eq!(bus.cpu.a, 19, "Accumulator value incorrect after subtraction");
    check_flag(status, FLAG_Z, false);
    check_flag(status, FLAG_C, true);
    check_flag(status, FLAG_V, false);
    check_flag(status, FLAG_N, false);
}

#[test]
#[allow(non_snake_case)]
fn SBC_carry_test() {
    let mut bus = setup();

    bus.cpu_write(START_ADDR_ABS, 10);
    bus.cpu.a = 30;
    bus.cpu.set_flag(Flags6502::carry(), true);

    bus.cpu.SBC(&bus.memory);

    let status = bus.cpu.status;

    assert_eq!(bus.cpu.a, 20, "Accumulator value incorrect after subtraction");
    check_flag(status, FLAG_Z, false);
    check_flag(status, FLAG_C, true);
    check_flag(status, FLAG_V, false);
    check_flag(status, FLAG_N, false);
}

#[test]
#[allow(non_snake_case)]
fn SBC_zero_test() {
    let mut bus = setup();

    bus.cpu_write(START_ADDR_ABS, 30);
    bus.cpu.a = 30;
    bus.cpu.set_flag(Flags6502::carry(), true);

    bus.cpu.SBC(&bus.memory);

    let status = bus.cpu.status;

    assert_eq!(bus.cpu.a, 0, "Accumulator value incorrect after subtraction");
    check_flag(status, FLAG_Z, true);
    check_flag(status, FLAG_C, true);
    check_flag(status, FLAG_V, false);
    check_flag(status, FLAG_N, false);
}

#[test]
#[allow(non_snake_case)]
fn SBC_borrow_required_test() {
    let mut bus = setup();

    bus.cpu_write(START_ADDR_ABS, 20);
    bus.cpu.a = 10;
    bus.cpu.set_flag(Flags6502::carry(), true);

    bus.cpu.SBC(&bus.memory);

    let status = bus.cpu.status;

    assert_eq!(bus.cpu.a, 246, "Accumulator value incorrect after subtraction");
    check_flag(status, FLAG_Z, false);
    check_flag(status, FLAG_C, false);
    // 10 - 20 = -10 has no signed overflow: SBC is ADC of the complement,
    // and Overflow comes from that sum
    check_flag(status, FLAG_V, false);
    check_flag(status, FLAG_N, true);
}

#[test]
#[allow(non_snake_case)]
fn SEC_test() {
    let mut bus = setup();
    bus.cpu.set_flag(Flags6502::carry(), false);
    bus.cpu.SEC();
    assert!(bus.cpu.get_flag(Flags6502::carry()), "C flag clear, but should be set");
}

#[test]
#[allow(non_snake_case)]
fn SED_test() {
    let mut bus = setup();
    bus.cpu.set_flag(Flags6502::decimal(), false);
    bus.cpu.SED();
    assert!(bus.cpu.get_flag(Flags6502::decimal()), "D flag clear, but should be set");
}

#[test]
#[allow(non_snake_case)]
fn SEI_test() {
    let mut bus = setup();
    bus.cpu.set_flag(Flags6502::interrupt_disable(), false);
    bus.cpu.SEI();
    assert!(bus.cpu.get_flag(Flags6502::interrupt_disable()), "I flag clear, but should be set");
}

#[test]
#[allow(non_snake_case)]
fn STA_test() {
    let mut bus = setup();
    bus.cpu.a = 20;
    bus.cpu.STA(&mut bus.memory);

    assert_eq!(bus.cpu_read(START_ADDR_ABS, false), 20, "Accumulator not stored correctly");
}

#[test]
#[allow(non_snake_case)]
fn STX_test() {
    let mut bus = setup();
    bus.cpu.x = 20;
    bus.cpu.STX(&mut bus.memory);

    assert_eq!(bus.cpu_read(START_ADDR_ABS, false), 20, "X register not stored correctly");
}

#[test]
#[allow(non_snake_case)]
fn STY_test() {
    let mut bus = setup();
    bus.cpu.y = 20;
    bus.cpu.STY(&mut bus.memory);

    assert_eq!(bus.cpu_read(START_ADDR_ABS, false), 20, "Y register not stored correctly");
}

#[test]
#[allow(non_snake_case)]
fn opcodes_TAX_test() {
    let mut bus = setup();
    bus.cpu.a = 0xF0;
    bus.cpu.TAX();

    let status = bus.cpu.status;

    assert_eq!(bus.cpu.x, 0xF0, "Accumulator not moved to X register");
    check_flag(status, FLAG_Z, false);
    check_flag(status, FLAG_N, true);
}

#[test]
#[allow(non_snake_case)]
fn TAX_zero_test() {
    let mut bus = setup();
    bus.cpu.a = 0x00;
    bus.cpu.TAX();

    let status = bus.cpu.status;

    assert_eq!(bus.cpu.x, 0x00, "Accumulator not moved to X register");
    check_flag(status, FLAG_Z, true);
    check_flag(status, FLAG_N, false);
}

#[test]
#[allow(non_snake_case)]
fn opcodes_TAY_test() {
    let mut bus = setup();
    bus.cpu.a = 0xF0;
    bus.cpu.TAY();

    let status = bus.cpu.status;

    assert_eq!(bus.cpu.y, 0xF0, "Accumulator not moved to Y register");
    check_flag(status, FLAG_Z, false);
    check_flag(status, FLAG_N, true);
}

#[test]
#[allow(non_snake_case)]
fn TAY_zero_test() {
    let mut bus = setup();
    bus.cpu.a = 0x00;
    bus.cpu.TAY();

    let status = bus.cpu.status;

    assert_eq!(bus.cpu.y, 0x00, "Accumulator not moved to Y register");
    check_flag(status, FLAG_Z, true);
    check_flag(status, FLAG_N, false);
}

#[test]
#[allow(non_snake_case)]
fn TSX_test() {
    let mut bus = setup();
    bus.cpu.stkp = 0xF0;
    bus.cpu.TSX();

    let status = bus.cpu.status;

    assert_eq!(bus.cpu.x, 0xF0, "Stack pointer not moved to X register");
    check_flag(status, FLAG_Z, false);
    check_flag(status, FLAG_N, true);
}

#[test]
#[allow(non_snake_case)]
fn TSX_zero_test() {
    let mut bus = setup();
    bus.cpu.stkp = 0x00;
    bus.cpu.TSX();

    let status = bus.cpu.status;

    assert_eq!(bus.cpu.x, 0x00, "Stack pointer not moved to X register");
    check_flag(status, FLAG_Z, true);
    check_flag(status, FLAG_N, false);
}

#[test]
#[allow(non_snake_case)]
fn TXA_test() {
    let mut bus = setup();
    bus.cpu.x = 0xF0;
    bus.cpu.TXA();

    let status = bus.cpu.status;

    assert_eq!(bus.cpu.a, 0xF0, "X register not moved to Accumulator");
    check_flag(status, FLAG_Z, false);
    check_flag(status, FLAG_N, true);
}

#[test]
#[allow(non_snake_case)]
fn TXA_zero_test() {
    let mut bus = setup();
    bus.cpu.x = 0x00;
    bus.cpu.TXA();

    let status = bus.cpu.status;

    assert_eq!(bus.cpu.a, 0x00, "X register not moved to Accumulator");
    check_flag(status, FLAG_Z, true);
    check_flag(status, FLAG_N, false);
}

#[test]
#[allow(non_snake_case)]
fn TXS_test() {
    let mut bus = setup();
    bus.cpu.x = 0xF0;
    bus.cpu.TXS();

    assert_eq!(bus.cpu.stkp, 0xF0, "X register not moved to Stack Pointer");
}

#[test]
#[allow(non_snake_case)]
fn TXS_zero_test() {
    let mut bus = setup();
    bus.cpu.x = 0x00;
    bus.cpu.TXS();

    assert_eq!(bus.cpu.stkp, 0x00, "X register not moved to Stack Pointer");
}

#[test]
#[allow(non_snake_case)]
fn TYA_test() {
    let mut bus = setup();
    bus.cpu.y = 0xF0;
    bus.cpu.TYA();

    let status = bus.cpu.status;

    assert_eq!(bus.cpu.a, 0xF0, "Y register not moved to Accumulator");
    check_flag(status, FLAG_Z, false);
    check_flag(status, FLAG_N, true);
}

#[test]
#[allow(non_snake_case)]
fn TYA_zero_test() {
    let mut bus = setup();
    bus.cpu.y = 0x00;
    bus.cpu.TYA();

    let status = bus.cpu.status;

    assert_eq!(bus.cpu.a, 0x00, "Y register not moved to Accumulator");
    check_flag(status, FLAG_Z, true);
    check_flag(status, FLAG_N, false);
}

#[test]
#[allow(non_snake_case)]
fn XXX_test() {
    let mut bus = setup();
    bus.cpu.XXX();
    // ok
}

#[test]
#[allow(non_snake_case)]
fn is_implied_test() {
    let mut bus = setup();

    assert!(!bus.cpu.is_implied());
    bus.cpu.opcode = 0x00;
    assert!(bus.cpu.is_implied());
}
