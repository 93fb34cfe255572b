//! The instruction table: for each opcode byte, its operation, addressing
//! mode and base cycle count.
use vstd::prelude::*;

verus! {

/// How an instruction locates its operand.
#[allow(non_camel_case_types)]
#[derive(Clone, Copy, Debug, PartialEq, Eq, Structural)]
pub enum AddressingMode {
    /// No operand, or the accumulator.
    IMP,
    /// The byte after the opcode.
    IMM,
    /// A zero-page address.
    ZP0,
    /// A zero-page address plus X, wrapping within the zero page.
    ZPX,
    /// A zero-page address plus Y, wrapping within the zero page.
    ZPY,
    /// A 16-bit address.
    ABS,
    /// A 16-bit address plus X.
    ABX,
    /// A 16-bit address plus Y.
    ABY,
    /// The 16-bit address stored at a 16-bit pointer.
    IND,
    /// The 16-bit address stored at a zero-page pointer plus X.
    IZX,
    /// The 16-bit address stored at a zero-page pointer, plus Y.
    IZY,
    /// A signed 8-bit branch offset.
    REL,
}

/// What an instruction does.
#[allow(non_camel_case_types)]
#[derive(Clone, Copy, Debug, PartialEq, Eq, Structural)]
pub enum Operation {
    ADC,
    AND,
    ASL,
    BCC,
    BCS,
    BEQ,
    BIT,
    BMI,
    BNE,
    BPL,
    BRK,
    BVC,
    BVS,
    CLC,
    CLD,
    CLI,
    CLV,
    CMP,
    CPX,
    CPY,
    DEC,
    DEX,
    DEY,
    EOR,
    INC,
    INX,
    INY,
    JMP,
    JSR,
    LDA,
    LDX,
    LDY,
    LSR,
    NOP,
    ORA,
    PHA,
    PHP,
    PLA,
    PLP,
    ROL,
    ROR,
    RTI,
    RTS,
    SBC,
    SEC,
    SED,
    SEI,
    STA,
    STX,
    STY,
    TAX,
    TAY,
    TSX,
    TXA,
    TXS,
    TYA,
    XXX,
}

/// One entry of the instruction table. `official` is false for the opcodes
/// that the processor does not document; they are shown as `???`.
#[derive(Clone, Copy, Debug, PartialEq, Eq, Structural)]
pub struct Instruction {
    pub operate: Operation,
    pub addrmode: AddressingMode,
    pub cycles: u8,
    pub official: bool,
}

impl Instruction {
    pub fn new(operate: Operation, addrmode: AddressingMode, cycles: u8, official: bool) -> (r: Self)
        ensures
            r == (Instruction { operate, addrmode, cycles, official }),
    {
        Instruction { operate, addrmode, cycles, official }
    }

    /// The mnemonic shown for this instruction.
    pub open spec fn name_spec(self) -> &'static str {
        if self.official {
            mnemonic_spec(self.operate)
        } else {
            "???"
        }
    }

    pub fn name(&self) -> (r: &'static str)
        ensures
            r == self.name_spec(),
    {
        if self.official {
            mnemonic(self.operate)
        } else {
            "???"
        }
    }
}

pub open spec fn mnemonic_spec(op: Operation) -> &'static str {
    match op {
        Operation::ADC => "ADC",
        Operation::AND => "AND",
        Operation::ASL => "ASL",
        Operation::BCC => "BCC",
        Operation::BCS => "BCS",
        Operation::BEQ => "BEQ",
        Operation::BIT => "BIT",
        Operation::BMI => "BMI",
        Operation::BNE => "BNE",
        Operation::BPL => "BPL",
        Operation::BRK => "BRK",
        Operation::BVC => "BVC",
        Operation::BVS => "BVS",
        Operation::CLC => "CLC",
        Operation::CLD => "CLD",
        Operation::CLI => "CLI",
        Operation::CLV => "CLV",
        Operation::CMP => "CMP",
        Operation::CPX => "CPX",
        Operation::CPY => "CPY",
        Operation::DEC => "DEC",
        Operation::DEX => "DEX",
        Operation::DEY => "DEY",
        Operation::EOR => "EOR",
        Operation::INC => "INC",
        Operation::INX => "INX",
        Operation::INY => "INY",
        Operation::JMP => "JMP",
        Operation::JSR => "JSR",
        Operation::LDA => "LDA",
        Operation::LDX => "LDX",
        Operation::LDY => "LDY",
        Operation::LSR => "LSR",
        Operation::NOP => "NOP",
        Operation::ORA => "ORA",
        Operation::PHA => "PHA",
        Operation::PHP => "PHP",
        Operation::PLA => "PLA",
        Operation::PLP => "PLP",
        Operation::ROL => "ROL",
        Operation::ROR => "ROR",
        Operation::RTI => "RTI",
        Operation::RTS => "RTS",
        Operation::SBC => "SBC",
        Operation::SEC => "SEC",
        Operation::SED => "SED",
        Operation::SEI => "SEI",
        Operation::STA => "STA",
        Operation::STX => "STX",
        Operation::STY => "STY",
        Operation::TAX => "TAX",
        Operation::TAY => "TAY",
        Operation::TSX => "TSX",
        Operation::TXA => "TXA",
        Operation::TXS => "TXS",
        Operation::TYA => "TYA",
        Operation::XXX => "XXX",
    }
}

/// The three-letter name of an operation.
pub fn mnemonic(op: Operation) -> (r: &'static str)
    ensures
        r == mnemonic_spec(op),
{
    match op {
        Operation::ADC => "ADC",
        Operation::AND => "AND",
        Operation::ASL => "ASL",
        Operation::BCC => "BCC",
        Operation::BCS => "BCS",
        Operation::BEQ => "BEQ",
        Operation::BIT => "BIT",
        Operation::BMI => "BMI",
        Operation::BNE => "BNE",
        Operation::BPL => "BPL",
        Operation::BRK => "BRK",
        Operation::BVC => "BVC",
        Operation::BVS => "BVS",
        Operation::CLC => "CLC",
        Operation::CLD => "CLD",
        Operation::CLI => "CLI",
        Operation::CLV => "CLV",
        Operation::CMP => "CMP",
        Operation::CPX => "CPX",
        Operation::CPY => "CPY",
        Operation::DEC => "DEC",
        Operation::DEX => "DEX",
        Operation::DEY => "DEY",
        Operation::EOR => "EOR",
        Operation::INC => "INC",
        Operation::INX => "INX",
        Operation::INY => "INY",
        Operation::JMP => "JMP",
        Operation::JSR => "JSR",
        Operation::LDA => "LDA",
        Operation::LDX => "LDX",
        Operation::LDY => "LDY",
        Operation::LSR => "LSR",
        Operation::NOP => "NOP",
        Operation::ORA => "ORA",
        Operation::PHA => "PHA",
        Operation::PHP => "PHP",
        Operation::PLA => "PLA",
        Operation::PLP => "PLP",
        Operation::ROL => "ROL",
        Operation::ROR => "ROR",
        Operation::RTI => "RTI",
        Operation::RTS => "RTS",
        Operation::SBC => "SBC",
        Operation::SEC => "SEC",
        Operation::SED => "SED",
        Operation::SEI => "SEI",
        Operation::STA => "STA",
        Operation::STX => "STX",
        Operation::STY => "STY",
        Operation::TAX => "TAX",
        Operation::TAY => "TAY",
        Operation::TSX => "TSX",
        Operation::TXA => "TXA",
        Operation::TXS => "TXS",
        Operation::TYA => "TYA",
        Operation::XXX => "XXX",
    }
}

/// The instruction table entry for `opcode`.
#[verifier::opaque]
pub open spec fn lookup_spec(opcode: u8) -> Instruction {
    match opcode {
        0x00 => Instruction { operate: Operation::BRK, addrmode: AddressingMode::IMP, cycles: 7, official: true },
        0x01 => Instruction { operate: Operation::ORA, addrmode: AddressingMode::IZX, cycles: 6, official: true },
        0x02 => Instruction { operate: Operation::XXX, addrmode: AddressingMode::IMP, cycles: 2, official: false },
        0x03 => Instruction { operate: Operation::XXX, addrmode: AddressingMode::IMP, cycles: 8, official: false },
        0x04 => Instruction { operate: Operation::NOP, addrmode: AddressingMode::IMP, cycles: 3, official: false },
        0x05 => Instruction { operate: Operation::ORA, addrmode: AddressingMode::ZP0, cycles: 3, official: true },
        0x06 => Instruction { operate: Operation::ASL, addrmode: AddressingMode::ZP0, cycles: 5, official: true },
        0x07 => Instruction { operate: Operation::XXX, addrmode: AddressingMode::IMP, cycles: 5, official: false },
        0x08 => Instruction { operate: Operation::PHP, addrmode: AddressingMode::IMP, cycles: 3, official: true },
        0x09 => Instruction { operate: Operation::ORA, addrmode: AddressingMode::IMM, cycles: 2, official: true },
        0x0A => Instruction { operate: Operation::ASL, addrmode: AddressingMode::IMP, cycles: 2, official: true },
        0x0B => Instruction { operate: Operation::XXX, addrmode: AddressingMode::IMP, cycles: 2, official: false },
        0x0C => Instruction { operate: Operation::NOP, addrmode: AddressingMode::IMP, cycles: 4, official: false },
        0x0D => Instruction { operate: Operation::ORA, addrmode: AddressingMode::ABS, cycles: 4, official: true },
        0x0E => Instruction { operate: Operation::ASL, addrmode: AddressingMode::ABS, cycles: 6, official: true },
        0x0F => Instruction { operate: Operation::XXX, addrmode: AddressingMode::IMP, cycles: 6, official: false },
        0x10 => Instruction { operate: Operation::BPL, addrmode: AddressingMode::REL, cycles: 2, official: true },
        0x11 => Instruction { operate: Operation::ORA, addrmode: AddressingMode::IZY, cycles: 5, official: true },
        0x12 => Instruction { operate: Operation::XXX, addrmode: AddressingMode::IMP, cycles: 2, official: false },
        0x13 => Instruction { operate: Operation::XXX, addrmode: AddressingMode::IMP, cycles: 8, official: false },
        0x14 => Instruction { operate: Operation::NOP, addrmode: AddressingMode::IMP, cycles: 4, official: false },
        0x15 => Instruction { operate: Operation::ORA, addrmode: AddressingMode::ZPX, cycles: 4, official: true },
        0x16 => Instruction { operate: Operation::ASL, addrmode: AddressingMode::ZPX, cycles: 6, official: true },
        0x17 => Instruction { operate: Operation::XXX, addrmode: AddressingMode::IMP, cycles: 6, official: false },
        0x18 => Instruction { operate: Operation::CLC, addrmode: AddressingMode::IMP, cycles: 2, official: true },
        0x19 => Instruction { operate: Operation::ORA, addrmode: AddressingMode::ABY, cycles: 4, official: true },
        0x1A => Instruction { operate: Operation::NOP, addrmode: AddressingMode::IMP, cycles: 2, official: false },
        0x1B => Instruction { operate: Operation::XXX, addrmode: AddressingMode::IMP, cycles: 7, official: false },
        0x1C => Instruction { operate: Operation::NOP, addrmode: AddressingMode::IMP, cycles: 4, official: false },
        0x1D => Instruction { operate: Operation::ORA, addrmode: AddressingMode::ABX, cycles: 4, official: true },
        0x1E => Instruction { operate: Operation::ASL, addrmode: AddressingMode::ABX, cycles: 7, official: true },
        0x1F => Instruction { operate: Operation::XXX, addrmode: AddressingMode::IMP, cycles: 7, official: false },
        0x20 => Instruction { operate: Operation::JSR, addrmode: AddressingMode::ABS, cycles: 6, official: true },
        0x21 => Instruction { operate: Operation::AND, addrmode: AddressingMode::IZX, cycles: 6, official: true },
        0x22 => Instruction { operate: Operation::XXX, addrmode: AddressingMode::IMP, cycles: 2, official: false },
        0x23 => Instruction { operate: Operation::XXX, addrmode: AddressingMode::IMP, cycles: 8, official: false },
        0x24 => Instruction { operate: Operation::BIT, addrmode: AddressingMode::ZP0, cycles: 3, official: true },
        0x25 => Instruction { operate: Operation::AND, addrmode: AddressingMode::ZP0, cycles: 3, official: true },
        0x26 => Instruction { operate: Operation::ROL, addrmode: AddressingMode::ZP0, cycles: 5, official: true },
        0x27 => Instruction { operate: Operation::XXX, addrmode: AddressingMode::IMP, cycles: 5, official: false },
        0x28 => Instruction { operate: Operation::PLP, addrmode: AddressingMode::IMP, cycles: 4, official: true },
        0x29 => Instruction { operate: Operation::AND, addrmode: AddressingMode::IMM, cycles: 2, official: true },
        0x2A => Instruction { operate: Operation::ROL, addrmode: AddressingMode::IMP, cycles: 2, official: true },
        0x2B => Instruction { operate: Operation::XXX, addrmode: AddressingMode::IMP, cycles: 2, official: false },
        0x2C => Instruction { operate: Operation::BIT, addrmode: AddressingMode::ABS, cycles: 4, official: true },
        0x2D => Instruction { operate: Operation::AND, addrmode: AddressingMode::ABS, cycles: 4, official: true },
        0x2E => Instruction { operate: Operation::ROL, addrmode: AddressingMode::ABS, cycles: 6, official: true },
        0x2F => Instruction { operate: Operation::XXX, addrmode: AddressingMode::IMP, cycles: 6, official: false },
        0x30 => Instruction { operate: Operation::BMI, addrmode: AddressingMode::REL, cycles: 2, official: true },
        0x31 => Instruction { operate: Operation::AND, addrmode: AddressingMode::IZY, cycles: 5, official: true },
        0x32 => Instruction { operate: Operation::XXX, addrmode: AddressingMode::IMP, cycles: 2, official: false },
        0x33 => Instruction { operate: Operation::XXX, addrmode: AddressingMode::IMP, cycles: 8, official: false },
        0x34 => Instruction { operate: Operation::NOP, addrmode: AddressingMode::IMP, cycles: 4, official: false },
        0x35 => Instruction { operate: Operation::AND, addrmode: AddressingMode::ZPX, cycles: 4, official: true },
        0x36 => Instruction { operate: Operation::ROL, addrmode: AddressingMode::ZPX, cycles: 6, official: true },
        0x37 => Instruction { operate: Operation::XXX, addrmode: AddressingMode::IMP, cycles: 6, official: false },
        0x38 => Instruction { operate: Operation::SEC, addrmode: AddressingMode::IMP, cycles: 2, official: true },
        0x39 => Instruction { operate: Operation::AND, addrmode: AddressingMode::ABY, cycles: 4, official: true },
        0x3A => Instruction { operate: Operation::NOP, addrmode: AddressingMode::IMP, cycles: 2, official: false },
        0x3B => Instruction { operate: Operation::XXX, addrmode: AddressingMode::IMP, cycles: 7, official: false },
        0x3C => Instruction { operate: Operation::NOP, addrmode: AddressingMode::IMP, cycles: 4, official: false },
        0x3D => Instruction { operate: Operation::AND, addrmode: AddressingMode::ABX, cycles: 4, official: true },
        0x3E => Instruction { operate: Operation::ROL, addrmode: AddressingMode::ABX, cycles: 7, official: true },
        0x3F => Instruction { operate: Operation::XXX, addrmode: AddressingMode::IMP, cycles: 7, official: false },
        0x40 => Instruction { operate: Operation::RTI, addrmode: AddressingMode::IMP, cycles: 6, official: true },
        0x41 => Instruction { operate: Operation::EOR, addrmode: AddressingMode::IZX, cycles: 6, official: true },
        0x42 => Instruction { operate: Operation::XXX, addrmode: AddressingMode::IMP, cycles: 2, official: false },
        0x43 => Instruction { operate: Operation::XXX, addrmode: AddressingMode::IMP, cycles: 8, official: false },
        0x44 => Instruction { operate: Operation::NOP, addrmode: AddressingMode::IMP, cycles: 3, official: false },
        0x45 => Instruction { operate: Operation::EOR, addrmode: AddressingMode::ZP0, cycles: 3, official: true },
        0x46 => Instruction { operate: Operation::LSR, addrmode: AddressingMode::ZP0, cycles: 5, official: true },
        0x47 => Instruction { operate: Operation::XXX, addrmode: AddressingMode::IMP, cycles: 5, official: false },
        0x48 => Instruction { operate: Operation::PHA, addrmode: AddressingMode::IMP, cycles: 3, official: true },
        0x49 => Instruction { operate: Operation::EOR, addrmode: AddressingMode::IMM, cycles: 2, official: true },
        0x4A => Instruction { operate: Operation::LSR, addrmode: AddressingMode::IMP, cycles: 2, official: true },
        0x4B => Instruction { operate: Operation::XXX, addrmode: AddressingMode::IMP, cycles: 2, official: false },
        0x4C => Instruction { operate: Operation::JMP, addrmode: AddressingMode::ABS, cycles: 3, official: true },
        0x4D => Instruction { operate: Operation::EOR, addrmode: AddressingMode::ABS, cycles: 4, official: true },
        0x4E => Instruction { operate: Operation::LSR, addrmode: AddressingMode::ABS, cycles: 6, official: true },
        0x4F => Instruction { operate: Operation::XXX, addrmode: AddressingMode::IMP, cycles: 6, official: false },
        0x50 => Instruction { operate: Operation::BVC, addrmode: AddressingMode::REL, cycles: 2, official: true },
        0x51 => Instruction { operate: Operation::EOR, addrmode: AddressingMode::IZY, cycles: 5, official: true },
        0x52 => Instruction { operate: Operation::XXX, addrmode: AddressingMode::IMP, cycles: 2, official: false },
        0x53 => Instruction { operate: Operation::XXX, addrmode: AddressingMode::IMP, cycles: 8, official: false },
        0x54 => Instruction { operate: Operation::NOP, addrmode: AddressingMode::IMP, cycles: 4, official: false },
        0x55 => Instruction { operate: Operation::EOR, addrmode: AddressingMode::ZPX, cycles: 4, official: true },
        0x56 => Instruction { operate: Operation::LSR, addrmode: AddressingMode::ZPX, cycles: 6, official: true },
        0x57 => Instruction { operate: Operation::XXX, addrmode: AddressingMode::IMP, cycles: 6, official: false },
        0x58 => Instruction { operate: Operation::CLI, addrmode: AddressingMode::IMP, cycles: 2, official: true },
        0x59 => Instruction { operate: Operation::EOR, addrmode: AddressingMode::ABY, cycles: 4, official: true },
        0x5A => Instruction { operate: Operation::NOP, addrmode: AddressingMode::IMP, cycles: 2, official: false },
        0x5B => Instruction { operate: Operation::XXX, addrmode: AddressingMode::IMP, cycles: 7, official: false },
        0x5C => Instruction { operate: Operation::NOP, addrmode: AddressingMode::IMP, cycles: 4, official: false },
        0x5D => Instruction { operate: Operation::EOR, addrmode: AddressingMode::ABX, cycles: 4, official: true },
        0x5E => Instruction { operate: Operation::LSR, addrmode: AddressingMode::ABX, cycles: 7, official: true },
        0x5F => Instruction { operate: Operation::XXX, addrmode: AddressingMode::IMP, cycles: 7, official: false },
        0x60 => Instruction { operate: Operation::RTS, addrmode: AddressingMode::IMP, cycles: 6, official: true },
        0x61 => Instruction { operate: Operation::ADC, addrmode: AddressingMode::IZX, cycles: 6, official: true },
        0x62 => Instruction { operate: Operation::XXX, addrmode: AddressingMode::IMP, cycles: 2, official: false },
        0x63 => Instruction { operate: Operation::XXX, addrmode: AddressingMode::IMP, cycles: 8, official: false },
        0x64 => Instruction { operate: Operation::NOP, addrmode: AddressingMode::IMP, cycles: 3, official: false },
        0x65 => Instruction { operate: Operation::ADC, addrmode: AddressingMode::ZP0, cycles: 3, official: true },
        0x66 => Instruction { operate: Operation::ROR, addrmode: AddressingMode::ZP0, cycles: 5, official: true },
        0x67 => Instruction { operate: Operation::XXX, addrmode: AddressingMode::IMP, cycles: 5, official: false },
        0x68 => Instruction { operate: Operation::PLA, addrmode: AddressingMode::IMP, cycles: 4, official: true },
        0x69 => Instruction { operate: Operation::ADC, addrmode: AddressingMode::IMM, cycles: 2, official: true },
        0x6A => Instruction { operate: Operation::ROR, addrmode: AddressingMode::IMP, cycles: 2, official: true },
        0x6B => Instruction { operate: Operation::XXX, addrmode: AddressingMode::IMP, cycles: 2, official: false },
        0x6C => Instruction { operate: Operation::JMP, addrmode: AddressingMode::IND, cycles: 5, official: true },
        0x6D => Instruction { operate: Operation::ADC, addrmode: AddressingMode::ABS, cycles: 4, official: true },
        0x6E => Instruction { operate: Operation::ROR, addrmode: AddressingMode::ABS, cycles: 6, official: true },
        0x6F => Instruction { operate: Operation::XXX, addrmode: AddressingMode::IMP, cycles: 6, official: false },
        0x70 => Instruction { operate: Operation::BVS, addrmode: AddressingMode::REL, cycles: 2, official: true },
        0x71 => Instruction { operate: Operation::ADC, addrmode: AddressingMode::IZY, cycles: 5, official: true },
        0x72 => Instruction { operate: Operation::XXX, addrmode: AddressingMode::IMP, cycles: 2, official: false },
        0x73 => Instruction { operate: Operation::XXX, addrmode: AddressingMode::IMP, cycles: 8, official: false },
        0x74 => Instruction { operate: Operation::NOP, addrmode: AddressingMode::IMP, cycles: 4, official: false },
        0x75 => Instruction { operate: Operation::ADC, addrmode: AddressingMode::ZPX, cycles: 4, official: true },
        0x76 => Instruction { operate: Operation::ROR, addrmode: AddressingMode::ZPX, cycles: 6, official: true },
        0x77 => Instruction { operate: Operation::XXX, addrmode: AddressingMode::IMP, cycles: 6, official: false },
        0x78 => Instruction { operate: Operation::SEI, addrmode: AddressingMode::IMP, cycles: 2, official: true },
        0x79 => Instruction { operate: Operation::ADC, addrmode: AddressingMode::ABY, cycles: 4, official: true },
        0x7A => Instruction { operate: Operation::NOP, addrmode: AddressingMode::IMP, cycles: 2, official: false },
        0x7B => Instruction { operate: Operation::XXX, addrmode: AddressingMode::IMP, cycles: 7, official: false },
        0x7C => Instruction { operate: Operation::NOP, addrmode: AddressingMode::IMP, cycles: 4, official: false },
        0x7D => Instruction { operate: Operation::ADC, addrmode: AddressingMode::ABX, cycles: 4, official: true },
        0x7E => Instruction { operate: Operation::ROR, addrmode: AddressingMode::ABX, cycles: 7, official: true },
        0x7F => Instruction { operate: Operation::XXX, addrmode: AddressingMode::IMP, cycles: 7, official: false },
        0x80 => Instruction { operate: Operation::NOP, addrmode: AddressingMode::IMP, cycles: 2, official: false },
        0x81 => Instruction { operate: Operation::STA, addrmode: AddressingMode::IZX, cycles: 6, official: true },
        0x82 => Instruction { operate: Operation::NOP, addrmode: AddressingMode::IMP, cycles: 2, official: false },
        0x83 => Instruction { operate: Operation::XXX, addrmode: AddressingMode::IMP, cycles: 6, official: false },
        0x84 => Instruction { operate: Operation::STY, addrmode: AddressingMode::ZP0, cycles: 3, official: true },
        0x85 => Instruction { operate: Operation::STA, addrmode: AddressingMode::ZP0, cycles: 3, official: true },
        0x86 => Instruction { operate: Operation::STX, addrmode: AddressingMode::ZP0, cycles: 3, official: true },
        0x87 => Instruction { operate: Operation::XXX, addrmode: AddressingMode::IMP, cycles: 3, official: false },
        0x88 => Instruction { operate: Operation::DEY, addrmode: AddressingMode::IMP, cycles: 2, official: true },
        0x89 => Instruction { operate: Operation::NOP, addrmode: AddressingMode::IMP, cycles: 2, official: false },
        0x8A => Instruction { operate: Operation::TXA, addrmode: AddressingMode::IMP, cycles: 2, official: true },
        0x8B => Instruction { operate: Operation::XXX, addrmode: AddressingMode::IMP, cycles: 2, official: false },
        0x8C => Instruction { operate: Operation::STY, addrmode: AddressingMode::ABS, cycles: 4, official: true },
        0x8D => Instruction { operate: Operation::STA, addrmode: AddressingMode::ABS, cycles: 4, official: true },
        0x8E => Instruction { operate: Operation::STX, addrmode: AddressingMode::ABS, cycles: 4, official: true },
        0x8F => Instruction { operate: Operation::XXX, addrmode: AddressingMode::IMP, cycles: 4, official: false },
        0x90 => Instruction { operate: Operation::BCC, addrmode: AddressingMode::REL, cycles: 2, official: true },
        0x91 => Instruction { operate: Operation::STA, addrmode: AddressingMode::IZY, cycles: 6, official: true },
        0x92 => Instruction { operate: Operation::XXX, addrmode: AddressingMode::IMP, cycles: 2, official: false },
        0x93 => Instruction { operate: Operation::XXX, addrmode: AddressingMode::IMP, cycles: 6, official: false },
        0x94 => Instruction { operate: Operation::STY, addrmode: AddressingMode::ZPX, cycles: 4, official: true },
        0x95 => Instruction { operate: Operation::STA, addrmode: AddressingMode::ZPX, cycles: 4, official: true },
        0x96 => Instruction { operate: Operation::STX, addrmode: AddressingMode::ZPY, cycles: 4, official: true },
        0x97 => Instruction { operate: Operation::XXX, addrmode: AddressingMode::IMP, cycles: 4, official: false },
        0x98 => Instruction { operate: Operation::TYA, addrmode: AddressingMode::IMP, cycles: 2, official: true },
        0x99 => Instruction { operate: Operation::STA, addrmode: AddressingMode::ABY, cycles: 5, official: true },
        0x9A => Instruction { operate: Operation::TXS, addrmode: AddressingMode::IMP, cycles: 2, official: true },
        0x9B => Instruction { operate: Operation::XXX, addrmode: AddressingMode::IMP, cycles: 5, official: false },
        0x9C => Instruction { operate: Operation::NOP, addrmode: AddressingMode::IMP, cycles: 5, official: false },
        0x9D => Instruction { operate: Operation::STA, addrmode: AddressingMode::ABX, cycles: 5, official: true },
        0x9E => Instruction { operate: Operation::XXX, addrmode: AddressingMode::IMP, cycles: 5, official: false },
        0x9F => Instruction { operate: Operation::XXX, addrmode: AddressingMode::IMP, cycles: 5, official: false },
        0xA0 => Instruction { operate: Operation::LDY, addrmode: AddressingMode::IMM, cycles: 2, official: true },
        0xA1 => Instruction { operate: Operation::LDA, addrmode: AddressingMode::IZX, cycles: 6, official: true },
        0xA2 => Instruction { operate: Operation::LDX, addrmode: AddressingMode::IMM, cycles: 2, official: true },
        0xA3 => Instruction { operate: Operation::XXX, addrmode: AddressingMode::IMP, cycles: 6, official: false },
        0xA4 => Instruction { operate: Operation::LDY, addrmode: AddressingMode::ZP0, cycles: 3, official: true },
        0xA5 => Instruction { operate: Operation::LDA, addrmode: AddressingMode::ZP0, cycles: 3, official: true },
        0xA6 => Instruction { operate: Operation::LDX, addrmode: AddressingMode::ZP0, cycles: 3, official: true },
        0xA7 => Instruction { operate: Operation::XXX, addrmode: AddressingMode::IMP, cycles: 3, official: false },
        0xA8 => Instruction { operate: Operation::TAY, addrmode: AddressingMode::IMP, cycles: 2, official: true },
        0xA9 => Instruction { operate: Operation::LDA, addrmode: AddressingMode::IMM, cycles: 2, official: true },
        0xAA => Instruction { operate: Operation::TAX, addrmode: AddressingMode::IMP, cycles: 2, official: true },
        0xAB => Instruction { operate: Operation::XXX, addrmode: AddressingMode::IMP, cycles: 2, official: false },
        0xAC => Instruction { operate: Operation::LDY, addrmode: AddressingMode::ABS, cycles: 4, official: true },
        0xAD => Instruction { operate: Operation::LDA, addrmode: AddressingMode::ABS, cycles: 4, official: true },
        0xAE => Instruction { operate: Operation::LDX, addrmode: AddressingMode::ABS, cycles: 4, official: true },
        0xAF => Instruction { operate: Operation::XXX, addrmode: AddressingMode::IMP, cycles: 4, official: false },
        0xB0 => Instruction { operate: Operation::BCS, addrmode: AddressingMode::REL, cycles: 2, official: true },
        0xB1 => Instruction { operate: Operation::LDA, addrmode: AddressingMode::IZY, cycles: 5, official: true },
        0xB2 => Instruction { operate: Operation::XXX, addrmode: AddressingMode::IMP, cycles: 2, official: false },
        0xB3 => Instruction { operate: Operation::XXX, addrmode: AddressingMode::IMP, cycles: 5, official: false },
        0xB4 => Instruction { operate: Operation::LDY, addrmode: AddressingMode::ZPX, cycles: 4, official: true },
        0xB5 => Instruction { operate: Operation::LDA, addrmode: AddressingMode::ZPX, cycles: 4, official: true },
        0xB6 => Instruction { operate: Operation::LDX, addrmode: AddressingMode::ZPY, cycles: 4, official: true },
        0xB7 => Instruction { operate: Operation::XXX, addrmode: AddressingMode::IMP, cycles: 4, official: false },
        0xB8 => Instruction { operate: Operation::CLV, addrmode: AddressingMode::IMP, cycles: 2, official: true },
        0xB9 => Instruction { operate: Operation::LDA, addrmode: AddressingMode::ABY, cycles: 4, official: true },
        0xBA => Instruction { operate: Operation::TSX, addrmode: AddressingMode::IMP, cycles: 2, official: true },
        0xBB => Instruction { operate: Operation::XXX, addrmode: AddressingMode::IMP, cycles: 4, official: false },
        0xBC => Instruction { operate: Operation::LDY, addrmode: AddressingMode::ABX, cycles: 4, official: true },
        0xBD => Instruction { operate: Operation::LDA, addrmode: AddressingMode::ABX, cycles: 4, official: true },
        0xBE => Instruction { operate: Operation::LDX, addrmode: AddressingMode::ABY, cycles: 4, official: true },
        0xBF => Instruction { operate: Operation::XXX, addrmode: AddressingMode::IMP, cycles: 4, official: false },
        0xC0 => Instruction { operate: Operation::CPY, addrmode: AddressingMode::IMM, cycles: 2, official: true },
        0xC1 => Instruction { operate: Operation::CMP, addrmode: AddressingMode::IZX, cycles: 6, official: true },
        0xC2 => Instruction { operate: Operation::NOP, addrmode: AddressingMode::IMP, cycles: 2, official: false },
        0xC3 => Instruction { operate: Operation::XXX, addrmode: AddressingMode::IMP, cycles: 8, official: false },
        0xC4 => Instruction { operate: Operation::CPY, addrmode: AddressingMode::ZP0, cycles: 3, official: true },
        0xC5 => Instruction { operate: Operation::CMP, addrmode: AddressingMode::ZP0, cycles: 3, official: true },
        0xC6 => Instruction { operate: Operation::DEC, addrmode: AddressingMode::ZP0, cycles: 5, official: true },
        0xC7 => Instruction { operate: Operation::XXX, addrmode: AddressingMode::IMP, cycles: 5, official: false },
        0xC8 => Instruction { operate: Operation::INY, addrmode: AddressingMode::IMP, cycles: 2, official: true },
        0xC9 => Instruction { operate: Operation::CMP, addrmode: AddressingMode::IMM, cycles: 2, official: true },
        0xCA => Instruction { operate: Operation::DEX, addrmode: AddressingMode::IMP, cycles: 2, official: true },
        0xCB => Instruction { operate: Operation::XXX, addrmode: AddressingMode::IMP, cycles: 2, official: false },
        0xCC => Instruction { operate: Operation::CPY, addrmode: AddressingMode::ABS, cycles: 4, official: true },
        0xCD => Instruction { operate: Operation::CMP, addrmode: AddressingMode::ABS, cycles: 4, official: true },
        0xCE => Instruction { operate: Operation::DEC, addrmode: AddressingMode::ABS, cycles: 6, official: true },
        0xCF => Instruction { operate: Operation::XXX, addrmode: AddressingMode::IMP, cycles: 6, official: false },
        0xD0 => Instruction { operate: Operation::BNE, addrmode: AddressingMode::REL, cycles: 2, official: true },
        0xD1 => Instruction { operate: Operation::CMP, addrmode: AddressingMode::IZY, cycles: 5, official: true },
        0xD2 => Instruction { operate: Operation::XXX, addrmode: AddressingMode::IMP, cycles: 2, official: false },
        0xD3 => Instruction { operate: Operation::XXX, addrmode: AddressingMode::IMP, cycles: 8, official: false },
        0xD4 => Instruction { operate: Operation::NOP, addrmode: AddressingMode::IMP, cycles: 4, official: false },
        0xD5 => Instruction { operate: Operation::CMP, addrmode: AddressingMode::ZPX, cycles: 4, official: true },
        0xD6 => Instruction { operate: Operation::DEC, addrmode: AddressingMode::ZPX, cycles: 6, official: true },
        0xD7 => Instruction { operate: Operation::XXX, addrmode: AddressingMode::IMP, cycles: 6, official: false },
        0xD8 => Instruction { operate: Operation::CLD, addrmode: AddressingMode::IMP, cycles: 2, official: true },
        0xD9 => Instruction { operate: Operation::CMP, addrmode: AddressingMode::ABY, cycles: 4, official: true },
        0xDA => Instruction { operate: Operation::NOP, addrmode: AddressingMode::IMP, cycles: 2, official: true },
        0xDB => Instruction { operate: Operation::XXX, addrmode: AddressingMode::IMP, cycles: 7, official: false },
        0xDC => Instruction { operate: Operation::NOP, addrmode: AddressingMode::IMP, cycles: 4, official: false },
        0xDD => Instruction { operate: Operation::CMP, addrmode: AddressingMode::ABX, cycles: 4, official: true },
        0xDE => Instruction { operate: Operation::DEC, addrmode: AddressingMode::ABX, cycles: 7, official: true },
        0xDF => Instruction { operate: Operation::XXX, addrmode: AddressingMode::IMP, cycles: 7, official: false },
        0xE0 => Instruction { operate: Operation::CPX, addrmode: AddressingMode::IMM, cycles: 2, official: true },
        0xE1 => Instruction { operate: Operation::SBC, addrmode: AddressingMode::IZX, cycles: 6, official: true },
        0xE2 => Instruction { operate: Operation::NOP, addrmode: AddressingMode::IMP, cycles: 2, official: false },
        0xE3 => Instruction { operate: Operation::XXX, addrmode: AddressingMode::IMP, cycles: 8, official: false },
        0xE4 => Instruction { operate: Operation::CPX, addrmode: AddressingMode::ZP0, cycles: 3, official: true },
        0xE5 => Instruction { operate: Operation::SBC, addrmode: AddressingMode::ZP0, cycles: 3, official: true },
        0xE6 => Instruction { operate: Operation::INC, addrmode: AddressingMode::ZP0, cycles: 5, official: true },
        0xE7 => Instruction { operate: Operation::XXX, addrmode: AddressingMode::IMP, cycles: 5, official: false },
        0xE8 => Instruction { operate: Operation::INX, addrmode: AddressingMode::IMP, cycles: 2, official: true },
        0xE9 => Instruction { operate: Operation::SBC, addrmode: AddressingMode::IMM, cycles: 2, official: true },
        0xEA => Instruction { operate: Operation::NOP, addrmode: AddressingMode::IMP, cycles: 2, official: true },
        0xEB => Instruction { operate: Operation::SBC, addrmode: AddressingMode::IMP, cycles: 2, official: false },
        0xEC => Instruction { operate: Operation::CPX, addrmode: AddressingMode::ABS, cycles: 4, official: true },
        0xED => Instruction { operate: Operation::SBC, addrmode: AddressingMode::ABS, cycles: 4, official: true },
        0xEE => Instruction { operate: Operation::INC, addrmode: AddressingMode::ABS, cycles: 6, official: true },
        0xEF => Instruction { operate: Operation::XXX, addrmode: AddressingMode::IMP, cycles: 6, official: false },
        0xF0 => Instruction { operate: Operation::BEQ, addrmode: AddressingMode::REL, cycles: 2, official: true },
        0xF1 => Instruction { operate: Operation::SBC, addrmode: AddressingMode::IZY, cycles: 5, official: true },
        0xF2 => Instruction { operate: Operation::XXX, addrmode: AddressingMode::IMP, cycles: 2, official: false },
        0xF3 => Instruction { operate: Operation::XXX, addrmode: AddressingMode::IMP, cycles: 8, official: false },
        0xF4 => Instruction { operate: Operation::NOP, addrmode: AddressingMode::IMP, cycles: 4, official: false },
        0xF5 => Instruction { operate: Operation::SBC, addrmode: AddressingMode::ZPX, cycles: 4, official: true },
        0xF6 => Instruction { operate: Operation::INC, addrmode: AddressingMode::ZPX, cycles: 6, official: true },
        0xF7 => Instruction { operate: Operation::XXX, addrmode: AddressingMode::IMP, cycles: 6, official: false },
        0xF8 => Instruction { operate: Operation::SED, addrmode: AddressingMode::IMP, cycles: 2, official: true },
        0xF9 => Instruction { operate: Operation::SBC, addrmode: AddressingMode::ABY, cycles: 4, official: true },
        0xFA => Instruction { operate: Operation::NOP, addrmode: AddressingMode::IMP, cycles: 2, official: true },
        0xFB => Instruction { operate: Operation::XXX, addrmode: AddressingMode::IMP, cycles: 7, official: false },
        0xFC => Instruction { operate: Operation::NOP, addrmode: AddressingMode::IMP, cycles: 4, official: false },
        0xFD => Instruction { operate: Operation::SBC, addrmode: AddressingMode::ABX, cycles: 4, official: true },
        0xFE => Instruction { operate: Operation::INC, addrmode: AddressingMode::ABX, cycles: 7, official: true },
        _ => Instruction { operate: Operation::XXX, addrmode: AddressingMode::IMP, cycles: 7, official: false },
    }
}

/// The instruction table entry for `opcode`. Every entry takes 2 to 8 cycles.
pub fn lookup(opcode: u8) -> (r: Instruction)
    ensures
        r == lookup_spec(opcode),
        2 <= r.cycles <= 8,
{
    proof {
        reveal(lookup_spec);
    }
    match opcode {
        0x00 => Instruction { operate: Operation::BRK, addrmode: AddressingMode::IMP, cycles: 7, official: true },
        0x01 => Instruction { operate: Operation::ORA, addrmode: AddressingMode::IZX, cycles: 6, official: true },
        0x02 => Instruction { operate: Operation::XXX, addrmode: AddressingMode::IMP, cycles: 2, official: false },
        0x03 => Instruction { operate: Operation::XXX, addrmode: AddressingMode::IMP, cycles: 8, official: false },
        0x04 => Instruction { operate: Operation::NOP, addrmode: AddressingMode::IMP, cycles: 3, official: false },
        0x05 => Instruction { operate: Operation::ORA, addrmode: AddressingMode::ZP0, cycles: 3, official: true },
        0x06 => Instruction { operate: Operation::ASL, addrmode: AddressingMode::ZP0, cycles: 5, official: true },
        0x07 => Instruction { operate: Operation::XXX, addrmode: AddressingMode::IMP, cycles: 5, official: false },
        0x08 => Instruction { operate: Operation::PHP, addrmode: AddressingMode::IMP, cycles: 3, official: true },
        0x09 => Instruction { operate: Operation::ORA, addrmode: AddressingMode::IMM, cycles: 2, official: true },
        0x0A => Instruction { operate: Operation::ASL, addrmode: AddressingMode::IMP, cycles: 2, official: true },
        0x0B => Instruction { operate: Operation::XXX, addrmode: AddressingMode::IMP, cycles: 2, official: false },
        0x0C => Instruction { operate: Operation::NOP, addrmode: AddressingMode::IMP, cycles: 4, official: false },
        0x0D => Instruction { operate: Operation::ORA, addrmode: AddressingMode::ABS, cycles: 4, official: true },
        0x0E => Instruction { operate: Operation::ASL, addrmode: AddressingMode::ABS, cycles: 6, official: true },
        0x0F => Instruction { operate: Operation::XXX, addrmode: AddressingMode::IMP, cycles: 6, official: false },
        0x10 => Instruction { operate: Operation::BPL, addrmode: AddressingMode::REL, cycles: 2, official: true },
        0x11 => Instruction { operate: Operation::ORA, addrmode: AddressingMode::IZY, cycles: 5, official: true },
        0x12 => Instruction { operate: Operation::XXX, addrmode: AddressingMode::IMP, cycles: 2, official: false },
        0x13 => Instruction { operate: Operation::XXX, addrmode: AddressingMode::IMP, cycles: 8, official: false },
        0x14 => Instruction { operate: Operation::NOP, addrmode: AddressingMode::IMP, cycles: 4, official: false },
        0x15 => Instruction { operate: Operation::ORA, addrmode: AddressingMode::ZPX, cycles: 4, official: true },
        0x16 => Instruction { operate: Operation::ASL, addrmode: AddressingMode::ZPX, cycles: 6, official: true },
        0x17 => Instruction { operate: Operation::XXX, addrmode: AddressingMode::IMP, cycles: 6, official: false },
        0x18 => Instruction { operate: Operation::CLC, addrmode: AddressingMode::IMP, cycles: 2, official: true },
        0x19 => Instruction { operate: Operation::ORA, addrmode: AddressingMode::ABY, cycles: 4, official: true },
        0x1A => Instruction { operate: Operation::NOP, addrmode: AddressingMode::IMP, cycles: 2, official: false },
        0x1B => Instruction { operate: Operation::XXX, addrmode: AddressingMode::IMP, cycles: 7, official: false },
        0x1C => Instruction { operate: Operation::NOP, addrmode: AddressingMode::IMP, cycles: 4, official: false },
        0x1D => Instruction { operate: Operation::ORA, addrmode: AddressingMode::ABX, cycles: 4, official: true },
        0x1E => Instruction { operate: Operation::ASL, addrmode: AddressingMode::ABX, cycles: 7, official: true },
        0x1F => Instruction { operate: Operation::XXX, addrmode: AddressingMode::IMP, cycles: 7, official: false },
        0x20 => Instruction { operate: Operation::JSR, addrmode: AddressingMode::ABS, cycles: 6, official: true },
        0x21 => Instruction { operate: Operation::AND, addrmode: AddressingMode::IZX, cycles: 6, official: true },
        0x22 => Instruction { operate: Operation::XXX, addrmode: AddressingMode::IMP, cycles: 2, official: false },
        0x23 => Instruction { operate: Operation::XXX, addrmode: AddressingMode::IMP, cycles: 8, official: false },
        0x24 => Instruction { operate: Operation::BIT, addrmode: AddressingMode::ZP0, cycles: 3, official: true },
        0x25 => Instruction { operate: Operation::AND, addrmode: AddressingMode::ZP0, cycles: 3, official: true },
        0x26 => Instruction { operate: Operation::ROL, addrmode: AddressingMode::ZP0, cycles: 5, official: true },
        0x27 => Instruction { operate: Operation::XXX, addrmode: AddressingMode::IMP, cycles: 5, official: false },
        0x28 => Instruction { operate: Operation::PLP, addrmode: AddressingMode::IMP, cycles: 4, official: true },
        0x29 => Instruction { operate: Operation::AND, addrmode: AddressingMode::IMM, cycles: 2, official: true },
        0x2A => Instruction { operate: Operation::ROL, addrmode: AddressingMode::IMP, cycles: 2, official: true },
        0x2B => Instruction { operate: Operation::XXX, addrmode: AddressingMode::IMP, cycles: 2, official: false },
        0x2C => Instruction { operate: Operation::BIT, addrmode: AddressingMode::ABS, cycles: 4, official: true },
        0x2D => Instruction { operate: Operation::AND, addrmode: AddressingMode::ABS, cycles: 4, official: true },
        0x2E => Instruction { operate: Operation::ROL, addrmode: AddressingMode::ABS, cycles: 6, official: true },
        0x2F => Instruction { operate: Operation::XXX, addrmode: AddressingMode::IMP, cycles: 6, official: false },
        0x30 => Instruction { operate: Operation::BMI, addrmode: AddressingMode::REL, cycles: 2, official: true },
        0x31 => Instruction { operate: Operation::AND, addrmode: AddressingMode::IZY, cycles: 5, official: true },
        0x32 => Instruction { operate: Operation::XXX, addrmode: AddressingMode::IMP, cycles: 2, official: false },
        0x33 => Instruction { operate: Operation::XXX, addrmode: AddressingMode::IMP, cycles: 8, official: false },
        0x34 => Instruction { operate: Operation::NOP, addrmode: AddressingMode::IMP, cycles: 4, official: false },
        0x35 => Instruction { operate: Operation::AND, addrmode: AddressingMode::ZPX, cycles: 4, official: true },
        0x36 => Instruction { operate: Operation::ROL, addrmode: AddressingMode::ZPX, cycles: 6, official: true },
        0x37 => Instruction { operate: Operation::XXX, addrmode: AddressingMode::IMP, cycles: 6, official: false },
        0x38 => Instruction { operate: Operation::SEC, addrmode: AddressingMode::IMP, cycles: 2, official: true },
        0x39 => Instruction { operate: Operation::AND, addrmode: AddressingMode::ABY, cycles: 4, official: true },
        0x3A => Instruction { operate: Operation::NOP, addrmode: AddressingMode::IMP, cycles: 2, official: false },
        0x3B => Instruction { operate: Operation::XXX, addrmode: AddressingMode::IMP, cycles: 7, official: false },
        0x3C => Instruction { operate: Operation::NOP, addrmode: AddressingMode::IMP, cycles: 4, official: false },
        0x3D => Instruction { operate: Operation::AND, addrmode: AddressingMode::ABX, cycles: 4, official: true },
        0x3E => Instruction { operate: Operation::ROL, addrmode: AddressingMode::ABX, cycles: 7, official: true },
        0x3F => Instruction { operate: Operation::XXX, addrmode: AddressingMode::IMP, cycles: 7, official: false },
        0x40 => Instruction { operate: Operation::RTI, addrmode: AddressingMode::IMP, cycles: 6, official: true },
        0x41 => Instruction { operate: Operation::EOR, addrmode: AddressingMode::IZX, cycles: 6, official: true },
        0x42 => Instruction { operate: Operation::XXX, addrmode: AddressingMode::IMP, cycles: 2, official: false },
        0x43 => Instruction { operate: Operation::XXX, addrmode: AddressingMode::IMP, cycles: 8, official: false },
        0x44 => Instruction { operate: Operation::NOP, addrmode: AddressingMode::IMP, cycles: 3, official: false },
        0x45 => Instruction { operate: Operation::EOR, addrmode: AddressingMode::ZP0, cycles: 3, official: true },
        0x46 => Instruction { operate: Operation::LSR, addrmode: AddressingMode::ZP0, cycles: 5, official: true },
        0x47 => Instruction { operate: Operation::XXX, addrmode: AddressingMode::IMP, cycles: 5, official: false },
        0x48 => Instruction { operate: Operation::PHA, addrmode: AddressingMode::IMP, cycles: 3, official: true },
        0x49 => Instruction { operate: Operation::EOR, addrmode: AddressingMode::IMM, cycles: 2, official: true },
        0x4A => Instruction { operate: Operation::LSR, addrmode: AddressingMode::IMP, cycles: 2, official: true },
        0x4B => Instruction { operate: Operation::XXX, addrmode: AddressingMode::IMP, cycles: 2, official: false },
        0x4C => Instruction { operate: Operation::JMP, addrmode: AddressingMode::ABS, cycles: 3, official: true },
        0x4D => Instruction { operate: Operation::EOR, addrmode: AddressingMode::ABS, cycles: 4, official: true },
        0x4E => Instruction { operate: Operation::LSR, addrmode: AddressingMode::ABS, cycles: 6, official: true },
        0x4F => Instruction { operate: Operation::XXX, addrmode: AddressingMode::IMP, cycles: 6, official: false },
        0x50 => Instruction { operate: Operation::BVC, addrmode: AddressingMode::REL, cycles: 2, official: true },
        0x51 => Instruction { operate: Operation::EOR, addrmode: AddressingMode::IZY, cycles: 5, official: true },
        0x52 => Instruction { operate: Operation::XXX, addrmode: AddressingMode::IMP, cycles: 2, official: false },
        0x53 => Instruction { operate: Operation::XXX, addrmode: AddressingMode::IMP, cycles: 8, official: false },
        0x54 => Instruction { operate: Operation::NOP, addrmode: AddressingMode::IMP, cycles: 4, official: false },
        0x55 => Instruction { operate: Operation::EOR, addrmode: AddressingMode::ZPX, cycles: 4, official: true },
        0x56 => Instruction { operate: Operation::LSR, addrmode: AddressingMode::ZPX, cycles: 6, official: true },
        0x57 => Instruction { operate: Operation::XXX, addrmode: AddressingMode::IMP, cycles: 6, official: false },
        0x58 => Instruction { operate: Operation::CLI, addrmode: AddressingMode::IMP, cycles: 2, official: true },
        0x59 => Instruction { operate: Operation::EOR, addrmode: AddressingMode::ABY, cycles: 4, official: true },
        0x5A => Instruction { operate: Operation::NOP, addrmode: AddressingMode::IMP, cycles: 2, official: false },
        0x5B => Instruction { operate: Operation::XXX, addrmode: AddressingMode::IMP, cycles: 7, official: false },
        0x5C => Instruction { operate: Operation::NOP, addrmode: AddressingMode::IMP, cycles: 4, official: false },
        0x5D => Instruction { operate: Operation::EOR, addrmode: AddressingMode::ABX, cycles: 4, official: true },
        0x5E => Instruction { operate: Operation::LSR, addrmode: AddressingMode::ABX, cycles: 7, official: true },
        0x5F => Instruction { operate: Operation::XXX, addrmode: AddressingMode::IMP, cycles: 7, official: false },
        0x60 => Instruction { operate: Operation::RTS, addrmode: AddressingMode::IMP, cycles: 6, official: true },
        0x61 => Instruction { operate: Operation::ADC, addrmode: AddressingMode::IZX, cycles: 6, official: true },
        0x62 => Instruction { operate: Operation::XXX, addrmode: AddressingMode::IMP, cycles: 2, official: false },
        0x63 => Instruction { operate: Operation::XXX, addrmode: AddressingMode::IMP, cycles: 8, official: false },
        0x64 => Instruction { operate: Operation::NOP, addrmode: AddressingMode::IMP, cycles: 3, official: false },
        0x65 => Instruction { operate: Operation::ADC, addrmode: AddressingMode::ZP0, cycles: 3, official: true },
        0x66 => Instruction { operate: Operation::ROR, addrmode: AddressingMode::ZP0, cycles: 5, official: true },
        0x67 => Instruction { operate: Operation::XXX, addrmode: AddressingMode::IMP, cycles: 5, official: false },
        0x68 => Instruction { operate: Operation::PLA, addrmode: AddressingMode::IMP, cycles: 4, official: true },
        0x69 => Instruction { operate: Operation::ADC, addrmode: AddressingMode::IMM, cycles: 2, official: true },
        0x6A => Instruction { operate: Operation::ROR, addrmode: AddressingMode::IMP, cycles: 2, official: true },
        0x6B => Instruction { operate: Operation::XXX, addrmode: AddressingMode::IMP, cycles: 2, official: false },
        0x6C => Instruction { operate: Operation::JMP, addrmode: AddressingMode::IND, cycles: 5, official: true },
        0x6D => Instruction { operate: Operation::ADC, addrmode: AddressingMode::ABS, cycles: 4, official: true },
        0x6E => Instruction { operate: Operation::ROR, addrmode: AddressingMode::ABS, cycles: 6, official: true },
        0x6F => Instruction { operate: Operation::XXX, addrmode: AddressingMode::IMP, cycles: 6, official: false },
        0x70 => Instruction { operate: Operation::BVS, addrmode: AddressingMode::REL, cycles: 2, official: true },
        0x71 => Instruction { operate: Operation::ADC, addrmode: AddressingMode::IZY, cycles: 5, official: true },
        0x72 => Instruction { operate: Operation::XXX, addrmode: AddressingMode::IMP, cycles: 2, official: false },
        0x73 => Instruction { operate: Operation::XXX, addrmode: AddressingMode::IMP, cycles: 8, official: false },
        0x74 => Instruction { operate: Operation::NOP, addrmode: AddressingMode::IMP, cycles: 4, official: false },
        0x75 => Instruction { operate: Operation::ADC, addrmode: AddressingMode::ZPX, cycles: 4, official: true },
        0x76 => Instruction { operate: Operation::ROR, addrmode: AddressingMode::ZPX, cycles: 6, official: true },
        0x77 => Instruction { operate: Operation::XXX, addrmode: AddressingMode::IMP, cycles: 6, official: false },
        0x78 => Instruction { operate: Operation::SEI, addrmode: AddressingMode::IMP, cycles: 2, official: true },
        0x79 => Instruction { operate: Operation::ADC, addrmode: AddressingMode::ABY, cycles: 4, official: true },
        0x7A => Instruction { operate: Operation::NOP, addrmode: AddressingMode::IMP, cycles: 2, official: false },
        0x7B => Instruction { operate: Operation::XXX, addrmode: AddressingMode::IMP, cycles: 7, official: false },
        0x7C => Instruction { operate: Operation::NOP, addrmode: AddressingMode::IMP, cycles: 4, official: false },
        0x7D => Instruction { operate: Operation::ADC, addrmode: AddressingMode::ABX, cycles: 4, official: true },
        0x7E => Instruction { operate: Operation::ROR, addrmode: AddressingMode::ABX, cycles: 7, official: true },
        0x7F => Instruction { operate: Operation::XXX, addrmode: AddressingMode::IMP, cycles: 7, official: false },
        0x80 => Instruction { operate: Operation::NOP, addrmode: AddressingMode::IMP, cycles: 2, official: false },
        0x81 => Instruction { operate: Operation::STA, addrmode: AddressingMode::IZX, cycles: 6, official: true },
        0x82 => Instruction { operate: Operation::NOP, addrmode: AddressingMode::IMP, cycles: 2, official: false },
        0x83 => Instruction { operate: Operation::XXX, addrmode: AddressingMode::IMP, cycles: 6, official: false },
        0x84 => Instruction { operate: Operation::STY, addrmode: AddressingMode::ZP0, cycles: 3, official: true },
        0x85 => Instruction { operate: Operation::STA, addrmode: AddressingMode::ZP0, cycles: 3, official: true },
        0x86 => Instruction { operate: Operation::STX, addrmode: AddressingMode::ZP0, cycles: 3, official: true },
        0x87 => Instruction { operate: Operation::XXX, addrmode: AddressingMode::IMP, cycles: 3, official: false },
        0x88 => Instruction { operate: Operation::DEY, addrmode: AddressingMode::IMP, cycles: 2, official: true },
        0x89 => Instruction { operate: Operation::NOP, addrmode: AddressingMode::IMP, cycles: 2, official: false },
        0x8A => Instruction { operate: Operation::TXA, addrmode: AddressingMode::IMP, cycles: 2, official: true },
        0x8B => Instruction { operate: Operation::XXX, addrmode: AddressingMode::IMP, cycles: 2, official: false },
        0x8C => Instruction { operate: Operation::STY, addrmode: AddressingMode::ABS, cycles: 4, official: true },
        0x8D => Instruction { operate: Operation::STA, addrmode: AddressingMode::ABS, cycles: 4, official: true },
        0x8E => Instruction { operate: Operation::STX, addrmode: AddressingMode::ABS, cycles: 4, official: true },
        0x8F => Instruction { operate: Operation::XXX, addrmode: AddressingMode::IMP, cycles: 4, official: false },
        0x90 => Instruction { operate: Operation::BCC, addrmode: AddressingMode::REL, cycles: 2, official: true },
        0x91 => Instruction { operate: Operation::STA, addrmode: AddressingMode::IZY, cycles: 6, official: true },
        0x92 => Instruction { operate: Operation::XXX, addrmode: AddressingMode::IMP, cycles: 2, official: false },
        0x93 => Instruction { operate: Operation::XXX, addrmode: AddressingMode::IMP, cycles: 6, official: false },
        0x94 => Instruction { operate: Operation::STY, addrmode: AddressingMode::ZPX, cycles: 4, official: true },
        0x95 => Instruction { operate: Operation::STA, addrmode: AddressingMode::ZPX, cycles: 4, official: true },
        0x96 => Instruction { operate: Operation::STX, addrmode: AddressingMode::ZPY, cycles: 4, official: true },
        0x97 => Instruction { operate: Operation::XXX, addrmode: AddressingMode::IMP, cycles: 4, official: false },
        0x98 => Instruction { operate: Operation::TYA, addrmode: AddressingMode::IMP, cycles: 2, official: true },
        0x99 => Instruction { operate: Operation::STA, addrmode: AddressingMode::ABY, cycles: 5, official: true },
        0x9A => Instruction { operate: Operation::TXS, addrmode: AddressingMode::IMP, cycles: 2, official: true },
        0x9B => Instruction { operate: Operation::XXX, addrmode: AddressingMode::IMP, cycles: 5, official: false },
        0x9C => Instruction { operate: Operation::NOP, addrmode: AddressingMode::IMP, cycles: 5, official: false },
        0x9D => Instruction { operate: Operation::STA, addrmode: AddressingMode::ABX, cycles: 5, official: true },
        0x9E => Instruction { operate: Operation::XXX, addrmode: AddressingMode::IMP, cycles: 5, official: false },
        0x9F => Instruction { operate: Operation::XXX, addrmode: AddressingMode::IMP, cycles: 5, official: false },
        0xA0 => Instruction { operate: Operation::LDY, addrmode: AddressingMode::IMM, cycles: 2, official: true },
        0xA1 => Instruction { operate: Operation::LDA, addrmode: AddressingMode::IZX, cycles: 6, official: true },
        0xA2 => Instruction { operate: Operation::LDX, addrmode: AddressingMode::IMM, cycles: 2, official: true },
        0xA3 => Instruction { operate: Operation::XXX, addrmode: AddressingMode::IMP, cycles: 6, official: false },
        0xA4 => Instruction { operate: Operation::LDY, addrmode: AddressingMode::ZP0, cycles: 3, official: true },
        0xA5 => Instruction { operate: Operation::LDA, addrmode: AddressingMode::ZP0, cycles: 3, official: true },
        0xA6 => Instruction { operate: Operation::LDX, addrmode: AddressingMode::ZP0, cycles: 3, official: true },
        0xA7 => Instruction { operate: Operation::XXX, addrmode: AddressingMode::IMP, cycles: 3, official: false },
        0xA8 => Instruction { operate: Operation::TAY, addrmode: AddressingMode::IMP, cycles: 2, official: true },
        0xA9 => Instruction { operate: Operation::LDA, addrmode: AddressingMode::IMM, cycles: 2, official: true },
        0xAA => Instruction { operate: Operation::TAX, addrmode: AddressingMode::IMP, cycles: 2, official: true },
        0xAB => Instruction { operate: Operation::XXX, addrmode: AddressingMode::IMP, cycles: 2, official: false },
        0xAC => Instruction { operate: Operation::LDY, addrmode: AddressingMode::ABS, cycles: 4, official: true },
        0xAD => Instruction { operate: Operation::LDA, addrmode: AddressingMode::ABS, cycles: 4, official: true },
        0xAE => Instruction { operate: Operation::LDX, addrmode: AddressingMode::ABS, cycles: 4, official: true },
        0xAF => Instruction { operate: Operation::XXX, addrmode: AddressingMode::IMP, cycles: 4, official: false },
        0xB0 => Instruction { operate: Operation::BCS, addrmode: AddressingMode::REL, cycles: 2, official: true },
        0xB1 => Instruction { operate: Operation::LDA, addrmode: AddressingMode::IZY, cycles: 5, official: true },
        0xB2 => Instruction { operate: Operation::XXX, addrmode: AddressingMode::IMP, cycles: 2, official: false },
        0xB3 => Instruction { operate: Operation::XXX, addrmode: AddressingMode::IMP, cycles: 5, official: false },
        0xB4 => Instruction { operate: Operation::LDY, addrmode: AddressingMode::ZPX, cycles: 4, official: true },
        0xB5 => Instruction { operate: Operation::LDA, addrmode: AddressingMode::ZPX, cycles: 4, official: true },
        0xB6 => Instruction { operate: Operation::LDX, addrmode: AddressingMode::ZPY, cycles: 4, official: true },
        0xB7 => Instruction { operate: Operation::XXX, addrmode: AddressingMode::IMP, cycles: 4, official: false },
        0xB8 => Instruction { operate: Operation::CLV, addrmode: AddressingMode::IMP, cycles: 2, official: true },
        0xB9 => Instruction { operate: Operation::LDA, addrmode: AddressingMode::ABY, cycles: 4, official: true },
        0xBA => Instruction { operate: Operation::TSX, addrmode: AddressingMode::IMP, cycles: 2, official: true },
        0xBB => Instruction { operate: Operation::XXX, addrmode: AddressingMode::IMP, cycles: 4, official: false },
        0xBC => Instruction { operate: Operation::LDY, addrmode: AddressingMode::ABX, cycles: 4, official: true },
        0xBD => Instruction { operate: Operation::LDA, addrmode: AddressingMode::ABX, cycles: 4, official: true },
        0xBE => Instruction { operate: Operation::LDX, addrmode: AddressingMode::ABY, cycles: 4, official: true },
        0xBF => Instruction { operate: Operation::XXX, addrmode: AddressingMode::IMP, cycles: 4, official: false },
        0xC0 => Instruction { operate: Operation::CPY, addrmode: AddressingMode::IMM, cycles: 2, official: true },
        0xC1 => Instruction { operate: Operation::CMP, addrmode: AddressingMode::IZX, cycles: 6, official: true },
        0xC2 => Instruction { operate: Operation::NOP, addrmode: AddressingMode::IMP, cycles: 2, official: false },
        0xC3 => Instruction { operate: Operation::XXX, addrmode: AddressingMode::IMP, cycles: 8, official: false },
        0xC4 => Instruction { operate: Operation::CPY, addrmode: AddressingMode::ZP0, cycles: 3, official: true },
        0xC5 => Instruction { operate: Operation::CMP, addrmode: AddressingMode::ZP0, cycles: 3, official: true },
        0xC6 => Instruction { operate: Operation::DEC, addrmode: AddressingMode::ZP0, cycles: 5, official: true },
        0xC7 => Instruction { operate: Operation::XXX, addrmode: AddressingMode::IMP, cycles: 5, official: false },
        0xC8 => Instruction { operate: Operation::INY, addrmode: AddressingMode::IMP, cycles: 2, official: true },
        0xC9 => Instruction { operate: Operation::CMP, addrmode: AddressingMode::IMM, cycles: 2, official: true },
        0xCA => Instruction { operate: Operation::DEX, addrmode: AddressingMode::IMP, cycles: 2, official: true },
        0xCB => Instruction { operate: Operation::XXX, addrmode: AddressingMode::IMP, cycles: 2, official: false },
        0xCC => Instruction { operate: Operation::CPY, addrmode: AddressingMode::ABS, cycles: 4, official: true },
        0xCD => Instruction { operate: Operation::CMP, addrmode: AddressingMode::ABS, cycles: 4, official: true },
        0xCE => Instruction { operate: Operation::DEC, addrmode: AddressingMode::ABS, cycles: 6, official: true },
        0xCF => Instruction { operate: Operation::XXX, addrmode: AddressingMode::IMP, cycles: 6, official: false },
        0xD0 => Instruction { operate: Operation::BNE, addrmode: AddressingMode::REL, cycles: 2, official: true },
        0xD1 => Instruction { operate: Operation::CMP, addrmode: AddressingMode::IZY, cycles: 5, official: true },
        0xD2 => Instruction { operate: Operation::XXX, addrmode: AddressingMode::IMP, cycles: 2, official: false },
        0xD3 => Instruction { operate: Operation::XXX, addrmode: AddressingMode::IMP, cycles: 8, official: false },
        0xD4 => Instruction { operate: Operation::NOP, addrmode: AddressingMode::IMP, cycles: 4, official: false },
        0xD5 => Instruction { operate: Operation::CMP, addrmode: AddressingMode::ZPX, cycles: 4, official: true },
        0xD6 => Instruction { operate: Operation::DEC, addrmode: AddressingMode::ZPX, cycles: 6, official: true },
        0xD7 => Instruction { operate: Operation::XXX, addrmode: AddressingMode::IMP, cycles: 6, official: false },
        0xD8 => Instruction { operate: Operation::CLD, addrmode: AddressingMode::IMP, cycles: 2, official: true },
        0xD9 => Instruction { operate: Operation::CMP, addrmode: AddressingMode::ABY, cycles: 4, official: true },
        0xDA => Instruction { operate: Operation::NOP, addrmode: AddressingMode::IMP, cycles: 2, official: true },
        0xDB => Instruction { operate: Operation::XXX, addrmode: AddressingMode::IMP, cycles: 7, official: false },
        0xDC => Instruction { operate: Operation::NOP, addrmode: AddressingMode::IMP, cycles: 4, official: false },
        0xDD => Instruction { operate: Operation::CMP, addrmode: AddressingMode::ABX, cycles: 4, official: true },
        0xDE => Instruction { operate: Operation::DEC, addrmode: AddressingMode::ABX, cycles: 7, official: true },
        0xDF => Instruction { operate: Operation::XXX, addrmode: AddressingMode::IMP, cycles: 7, official: false },
        0xE0 => Instruction { operate: Operation::CPX, addrmode: AddressingMode::IMM, cycles: 2, official: true },
        0xE1 => Instruction { operate: Operation::SBC, addrmode: AddressingMode::IZX, cycles: 6, official: true },
        0xE2 => Instruction { operate: Operation::NOP, addrmode: AddressingMode::IMP, cycles: 2, official: false },
        0xE3 => Instruction { operate: Operation::XXX, addrmode: AddressingMode::IMP, cycles: 8, official: false },
        0xE4 => Instruction { operate: Operation::CPX, addrmode: AddressingMode::ZP0, cycles: 3, official: true },
        0xE5 => Instruction { operate: Operation::SBC, addrmode: AddressingMode::ZP0, cycles: 3, official: true },
        0xE6 => Instruction { operate: Operation::INC, addrmode: AddressingMode::ZP0, cycles: 5, official: true },
        0xE7 => Instruction { operate: Operation::XXX, addrmode: AddressingMode::IMP, cycles: 5, official: false },
        0xE8 => Instruction { operate: Operation::INX, addrmode: AddressingMode::IMP, cycles: 2, official: true },
        0xE9 => Instruction { operate: Operation::SBC, addrmode: AddressingMode::IMM, cycles: 2, official: true },
        0xEA => Instruction { operate: Operation::NOP, addrmode: AddressingMode::IMP, cycles: 2, official: true },
        0xEB => Instruction { operate: Operation::SBC, addrmode: AddressingMode::IMP, cycles: 2, official: false },
        0xEC => Instruction { operate: Operation::CPX, addrmode: AddressingMode::ABS, cycles: 4, official: true },
        0xED => Instruction { operate: Operation::SBC, addrmode: AddressingMode::ABS, cycles: 4, official: true },
        0xEE => Instruction { operate: Operation::INC, addrmode: AddressingMode::ABS, cycles: 6, official: true },
        0xEF => Instruction { operate: Operation::XXX, addrmode: AddressingMode::IMP, cycles: 6, official: false },
        0xF0 => Instruction { operate: Operation::BEQ, addrmode: AddressingMode::REL, cycles: 2, official: true },
        0xF1 => Instruction { operate: Operation::SBC, addrmode: AddressingMode::IZY, cycles: 5, official: true },
        0xF2 => Instruction { operate: Operation::XXX, addrmode: AddressingMode::IMP, cycles: 2, official: false },
        0xF3 => Instruction { operate: Operation::XXX, addrmode: AddressingMode::IMP, cycles: 8, official: false },
        0xF4 => Instruction { operate: Operation::NOP, addrmode: AddressingMode::IMP, cycles: 4, official: false },
        0xF5 => Instruction { operate: Operation::SBC, addrmode: AddressingMode::ZPX, cycles: 4, official: true },
        0xF6 => Instruction { operate: Operation::INC, addrmode: AddressingMode::ZPX, cycles: 6, official: true },
        0xF7 => Instruction { operate: Operation::XXX, addrmode: AddressingMode::IMP, cycles: 6, official: false },
        0xF8 => Instruction { operate: Operation::SED, addrmode: AddressingMode::IMP, cycles: 2, official: true },
        0xF9 => Instruction { operate: Operation::SBC, addrmode: AddressingMode::ABY, cycles: 4, official: true },
        0xFA => Instruction { operate: Operation::NOP, addrmode: AddressingMode::IMP, cycles: 2, official: true },
        0xFB => Instruction { operate: Operation::XXX, addrmode: AddressingMode::IMP, cycles: 7, official: false },
        0xFC => Instruction { operate: Operation::NOP, addrmode: AddressingMode::IMP, cycles: 4, official: false },
        0xFD => Instruction { operate: Operation::SBC, addrmode: AddressingMode::ABX, cycles: 4, official: true },
        0xFE => Instruction { operate: Operation::INC, addrmode: AddressingMode::ABX, cycles: 7, official: true },
        _ => Instruction { operate: Operation::XXX, addrmode: AddressingMode::IMP, cycles: 7, official: false },
    }
}

} // verus!
