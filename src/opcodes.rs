//! The operations. Each works on the operand that the addressing mode
//! resolved, sets the flags it documents, and reports whether it may take an
//! extra cycle when the addressing mode also asks for one.
use vstd::prelude::*;
use crate::addressing::join;
use crate::arith::{wadd16, wadd8, wrap_add, wrap_add16, wrap_sub, wrap_sub16, wsub16, wsub8};
use crate::cpu::{high_byte, low_byte, read_vector, Cpu6502, IRQ_PROGRAM_COUNTER};
use crate::flags::{
    Flags6502, FLAG_B, FLAG_C, FLAG_D, FLAG_I, FLAG_N, FLAG_U, FLAG_V, FLAG_Z,
};
use crate::instruction::Operation;
use crate::memory::{MemView, SystemMemory};

verus! {

/// The operations that may add a cycle when their addressing mode crosses a page.
pub open spec fn op_extra(op: Operation) -> bool {
    match op {
        Operation::ADC | Operation::AND | Operation::CMP | Operation::EOR | Operation::LDA
        | Operation::LDX | Operation::LDY | Operation::ORA | Operation::SBC => true,
        _ => false,
    }
}

impl Cpu6502 {
    /// `A + value + C`, with Carry, Zero, Negative and Overflow from the
    /// untruncated sum; the accumulator keeps its low byte.
    pub open spec fn add_into_a(self, value: u8) -> Cpu6502 {
        let temp: u16 = (self.a as u16 + value as u16 + if self.flag(FLAG_C) {
            1u16
        } else {
            0u16
        }) as u16;
        let c = self.with_flag(FLAG_C, temp > 0xFF).with_flag(FLAG_Z, temp & 0x00FF == 0).with_flag(
            FLAG_N,
            temp & 0x0080 != 0,
        ).with_flag(FLAG_V, ((self.a as u16 ^ temp) & (value as u16 ^ temp) & 0x0080) != 0);
        Cpu6502 { a: (temp & 0x00FF) as u8, ..c }
    }

    /// A shift or rotate result goes to the accumulator under Implied
    /// addressing, and to memory at `addr_abs` otherwise.
    pub open spec fn store_result(self, m: MemView, v: u8) -> (Cpu6502, MemView) {
        if self.implied() {
            (Cpu6502 { a: v, ..self }, m)
        } else {
            (self, m.write(self.addr_abs, v))
        }
    }

    /// Taking a branch: one more cycle, one more again when the target lies in
    /// another page than the program counter.
    pub open spec fn branch_spec(self) -> Cpu6502 {
        let new_addr = wadd16(self.pc, self.addr_rel);
        let c1 = (self.cycles + 1) as u8;
        let c2 = if (new_addr & 0xFF00) != (self.pc & 0xFF00) {
            (c1 + 1) as u8
        } else {
            c1
        };
        Cpu6502 { cycles: c2, pc: new_addr, ..self }
    }

    pub open spec fn branch_if(self, cond: bool) -> Cpu6502 {
        if cond {
            self.branch_spec()
        } else {
            self
        }
    }

    /// Compares `reg` with the operand.
    pub open spec fn compare_spec(self, reg: u8) -> Cpu6502 {
        let value = wsub16(reg as u16, self.fetched as u16);
        self.with_flag(FLAG_C, reg >= self.fetched).with_flag(FLAG_Z, value & 0x00FF == 0).with_flag(
            FLAG_N,
            value & 0x0080 != 0,
        )
    }

    /// The state after operation `op`, with the address space after it.
    pub open spec fn operate_spec(self, op: Operation, m: MemView) -> (Cpu6502, MemView) {
        let f = self.with_fetched(m);
        match op {
            Operation::ADC => (f.add_into_a(f.fetched), m),
            Operation::SBC => (f.add_into_a(!f.fetched), m),
            Operation::AND => {
                let v = f.a & f.fetched;
                (Cpu6502 { a: v, ..f }.with_zn(v), m)
            },
            Operation::EOR => {
                let v = f.a ^ f.fetched;
                (Cpu6502 { a: v, ..f }.with_zn(v), m)
            },
            Operation::ORA => {
                let v = f.a | f.fetched;
                (Cpu6502 { a: v, ..f }.with_zn(v), m)
            },
            Operation::ASL => {
                let temp: u16 = (f.fetched as u16) << 1;
                f.with_flag(FLAG_C, temp & 0xFF00 != 0).with_flag(FLAG_Z, temp & 0x00FF == 0).with_flag(
                    FLAG_N,
                    temp & 0x0080 != 0,
                ).store_result(m, (temp & 0x00FF) as u8)
            },
            Operation::LSR => {
                let v = f.fetched >> 1;
                f.with_flag(FLAG_N, false).with_flag(FLAG_Z, v == 0).with_flag(
                    FLAG_C,
                    f.fetched & 1 != 0,
                ).store_result(m, v)
            },
            Operation::ROL => {
                let t: u16 = (f.fetched as u16) << 1;
                let t2: u16 = t | if t & 0x0100 != 0 {
                    1u16
                } else {
                    0u16
                };
                let v = (t2 & 0x00FF) as u8;
                f.with_flag(FLAG_C, t2 & 0xFF00 != 0).with_zn(v).store_result(m, v)
            },
            Operation::ROR => {
                let v = (f.fetched >> 1) | ((f.fetched & 1) << 7);
                f.with_flag(FLAG_C, f.fetched & 1 != 0).with_zn(v).store_result(m, v)
            },
            Operation::BCC => (self.branch_if(!self.flag(FLAG_C)), m),
            Operation::BCS => (self.branch_if(self.flag(FLAG_C)), m),
            Operation::BEQ => (self.branch_if(self.flag(FLAG_Z)), m),
            Operation::BNE => (self.branch_if(!self.flag(FLAG_Z)), m),
            Operation::BPL => (self.branch_if(!self.flag(FLAG_N)), m),
            Operation::BMI => (self.branch_if(self.flag(FLAG_N)), m),
            Operation::BVC => (self.branch_if(!self.flag(FLAG_V)), m),
            Operation::BVS => (self.branch_if(self.flag(FLAG_V)), m),
            Operation::BIT => {
                let temp = f.a & f.fetched;
                (
                    f.with_flag(FLAG_Z, temp == 0).with_flag(FLAG_N, f.fetched & 0x80 != 0).with_flag(
                        FLAG_V,
                        f.fetched & 0x40 != 0,
                    ),
                    m,
                )
            },
            Operation::BRK => {
                let c0 = Cpu6502 { pc: wadd16(self.pc, 1), ..self }.with_flag(FLAG_I, true);
                let (c1, m1) = c0.push_spec(m, high_byte(c0.pc));
                let (c2, m2) = c1.push_spec(m1, low_byte(c0.pc));
                let c3 = c2.with_flag(FLAG_B, true).with_flag(FLAG_U, true);
                let (c4, m4) = c3.push_spec(m2, c3.status.bits);
                let c5 = c4.with_flag(FLAG_B, false).with_flag(FLAG_U, false);
                (Cpu6502 { pc: read_vector(m4, IRQ_PROGRAM_COUNTER), ..c5 }, m4)
            },
            Operation::CLC => (self.with_flag(FLAG_C, false), m),
            Operation::CLD => (self.with_flag(FLAG_D, false), m),
            Operation::CLI => (self.with_flag(FLAG_I, false), m),
            Operation::CLV => (self.with_flag(FLAG_V, false), m),
            Operation::SEC => (self.with_flag(FLAG_C, true), m),
            Operation::SED => (self.with_flag(FLAG_D, true), m),
            Operation::SEI => (self.with_flag(FLAG_I, true), m),
            Operation::CMP => (f.compare_spec(f.a), m),
            Operation::CPX => (f.compare_spec(f.x), m),
            Operation::CPY => (f.compare_spec(f.y), m),
            Operation::DEC => {
                let v = wsub8(f.fetched, 1);
                (f.with_zn(v), m.write(f.addr_abs, v))
            },
            Operation::INC => {
                let v = wadd8(f.fetched, 1);
                (f.with_zn(v), m.write(f.addr_abs, v))
            },
            Operation::DEX => {
                let v = wsub8(self.x, 1);
                (Cpu6502 { x: v, ..self }.with_zn(v), m)
            },
            Operation::DEY => {
                let v = wsub8(self.y, 1);
                (Cpu6502 { y: v, ..self }.with_zn(v), m)
            },
            Operation::INX => {
                let v = wadd8(self.x, 1);
                (Cpu6502 { x: v, ..self }.with_zn(v), m)
            },
            Operation::INY => {
                let v = wadd8(self.y, 1);
                (Cpu6502 { y: v, ..self }.with_zn(v), m)
            },
            Operation::JMP => (Cpu6502 { pc: self.addr_abs, ..self }, m),
            Operation::JSR => {
                let ret = wsub16(self.pc, 1);
                let (c1, m1) = Cpu6502 { pc: ret, ..self }.push_spec(m, high_byte(ret));
                let (c2, m2) = c1.push_spec(m1, low_byte(ret));
                (Cpu6502 { pc: self.addr_abs, ..c2 }, m2)
            },
            Operation::LDA => (Cpu6502 { a: f.fetched, ..f }.with_zn(f.fetched), m),
            Operation::LDX => (Cpu6502 { x: f.fetched, ..f }.with_zn(f.fetched), m),
            Operation::LDY => (Cpu6502 { y: f.fetched, ..f }.with_zn(f.fetched), m),
            Operation::NOP | Operation::XXX => (self, m),
            Operation::PHA => self.push_spec(m, self.a),
            Operation::PHP => self.push_spec(m, self.status.bits | FLAG_B | FLAG_U),
            Operation::PLA => {
                let (c1, v) = self.pop_spec(m);
                (Cpu6502 { a: v, ..c1 }.with_zn(v), m)
            },
            Operation::PLP => {
                let (c1, v) = self.pop_spec(m);
                (Cpu6502 { status: Flags6502 { bits: v }, ..c1 }.with_flag(FLAG_U, true), m)
            },
            Operation::RTI => {
                let (c1, s) = self.pop_spec(m);
                let c2 = Cpu6502 { status: Flags6502 { bits: s }, ..c1 }.with_flag(
                    FLAG_B,
                    false,
                ).with_flag(FLAG_U, false);
                let (c3, lo) = c2.pop_spec(m);
                let (c4, hi) = c3.pop_spec(m);
                (Cpu6502 { pc: join(hi, lo), ..c4 }, m)
            },
            Operation::RTS => {
                let (c1, lo) = self.pop_spec(m);
                let (c2, hi) = c1.pop_spec(m);
                (Cpu6502 { pc: wadd16(join(hi, lo), 1), ..c2 }, m)
            },
            Operation::STA => (self, m.write(self.addr_abs, self.a)),
            Operation::STX => (self, m.write(self.addr_abs, self.x)),
            Operation::STY => (self, m.write(self.addr_abs, self.y)),
            Operation::TAX => (Cpu6502 { x: self.a, ..self }.with_zn(self.a), m),
            Operation::TAY => (Cpu6502 { y: self.a, ..self }.with_zn(self.a), m),
            Operation::TSX => (Cpu6502 { x: self.stkp, ..self }.with_zn(self.stkp), m),
            Operation::TXA => (Cpu6502 { a: self.x, ..self }.with_zn(self.x), m),
            Operation::TXS => (Cpu6502 { stkp: self.x, ..self }, m),
            Operation::TYA => (Cpu6502 { a: self.y, ..self }.with_zn(self.y), m),
        }
    }
}

impl Cpu6502 {
    fn add_with_carry(&mut self, value: u8)
        ensures
            *final(self) == old(self).add_into_a(value),
    {
        let carry: u16 = if self.status.bits & FLAG_C != 0 {
            1
        } else {
            0
        };
        let temp: u16 = self.a as u16 + value as u16 + carry;
        let a = self.a;
        self.set_flag(Flags6502 { bits: FLAG_C }, temp > 0xFF);
        self.set_flag(Flags6502 { bits: FLAG_Z }, temp & 0x00FF == 0);
        self.set_flag(Flags6502 { bits: FLAG_N }, temp & 0x0080 != 0);
        self.set_flag(Flags6502 { bits: FLAG_V }, ((a as u16 ^ temp) & (value as u16 ^ temp) & 0x0080) != 0);
        self.a = (temp & 0x00FF) as u8;
    }

    fn write_result(&mut self, bus: &mut SystemMemory, v: u8)
        ensures
            (*final(self), final(bus)@) == old(self).store_result(old(bus)@, v),
    {
        if self.is_implied() {
            self.a = v;
        } else {
            bus.write(self.addr_abs, v);
        }
    }

    fn compare(&mut self, reg: u8)
        ensures
            *final(self) == old(self).compare_spec(reg),
    {
        let value = wrap_sub16(reg as u16, self.fetched as u16);
        let f = self.fetched;
        self.set_flag(Flags6502 { bits: FLAG_C }, reg >= f);
        self.set_flag(Flags6502 { bits: FLAG_Z }, value & 0x00FF == 0);
        self.set_flag(Flags6502 { bits: FLAG_N }, value & 0x0080 != 0);
    }

    /// Takes the branch to `pc + addr_rel`.
    pub fn branch(&mut self)
        requires
            old(self).cycles <= 253,
        ensures
            *final(self) == old(self).branch_spec(),
    {
        self.cycles = self.cycles + 1;
        let new_addr = wrap_add16(self.pc, self.addr_rel);
        if (new_addr & 0xFF00) != (self.pc & 0xFF00) {
            self.cycles = self.cycles + 1;
        }
        self.pc = new_addr;
    }

    /// Add with carry: `A + M + C`.
    #[allow(non_snake_case)]
    pub fn ADC(&mut self, bus: &SystemMemory) -> (r: bool)
        ensures
            *final(self) == old(self).operate_spec(Operation::ADC, bus@).0,
            r == op_extra(Operation::ADC),
    {
        self.fetch(bus);
        let v = self.fetched;
        self.add_with_carry(v);
        true
    }

    /// Bitwise and of the accumulator with the operand.
    #[allow(non_snake_case)]
    pub fn AND(&mut self, bus: &SystemMemory) -> (r: bool)
        ensures
            *final(self) == old(self).operate_spec(Operation::AND, bus@).0,
            r == op_extra(Operation::AND),
    {
        self.fetch(bus);
        self.a = self.a & self.fetched;
        let v = self.a;
        self.set_zn(v);
        true
    }

    /// Arithmetic shift left of the accumulator (Implied) or of memory.
    #[allow(non_snake_case)]
    pub fn ASL(&mut self, bus: &mut SystemMemory) -> (r: bool)
        ensures
            (*final(self), final(bus)@) == old(self).operate_spec(Operation::ASL, old(bus)@),
            r == op_extra(Operation::ASL),
    {
        self.fetch(bus);
        let temp: u16 = (self.fetched as u16) << 1;
        self.set_flag(Flags6502 { bits: FLAG_C }, temp & 0xFF00 != 0);
        self.set_flag(Flags6502 { bits: FLAG_Z }, temp & 0x00FF == 0);
        self.set_flag(Flags6502 { bits: FLAG_N }, temp & 0x0080 != 0);
        self.write_result(bus, (temp & 0x00FF) as u8);
        false
    }

    /// Branches when C is clear.
    #[allow(non_snake_case)]
    pub fn BCC(&mut self) -> (r: bool)
        requires
            old(self).cycles <= 253,
        ensures
            forall|m: MemView| (*final(self), m) == #[trigger] old(self).operate_spec(Operation::BCC, m),
            r == op_extra(Operation::BCC),
    {
        if self.status.bits & FLAG_C == 0 {
            self.branch();
        }
        false
    }

    /// Branches when C is set.
    #[allow(non_snake_case)]
    pub fn BCS(&mut self) -> (r: bool)
        requires
            old(self).cycles <= 253,
        ensures
            forall|m: MemView| (*final(self), m) == #[trigger] old(self).operate_spec(Operation::BCS, m),
            r == op_extra(Operation::BCS),
    {
        if self.status.bits & FLAG_C != 0 {
            self.branch();
        }
        false
    }

    /// Branches when Z is set.
    #[allow(non_snake_case)]
    pub fn BEQ(&mut self) -> (r: bool)
        requires
            old(self).cycles <= 253,
        ensures
            forall|m: MemView| (*final(self), m) == #[trigger] old(self).operate_spec(Operation::BEQ, m),
            r == op_extra(Operation::BEQ),
    {
        if self.status.bits & FLAG_Z != 0 {
            self.branch();
        }
        false
    }

    /// Tests the accumulator against the operand: Zero from `A & M`, Negative and Overflow from bits 7 and 6 of the operand.
    #[allow(non_snake_case)]
    pub fn BIT(&mut self, bus: &SystemMemory) -> (r: bool)
        ensures
            *final(self) == old(self).operate_spec(Operation::BIT, bus@).0,
            r == op_extra(Operation::BIT),
    {
        self.fetch(bus);
        let temp = self.a & self.fetched;
        let f = self.fetched;
        self.set_flag(Flags6502 { bits: FLAG_Z }, temp == 0);
        self.set_flag(Flags6502 { bits: FLAG_N }, f & 0x80 != 0);
        self.set_flag(Flags6502 { bits: FLAG_V }, f & 0x40 != 0);
        false
    }

    /// Branches when N is set.
    #[allow(non_snake_case)]
    pub fn BMI(&mut self) -> (r: bool)
        requires
            old(self).cycles <= 253,
        ensures
            forall|m: MemView| (*final(self), m) == #[trigger] old(self).operate_spec(Operation::BMI, m),
            r == op_extra(Operation::BMI),
    {
        if self.status.bits & FLAG_N != 0 {
            self.branch();
        }
        false
    }

    /// Branches when Z is clear.
    #[allow(non_snake_case)]
    pub fn BNE(&mut self) -> (r: bool)
        requires
            old(self).cycles <= 253,
        ensures
            forall|m: MemView| (*final(self), m) == #[trigger] old(self).operate_spec(Operation::BNE, m),
            r == op_extra(Operation::BNE),
    {
        if self.status.bits & FLAG_Z == 0 {
            self.branch();
        }
        false
    }

    /// Branches when N is clear.
    #[allow(non_snake_case)]
    pub fn BPL(&mut self) -> (r: bool)
        requires
            old(self).cycles <= 253,
        ensures
            forall|m: MemView| (*final(self), m) == #[trigger] old(self).operate_spec(Operation::BPL, m),
            r == op_extra(Operation::BPL),
    {
        if self.status.bits & FLAG_N == 0 {
            self.branch();
        }
        false
    }

    /// Break: pushes the program counter past the padding byte and the status with Break and Unused set, then jumps through the interrupt-request vector.
    #[allow(non_snake_case)]
    pub fn BRK(&mut self, bus: &mut SystemMemory) -> (r: bool)
        ensures
            (*final(self), final(bus)@) == old(self).operate_spec(Operation::BRK, old(bus)@),
            r == op_extra(Operation::BRK),
    {
        self.pc = wrap_add16(self.pc, 1);
        self.set_flag(Flags6502 { bits: FLAG_I }, true);
        let pc = self.pc;
        self.push_stack(bus, (pc >> 8) as u8);
        self.push_stack(bus, (pc & 0x00FF) as u8);
        self.set_flag(Flags6502 { bits: FLAG_B }, true);
        self.set_flag(Flags6502 { bits: FLAG_U }, true);
        let s = self.status.bits;
        self.push_stack(bus, s);
        self.set_flag(Flags6502 { bits: FLAG_B }, false);
        self.set_flag(Flags6502 { bits: FLAG_U }, false);
        self.pc = Self::read_vector(bus, IRQ_PROGRAM_COUNTER);
        false
    }

    /// Branches when V is clear.
    #[allow(non_snake_case)]
    pub fn BVC(&mut self) -> (r: bool)
        requires
            old(self).cycles <= 253,
        ensures
            forall|m: MemView| (*final(self), m) == #[trigger] old(self).operate_spec(Operation::BVC, m),
            r == op_extra(Operation::BVC),
    {
        if self.status.bits & FLAG_V == 0 {
            self.branch();
        }
        false
    }

    /// Branches when V is set.
    #[allow(non_snake_case)]
    pub fn BVS(&mut self) -> (r: bool)
        requires
            old(self).cycles <= 253,
        ensures
            forall|m: MemView| (*final(self), m) == #[trigger] old(self).operate_spec(Operation::BVS, m),
            r == op_extra(Operation::BVS),
    {
        if self.status.bits & FLAG_V != 0 {
            self.branch();
        }
        false
    }

    /// Clears Carry.
    #[allow(non_snake_case)]
    pub fn CLC(&mut self) -> (r: bool)
        ensures
            forall|m: MemView| (*final(self), m) == #[trigger] old(self).operate_spec(Operation::CLC, m),
            r == op_extra(Operation::CLC),
    {
        self.set_flag(Flags6502 { bits: FLAG_C }, false);
        false
    }

    /// Clears Decimal.
    #[allow(non_snake_case)]
    pub fn CLD(&mut self) -> (r: bool)
        ensures
            forall|m: MemView| (*final(self), m) == #[trigger] old(self).operate_spec(Operation::CLD, m),
            r == op_extra(Operation::CLD),
    {
        self.set_flag(Flags6502 { bits: FLAG_D }, false);
        false
    }

    /// Clears Interrupt-Disable.
    #[allow(non_snake_case)]
    pub fn CLI(&mut self) -> (r: bool)
        ensures
            forall|m: MemView| (*final(self), m) == #[trigger] old(self).operate_spec(Operation::CLI, m),
            r == op_extra(Operation::CLI),
    {
        self.set_flag(Flags6502 { bits: FLAG_I }, false);
        false
    }

    /// Clears Overflow.
    #[allow(non_snake_case)]
    pub fn CLV(&mut self) -> (r: bool)
        ensures
            forall|m: MemView| (*final(self), m) == #[trigger] old(self).operate_spec(Operation::CLV, m),
            r == op_extra(Operation::CLV),
    {
        self.set_flag(Flags6502 { bits: FLAG_V }, false);
        false
    }

    /// Compares the accumulator with the operand.
    #[allow(non_snake_case)]
    pub fn CMP(&mut self, bus: &SystemMemory) -> (r: bool)
        ensures
            *final(self) == old(self).operate_spec(Operation::CMP, bus@).0,
            r == op_extra(Operation::CMP),
    {
        self.fetch(bus);
        let reg = self.a;
        self.compare(reg);
        true
    }

    /// Compares X with the operand.
    #[allow(non_snake_case)]
    pub fn CPX(&mut self, bus: &SystemMemory) -> (r: bool)
        ensures
            *final(self) == old(self).operate_spec(Operation::CPX, bus@).0,
            r == op_extra(Operation::CPX),
    {
        self.fetch(bus);
        let reg = self.x;
        self.compare(reg);
        false
    }

    /// Compares Y with the operand.
    #[allow(non_snake_case)]
    pub fn CPY(&mut self, bus: &SystemMemory) -> (r: bool)
        ensures
            *final(self) == old(self).operate_spec(Operation::CPY, bus@).0,
            r == op_extra(Operation::CPY),
    {
        self.fetch(bus);
        let reg = self.y;
        self.compare(reg);
        false
    }

    /// Decrements the byte in memory.
    #[allow(non_snake_case)]
    pub fn DEC(&mut self, bus: &mut SystemMemory) -> (r: bool)
        ensures
            (*final(self), final(bus)@) == old(self).operate_spec(Operation::DEC, old(bus)@),
            r == op_extra(Operation::DEC),
    {
        self.fetch(bus);
        let v = wrap_sub(self.fetched, 1);
        bus.write(self.addr_abs, v);
        self.set_zn(v);
        false
    }

    /// Decrements X.
    #[allow(non_snake_case)]
    pub fn DEX(&mut self) -> (r: bool)
        ensures
            forall|m: MemView| (*final(self), m) == #[trigger] old(self).operate_spec(Operation::DEX, m),
            r == op_extra(Operation::DEX),
    {
        self.x = wrap_sub(self.x, 1);
        let v = self.x;
        self.set_zn(v);
        false
    }

    /// Decrements Y.
    #[allow(non_snake_case)]
    pub fn DEY(&mut self) -> (r: bool)
        ensures
            forall|m: MemView| (*final(self), m) == #[trigger] old(self).operate_spec(Operation::DEY, m),
            r == op_extra(Operation::DEY),
    {
        self.y = wrap_sub(self.y, 1);
        let v = self.y;
        self.set_zn(v);
        false
    }

    /// Exclusive or of the accumulator with the operand.
    #[allow(non_snake_case)]
    pub fn EOR(&mut self, bus: &SystemMemory) -> (r: bool)
        ensures
            *final(self) == old(self).operate_spec(Operation::EOR, bus@).0,
            r == op_extra(Operation::EOR),
    {
        self.fetch(bus);
        self.a = self.a ^ self.fetched;
        let v = self.a;
        self.set_zn(v);
        true
    }

    /// Increments the byte in memory.
    #[allow(non_snake_case)]
    pub fn INC(&mut self, bus: &mut SystemMemory) -> (r: bool)
        ensures
            (*final(self), final(bus)@) == old(self).operate_spec(Operation::INC, old(bus)@),
            r == op_extra(Operation::INC),
    {
        self.fetch(bus);
        let v = wrap_add(self.fetched, 1);
        bus.write(self.addr_abs, v);
        self.set_zn(v);
        false
    }

    /// Increments X.
    #[allow(non_snake_case)]
    pub fn INX(&mut self) -> (r: bool)
        ensures
            forall|m: MemView| (*final(self), m) == #[trigger] old(self).operate_spec(Operation::INX, m),
            r == op_extra(Operation::INX),
    {
        self.x = wrap_add(self.x, 1);
        let v = self.x;
        self.set_zn(v);
        false
    }

    /// Increments Y.
    #[allow(non_snake_case)]
    pub fn INY(&mut self) -> (r: bool)
        ensures
            forall|m: MemView| (*final(self), m) == #[trigger] old(self).operate_spec(Operation::INY, m),
            r == op_extra(Operation::INY),
    {
        self.y = wrap_add(self.y, 1);
        let v = self.y;
        self.set_zn(v);
        false
    }

    /// Jumps to the resolved address.
    #[allow(non_snake_case)]
    pub fn JMP(&mut self) -> (r: bool)
        ensures
            forall|m: MemView| (*final(self), m) == #[trigger] old(self).operate_spec(Operation::JMP, m),
            r == op_extra(Operation::JMP),
    {
        self.pc = self.addr_abs;
        false
    }

    /// Jump to subroutine: pushes the address of the last operand byte, high byte first.
    #[allow(non_snake_case)]
    pub fn JSR(&mut self, bus: &mut SystemMemory) -> (r: bool)
        ensures
            (*final(self), final(bus)@) == old(self).operate_spec(Operation::JSR, old(bus)@),
            r == op_extra(Operation::JSR),
    {
        self.pc = wrap_sub16(self.pc, 1);
        let ret = self.pc;
        self.push_stack(bus, (ret >> 8) as u8);
        self.push_stack(bus, (ret & 0x00FF) as u8);
        self.pc = self.addr_abs;
        false
    }

    /// Loads the accumulator.
    #[allow(non_snake_case)]
    pub fn LDA(&mut self, bus: &SystemMemory) -> (r: bool)
        ensures
            *final(self) == old(self).operate_spec(Operation::LDA, bus@).0,
            r == op_extra(Operation::LDA),
    {
        self.fetch(bus);
        self.a = self.fetched;
        let v = self.a;
        self.set_zn(v);
        true
    }

    /// Loads X.
    #[allow(non_snake_case)]
    pub fn LDX(&mut self, bus: &SystemMemory) -> (r: bool)
        ensures
            *final(self) == old(self).operate_spec(Operation::LDX, bus@).0,
            r == op_extra(Operation::LDX),
    {
        self.fetch(bus);
        self.x = self.fetched;
        let v = self.x;
        self.set_zn(v);
        true
    }

    /// Loads Y.
    #[allow(non_snake_case)]
    pub fn LDY(&mut self, bus: &SystemMemory) -> (r: bool)
        ensures
            *final(self) == old(self).operate_spec(Operation::LDY, bus@).0,
            r == op_extra(Operation::LDY),
    {
        self.fetch(bus);
        self.y = self.fetched;
        let v = self.y;
        self.set_zn(v);
        true
    }

    /// Logical shift right of the accumulator (Implied) or of memory.
    #[allow(non_snake_case)]
    pub fn LSR(&mut self, bus: &mut SystemMemory) -> (r: bool)
        ensures
            (*final(self), final(bus)@) == old(self).operate_spec(Operation::LSR, old(bus)@),
            r == op_extra(Operation::LSR),
    {
        self.fetch(bus);
        let v = self.fetched >> 1;
        self.set_flag(Flags6502 { bits: FLAG_N }, false);
        self.set_flag(Flags6502 { bits: FLAG_Z }, v == 0);
        let f = self.fetched;
        self.set_flag(Flags6502 { bits: FLAG_C }, f & 1 != 0);
        self.write_result(bus, v);
        false
    }

    /// Does nothing.
    #[allow(non_snake_case)]
    pub fn NOP(&mut self) -> (r: bool)
        ensures
            forall|m: MemView| (*final(self), m) == #[trigger] old(self).operate_spec(Operation::NOP, m),
            r == op_extra(Operation::NOP),
    {
        false
    }

    /// Bitwise or of the accumulator with the operand.
    #[allow(non_snake_case)]
    pub fn ORA(&mut self, bus: &SystemMemory) -> (r: bool)
        ensures
            *final(self) == old(self).operate_spec(Operation::ORA, bus@).0,
            r == op_extra(Operation::ORA),
    {
        self.fetch(bus);
        self.a = self.a | self.fetched;
        let v = self.a;
        self.set_zn(v);
        true
    }

    /// Pushes the accumulator.
    #[allow(non_snake_case)]
    pub fn PHA(&mut self, bus: &mut SystemMemory) -> (r: bool)
        ensures
            (*final(self), final(bus)@) == old(self).operate_spec(Operation::PHA, old(bus)@),
            r == op_extra(Operation::PHA),
    {
        let a = self.a;
        self.push_stack(bus, a);
        false
    }

    /// Pushes the status with Break and Unused set.
    #[allow(non_snake_case)]
    pub fn PHP(&mut self, bus: &mut SystemMemory) -> (r: bool)
        ensures
            (*final(self), final(bus)@) == old(self).operate_spec(Operation::PHP, old(bus)@),
            r == op_extra(Operation::PHP),
    {
        let s = self.status.bits | FLAG_B | FLAG_U;
        self.push_stack(bus, s);
        false
    }

    /// Pops the accumulator.
    #[allow(non_snake_case)]
    pub fn PLA(&mut self, bus: &SystemMemory) -> (r: bool)
        ensures
            *final(self) == old(self).operate_spec(Operation::PLA, bus@).0,
            r == op_extra(Operation::PLA),
    {
        self.a = self.pop_stack(bus);
        let v = self.a;
        self.set_zn(v);
        false
    }

    /// Pops the status, with Unused forced set.
    #[allow(non_snake_case)]
    pub fn PLP(&mut self, bus: &SystemMemory) -> (r: bool)
        ensures
            *final(self) == old(self).operate_spec(Operation::PLP, bus@).0,
            r == op_extra(Operation::PLP),
    {
        let s = self.pop_stack(bus);
        self.status = Flags6502 { bits: s };
        self.set_flag(Flags6502 { bits: FLAG_U }, true);
        false
    }

    /// Rotate left: bit 7 moves into bit 0 and into Carry.
    #[allow(non_snake_case)]
    pub fn ROL(&mut self, bus: &mut SystemMemory) -> (r: bool)
        ensures
            (*final(self), final(bus)@) == old(self).operate_spec(Operation::ROL, old(bus)@),
            r == op_extra(Operation::ROL),
    {
        self.fetch(bus);
        let t: u16 = (self.fetched as u16) << 1;
        let t2: u16 = t | if t & 0x0100 != 0 {
            1u16
        } else {
            0u16
        };
        self.set_flag(Flags6502 { bits: FLAG_C }, t2 & 0xFF00 != 0);
        let v = (t2 & 0x00FF) as u8;
        self.set_zn(v);
        self.write_result(bus, v);
        false
    }

    /// Rotate right: bit 0 moves into bit 7 and into Carry.
    #[allow(non_snake_case)]
    pub fn ROR(&mut self, bus: &mut SystemMemory) -> (r: bool)
        ensures
            (*final(self), final(bus)@) == old(self).operate_spec(Operation::ROR, old(bus)@),
            r == op_extra(Operation::ROR),
    {
        self.fetch(bus);
        let f = self.fetched;
        let v = (f >> 1) | ((f & 1) << 7);
        self.set_flag(Flags6502 { bits: FLAG_C }, f & 1 != 0);
        self.set_zn(v);
        self.write_result(bus, v);
        false
    }

    /// Return from interrupt: pops the status (Break and Unused cleared), then the program counter.
    #[allow(non_snake_case)]
    pub fn RTI(&mut self, bus: &SystemMemory) -> (r: bool)
        ensures
            *final(self) == old(self).operate_spec(Operation::RTI, bus@).0,
            r == op_extra(Operation::RTI),
    {
        let s = self.pop_stack(bus);
        self.status = Flags6502 { bits: s };
        self.set_flag(Flags6502 { bits: FLAG_B }, false);
        self.set_flag(Flags6502 { bits: FLAG_U }, false);
        let lo = self.pop_stack(bus) as u16;
        let hi = self.pop_stack(bus) as u16;
        self.pc = (hi << 8) | lo;
        false
    }

    /// Return from subroutine: pops the program counter and steps past the address `JSR` pushed.
    #[allow(non_snake_case)]
    pub fn RTS(&mut self, bus: &SystemMemory) -> (r: bool)
        ensures
            *final(self) == old(self).operate_spec(Operation::RTS, bus@).0,
            r == op_extra(Operation::RTS),
    {
        let lo = self.pop_stack(bus) as u16;
        let hi = self.pop_stack(bus) as u16;
        self.pc = wrap_add16((hi << 8) | lo, 1);
        false
    }

    /// Subtract with borrow: `A + !M + C`, so that Carry clear means a borrow.
    #[allow(non_snake_case)]
    pub fn SBC(&mut self, bus: &SystemMemory) -> (r: bool)
        ensures
            *final(self) == old(self).operate_spec(Operation::SBC, bus@).0,
            r == op_extra(Operation::SBC),
    {
        self.fetch(bus);
        let v = !self.fetched;
        self.add_with_carry(v);
        true
    }

    /// Sets Carry.
    #[allow(non_snake_case)]
    pub fn SEC(&mut self) -> (r: bool)
        ensures
            forall|m: MemView| (*final(self), m) == #[trigger] old(self).operate_spec(Operation::SEC, m),
            r == op_extra(Operation::SEC),
    {
        self.set_flag(Flags6502 { bits: FLAG_C }, true);
        false
    }

    /// Sets Decimal.
    #[allow(non_snake_case)]
    pub fn SED(&mut self) -> (r: bool)
        ensures
            forall|m: MemView| (*final(self), m) == #[trigger] old(self).operate_spec(Operation::SED, m),
            r == op_extra(Operation::SED),
    {
        self.set_flag(Flags6502 { bits: FLAG_D }, true);
        false
    }

    /// Sets Interrupt-Disable.
    #[allow(non_snake_case)]
    pub fn SEI(&mut self) -> (r: bool)
        ensures
            forall|m: MemView| (*final(self), m) == #[trigger] old(self).operate_spec(Operation::SEI, m),
            r == op_extra(Operation::SEI),
    {
        self.set_flag(Flags6502 { bits: FLAG_I }, true);
        false
    }

    /// Stores the accumulator.
    #[allow(non_snake_case)]
    pub fn STA(&mut self, bus: &mut SystemMemory) -> (r: bool)
        ensures
            (*final(self), final(bus)@) == old(self).operate_spec(Operation::STA, old(bus)@),
            r == op_extra(Operation::STA),
    {
        bus.write(self.addr_abs, self.a);
        false
    }

    /// Stores X.
    #[allow(non_snake_case)]
    pub fn STX(&mut self, bus: &mut SystemMemory) -> (r: bool)
        ensures
            (*final(self), final(bus)@) == old(self).operate_spec(Operation::STX, old(bus)@),
            r == op_extra(Operation::STX),
    {
        bus.write(self.addr_abs, self.x);
        false
    }

    /// Stores Y.
    #[allow(non_snake_case)]
    pub fn STY(&mut self, bus: &mut SystemMemory) -> (r: bool)
        ensures
            (*final(self), final(bus)@) == old(self).operate_spec(Operation::STY, old(bus)@),
            r == op_extra(Operation::STY),
    {
        bus.write(self.addr_abs, self.y);
        false
    }

    /// Transfers a to x.
    #[allow(non_snake_case)]
    pub fn TAX(&mut self) -> (r: bool)
        ensures
            forall|m: MemView| (*final(self), m) == #[trigger] old(self).operate_spec(Operation::TAX, m),
            r == op_extra(Operation::TAX),
    {
        self.x = self.a;
        let v = self.x;
        self.set_zn(v);
        false
    }

    /// Transfers a to y.
    #[allow(non_snake_case)]
    pub fn TAY(&mut self) -> (r: bool)
        ensures
            forall|m: MemView| (*final(self), m) == #[trigger] old(self).operate_spec(Operation::TAY, m),
            r == op_extra(Operation::TAY),
    {
        self.y = self.a;
        let v = self.y;
        self.set_zn(v);
        false
    }

    /// Transfers stkp to x.
    #[allow(non_snake_case)]
    pub fn TSX(&mut self) -> (r: bool)
        ensures
            forall|m: MemView| (*final(self), m) == #[trigger] old(self).operate_spec(Operation::TSX, m),
            r == op_extra(Operation::TSX),
    {
        self.x = self.stkp;
        let v = self.x;
        self.set_zn(v);
        false
    }

    /// Transfers x to a.
    #[allow(non_snake_case)]
    pub fn TXA(&mut self) -> (r: bool)
        ensures
            forall|m: MemView| (*final(self), m) == #[trigger] old(self).operate_spec(Operation::TXA, m),
            r == op_extra(Operation::TXA),
    {
        self.a = self.x;
        let v = self.a;
        self.set_zn(v);
        false
    }

    /// Transfers X to the stack pointer.
    #[allow(non_snake_case)]
    pub fn TXS(&mut self) -> (r: bool)
        ensures
            forall|m: MemView| (*final(self), m) == #[trigger] old(self).operate_spec(Operation::TXS, m),
            r == op_extra(Operation::TXS),
    {
        self.stkp = self.x;
        false
    }

    /// Transfers y to a.
    #[allow(non_snake_case)]
    pub fn TYA(&mut self) -> (r: bool)
        ensures
            forall|m: MemView| (*final(self), m) == #[trigger] old(self).operate_spec(Operation::TYA, m),
            r == op_extra(Operation::TYA),
    {
        self.a = self.y;
        let v = self.a;
        self.set_zn(v);
        false
    }

    /// An undocumented opcode: does nothing.
    #[allow(non_snake_case)]
    pub fn XXX(&mut self) -> (r: bool)
        ensures
            forall|m: MemView| (*final(self), m) == #[trigger] old(self).operate_spec(Operation::XXX, m),
            r == op_extra(Operation::XXX),
    {
        false
    }

    /// Runs operation `op`.
    pub fn operate(&mut self, op: Operation, bus: &mut SystemMemory) -> (r: bool)
        requires
            old(self).cycles <= 253,
        ensures
            (*final(self), final(bus)@) == old(self).operate_spec(op, old(bus)@),
            r == op_extra(op),
    {
        match op {
            Operation::ADC => self.ADC(bus),
            Operation::AND => self.AND(bus),
            Operation::ASL => self.ASL(bus),
            Operation::BCC => self.BCC(),
            Operation::BCS => self.BCS(),
            Operation::BEQ => self.BEQ(),
            Operation::BIT => self.BIT(bus),
            Operation::BMI => self.BMI(),
            Operation::BNE => self.BNE(),
            Operation::BPL => self.BPL(),
            Operation::BRK => self.BRK(bus),
            Operation::BVC => self.BVC(),
            Operation::BVS => self.BVS(),
            Operation::CLC => self.CLC(),
            Operation::CLD => self.CLD(),
            Operation::CLI => self.CLI(),
            Operation::CLV => self.CLV(),
            Operation::CMP => self.CMP(bus),
            Operation::CPX => self.CPX(bus),
            Operation::CPY => self.CPY(bus),
            Operation::DEC => self.DEC(bus),
            Operation::DEX => self.DEX(),
            Operation::DEY => self.DEY(),
            Operation::EOR => self.EOR(bus),
            Operation::INC => self.INC(bus),
            Operation::INX => self.INX(),
            Operation::INY => self.INY(),
            Operation::JMP => self.JMP(),
            Operation::JSR => self.JSR(bus),
            Operation::LDA => self.LDA(bus),
            Operation::LDX => self.LDX(bus),
            Operation::LDY => self.LDY(bus),
            Operation::LSR => self.LSR(bus),
            Operation::NOP => self.NOP(),
            Operation::ORA => self.ORA(bus),
            Operation::PHA => self.PHA(bus),
            Operation::PHP => self.PHP(bus),
            Operation::PLA => self.PLA(bus),
            Operation::PLP => self.PLP(bus),
            Operation::ROL => self.ROL(bus),
            Operation::ROR => self.ROR(bus),
            Operation::RTI => self.RTI(bus),
            Operation::RTS => self.RTS(bus),
            Operation::SBC => self.SBC(bus),
            Operation::SEC => self.SEC(),
            Operation::SED => self.SED(),
            Operation::SEI => self.SEI(),
            Operation::STA => self.STA(bus),
            Operation::STX => self.STX(bus),
            Operation::STY => self.STY(bus),
            Operation::TAX => self.TAX(),
            Operation::TAY => self.TAY(),
            Operation::TSX => self.TSX(),
            Operation::TXA => self.TXA(),
            Operation::TXS => self.TXS(),
            Operation::TYA => self.TYA(),
            Operation::XXX => self.XXX(),
        }
    }
}

} // verus!
