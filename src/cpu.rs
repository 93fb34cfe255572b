//! The processor: registers, the stack, interrupts and the clock step.
use vstd::prelude::*;
use crate::arith::{wadd16, wadd8, wrap_add, wrap_add16, wrap_sub, wsub8};
use crate::flags::{has_flag, with_flag, Flags6502, FLAG_B, FLAG_I, FLAG_N, FLAG_U, FLAG_Z};
use crate::instruction::{lookup, lookup_spec, AddressingMode, Operation};
use crate::opcodes::op_extra;
use crate::arith::{wadd64, wrap_add64};
use crate::memory::{MemView, SystemMemory};

verus! {

/// The stack occupies page 1.
pub const STACK_POINTER_BASE: u16 = 0x0100;
/// Where the program counter is read from on reset.
pub const RESET_PROGRAM_COUNTER: u16 = 0xFFFC;
/// Where the program counter is read from on an interrupt request or `BRK`.
pub const IRQ_PROGRAM_COUNTER: u16 = 0xFFFE;
/// Where the program counter is read from on a non-maskable interrupt.
pub const NMI_PROGRAM_COUNTER: u16 = 0xFFFA;

/// Registers and the state of the instruction in progress.
#[derive(Clone, Copy, Debug, PartialEq, Eq, Structural)]
pub struct Cpu6502 {
    /// Accumulator.
    pub a: u8,
    pub x: u8,
    pub y: u8,
    /// Stack pointer: the next free slot is `0x0100 + stkp`.
    pub stkp: u8,
    pub pc: u16,
    pub status: Flags6502,
    /// The operand of the current instruction, once fetched.
    pub fetched: u8,
    /// The address the addressing mode resolved.
    pub addr_abs: u16,
    /// The sign-extended branch offset the relative mode read.
    pub addr_rel: u16,
    pub opcode: u8,
    /// Cycles left for the current instruction.
    pub cycles: u8,
    /// Cycles run since construction.
    pub cycle_count: u64,
}

/// The address of stack slot `sp`.
pub open spec fn stack_addr(sp: u8) -> u16 {
    (STACK_POINTER_BASE + sp) as u16
}

/// The 16-bit little-endian value at `addr` and `addr + 1`.
pub open spec fn read_vector(m: MemView, addr: u16) -> u16 {
    ((m.read(wadd16(addr, 1)) as u16) << 8) | (m.read(addr) as u16)
}

pub open spec fn high_byte(v: u16) -> u8 {
    (v >> 8) as u8
}

pub open spec fn low_byte(v: u16) -> u8 {
    (v & 0x00FF) as u8
}

impl Cpu6502 {
    pub open spec fn flag(self, f: u8) -> bool {
        has_flag(self.status.bits, f)
    }

    pub open spec fn with_flag(self, f: u8, on: bool) -> Cpu6502 {
        Cpu6502 { status: Flags6502 { bits: with_flag(self.status.bits, f, on) }, ..self }
    }

    /// Zero and Negative set from `v`.
    pub open spec fn with_zn(self, v: u8) -> Cpu6502 {
        self.with_flag(FLAG_Z, v == 0).with_flag(FLAG_N, v & 0x80 != 0)
    }

    /// True when the current instruction's addressing mode is Implied.
    pub open spec fn implied(self) -> bool {
        lookup_spec(self.opcode).addrmode == AddressingMode::IMP
    }

    /// The operand: the accumulator under Implied addressing, else the byte at `addr_abs`.
    pub open spec fn operand(self, m: MemView) -> u8 {
        if self.implied() {
            self.a
        } else {
            m.read(self.addr_abs)
        }
    }

    pub open spec fn with_fetched(self, m: MemView) -> Cpu6502 {
        Cpu6502 { fetched: self.operand(m), ..self }
    }

    /// Pushing `data`: it is written at the stack slot, then the pointer moves down.
    pub open spec fn push_spec(self, m: MemView, data: u8) -> (Cpu6502, MemView) {
        (Cpu6502 { stkp: wsub8(self.stkp, 1), ..self }, m.write(stack_addr(self.stkp), data))
    }

    /// Popping: the pointer moves up, then the slot is read.
    pub open spec fn pop_spec(self, m: MemView) -> (Cpu6502, u8) {
        let sp = wadd8(self.stkp, 1);
        (Cpu6502 { stkp: sp, ..self }, m.read(stack_addr(sp)))
    }

    /// The state on power-up.
    pub open spec fn initial() -> Cpu6502 {
        Cpu6502 {
            a: 0,
            x: 0,
            y: 0,
            stkp: 0xFD,
            pc: 0,
            status: Flags6502 { bits: FLAG_I },
            fetched: 0,
            addr_abs: 0,
            addr_rel: 0,
            opcode: 0,
            cycles: 0,
            cycle_count: 7,
        }
    }

    pub fn new() -> (r: Self)
        ensures
            r == Cpu6502::initial(),
    {
        Cpu6502 {
            a: 0,
            x: 0,
            y: 0,
            stkp: 0xFD,
            pc: 0,
            status: Flags6502 { bits: FLAG_I },
            fetched: 0,
            addr_abs: 0,
            addr_rel: 0,
            opcode: 0,
            cycles: 0,
            cycle_count: 7,
        }
    }

    pub fn get_acc(&self) -> (r: u8)
        ensures
            r == self.a,
    {
        self.a
    }

    pub fn get_x(&self) -> (r: u8)
        ensures
            r == self.x,
    {
        self.x
    }

    pub fn get_y(&self) -> (r: u8)
        ensures
            r == self.y,
    {
        self.y
    }

    pub fn get_stack_pointer(&self) -> (r: u16)
        ensures
            r == self.stkp as u16,
    {
        self.stkp as u16
    }

    /// Sets the stack pointer to the low byte of `value`.
    pub fn set_stack_pointer(&mut self, value: u16)
        ensures
            *final(self) == (Cpu6502 { stkp: value as u8, ..*old(self) }),
    {
        self.stkp = value as u8;
    }

    pub fn set_program_counter(&mut self, value: u16)
        ensures
            *final(self) == (Cpu6502 { pc: value, ..*old(self) }),
    {
        self.pc = value;
    }

    pub fn get_program_counter(&self) -> (r: u16)
        ensures
            r == self.pc,
    {
        self.pc
    }

    pub fn get_status(&self) -> (r: Flags6502)
        ensures
            r == self.status,
    {
        self.status
    }

    /// True when any bit of `flag` is set in the status register.
    pub fn get_flag(&self, flag: Flags6502) -> (r: bool)
        ensures
            r == has_flag(self.status.bits, flag.bits),
    {
        self.status.bits & flag.bits != 0
    }

    /// Sets or clears the bits of `flag` in the status register.
    pub fn set_flag(&mut self, flag: Flags6502, set: bool)
        ensures
            *final(self) == old(self).with_flag(flag.bits, set),
    {
        self.status = if set {
            Flags6502 { bits: self.status.bits | flag.bits }
        } else {
            Flags6502 { bits: self.status.bits & !flag.bits }
        };
    }

    pub(crate) fn set_zn(&mut self, v: u8)
        ensures
            *final(self) == old(self).with_zn(v),
    {
        self.set_flag(Flags6502 { bits: FLAG_Z }, v == 0);
        self.set_flag(Flags6502 { bits: FLAG_N }, v & 0x80 != 0);
    }

    /// True when no instruction is in progress.
    pub fn complete(&self) -> (r: bool)
        ensures
            r == (self.cycles == 0),
    {
        self.cycles == 0
    }

    /// Pushes a byte on the stack.
    pub fn push_stack(&mut self, bus: &mut SystemMemory, data: u8)
        ensures
            (*final(self), final(bus)@) == old(self).push_spec(old(bus)@, data),
    {
        bus.write(STACK_POINTER_BASE + self.stkp as u16, data);
        self.stkp = wrap_sub(self.stkp, 1);
    }

    /// Pops a byte off the stack.
    pub fn pop_stack(&mut self, bus: &SystemMemory) -> (r: u8)
        ensures
            (*final(self), r) == old(self).pop_spec(bus@),
    {
        self.stkp = wrap_add(self.stkp, 1);
        bus.read(STACK_POINTER_BASE + self.stkp as u16)
    }

    /// Reads the 16-bit little-endian value at `addr`.
    pub(crate) fn read_vector(bus: &SystemMemory, addr: u16) -> (r: u16)
        ensures
            r == read_vector(bus@, addr),
    {
        let lo = bus.read(addr) as u16;
        let hi = bus.read(wrap_add16(addr, 1)) as u16;
        (hi << 8) | lo
    }

    pub open spec fn reset_spec(self, m: MemView) -> Cpu6502 {
        Cpu6502 {
            a: 0,
            x: 0,
            y: 0,
            stkp: 0xFD,
            status: Flags6502 { bits: FLAG_U },
            pc: read_vector(m, RESET_PROGRAM_COUNTER),
            addr_abs: 0,
            addr_rel: 0,
            fetched: 0,
            cycles: 8,
            ..self
        }
    }

    /// Puts the processor in a known state and loads the program counter from
    /// the reset vector; the reset takes 8 cycles.
    pub fn reset(&mut self, bus: &SystemMemory)
        ensures
            *final(self) == old(self).reset_spec(bus@),
    {
        self.a = 0;
        self.x = 0;
        self.y = 0;
        self.stkp = 0xFD;
        self.status = Flags6502 { bits: FLAG_U };
        self.pc = Self::read_vector(bus, RESET_PROGRAM_COUNTER);
        self.addr_abs = 0;
        self.addr_rel = 0;
        self.fetched = 0;
        self.cycles = 8;
    }

    /// A hardware interrupt: the program counter high and low bytes, then the
    /// status with Break clear and Unused and Interrupt-Disable set, are pushed;
    /// the program counter is loaded from `vector`; it takes 7 cycles.
    pub open spec fn interrupt_spec(self, m: MemView, vector: u16) -> (Cpu6502, MemView) {
        let (c1, m1) = self.push_spec(m, high_byte(self.pc));
        let (c2, m2) = c1.push_spec(m1, low_byte(self.pc));
        let c3 = c2.with_flag(FLAG_B, false).with_flag(FLAG_U, true).with_flag(FLAG_I, true);
        let (c4, m4) = c3.push_spec(m2, c3.status.bits);
        (Cpu6502 { pc: read_vector(m4, vector), cycles: 7, ..c4 }, m4)
    }

    fn interrupt(&mut self, bus: &mut SystemMemory, vector: u16)
        ensures
            (*final(self), final(bus)@) == old(self).interrupt_spec(old(bus)@, vector),
    {
        let pc = self.pc;
        self.push_stack(bus, (pc >> 8) as u8);
        self.push_stack(bus, (pc & 0x00FF) as u8);
        self.set_flag(Flags6502 { bits: FLAG_B }, false);
        self.set_flag(Flags6502 { bits: FLAG_U }, true);
        self.set_flag(Flags6502 { bits: FLAG_I }, true);
        let status = self.status.bits;
        self.push_stack(bus, status);
        self.pc = Self::read_vector(bus, vector);
        self.cycles = 7;
    }

    /// Interrupt request: taken only while Interrupt-Disable is clear.
    pub fn irq(&mut self, bus: &mut SystemMemory)
        ensures
            (*final(self), final(bus)@) == if old(self).flag(FLAG_I) {
                (*old(self), old(bus)@)
            } else {
                old(self).interrupt_spec(old(bus)@, IRQ_PROGRAM_COUNTER)
            },
    {
        if self.status.bits & FLAG_I == 0 {
            self.interrupt(bus, IRQ_PROGRAM_COUNTER);
        }
    }

    /// Non-maskable interrupt: always taken.
    pub fn nmi(&mut self, bus: &mut SystemMemory)
        ensures
            (*final(self), final(bus)@) == old(self).interrupt_spec(old(bus)@, NMI_PROGRAM_COUNTER),
    {
        self.interrupt(bus, NMI_PROGRAM_COUNTER);
    }

    /// Loads `fetched` with the operand of the current instruction.
    pub fn fetch(&mut self, bus: &SystemMemory) -> (r: u8)
        ensures
            *final(self) == old(self).with_fetched(bus@),
            r == final(self).fetched,
    {
        if !self.is_implied() {
            self.fetched = bus.read(self.addr_abs);
        } else {
            self.fetched = self.a;
        }
        self.fetched
    }

    /// True when the current instruction's addressing mode is Implied.
    pub fn is_implied(&self) -> (r: bool)
        ensures
            r == self.implied(),
    {
        lookup(self.opcode).addrmode == AddressingMode::IMP
    }

    /// One processor cycle. With no instruction in progress, the opcode at the
    /// program counter is read and decoded, its addressing mode and operation
    /// run, and its cycle count loaded, plus one when both ask for an extra
    /// cycle. Every call then takes one cycle off the count.
    #[verifier::opaque]
    pub open spec fn clock_spec(self, m: MemView) -> (Cpu6502, MemView) {
        if self.cycles == 0 {
            let opcode = m.read(self.pc);
            let ins = lookup_spec(opcode);
            let c1 = Cpu6502 { opcode, pc: wadd16(self.pc, 1), cycles: ins.cycles, ..self };
            let (c2, extra_mode) = c1.addrmode_spec(ins.addrmode, m);
            let (c3, m3) = c2.operate_spec(ins.operate, m);
            let c4 = if extra_mode && op_extra(ins.operate) {
                Cpu6502 { cycles: (c3.cycles + 1) as u8, ..c3 }
            } else {
                c3
            };
            (Cpu6502 { cycles: (c4.cycles - 1) as u8, cycle_count: wadd64(c4.cycle_count, 1), ..c4 }, m3)
        } else {
            (Cpu6502 { cycles: (self.cycles - 1) as u8, cycle_count: wadd64(self.cycle_count, 1), ..self }, m)
        }
    }

    /// One processor cycle (see `clock_spec`).
    pub fn clock(&mut self, bus: &mut SystemMemory)
        ensures
            (*final(self), final(bus)@) == old(self).clock_spec(old(bus)@),
    {
        proof {
            reveal(Cpu6502::clock_spec);
        }
        if self.cycles == 0 {
            self.opcode = bus.read(self.pc);
            self.pc = wrap_add16(self.pc, 1);
            let instruction = lookup(self.opcode);
            self.cycles = instruction.cycles;
            let extra_mode = self.addrmode(instruction.addrmode, bus);
            proof {
                lemma_operate_cycles(*self, instruction.operate, bus@);
            }
            let extra_op = self.operate(instruction.operate, bus);
            if extra_mode && extra_op {
                self.cycles = self.cycles + 1;
            }
        }
        self.cycles = self.cycles - 1;
        self.cycle_count = wrap_add64(self.cycle_count, 1);
    }
}

/// A processor cycle leaves the picture unit as it was.
pub proof fn lemma_clock_keeps_ppu(c: Cpu6502, m: MemView)
    ensures
        c.clock_spec(m).1.ppu == m.ppu,
{
    broadcast use crate::memory::lemma_write_keeps_ppu;

    reveal(Cpu6502::clock_spec);
}

/// An operation adds at most two cycles, and takes none away.
pub proof fn lemma_operate_cycles(c: Cpu6502, op: Operation, m: MemView)
    requires
        c.cycles <= 253,
    ensures
        c.cycles <= c.operate_spec(op, m).0.cycles <= c.cycles + 2,
{
}

} // verus!
