//! The twelve addressing modes. Each resolves the operand's address (or the
//! branch offset), moves the program counter past the operand bytes, and
//! reports whether the instruction may need one extra cycle.
use vstd::prelude::*;
use crate::arith::{wadd16, wrap_add16};
use crate::cpu::Cpu6502;
use crate::instruction::AddressingMode;
use crate::memory::{MemView, SystemMemory};

verus! {

/// The address made of a high and a low byte.
pub open spec fn join(hi: u8, lo: u8) -> u16 {
    ((hi as u16) << 8) | (lo as u16)
}

/// True when `addr` lies in another page than `(hi << 8)`.
pub open spec fn page_crossed(addr: u16, hi: u8) -> bool {
    (addr & 0xFF00) != ((hi as u16) << 8)
}

impl Cpu6502 {
    /// The state after addressing mode `mode`, and whether it asks for an extra cycle.
    pub open spec fn addrmode_spec(self, mode: AddressingMode, m: MemView) -> (Cpu6502, bool) {
        let pc1 = wadd16(self.pc, 1);
        let pc2 = wadd16(self.pc, 2);
        let b0 = m.read(self.pc);
        let b1 = m.read(pc1);
        match mode {
            AddressingMode::IMP => (Cpu6502 { fetched: self.a, ..self }, false),
            AddressingMode::IMM => (Cpu6502 { addr_abs: self.pc, pc: pc1, ..self }, false),
            AddressingMode::ZP0 => (Cpu6502 { addr_abs: b0 as u16, pc: pc1, ..self }, false),
            AddressingMode::ZPX => (
                Cpu6502 { addr_abs: ((b0 as u16 + self.x as u16) as u16) & 0x00FF, pc: pc1, ..self },
                false,
            ),
            AddressingMode::ZPY => (
                Cpu6502 { addr_abs: ((b0 as u16 + self.y as u16) as u16) & 0x00FF, pc: pc1, ..self },
                false,
            ),
            AddressingMode::ABS => (Cpu6502 { addr_abs: join(b1, b0), pc: pc2, ..self }, false),
            AddressingMode::ABX => {
                let addr = wadd16(join(b1, b0), self.x as u16);
                (Cpu6502 { addr_abs: addr, pc: pc2, ..self }, page_crossed(addr, b1))
            },
            AddressingMode::ABY => {
                let addr = wadd16(join(b1, b0), self.y as u16);
                (Cpu6502 { addr_abs: addr, pc: pc2, ..self }, page_crossed(addr, b1))
            },
            AddressingMode::IND => {
                let ptr = join(b1, b0);
                let addr = if b0 == 0xFF {
                    // the hardware fetches the high byte from the start of the same page
                    join(m.read(ptr & 0xFF00), m.read(ptr))
                } else {
                    join(m.read(wadd16(ptr, 1)), m.read(ptr))
                };
                (Cpu6502 { addr_abs: addr, pc: pc2, ..self }, false)
            },
            AddressingMode::IZX => {
                let t = b0 as u16 + self.x as u16;
                let lo = m.read((t as u16) & 0x00FF);
                let hi = m.read(((t + 1) as u16) & 0x00FF);
                (Cpu6502 { addr_abs: join(hi, lo), pc: pc1, ..self }, false)
            },
            AddressingMode::IZY => {
                let lo = m.read((b0 as u16) & 0x00FF);
                let hi = m.read(((b0 as u16 + 1) as u16) & 0x00FF);
                let addr = wadd16(join(hi, lo), self.y as u16);
                (Cpu6502 { addr_abs: addr, pc: pc1, ..self }, page_crossed(addr, hi))
            },
            AddressingMode::REL => {
                let r = b0 as u16;
                let rel = if r & 0x80 != 0 {
                    r | 0xFF00
                } else {
                    r
                };
                (Cpu6502 { addr_rel: rel, pc: pc1, ..self }, false)
            },
        }
    }

    /// Implied: the operand is the accumulator.
    #[allow(non_snake_case)]
    pub fn IMP(&mut self) -> (r: bool)
        ensures
            forall|m: MemView| (*final(self), r) == #[trigger] old(self).addrmode_spec(AddressingMode::IMP, m),
    {
        self.fetched = self.a;
        false
    }

    /// Immediate: the operand is the byte after the opcode.
    #[allow(non_snake_case)]
    pub fn IMM(&mut self) -> (r: bool)
        ensures
            forall|m: MemView| (*final(self), r) == #[trigger] old(self).addrmode_spec(AddressingMode::IMM, m),
    {
        self.addr_abs = self.pc;
        self.pc = wrap_add16(self.pc, 1);
        false
    }

    /// Zero page.
    #[allow(non_snake_case)]
    pub fn ZP0(&mut self, bus: &SystemMemory) -> (r: bool)
        ensures
            (*final(self), r) == old(self).addrmode_spec(AddressingMode::ZP0, bus@),
    {
        self.addr_abs = bus.read(self.pc) as u16;
        self.pc = wrap_add16(self.pc, 1);
        false
    }

    /// Zero page plus X, wrapping within the zero page.
    #[allow(non_snake_case)]
    pub fn ZPX(&mut self, bus: &SystemMemory) -> (r: bool)
        ensures
            (*final(self), r) == old(self).addrmode_spec(AddressingMode::ZPX, bus@),
    {
        self.addr_abs = (bus.read(self.pc) as u16 + self.x as u16) & 0x00FF;
        self.pc = wrap_add16(self.pc, 1);
        false
    }

    /// Zero page plus Y, wrapping within the zero page.
    #[allow(non_snake_case)]
    pub fn ZPY(&mut self, bus: &SystemMemory) -> (r: bool)
        ensures
            (*final(self), r) == old(self).addrmode_spec(AddressingMode::ZPY, bus@),
    {
        self.addr_abs = (bus.read(self.pc) as u16 + self.y as u16) & 0x00FF;
        self.pc = wrap_add16(self.pc, 1);
        false
    }

    /// Reads the two operand bytes: low, then high.
    fn read_operand16(&mut self, bus: &SystemMemory) -> (r: (u8, u8))
        ensures
            r == (bus@.read(wadd16(old(self).pc, 1)), bus@.read(old(self).pc)),
            *final(self) == (Cpu6502 { pc: wadd16(old(self).pc, 2), ..*old(self) }),
    {
        let lo = bus.read(self.pc);
        self.pc = wrap_add16(self.pc, 1);
        let hi = bus.read(self.pc);
        self.pc = wrap_add16(self.pc, 1);
        (hi, lo)
    }

    /// Absolute.
    #[allow(non_snake_case)]
    pub fn ABS(&mut self, bus: &SystemMemory) -> (r: bool)
        ensures
            (*final(self), r) == old(self).addrmode_spec(AddressingMode::ABS, bus@),
    {
        let (hi, lo) = self.read_operand16(bus);
        self.addr_abs = ((hi as u16) << 8) | (lo as u16);
        false
    }

    /// Absolute plus X; an extra cycle when the page changes.
    #[allow(non_snake_case)]
    pub fn ABX(&mut self, bus: &SystemMemory) -> (r: bool)
        ensures
            (*final(self), r) == old(self).addrmode_spec(AddressingMode::ABX, bus@),
    {
        let (hi, lo) = self.read_operand16(bus);
        self.addr_abs = wrap_add16(((hi as u16) << 8) | (lo as u16), self.x as u16);
        (self.addr_abs & 0xFF00) != ((hi as u16) << 8)
    }

    /// Absolute plus Y; an extra cycle when the page changes.
    #[allow(non_snake_case)]
    pub fn ABY(&mut self, bus: &SystemMemory) -> (r: bool)
        ensures
            (*final(self), r) == old(self).addrmode_spec(AddressingMode::ABY, bus@),
    {
        let (hi, lo) = self.read_operand16(bus);
        self.addr_abs = wrap_add16(((hi as u16) << 8) | (lo as u16), self.y as u16);
        (self.addr_abs & 0xFF00) != ((hi as u16) << 8)
    }

    /// Indirect, with the page-wrap of the original hardware: a pointer at
    /// the end of a page takes its high byte from the start of that page.
    #[allow(non_snake_case)]
    pub fn IND(&mut self, bus: &SystemMemory) -> (r: bool)
        ensures
            (*final(self), r) == old(self).addrmode_spec(AddressingMode::IND, bus@),
    {
        let (ptr_hi, ptr_lo) = self.read_operand16(bus);
        let ptr: u16 = ((ptr_hi as u16) << 8) | (ptr_lo as u16);
        if ptr_lo == 0xFF {
            self.addr_abs = ((bus.read(ptr & 0xFF00) as u16) << 8) | (bus.read(ptr) as u16);
        } else {
            self.addr_abs = ((bus.read(wrap_add16(ptr, 1)) as u16) << 8) | (bus.read(ptr) as u16);
        }
        false
    }

    /// Indirect through the zero-page pointer at operand plus X.
    #[allow(non_snake_case)]
    pub fn IZX(&mut self, bus: &SystemMemory) -> (r: bool)
        ensures
            (*final(self), r) == old(self).addrmode_spec(AddressingMode::IZX, bus@),
    {
        let t: u16 = bus.read(self.pc) as u16 + self.x as u16;
        self.pc = wrap_add16(self.pc, 1);
        let lo = bus.read(t & 0x00FF);
        let hi = bus.read((t + 1) & 0x00FF);
        self.addr_abs = ((hi as u16) << 8) | (lo as u16);
        false
    }

    /// Indirect through the zero-page pointer at operand, plus Y; an extra
    /// cycle when the page changes.
    #[allow(non_snake_case)]
    pub fn IZY(&mut self, bus: &SystemMemory) -> (r: bool)
        ensures
            (*final(self), r) == old(self).addrmode_spec(AddressingMode::IZY, bus@),
    {
        let t: u16 = bus.read(self.pc) as u16;
        self.pc = wrap_add16(self.pc, 1);
        let lo = bus.read(t & 0x00FF);
        let hi = bus.read((t + 1) & 0x00FF);
        self.addr_abs = wrap_add16(((hi as u16) << 8) | (lo as u16), self.y as u16);
        (self.addr_abs & 0xFF00) != ((hi as u16) << 8)
    }

    /// Relative: a signed byte, sign-extended to 16 bits.
    #[allow(non_snake_case)]
    pub fn REL(&mut self, bus: &SystemMemory) -> (r: bool)
        ensures
            (*final(self), r) == old(self).addrmode_spec(AddressingMode::REL, bus@),
    {
        let r: u16 = bus.read(self.pc) as u16;
        self.pc = wrap_add16(self.pc, 1);
        self.addr_rel = if r & 0x80 != 0 {
            r | 0xFF00
        } else {
            r
        };
        false
    }

    /// Runs addressing mode `mode`.
    pub fn addrmode(&mut self, mode: AddressingMode, bus: &SystemMemory) -> (r: bool)
        ensures
            (*final(self), r) == old(self).addrmode_spec(mode, bus@),
    {
        match mode {
            AddressingMode::IMP => self.IMP(),
            AddressingMode::IMM => self.IMM(),
            AddressingMode::ZP0 => self.ZP0(bus),
            AddressingMode::ZPX => self.ZPX(bus),
            AddressingMode::ZPY => self.ZPY(bus),
            AddressingMode::ABS => self.ABS(bus),
            AddressingMode::ABX => self.ABX(bus),
            AddressingMode::ABY => self.ABY(bus),
            AddressingMode::IND => self.IND(bus),
            AddressingMode::IZX => self.IZX(bus),
            AddressingMode::IZY => self.IZY(bus),
            AddressingMode::REL => self.REL(bus),
        }
    }
}

} // verus!
