//! Disassembly: one line of text per instruction, `MNEMONIC OPERAND`, where
//! the operand is `#$XX` for Immediate, `$XXXX` for every other mode that has
//! one (zero-page and relative operands padded to four digits), and absent
//! for Implied.
use vstd::prelude::*;
use vstd::string::StringExecFns;
use std::collections::HashMap;
use crate::arith::{wadd16, wrap_add16};
use crate::cpu::Cpu6502;
use crate::instruction::{lookup, lookup_spec, AddressingMode, Instruction, Operation};
use crate::memory::{MemView, SystemMemory};

verus! {

broadcast use vstd::std_specs::hash::group_hash_axioms;

/// The upper-case hexadecimal digit for `n` (below 16).
pub open spec fn hex_digit(n: int) -> char {
    if n < 10 {
        (n + 48) as char
    } else {
        (n + 55) as char
    }
}

/// Two upper-case hexadecimal digits per byte, high digit first.
pub open spec fn hex_upper_spec(b: Seq<u8>) -> Seq<char> {
    Seq::new(
        2 * b.len(),
        |i: int|
            if i % 2 == 0 {
                hex_digit(b[i / 2] as int / 16)
            } else {
                hex_digit(b[i / 2] as int % 16)
            },
    )
}

/// Relies on hex::encode_upper: two upper-case hexadecimal digits per byte,
/// in order.
#[verifier::external_body]
fn hex_upper(bytes: &[u8]) -> (r: String)
    ensures
        r@ == hex_upper_spec(bytes@),
{
    hex::encode_upper(bytes)
}

/// How many operand bytes follow the opcode. `BRK` is followed by a padding byte.
pub open spec fn operand_len(ins: Instruction) -> u16 {
    match ins.addrmode {
        AddressingMode::IMP => if ins.operate == Operation::BRK {
            1
        } else {
            0
        },
        AddressingMode::IMM | AddressingMode::ZP0 | AddressingMode::ZPX | AddressingMode::ZPY
        | AddressingMode::IZX | AddressingMode::IZY | AddressingMode::REL => 1,
        AddressingMode::ABS | AddressingMode::ABX | AddressingMode::ABY | AddressingMode::IND => 2,
    }
}

/// The text of instruction `ins` whose operand bytes are `b1` then `b2`.
pub open spec fn instruction_text(ins: Instruction, b1: u8, b2: u8) -> Seq<char> {
    let name = ins.name_spec()@;
    match ins.addrmode {
        AddressingMode::IMP => name,
        AddressingMode::IMM => name + " #$"@ + hex_upper_spec(seq![b1]),
        AddressingMode::ZP0 | AddressingMode::ZPX | AddressingMode::ZPY | AddressingMode::IZX
        | AddressingMode::IZY | AddressingMode::REL => name + " $"@ + hex_upper_spec(
            seq![0u8, b1],
        ),
        _ => name + " $"@ + hex_upper_spec(seq![b2, b1]),
    }
}

/// The text of the instruction at `addr`.
#[verifier::opaque]
pub open spec fn line_at(m: MemView, addr: u16) -> Seq<char> {
    instruction_text(
        lookup_spec(m.read(addr)),
        m.read(wadd16(addr, 1)),
        m.read(wadd16(addr, 2)),
    )
}

/// The address of the instruction after the one at `addr`.
#[verifier::opaque]
pub open spec fn next_addr(m: MemView, addr: u16) -> u16 {
    wadd16(addr, (1 + operand_len(lookup_spec(m.read(addr)))) as u16)
}

/// The address of the `i`-th instruction from `start`.
pub open spec fn nth_addr(m: MemView, start: u16, i: nat) -> u16
    decreases i,
{
    if i == 0 {
        start
    } else {
        next_addr(m, nth_addr(m, start, (i - 1) as nat))
    }
}

/// The text of `ins` with operand bytes `b1`, `b2`.
pub fn format_instruction(ins: Instruction, b1: u8, b2: u8) -> (r: String)
    ensures
        r@ == instruction_text(ins, b1, b2),
{
    let mut s = String::from_str(ins.name());
    match ins.addrmode {
        AddressingMode::IMP => {},
        AddressingMode::IMM => {
            let digits = hex_upper(&[b1]);
            s.append(" #$");
            s.append(digits.as_str());
        },
        AddressingMode::ZP0 | AddressingMode::ZPX | AddressingMode::ZPY | AddressingMode::IZX
        | AddressingMode::IZY | AddressingMode::REL => {
            let digits = hex_upper(&[0u8, b1]);
            s.append(" $");
            s.append(digits.as_str());
        },
        _ => {
            let digits = hex_upper(&[b2, b1]);
            s.append(" $");
            s.append(digits.as_str());
        },
    }
    proof {
        assert(seq![b1] =~= [b1]@);
        assert(seq![0u8, b1] =~= [0u8, b1]@);
        assert(seq![b2, b1] =~= [b2, b1]@);
    }
    s
}

/// Number of operand bytes of `ins`.
pub fn operand_length(ins: Instruction) -> (r: u16)
    ensures
        r == operand_len(ins),
{
    match ins.addrmode {
        AddressingMode::IMP => if ins.operate == Operation::BRK {
            1
        } else {
            0
        },
        AddressingMode::IMM | AddressingMode::ZP0 | AddressingMode::ZPX | AddressingMode::ZPY
        | AddressingMode::IZX | AddressingMode::IZY | AddressingMode::REL => 1,
        AddressingMode::ABS | AddressingMode::ABX | AddressingMode::ABY | AddressingMode::IND => 2,
    }
}


/// Byte `i` of `b`, or 0 past its end.
pub open spec fn byte_or_zero(b: Seq<u8>, i: int) -> u8 {
    if 0 <= i < b.len() {
        b[i]
    } else {
        0
    }
}

/// The lines of the instructions of `b` from offset `i` on. Operand bytes
/// missing at the end read as 0.
pub open spec fn program_lines(b: Seq<u8>, i: int) -> Seq<Seq<char>>
    decreases b.len() + 3 - i,
{
    if i < 0 || i >= b.len() {
        Seq::empty()
    } else {
        let ins = lookup_spec(b[i]);
        seq![instruction_text(ins, byte_or_zero(b, i + 1), byte_or_zero(b, i + 2))]
            + program_lines(b, i + 1 + operand_len(ins))
    }
}

/// One line per instruction of the program in `program_bytes`.
pub fn disassemble_program(program_bytes: Vec<u8>) -> (r: Vec<String>)
    ensures
        r@.map_values(|s: String| s@) == program_lines(program_bytes@, 0),
{
    let mut program: Vec<String> = Vec::new();
    let n = program_bytes.len();
    let mut i: usize = 0;
    while i < n
        invariant
            n == program_bytes@.len(),
            program@.map_values(|s: String| s@) + program_lines(program_bytes@, i as int)
                == program_lines(program_bytes@, 0),
        decreases n - i,
    {
        let ins = lookup(program_bytes[i]);
        let b1: u8 = if n - i > 1 {
            program_bytes[i + 1]
        } else {
            0
        };
        let b2: u8 = if n - i > 2 {
            program_bytes[i + 2]
        } else {
            0
        };
        let line = format_instruction(ins, b1, b2);
        let ghost old_program = program@;
        program.push(line);
        proof {
            let rest = program_lines(program_bytes@, i + 1 + operand_len(ins));
            assert(program@.map_values(|s: String| s@) =~= old_program.map_values(|s: String| s@).push(
                line@,
            ));
            assert(program_lines(program_bytes@, i as int) == seq![line@] + rest);
            assert(old_program.map_values(|s: String| s@) + (seq![line@] + rest)
                =~= old_program.map_values(|s: String| s@).push(line@) + rest);
        }
        let step = 1 + operand_length(ins) as usize;
        if n - i <= step {
            proof {
                assert(program_lines(program_bytes@, i + step) =~= Seq::<Seq<char>>::empty());
                assert(program@.map_values(|s: String| s@) + Seq::<Seq<char>>::empty()
                    =~= program@.map_values(|s: String| s@));
            }
            i = n;
        } else {
            i = i + step;
        }
    }
    proof {
        assert(program@.map_values(|s: String| s@) + Seq::<Seq<char>>::empty()
            =~= program@.map_values(|s: String| s@));
    }
    program
}

/// The listing line for the instruction at `addr`: `$XXXX: ` then its text.
pub open spec fn listing_line(m: MemView, addr: u16) -> Seq<char> {
    "$"@ + hex_upper_spec(seq![(addr >> 8) as u8, (addr & 0x00FF) as u8]) + ": "@ + line_at(m, addr)
}

/// The listing of `n` instructions from `start`, one per line.
pub open spec fn listing(m: MemView, start: u16, n: nat) -> Seq<char>
    decreases n,
{
    if n == 0 {
        Seq::empty()
    } else if n == 1 {
        listing_line(m, start)
    } else {
        listing(m, start, (n - 1) as nat) + "\n"@ + listing_line(m, nth_addr(m, start, (n - 1) as nat))
    }
}

impl Cpu6502 {
    /// The text of the instruction at `addr`, and the address of the next one.
    pub fn disassemble_instr_at(&self, bus: &SystemMemory, addr: u16) -> (r: (String, u16))
        ensures
            r.0@ == line_at(bus@, addr),
            r.1 == next_addr(bus@, addr),
    {
        let ins = lookup(bus.read(addr));
        let b1 = bus.read(wrap_add16(addr, 1));
        let b2 = bus.read(wrap_add16(addr, 2));
        let len = operand_length(ins);
        proof {
            reveal(line_at);
            reveal(next_addr);
        }
        (format_instruction(ins, b1, b2), wrap_add16(addr, 1 + len))
    }

    /// The next `n` instructions from the program counter, with their addresses.
    pub fn disassemble_next(&self, bus: &SystemMemory, n: usize) -> (r: Vec<(u16, String)>)
        ensures
            r@.len() == n,
            forall|i: int|
                0 <= i < n ==> {
                    &&& #[trigger] r@[i].0 == nth_addr(bus@, self.pc, i as nat)
                    &&& r@[i].1@ == line_at(bus@, r@[i].0)
                },
    {
        let mut program: Vec<(u16, String)> = Vec::new();
        let mut next: u16 = self.pc;
        let mut k: usize = 0;
        while k < n
            invariant
                k <= n,
                program@.len() == k,
                next == nth_addr(bus@, self.pc, k as nat),
                forall|i: int|
                    0 <= i < k ==> {
                        &&& #[trigger] program@[i].0 == nth_addr(bus@, self.pc, i as nat)
                        &&& program@[i].1@ == line_at(bus@, program@[i].0)
                    },
            decreases n - k,
        {
            let (text, after) = self.disassemble_instr_at(bus, next);
            program.push((next, text));
            next = after;
            k += 1;
        }
        program
    }

    /// Every instruction from `from` on whose address is below `to`, keyed by
    /// address. Stops early if the addresses wrap past 0xFFFF.
    pub fn disassemble_range(&self, bus: &SystemMemory, from: u16, to: u16) -> (r: HashMap<u16, String>)
        ensures
            from < to ==> r@.contains_key(from),
            forall|k: u16|
                #[trigger] r@.contains_key(k) ==> {
                    &&& from <= k < to
                    &&& r@[k]@ == line_at(bus@, k)
                    &&& (next_addr(bus@, k) > k && next_addr(bus@, k) < to) ==> r@.contains_key(next_addr(bus@, k))
                },
    {
        let mut disassembly: HashMap<u16, String> = HashMap::new();
        let mut current: u16 = from;
        while current < to
            invariant
                from <= current,
                current > from ==> disassembly@.contains_key(from),
                forall|k: u16|
                    #[trigger] disassembly@.contains_key(k) ==> {
                        &&& from <= k < to
                        &&& k < current
                        &&& k < to
                        &&& disassembly@[k]@ == line_at(bus@, k)
                        &&& (next_addr(bus@, k) > k && next_addr(bus@, k) < to) ==> (next_addr(bus@, k) == current || disassembly@.contains_key(next_addr(bus@, k)))
                    },
            decreases 0x10000 - current,
        {
            let (text, after) = self.disassemble_instr_at(bus, current);
            disassembly.insert(current, text);
            if after <= current {
                current = to;
            } else {
                current = after;
            }
        }
        disassembly
    }

    /// The next `n` instructions from the program counter as one text, a line
    /// each: the address as `$XXXX: `, then the instruction.
    pub fn disassemble_next_as_string(&self, bus: &SystemMemory, n: usize) -> (r: String)
        ensures
            r@ == listing(bus@, self.pc, n as nat),
    {
        let lines = self.disassemble_next(bus, n);
        let mut out = String::new();
        let mut k: usize = 0;
        while k < n
            invariant
                k <= n,
                lines@.len() == n,
                forall|i: int|
                    0 <= i < n ==> {
                        &&& #[trigger] lines@[i].0 == nth_addr(bus@, self.pc, i as nat)
                        &&& lines@[i].1@ == line_at(bus@, lines@[i].0)
                    },
                out@ == listing(bus@, self.pc, k as nat),
            decreases n - k,
        {
            let addr = lines[k].0;
            if k > 0 {
                out.append("\n");
            }
            let digits = hex_upper(&[(addr >> 8) as u8, (addr & 0x00FF) as u8]);
            out.append("$");
            out.append(digits.as_str());
            out.append(": ");
            out.append(lines[k].1.as_str());
            proof {
                assert([(addr >> 8) as u8, (addr & 0x00FF) as u8]@ =~= seq![(addr >> 8) as u8, (addr & 0x00FF) as u8]);
                let _ = lines@[k as int].0;
                if k == 0 {
                    assert(out@ =~= listing_line(bus@, self.pc));
                } else {
                    assert(out@ =~= listing(bus@, self.pc, k as nat) + "\n"@ + listing_line(bus@, nth_addr(bus@, self.pc, k as nat)));
                }
            }
            k += 1;
        }
        out
    }
}

} // verus!
