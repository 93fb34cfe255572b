//! Properties of the processor and the fixed-bank mapper that relate several
//! steps or hold for every input.
use vstd::prelude::*;
use crate::addressing::join;
use crate::arith::{lemma_wrap16_inverse, lemma_wrap8_inverse, wadd16, wsub16, wsub8};
use crate::bits::{
    lemma_join_page, lemma_low_byte, lemma_mirror_halves, lemma_or_idempotent,
    lemma_page_is_high_byte, lemma_sign_extend, lemma_split_join, lemma_u16_masks,
};
use crate::cartridge::CartView;
use crate::cpu::{stack_addr, Cpu6502};
use crate::flags::{
    has_flag, is_flag, lemma_with_flag_other, lemma_with_flag_same, with_flag, FLAG_B, FLAG_C,
    FLAG_N, FLAG_U, FLAG_V, FLAG_Z,
};
use crate::instruction::{AddressingMode, Operation};
use crate::mapper::{Mapper, Mapper000};
use crate::memory::MemView;

verus! {

/// Four flags set one after the other each read back as set.
proof fn lemma_four_flags(s: u8, f1: u8, b1: bool, f2: u8, b2: bool, f3: u8, b3: bool, f4: u8, b4: bool)
    requires
        is_flag(f1),
        is_flag(f2),
        is_flag(f3),
        is_flag(f4),
        f1 != f2,
        f1 != f3,
        f1 != f4,
        f2 != f3,
        f2 != f4,
        f3 != f4,
    ensures
        ({
            let r = with_flag(with_flag(with_flag(with_flag(s, f1, b1), f2, b2), f3, b3), f4, b4);
            &&& has_flag(r, f1) == b1
            &&& has_flag(r, f2) == b2
            &&& has_flag(r, f3) == b3
            &&& has_flag(r, f4) == b4
        }),
{
    let s1 = with_flag(s, f1, b1);
    let s2 = with_flag(s1, f2, b2);
    let s3 = with_flag(s2, f3, b3);
    lemma_with_flag_same(s, f1, b1);
    lemma_with_flag_other(s1, f2, f1, b2);
    lemma_with_flag_same(s1, f2, b2);
    lemma_with_flag_other(s2, f3, f1, b3);
    lemma_with_flag_other(s2, f3, f2, b3);
    lemma_with_flag_same(s2, f3, b3);
    lemma_with_flag_other(s3, f4, f1, b4);
    lemma_with_flag_other(s3, f4, f2, b4);
    lemma_with_flag_other(s3, f4, f3, b4);
    lemma_with_flag_same(s3, f4, b4);
}

/// ADC on accumulator `A`, operand `M` and carry-in `c`: with the untruncated
/// sum `R = A + M + c`, Carry is `R > 0xFF`, Zero is `(R & 0xFF) == 0`,
/// Negative is `(R & 0x80) != 0`, Overflow is `((A ^ R) & (M ^ R) & 0x80) != 0`,
/// and the accumulator becomes `R` modulo 256.
pub proof fn lemma_adc_flags(c: Cpu6502, m: MemView)
    ensures
        ({
            let a = c.a;
            let v = c.operand(m);
            let r: u16 = (a + v + if c.flag(FLAG_C) {
                1int
            } else {
                0int
            }) as u16;
            let n = c.operate_spec(Operation::ADC, m).0;
            &&& n.flag(FLAG_C) == (r > 0xFF)
            &&& n.flag(FLAG_Z) == (r & 0x00FF == 0)
            &&& n.flag(FLAG_N) == (r & 0x0080 != 0)
            &&& n.flag(FLAG_V) == (((a as u16 ^ r) & (v as u16 ^ r) & 0x0080) != 0)
            &&& n.a as int == r % 256
        }),
{
    let f = c.with_fetched(m);
    let r: u16 = (f.a as u16 + f.fetched as u16 + if f.flag(FLAG_C) {
        1u16
    } else {
        0u16
    }) as u16;
    lemma_four_flags(
        f.status.bits,
        FLAG_C,
        r > 0xFF,
        FLAG_Z,
        r & 0x00FF == 0,
        FLAG_N,
        r & 0x0080 != 0,
        FLAG_V,
        ((f.a as u16 ^ r) & (f.fetched as u16 ^ r) & 0x0080) != 0,
    );
    lemma_low_byte(r);
}

/// SBC with operand `M` leaves the accumulator and the status exactly as ADC
/// with operand `!M` does, from the same state.
pub proof fn lemma_sbc_is_adc_of_complement(c: Cpu6502, m1: MemView, m2: MemView)
    requires
        c.operand(m2) == !c.operand(m1),
    ensures
        c.operate_spec(Operation::SBC, m1).0.a == c.operate_spec(Operation::ADC, m2).0.a,
        c.operate_spec(Operation::SBC, m1).0.status == c.operate_spec(Operation::ADC, m2).0.status,
{
}

/// Indirect addressing through a pointer whose low byte is 0xFF takes the
/// target's high byte from the start of the pointer's page, not from the
/// next page.
pub proof fn lemma_indirect_page_wrap(c: Cpu6502, m: MemView)
    requires
        m.read(c.pc) == 0xFF,
    ensures
        ({
            let ptr_hi = m.read(wadd16(c.pc, 1));
            let ptr = join(ptr_hi, 0xFF);
            &&& ptr & 0xFF00 == (ptr_hi as u16) << 8
            &&& c.addrmode_spec(AddressingMode::IND, m).0.addr_abs == join(
                m.read(join(ptr_hi, 0)),
                m.read(ptr),
            )
        }),
{
    let ptr_hi = m.read(wadd16(c.pc, 1));
    lemma_join_page(ptr_hi, 0xFF);
    lemma_join_page(ptr_hi, 0);
    assert(join(ptr_hi, 0) == (ptr_hi as u16) << 8) by (bit_vector);
}

/// The address an indexed mode adds its register to.
pub open spec fn indexed_base(c: Cpu6502, mode: AddressingMode, m: MemView) -> u16 {
    if mode == AddressingMode::IZY {
        let t = m.read(c.pc) as u16;
        join(m.read(((t + 1) as u16) & 0x00FF), m.read(t & 0x00FF))
    } else {
        join(m.read(wadd16(c.pc, 1)), m.read(c.pc))
    }
}

/// Absolute,X, Absolute,Y and Indirect,Y ask for an extra cycle exactly when
/// the resolved address's high byte differs from the base address's.
pub proof fn lemma_extra_cycle_on_page_cross(c: Cpu6502, mode: AddressingMode, m: MemView)
    requires
        mode == AddressingMode::ABX || mode == AddressingMode::ABY || mode == AddressingMode::IZY,
    ensures
        ({
            let (n, extra) = c.addrmode_spec(mode, m);
            let base = indexed_base(c, mode, m);
            &&& n.addr_abs == wadd16(
                base,
                if mode == AddressingMode::ABX {
                    c.x as u16
                } else {
                    c.y as u16
                },
            )
            &&& extra == ((n.addr_abs >> 8) != (base >> 8))
        }),
{
    let (n, extra) = c.addrmode_spec(mode, m);
    let base = indexed_base(c, mode, m);
    if mode == AddressingMode::IZY {
        let t = m.read(c.pc) as u16;
        lemma_join_page(m.read(((t + 1) as u16) & 0x00FF), m.read(t & 0x00FF));
    } else {
        lemma_join_page(m.read(wadd16(c.pc, 1)), m.read(c.pc));
    }
    lemma_page_is_high_byte(n.addr_abs, base);
}

/// Relative addressing sign-extends its byte: below 0x80 it is the offset,
/// from 0x80 on the offset is the byte minus 256 (modulo 2^16).
pub proof fn lemma_relative_sign_extends(c: Cpu6502, m: MemView)
    ensures
        ({
            let b = m.read(c.pc);
            let rel = c.addrmode_spec(AddressingMode::REL, m).0.addr_rel;
            &&& b < 0x80 ==> rel == b as u16
            &&& b >= 0x80 ==> rel as int == b + 0xFF00
        }),
{
    lemma_sign_extend(m.read(c.pc) as u16);
}

/// The condition a branch tests; `None` for the other operations.
pub open spec fn branch_condition(c: Cpu6502, op: Operation) -> Option<bool> {
    match op {
        Operation::BCC => Some(!c.flag(FLAG_C)),
        Operation::BCS => Some(c.flag(FLAG_C)),
        Operation::BEQ => Some(c.flag(FLAG_Z)),
        Operation::BNE => Some(!c.flag(FLAG_Z)),
        Operation::BPL => Some(!c.flag(FLAG_N)),
        Operation::BMI => Some(c.flag(FLAG_N)),
        Operation::BVC => Some(!c.flag(FLAG_V)),
        Operation::BVS => Some(c.flag(FLAG_V)),
        _ => None,
    }
}

/// A branch whose condition fails changes nothing. One whose condition holds
/// adds the offset to the program counter and takes one more cycle, and one
/// more again when the new program counter's high byte differs from the old one's.
pub proof fn lemma_branch(c: Cpu6502, op: Operation, m: MemView)
    requires
        branch_condition(c, op).is_some(),
        c.cycles <= 253,
    ensures
        ({
            let n = c.operate_spec(op, m).0;
            &&& !branch_condition(c, op).unwrap() ==> n == c
            &&& branch_condition(c, op).unwrap() ==> {
                &&& n.pc == wadd16(c.pc, c.addr_rel)
                &&& n.cycles == c.cycles + 1 + if (n.pc >> 8) != (c.pc >> 8) {
                    1int
                } else {
                    0int
                }
                &&& n == (Cpu6502 { pc: n.pc, cycles: n.cycles, ..c })
            }
            &&& c.operate_spec(op, m).1 == m
        }),
{
    lemma_page_is_high_byte(wadd16(c.pc, c.addr_rel), c.pc);
}

/// No cartridge claims the stack page: reads and writes there reach RAM.
proof fn lemma_stack_in_ram(m: MemView, sp: u8)
    ensures
        ({
            let a = stack_addr(sp);
            &&& a <= 0x01FF
            &&& a & 0x07FF == a
            &&& match m.cart {
                Some(cv) => cv.cpu_read(a).is_none() && cv.cpu_write_offset(a).is_none(),
                None => true,
            }
        }),
{
    lemma_u16_masks(stack_addr(sp));
}

/// A byte pushed can be read back from its slot, and a write to another slot
/// leaves it alone.
proof fn lemma_stack_write_read(m: MemView, sp1: u8, sp2: u8, d: u8)
    requires
        m.ram.len() == 2048,
    ensures
        m.write(stack_addr(sp1), d).read(stack_addr(sp1)) == d,
        sp1 != sp2 ==> m.write(stack_addr(sp1), d).read(stack_addr(sp2)) == m.read(stack_addr(sp2)),
        m.write(stack_addr(sp1), d).ram.len() == 2048,
        m.write(stack_addr(sp1), d).cart == m.cart,
{
    reveal(MemView::read);
    reveal(MemView::write);
    lemma_stack_in_ram(m, sp1);
    lemma_stack_in_ram(m, sp2);
    lemma_stack_in_ram(m.write(stack_addr(sp1), d), sp1);
    lemma_stack_in_ram(m.write(stack_addr(sp1), d), sp2);
}

/// `JSR` followed by `RTS` returns to the instruction after the `JSR`, with
/// the stack pointer where it was.
pub proof fn lemma_jsr_rts(c: Cpu6502, m: MemView)
    requires
        m.ram.len() == 2048,
    ensures
        ({
            let (c1, m1) = c.operate_spec(Operation::JSR, m);
            let (c2, m2) = c1.operate_spec(Operation::RTS, m1);
            &&& c2.pc == c.pc
            &&& c2.stkp == c.stkp
            &&& m2 == m1
        }),
{
    let ret = wsub16(c.pc, 1);
    let sp = c.stkp;
    let sp1 = wsub8(sp, 1);
    let hi = (ret >> 8) as u8;
    let lo = (ret & 0x00FF) as u8;
    let ma = m.write(stack_addr(sp), hi);
    let mb = ma.write(stack_addr(sp1), lo);
    let cj = Cpu6502 { pc: c.addr_abs, stkp: wsub8(sp1, 1), ..c };
    assert(c.operate_spec(Operation::JSR, m) == (cj, mb));
    lemma_stack_write_read(m, sp, sp1, hi);
    lemma_stack_write_read(ma, sp1, sp, lo);
    lemma_wrap8_inverse(sp1);
    lemma_wrap8_inverse(sp);
    assert(mb.read(stack_addr(sp1)) == lo);
    assert(mb.read(stack_addr(sp)) == hi);
    let d1 = Cpu6502 { stkp: sp1, ..cj };
    assert(cj.pop_spec(mb) == (d1, lo));
    assert(d1.pop_spec(mb) == (Cpu6502 { stkp: sp, ..cj }, hi));
    lemma_split_join(ret);
    assert(join(hi, lo) == ret);
    lemma_wrap16_inverse(c.pc);
    assert(cj.operate_spec(Operation::RTS, mb) == (Cpu6502 { stkp: sp, pc: c.pc, ..cj }, mb));
}

/// `PHP` pushes the status with Break and Unused set, whatever the status;
/// `PLP` right after restores exactly that byte, Unused set, and the stack
/// pointer.
pub proof fn lemma_php_plp(c: Cpu6502, m: MemView)
    requires
        m.ram.len() == 2048,
    ensures
        ({
            let (c1, m1) = c.operate_spec(Operation::PHP, m);
            let pushed = m1.read(stack_addr(c.stkp));
            let (c2, _) = c1.operate_spec(Operation::PLP, m1);
            &&& pushed == c.status.bits | FLAG_B | FLAG_U
            &&& has_flag(pushed, FLAG_B)
            &&& has_flag(pushed, FLAG_U)
            &&& c2.status.bits == pushed
            &&& c2.flag(FLAG_U)
            &&& c2.stkp == c.stkp
        }),
{
    let s = c.status.bits;
    let pushed = s | FLAG_B | FLAG_U;
    let sp1 = wsub8(c.stkp, 1);
    let m1 = m.write(stack_addr(c.stkp), pushed);
    let c1 = Cpu6502 { stkp: sp1, ..c };
    assert(c.operate_spec(Operation::PHP, m) == (c1, m1));
    lemma_stack_write_read(m, c.stkp, c.stkp, pushed);
    lemma_wrap8_inverse(c.stkp);
    assert(c1.pop_spec(m1) == (Cpu6502 { stkp: c.stkp, ..c1 }, pushed));
    assert(has_flag(pushed, FLAG_B) && has_flag(pushed, FLAG_U)) by (bit_vector)
        requires
            pushed == s | 0x10u8 | 0x20u8,
    ;
    lemma_or_idempotent(s, FLAG_B, FLAG_U);
    lemma_with_flag_same(pushed, FLAG_U, true);
    let c2 = Cpu6502 { stkp: c.stkp, status: crate::flags::Flags6502 { bits: pushed }, ..c1 }.with_flag(FLAG_U, true);
    assert(c1.operate_spec(Operation::PLP, m1).0 == c2);
}

/// `PLP` always leaves Unused set.
pub proof fn lemma_plp_sets_unused(c: Cpu6502, m: MemView)
    ensures
        c.operate_spec(Operation::PLP, m).0.flag(FLAG_U),
{
    let (c1, v) = c.pop_spec(m);
    lemma_with_flag_same(v, FLAG_U, true);
}

/// With a single program bank, the fixed-bank mapper maps 0x8000 + k and
/// 0xC000 + k to the same offset k, for every k below 16 KiB.
pub proof fn lemma_mapper0_mirror(mapper: Mapper000, k: u16)
    requires
        mapper.program_banks == 1,
        k < 0x4000,
    ensures
        mapper.cpu_read_target((0x8000 + k) as u16) == Some(k as u32),
        mapper.cpu_read_target((0xC000 + k) as u16) == Some(k as u32),
{
    lemma_mirror_halves(k);
}

/// A cartridge with a single program bank reads the same byte at 0x8000 + k
/// and at 0xC000 + k.
pub proof fn lemma_cartridge_mirror(cart: CartView, k: u16)
    requires
        cart.mapper.program_banks == 1,
        k < 0x4000,
    ensures
        cart.cpu_read((0x8000 + k) as u16) == cart.cpu_read((0xC000 + k) as u16),
{
    lemma_mapper0_mirror(cart.mapper, k);
}

} // verus!
