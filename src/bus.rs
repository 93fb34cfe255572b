//! The system bus: owns the processor and the address space, and runs the
//! processor at a third of the picture unit's rate.
use vstd::prelude::*;
use crate::arith::{wadd64, wrap_add64};
use crate::cartridge::Cartridge;
use crate::cpu::Cpu6502;
use crate::memory::{MemView, SystemMemory};
use crate::ppu::Ppu2C02;

verus! {

/// The processor, the address space it sees, and the clock divider.
#[derive(Debug)]
pub struct Bus {
    pub cpu: Cpu6502,
    pub memory: SystemMemory,
    pub system_clock_counter: u64,
}

impl Bus {
    pub open spec fn wf(&self) -> bool {
        self.memory.wf()
    }

    /// A bus with zeroed RAM and no cartridge.
    pub fn new(cpu: Cpu6502, ppu: Ppu2C02) -> (r: Self)
        requires
            ppu.wf(),
        ensures
            r.wf(),
            r.cpu == cpu,
            r.memory@.ram == Seq::new(2048, |i: int| 0u8),
            r.memory@.ppu == ppu,
            r.memory@.cart.is_none(),
            r.system_clock_counter == 0,
    {
        Bus { cpu, memory: SystemMemory::new(ppu), system_clock_counter: 0 }
    }

    pub fn cpu(&self) -> (r: &Cpu6502)
        ensures
            *r == self.cpu,
    {
        &self.cpu
    }

    pub fn cpu_mut(&mut self) -> (r: &mut Cpu6502)
        ensures
            *r == old(self).cpu,
            final(self).cpu == *final(r),
            final(self).memory == old(self).memory,
            final(self).system_clock_counter == old(self).system_clock_counter,
    {
        &mut self.cpu
    }

    pub fn ppu(&self) -> (r: &Ppu2C02)
        ensures
            *r == self.memory@.ppu,
    {
        self.memory.ppu()
    }

    pub fn ppu_mut(&mut self) -> (r: &mut Ppu2C02)
        ensures
            *r == old(self).memory@.ppu,
            final(self).memory@ == (MemView { ppu: *final(r), ..old(self).memory@ }),
            final(self).cpu == old(self).cpu,
            final(self).system_clock_counter == old(self).system_clock_counter,
    {
        self.memory.ppu_mut()
    }

    pub fn get_system_clock_counter(&self) -> (r: u64)
        ensures
            r == self.system_clock_counter,
    {
        self.system_clock_counter
    }

    /// Processor-side write.
    pub fn cpu_write(&mut self, addr: u16, data: u8)
        ensures
            final(self).memory@ == old(self).memory@.write(addr, data),
            final(self).cpu == old(self).cpu,
            final(self).system_clock_counter == old(self).system_clock_counter,
    {
        self.memory.write(addr, data);
    }

    /// Processor-side read; reads have no side effects, whatever `read_only` says.
    pub fn cpu_read(&self, addr: u16, read_only: bool) -> (r: u8)
        ensures
            r == self.memory@.read(addr),
    {
        self.memory.read(addr)
    }

    /// Puts a cartridge in the slot.
    pub fn insert_cartridge(&mut self, cartridge: Cartridge)
        ensures
            final(self).memory@ == (MemView { cart: Some(cartridge@), ..old(self).memory@ }),
            final(self).cpu == old(self).cpu,
            final(self).system_clock_counter == old(self).system_clock_counter,
    {
        self.memory.insert_cartridge(cartridge);
    }

    /// Resets the processor and the clock divider.
    pub fn reset(&mut self)
        ensures
            final(self).cpu == old(self).cpu.reset_spec(old(self).memory@),
            final(self).memory == old(self).memory,
            final(self).system_clock_counter == 0,
    {
        self.cpu.reset(&self.memory);
        self.system_clock_counter = 0;
    }

    /// One system tick: the picture unit steps every tick, the processor on
    /// every third tick (when the counter is a multiple of 3), then the counter
    /// moves on.
    pub fn clock(&mut self)
        requires
            old(self).wf(),
        ensures
            final(self).wf(),
            final(self).system_clock_counter == wadd64(old(self).system_clock_counter, 1),
            ({
                let mid = MemView { ppu: final(self).memory@.ppu, ..old(self).memory@ };
                if old(self).system_clock_counter % 3 == 0 {
                    (final(self).cpu, final(self).memory@) == old(self).cpu.clock_spec(mid)
                } else {
                    final(self).cpu == old(self).cpu && final(self).memory@ == mid
                }
            }),
    {
        self.memory.clock_ppu();
        if self.system_clock_counter % 3 == 0 {
            let ghost mid = self.memory@;
            self.cpu.clock(&mut self.memory);
            proof {
                crate::cpu::lemma_clock_keeps_ppu(old(self).cpu, mid);
            }
        }
        self.system_clock_counter = wrap_add64(self.system_clock_counter, 1);
    }
}

} // verus!
