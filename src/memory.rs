//! The processor's address space: RAM, the picture unit's registers and the
//! cartridge, with the cartridge given the first claim on every address.
use vstd::prelude::*;
use crate::bits::lemma_u16_masks;
use crate::cartridge::{CartView, Cartridge};
use crate::ppu::Ppu2C02;

verus! {

/// Bytes of physical RAM.
pub const RAM_SIZE: usize = 2048;
/// Highest address of the RAM window (2 KiB mirrored four times).
pub const RAM_END: u16 = 0x1FFF;
/// Highest address of the picture-unit register window (8 registers mirrored).
pub const PPU_REGISTERS_END: u16 = 0x3FFF;

/// The address space as plain values.
pub struct MemView {
    pub ram: Seq<u8>,
    pub ppu: Ppu2C02,
    pub cart: Option<CartView>,
}

impl MemView {
    /// What a processor read at `addr` yields.
    #[verifier::opaque]
    pub open spec fn read(self, addr: u16) -> u8 {
        let claimed = match self.cart {
            Some(c) => c.cpu_read(addr),
            None => None,
        };
        match claimed {
            Some(d) => d,
            None => if addr <= RAM_END {
                self.ram[(addr & 0x07FF) as int]
            } else {
                // the picture unit's registers read as 0, and nothing else answers
                0
            },
        }
    }

    /// The address space after a processor write of `data` at `addr`.
    #[verifier::opaque]
    pub open spec fn write(self, addr: u16, data: u8) -> MemView {
        let claimed = match self.cart {
            Some(c) => c.cpu_write_offset(addr).is_some(),
            None => false,
        };
        if claimed {
            MemView { cart: Some(self.cart.unwrap().cpu_write(addr, data)), ..self }
        } else if addr <= RAM_END {
            MemView { ram: self.ram.update((addr & 0x07FF) as int, data), ..self }
        } else {
            self
        }
    }
}

/// A processor write never reaches the picture unit's state.
pub broadcast proof fn lemma_write_keeps_ppu(m: MemView, addr: u16, data: u8)
    ensures
        #[trigger] m.write(addr, data).ppu == m.ppu,
{
    reveal(MemView::write);
}

/// RAM, the picture unit and the cartridge slot.
#[derive(Debug)]
pub struct SystemMemory {
    ram: [u8; 2048],
    ppu: Ppu2C02,
    cartridge: Option<Cartridge>,
}

impl View for SystemMemory {
    type V = MemView;

    closed spec fn view(&self) -> MemView {
        MemView {
            ram: self.ram@,
            ppu: self.ppu,
            cart: match self.cartridge {
                Some(c) => Some(c@),
                None => None,
            },
        }
    }
}

impl SystemMemory {
    pub open spec fn wf(&self) -> bool {
        self@.ppu.wf()
    }

    /// RAM always holds exactly `RAM_SIZE` bytes.
    pub proof fn lemma_ram_len(&self)
        ensures
            self@.ram.len() == RAM_SIZE,
    {
    }

    /// Zeroed RAM, the given picture unit and an empty cartridge slot.
    pub fn new(ppu: Ppu2C02) -> (r: Self)
        requires
            ppu.wf(),
        ensures
            r.wf(),
            r@.ram == Seq::new(RAM_SIZE as nat, |i: int| 0u8),
            r@.ppu == ppu,
            r@.cart.is_none(),
    {
        let r = SystemMemory { ram: [0; 2048], ppu, cartridge: None };
        assert(r.ram@ =~= Seq::new(RAM_SIZE as nat, |i: int| 0u8));
        r
    }

    /// Processor read.
    pub fn read(&self, addr: u16) -> (r: u8)
        ensures
            r == self@.read(addr),
    {
        proof {
            reveal(MemView::read);
        }
        let mut data: u8 = 0;
        if let Some(c) = &self.cartridge {
            if c.cpu_read(addr, &mut data) {
                return data;
            }
        }
        proof {
            lemma_u16_masks(addr);
        }
        if addr <= RAM_END {
            self.ram[(addr & 0x07FF) as usize]
        } else if addr <= PPU_REGISTERS_END {
            self.ppu.cpu_read(addr & 0x0007, false)
        } else {
            0
        }
    }

    /// Processor write.
    pub fn write(&mut self, addr: u16, data: u8)
        ensures
            final(self)@ == old(self)@.write(addr, data),
    {
        proof {
            reveal(MemView::write);
        }
        if let Some(c) = &mut self.cartridge {
            if c.cpu_write(addr, data) {
                return;
            }
        }
        proof {
            lemma_u16_masks(addr);
        }
        if addr <= RAM_END {
            self.ram[(addr & 0x07FF) as usize] = data;
            assert(self@.ram =~= old(self)@.ram.update((addr & 0x07FF) as int, data));
        } else if addr <= PPU_REGISTERS_END {
            self.ppu.cpu_write(addr & 0x0007, data);
        }
    }

    /// Puts a cartridge in the slot, replacing any earlier one.
    pub fn insert_cartridge(&mut self, cartridge: Cartridge)
        ensures
            final(self)@ == (MemView { cart: Some(cartridge@), ..old(self)@ }),
    {
        self.cartridge = Some(cartridge);
    }

    pub fn ppu(&self) -> (r: &Ppu2C02)
        ensures
            *r == self@.ppu,
    {
        &self.ppu
    }

    pub fn ppu_mut(&mut self) -> (r: &mut Ppu2C02)
        ensures
            *r == old(self)@.ppu,
            final(self)@ == (MemView { ppu: *final(r), ..old(self)@ }),
    {
        &mut self.ppu
    }

    pub fn cartridge(&self) -> (r: &Option<Cartridge>)
        ensures
            match *r {
                Some(c) => self@.cart == Some(c@),
                None => self@.cart.is_none(),
            },
    {
        &self.cartridge
    }

    /// One picture-unit dot.
    pub fn clock_ppu(&mut self)
        requires
            old(self).wf(),
        ensures
            final(self).wf(),
            final(self)@.ram == old(self)@.ram,
            final(self)@.cart == old(self)@.cart,
    {
        self.ppu.clock();
    }
}

} // verus!
