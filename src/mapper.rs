//! Cartridge address translation.
use vstd::prelude::*;

verus! {

/// Translates bus addresses into offsets within a cartridge's program or
/// character memory. `None` from a `*_target` function means the mapper does
/// not claim the address.
pub trait Mapper {
    spec fn cpu_read_target(&self, addr: u16) -> Option<u32>;

    spec fn cpu_write_target(&self, addr: u16) -> Option<u32>;

    spec fn ppu_read_target(&self, addr: u16) -> Option<u32>;

    spec fn ppu_write_target(&self, addr: u16) -> Option<u32>;

    /// Returns true when the mapper claims `addr` for a processor read, with the
    /// offset into program memory stored in `mapped_addr`.
    fn cpu_map_read(&self, addr: u16, mapped_addr: &mut u32) -> (handled: bool)
        ensures
            handled == self.cpu_read_target(addr).is_some(),
            handled ==> *final(mapped_addr) == self.cpu_read_target(addr).unwrap(),
            !handled ==> *final(mapped_addr) == *old(mapped_addr),
    ;

    /// As `cpu_map_read`, for a processor write.
    fn cpu_map_write(&self, addr: u16, mapped_addr: &mut u32) -> (handled: bool)
        ensures
            handled == self.cpu_write_target(addr).is_some(),
            handled ==> *final(mapped_addr) == self.cpu_write_target(addr).unwrap(),
            !handled ==> *final(mapped_addr) == *old(mapped_addr),
    ;

    /// As `cpu_map_read`, for a picture-unit read of character memory.
    fn ppu_map_read(&self, addr: u16, mapped_addr: &mut u32) -> (handled: bool)
        ensures
            handled == self.ppu_read_target(addr).is_some(),
            handled ==> *final(mapped_addr) == self.ppu_read_target(addr).unwrap(),
            !handled ==> *final(mapped_addr) == *old(mapped_addr),
    ;

    /// As `cpu_map_read`, for a picture-unit write of character memory.
    fn ppu_map_write(&self, addr: u16, mapped_addr: &mut u32) -> (handled: bool)
        ensures
            handled == self.ppu_write_target(addr).is_some(),
            handled ==> *final(mapped_addr) == self.ppu_write_target(addr).unwrap(),
            !handled ==> *final(mapped_addr) == *old(mapped_addr),
    ;
}

/// The fixed-bank mapper: one or two 16 KiB program banks seen at 0x8000 and
/// above, and one 8 KiB character bank seen unchanged at 0x0000..=0x1FFF.
#[derive(Clone, Copy, Debug, PartialEq, Eq, Structural)]
pub struct Mapper000 {
    pub program_banks: u8,
    pub char_banks: u8,
}

impl Mapper000 {
    pub open spec fn new_spec(program_banks: u8, char_banks: u8) -> Self {
        Mapper000 { program_banks, char_banks }
    }

    pub fn new(program_banks: u8, char_banks: u8) -> (r: Self)
        ensures
            r == Mapper000::new_spec(program_banks, char_banks),
    {
        Mapper000 { program_banks, char_banks }
    }

    /// The mask that folds a processor address into program memory: a single
    /// bank is mirrored over the whole 32 KiB window.
    pub open spec fn program_mask(&self) -> u16 {
        if self.program_banks > 1 {
            0x7FFF
        } else {
            0x3FFF
        }
    }

    pub open spec fn program_target(&self, addr: u16) -> Option<u32> {
        if addr >= 0x8000 {
            Some((addr & self.program_mask()) as u32)
        } else {
            None
        }
    }
}

impl Mapper for Mapper000 {
    open spec fn cpu_read_target(&self, addr: u16) -> Option<u32> {
        self.program_target(addr)
    }

    open spec fn cpu_write_target(&self, addr: u16) -> Option<u32> {
        self.program_target(addr)
    }

    open spec fn ppu_read_target(&self, addr: u16) -> Option<u32> {
        if addr <= 0x1FFF {
            Some(addr as u32)
        } else {
            None
        }
    }

    /// Character memory is read-only here: no write is ever claimed.
    open spec fn ppu_write_target(&self, addr: u16) -> Option<u32> {
        None
    }

    fn cpu_map_read(&self, addr: u16, mapped_addr: &mut u32) -> (handled: bool) {
        if addr >= 0x8000 {
            *mapped_addr = (addr & (if self.program_banks > 1 {
                0x7FFF
            } else {
                0x3FFF
            })) as u32;
            return true;
        }
        false
    }

    fn cpu_map_write(&self, addr: u16, mapped_addr: &mut u32) -> (handled: bool) {
        if addr >= 0x8000 {
            *mapped_addr = (addr & (if self.program_banks > 1 {
                0x7FFF
            } else {
                0x3FFF
            })) as u32;
            return true;
        }
        false
    }

    fn ppu_map_read(&self, addr: u16, mapped_addr: &mut u32) -> (handled: bool) {
        if addr <= 0x1FFF {
            *mapped_addr = addr as u32;
            return true;
        }
        false
    }

    fn ppu_map_write(&self, addr: u16, mapped_addr: &mut u32) -> (handled: bool) {
        false
    }
}

} // verus!
