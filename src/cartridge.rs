//! Cartridge images: header parsing, program and character banks.
use vstd::prelude::*;
use crate::mapper::{Mapper, Mapper000};

verus! {

/// Size of one program bank.
pub const PROGRAM_BANK_SIZE: usize = 16384;
/// Size of one character bank.
pub const CHAR_BANK_SIZE: usize = 8192;
/// Size of the fixed image header.
pub const HEADER_SIZE: usize = 16;
/// Size of the optional trainer block that follows the header.
pub const TRAINER_SIZE: usize = 512;

/// The fixed 16-byte header at the start of an image.
#[derive(Clone, Copy, Debug)]
pub struct NesHeader {
    pub name: [u8; 4],
    pub program_rom_chunks: u8,
    pub char_rom_chunks: u8,
    pub mapper1: u8,
    pub mapper2: u8,
    pub program_ram_size: u8,
    pub tv_system1: u8,
    pub tv_system2: u8,
}

/// Why an image cannot be loaded.
#[derive(Clone, Copy, Debug, PartialEq, Eq, Structural)]
pub enum CartridgeError {
    /// The image holds fewer bytes than its header declares.
    Truncated,
    /// The header selects a mapper that is not implemented.
    UnsupportedMapper(u8),
}

/// The mapper id made of the high nibbles of the two mapper bytes.
pub open spec fn mapper_id_of(mapper1: u8, mapper2: u8) -> u8 {
    ((mapper2 >> 4) << 4) | (mapper1 >> 4)
}

/// Where program memory starts: after the header, and after the trainer when
/// bit 2 of the first mapper byte says there is one.
pub open spec fn program_start(img: Seq<u8>) -> int {
    if img[6] & 0x04 != 0 {
        HEADER_SIZE + TRAINER_SIZE
    } else {
        HEADER_SIZE as int
    }
}

pub open spec fn program_len(img: Seq<u8>) -> int {
    img[4] * PROGRAM_BANK_SIZE
}

pub open spec fn char_len(img: Seq<u8>) -> int {
    img[5] * CHAR_BANK_SIZE
}

/// True when the image holds a header and every bank the header declares.
pub open spec fn image_complete(img: Seq<u8>) -> bool {
    img.len() >= HEADER_SIZE && img.len() >= program_start(img) + program_len(img) + char_len(img)
}

/// What a cartridge holds, as plain values.
pub struct CartView {
    pub program_memory: Seq<u8>,
    pub char_memory: Seq<u8>,
    pub mapper_id: u8,
    pub program_banks: u8,
    pub char_banks: u8,
    pub mapper: Mapper000,
}

impl CartView {
    /// The byte a processor read at `addr` yields, when the cartridge handles it.
    /// An offset past the end of program memory is not handled.
    pub open spec fn cpu_read(self, addr: u16) -> Option<u8> {
        match self.mapper.cpu_read_target(addr) {
            Some(off) => if off < self.program_memory.len() {
                Some(self.program_memory[off as int])
            } else {
                None
            },
            None => None,
        }
    }

    /// The offset into program memory that a processor write at `addr` changes.
    pub open spec fn cpu_write_offset(self, addr: u16) -> Option<int> {
        match self.mapper.cpu_write_target(addr) {
            Some(off) => if off < self.program_memory.len() {
                Some(off as int)
            } else {
                None
            },
            None => None,
        }
    }

    pub open spec fn cpu_write(self, addr: u16, data: u8) -> CartView {
        match self.cpu_write_offset(addr) {
            Some(off) => CartView { program_memory: self.program_memory.update(off, data), ..self },
            None => self,
        }
    }

    pub open spec fn ppu_read(self, addr: u16) -> Option<u8> {
        match self.mapper.ppu_read_target(addr) {
            Some(off) => if off < self.char_memory.len() {
                Some(self.char_memory[off as int])
            } else {
                None
            },
            None => None,
        }
    }

    pub open spec fn ppu_write_offset(self, addr: u16) -> Option<int> {
        match self.mapper.ppu_write_target(addr) {
            Some(off) => if off < self.char_memory.len() {
                Some(off as int)
            } else {
                None
            },
            None => None,
        }
    }

    pub open spec fn ppu_write(self, addr: u16, data: u8) -> CartView {
        match self.ppu_write_offset(addr) {
            Some(off) => CartView { char_memory: self.char_memory.update(off, data), ..self },
            None => self,
        }
    }
}

/// A loaded cartridge: program and character memory and the mapper that
/// translates bus addresses into them.
#[derive(Debug)]
pub struct Cartridge {
    program_memory: Vec<u8>,
    char_memory: Vec<u8>,
    mapper_id: u8,
    program_banks: u8,
    char_banks: u8,
    mapper: Mapper000,
}

impl View for Cartridge {
    type V = CartView;

    closed spec fn view(&self) -> CartView {
        CartView {
            program_memory: self.program_memory@,
            char_memory: self.char_memory@,
            mapper_id: self.mapper_id,
            program_banks: self.program_banks,
            char_banks: self.char_banks,
            mapper: self.mapper,
        }
    }
}

/// Copies `len` bytes of `src` from `start` on.
fn copy_bytes(src: &[u8], start: usize, len: usize) -> (r: Vec<u8>)
    requires
        start + len <= src@.len(),
    ensures
        r@ == src@.subrange(start as int, start + len),
{
    let n: usize = src.len();
    let mut r: Vec<u8> = Vec::with_capacity(len);
    let mut i: usize = 0;
    while i < len
        invariant
            start + len <= src@.len(),
            n == src@.len(),
            i <= len,
            r@ == src@.subrange(start as int, start + i),
        decreases len - i,
    {
        r.push(src[start + i]);
        i += 1;
        assert(r@ =~= src@.subrange(start as int, start + i));
    }
    r
}

/// Reads the header fields; `None` when the image is shorter than a header.
pub fn parse_header(image: &[u8]) -> (r: Option<NesHeader>)
    ensures
        image@.len() < HEADER_SIZE <==> r.is_none(),
        r matches Some(h) ==> {
            &&& h.name@ == image@.subrange(0, 4)
            &&& h.program_rom_chunks == image@[4]
            &&& h.char_rom_chunks == image@[5]
            &&& h.mapper1 == image@[6]
            &&& h.mapper2 == image@[7]
            &&& h.program_ram_size == image@[8]
            &&& h.tv_system1 == image@[9]
            &&& h.tv_system2 == image@[10]
        },
{
    if image.len() < HEADER_SIZE {
        return None;
    }
    let name = [image[0], image[1], image[2], image[3]];
    assert(name@ =~= image@.subrange(0, 4));
    Some(
        NesHeader {
            name,
            program_rom_chunks: image[4],
            char_rom_chunks: image[5],
            mapper1: image[6],
            mapper2: image[7],
            program_ram_size: image[8],
            tv_system1: image[9],
            tv_system2: image[10],
        },
    )
}

impl Cartridge {
    /// Loads a cartridge from the bytes of an image: the header, an optional
    /// trainer (skipped), then the program banks and the character banks.
    pub fn new(image: &[u8]) -> (r: Result<Cartridge, CartridgeError>)
        ensures
            !image_complete(image@) <==> r == Err::<Cartridge, _>(CartridgeError::Truncated),
            image_complete(image@) && mapper_id_of(image@[6], image@[7]) != 0 <==> r == Err::<
                Cartridge,
                _,
            >(CartridgeError::UnsupportedMapper(mapper_id_of(image@[6], image@[7]))),
            r is Ok <==> image_complete(image@) && mapper_id_of(image@[6], image@[7]) == 0,
            r matches Ok(c) ==> {
                let start = program_start(image@);
                let mid = start + program_len(image@);
                &&& c@.program_memory == image@.subrange(start, mid)
                &&& c@.char_memory == image@.subrange(mid, mid + char_len(image@))
                &&& c@.mapper_id == 0
                &&& c@.program_banks == image@[4]
                &&& c@.char_banks == image@[5]
                &&& c@.mapper == Mapper000::new_spec(image@[4], image@[5])
            },
    {
        let header = match parse_header(image) {
            Some(h) => h,
            None => return Err(CartridgeError::Truncated),
        };
        let start: usize = if header.mapper1 & 0x04 != 0 {
            HEADER_SIZE + TRAINER_SIZE
        } else {
            HEADER_SIZE
        };
        let program_len: usize = header.program_rom_chunks as usize * PROGRAM_BANK_SIZE;
        let char_len: usize = header.char_rom_chunks as usize * CHAR_BANK_SIZE;
        if image.len() < start || image.len() - start < program_len || image.len() - start
            - program_len < char_len {
            return Err(CartridgeError::Truncated);
        }
        let mapper_id: u8 = ((header.mapper2 >> 4) << 4) | (header.mapper1 >> 4);
        if mapper_id != 0 {
            return Err(CartridgeError::UnsupportedMapper(mapper_id));
        }
        let program_memory = copy_bytes(image, start, program_len);
        let char_memory = copy_bytes(image, start + program_len, char_len);
        Ok(
            Cartridge {
                program_memory,
                char_memory,
                mapper_id,
                program_banks: header.program_rom_chunks,
                char_banks: header.char_rom_chunks,
                mapper: Mapper000::new(header.program_rom_chunks, header.char_rom_chunks),
            },
        )
    }

    /// Processor read: true when the cartridge handles `addr`, with the byte in `data`.
    pub fn cpu_read(&self, addr: u16, data: &mut u8) -> (handled: bool)
        ensures
            handled == self@.cpu_read(addr).is_some(),
            handled ==> *final(data) == self@.cpu_read(addr).unwrap(),
            !handled ==> *final(data) == *old(data),
    {
        let mut mapped_addr: u32 = 0;
        if self.mapper.cpu_map_read(addr, &mut mapped_addr) && (mapped_addr as usize)
            < self.program_memory.len() {
            *data = self.program_memory[mapped_addr as usize];
            true
        } else {
            false
        }
    }

    /// Processor write: true when the cartridge handles `addr`.
    pub fn cpu_write(&mut self, addr: u16, data: u8) -> (handled: bool)
        ensures
            handled == old(self)@.cpu_write_offset(addr).is_some(),
            final(self)@ == old(self)@.cpu_write(addr, data),
    {
        let mut mapped_addr: u32 = 0;
        if self.mapper.cpu_map_write(addr, &mut mapped_addr) && (mapped_addr as usize)
            < self.program_memory.len() {
            self.program_memory.set(mapped_addr as usize, data);
            true
        } else {
            false
        }
    }

    /// Picture-unit read: true when the cartridge handles `addr`, with the byte in `data`.
    pub fn ppu_read(&self, addr: u16, data: &mut u8) -> (handled: bool)
        ensures
            handled == self@.ppu_read(addr).is_some(),
            handled ==> *final(data) == self@.ppu_read(addr).unwrap(),
            !handled ==> *final(data) == *old(data),
    {
        let mut mapped_addr: u32 = 0;
        if self.mapper.ppu_map_read(addr, &mut mapped_addr) && (mapped_addr as usize)
            < self.char_memory.len() {
            *data = self.char_memory[mapped_addr as usize];
            true
        } else {
            false
        }
    }

    /// Picture-unit write: true when the cartridge handles `addr`.
    pub fn ppu_write(&mut self, addr: u16, data: u8) -> (handled: bool)
        ensures
            handled == old(self)@.ppu_write_offset(addr).is_some(),
            final(self)@ == old(self)@.ppu_write(addr, data),
    {
        let mut mapped_addr: u32 = 0;
        if self.mapper.ppu_map_write(addr, &mut mapped_addr) && (mapped_addr as usize)
            < self.char_memory.len() {
            self.char_memory.set(mapped_addr as usize, data);
            true
        } else {
            false
        }
    }

    pub fn program_memory(&self) -> (r: &Vec<u8>)
        ensures
            r@ == self@.program_memory,
    {
        &self.program_memory
    }

    pub fn char_memory(&self) -> (r: &Vec<u8>)
        ensures
            r@ == self@.char_memory,
    {
        &self.char_memory
    }

    pub fn mapper_id(&self) -> (r: u8)
        ensures
            r == self@.mapper_id,
    {
        self.mapper_id
    }

    pub fn program_banks(&self) -> (r: u8)
        ensures
            r == self@.program_banks,
    {
        self.program_banks
    }

    pub fn char_banks(&self) -> (r: u8)
        ensures
            r == self@.char_banks,
    {
        self.char_banks
    }
}

} // verus!
