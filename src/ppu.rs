//! The picture unit as the processor bus sees it: eight registers, a beam
//! position that advances one dot per clock, and a frame buffer.
use vstd::prelude::*;
use crate::cartridge::Cartridge;

verus! {

/// Width of the visible picture in dots.
pub const SCREEN_WIDTH: usize = 256;
/// Height of the visible picture in lines.
pub const SCREEN_HEIGHT: usize = 240;
/// Dots per scan line, visible or not.
pub const DOTS_PER_LINE: i16 = 341;
/// The line after which the beam returns to the top.
pub const LAST_LINE: i16 = 261;
/// Number of entries in the system palette.
pub const PALETTE_SIZE: usize = 64;

/// A colour with red, green, blue and alpha channels.
#[derive(Clone, Copy, Debug, PartialEq, Eq, Structural)]
pub struct Rgba {
    pub r: u8,
    pub g: u8,
    pub b: u8,
    pub a: u8,
}

/// The colour of entry `index` of the system palette (indices wrap at 64).
pub open spec fn palette_entry(index: u8) -> Rgba {
    match index % 64 {
        0x00 => Rgba { r: 84, g: 84, b: 84, a: 255 },
        0x01 => Rgba { r: 0, g: 30, b: 116, a: 255 },
        0x02 => Rgba { r: 8, g: 16, b: 144, a: 255 },
        0x03 => Rgba { r: 48, g: 0, b: 136, a: 255 },
        0x04 => Rgba { r: 68, g: 0, b: 100, a: 255 },
        0x05 => Rgba { r: 92, g: 0, b: 48, a: 255 },
        0x06 => Rgba { r: 84, g: 4, b: 0, a: 255 },
        0x07 => Rgba { r: 60, g: 24, b: 0, a: 255 },
        0x08 => Rgba { r: 32, g: 42, b: 0, a: 255 },
        0x09 => Rgba { r: 8, g: 58, b: 0, a: 255 },
        0x0A => Rgba { r: 0, g: 64, b: 0, a: 255 },
        0x0B => Rgba { r: 0, g: 60, b: 0, a: 255 },
        0x0C => Rgba { r: 0, g: 50, b: 60, a: 255 },
        0x0D => Rgba { r: 0, g: 0, b: 0, a: 255 },
        0x0E => Rgba { r: 0, g: 0, b: 0, a: 255 },
        0x0F => Rgba { r: 0, g: 0, b: 0, a: 255 },
        0x10 => Rgba { r: 152, g: 150, b: 152, a: 255 },
        0x11 => Rgba { r: 8, g: 76, b: 196, a: 255 },
        0x12 => Rgba { r: 48, g: 50, b: 236, a: 255 },
        0x13 => Rgba { r: 92, g: 30, b: 228, a: 255 },
        0x14 => Rgba { r: 136, g: 20, b: 176, a: 255 },
        0x15 => Rgba { r: 160, g: 20, b: 100, a: 255 },
        0x16 => Rgba { r: 152, g: 34, b: 32, a: 255 },
        0x17 => Rgba { r: 120, g: 60, b: 0, a: 255 },
        0x18 => Rgba { r: 84, g: 90, b: 0, a: 255 },
        0x19 => Rgba { r: 40, g: 114, b: 0, a: 255 },
        0x1A => Rgba { r: 8, g: 124, b: 0, a: 255 },
        0x1B => Rgba { r: 0, g: 118, b: 40, a: 255 },
        0x1C => Rgba { r: 0, g: 102, b: 120, a: 255 },
        0x1D => Rgba { r: 0, g: 0, b: 0, a: 255 },
        0x1E => Rgba { r: 0, g: 0, b: 0, a: 255 },
        0x1F => Rgba { r: 0, g: 0, b: 0, a: 255 },
        0x20 => Rgba { r: 236, g: 238, b: 236, a: 255 },
        0x21 => Rgba { r: 76, g: 154, b: 236, a: 255 },
        0x22 => Rgba { r: 120, g: 124, b: 236, a: 255 },
        0x23 => Rgba { r: 176, g: 98, b: 236, a: 255 },
        0x24 => Rgba { r: 228, g: 84, b: 236, a: 255 },
        0x25 => Rgba { r: 236, g: 88, b: 180, a: 255 },
        0x26 => Rgba { r: 236, g: 106, b: 100, a: 255 },
        0x27 => Rgba { r: 212, g: 136, b: 32, a: 255 },
        0x28 => Rgba { r: 160, g: 170, b: 0, a: 255 },
        0x29 => Rgba { r: 116, g: 196, b: 0, a: 255 },
        0x2A => Rgba { r: 76, g: 208, b: 32, a: 255 },
        0x2B => Rgba { r: 56, g: 204, b: 108, a: 255 },
        0x2C => Rgba { r: 56, g: 180, b: 204, a: 255 },
        0x2D => Rgba { r: 60, g: 60, b: 60, a: 255 },
        0x2E => Rgba { r: 0, g: 0, b: 0, a: 255 },
        0x2F => Rgba { r: 0, g: 0, b: 0, a: 255 },
        0x30 => Rgba { r: 236, g: 238, b: 236, a: 255 },
        0x31 => Rgba { r: 168, g: 204, b: 236, a: 255 },
        0x32 => Rgba { r: 188, g: 188, b: 236, a: 255 },
        0x33 => Rgba { r: 212, g: 178, b: 236, a: 255 },
        0x34 => Rgba { r: 236, g: 174, b: 236, a: 255 },
        0x35 => Rgba { r: 236, g: 174, b: 212, a: 255 },
        0x36 => Rgba { r: 236, g: 180, b: 176, a: 255 },
        0x37 => Rgba { r: 228, g: 196, b: 144, a: 255 },
        0x38 => Rgba { r: 204, g: 210, b: 120, a: 255 },
        0x39 => Rgba { r: 180, g: 222, b: 120, a: 255 },
        0x3A => Rgba { r: 168, g: 226, b: 144, a: 255 },
        0x3B => Rgba { r: 152, g: 226, b: 180, a: 255 },
        0x3C => Rgba { r: 160, g: 214, b: 228, a: 255 },
        0x3D => Rgba { r: 160, g: 162, b: 160, a: 255 },
        0x3E => Rgba { r: 0, g: 0, b: 0, a: 255 },
        _ => Rgba { r: 0, g: 0, b: 0, a: 255 },
    }
}

/// The colour of entry `index` of the system palette (indices wrap at 64).
pub fn palette_color(index: u8) -> (r: Rgba)
    ensures
        r == palette_entry(index),
{
    match index % 64 {
            0x00 => Rgba { r: 84, g: 84, b: 84, a: 255 },
            0x01 => Rgba { r: 0, g: 30, b: 116, a: 255 },
            0x02 => Rgba { r: 8, g: 16, b: 144, a: 255 },
            0x03 => Rgba { r: 48, g: 0, b: 136, a: 255 },
            0x04 => Rgba { r: 68, g: 0, b: 100, a: 255 },
            0x05 => Rgba { r: 92, g: 0, b: 48, a: 255 },
            0x06 => Rgba { r: 84, g: 4, b: 0, a: 255 },
            0x07 => Rgba { r: 60, g: 24, b: 0, a: 255 },
            0x08 => Rgba { r: 32, g: 42, b: 0, a: 255 },
            0x09 => Rgba { r: 8, g: 58, b: 0, a: 255 },
            0x0A => Rgba { r: 0, g: 64, b: 0, a: 255 },
            0x0B => Rgba { r: 0, g: 60, b: 0, a: 255 },
            0x0C => Rgba { r: 0, g: 50, b: 60, a: 255 },
            0x0D => Rgba { r: 0, g: 0, b: 0, a: 255 },
            0x0E => Rgba { r: 0, g: 0, b: 0, a: 255 },
            0x0F => Rgba { r: 0, g: 0, b: 0, a: 255 },
            0x10 => Rgba { r: 152, g: 150, b: 152, a: 255 },
            0x11 => Rgba { r: 8, g: 76, b: 196, a: 255 },
            0x12 => Rgba { r: 48, g: 50, b: 236, a: 255 },
            0x13 => Rgba { r: 92, g: 30, b: 228, a: 255 },
            0x14 => Rgba { r: 136, g: 20, b: 176, a: 255 },
            0x15 => Rgba { r: 160, g: 20, b: 100, a: 255 },
            0x16 => Rgba { r: 152, g: 34, b: 32, a: 255 },
            0x17 => Rgba { r: 120, g: 60, b: 0, a: 255 },
            0x18 => Rgba { r: 84, g: 90, b: 0, a: 255 },
            0x19 => Rgba { r: 40, g: 114, b: 0, a: 255 },
            0x1A => Rgba { r: 8, g: 124, b: 0, a: 255 },
            0x1B => Rgba { r: 0, g: 118, b: 40, a: 255 },
            0x1C => Rgba { r: 0, g: 102, b: 120, a: 255 },
            0x1D => Rgba { r: 0, g: 0, b: 0, a: 255 },
            0x1E => Rgba { r: 0, g: 0, b: 0, a: 255 },
            0x1F => Rgba { r: 0, g: 0, b: 0, a: 255 },
            0x20 => Rgba { r: 236, g: 238, b: 236, a: 255 },
            0x21 => Rgba { r: 76, g: 154, b: 236, a: 255 },
            0x22 => Rgba { r: 120, g: 124, b: 236, a: 255 },
            0x23 => Rgba { r: 176, g: 98, b: 236, a: 255 },
            0x24 => Rgba { r: 228, g: 84, b: 236, a: 255 },
            0x25 => Rgba { r: 236, g: 88, b: 180, a: 255 },
            0x26 => Rgba { r: 236, g: 106, b: 100, a: 255 },
            0x27 => Rgba { r: 212, g: 136, b: 32, a: 255 },
            0x28 => Rgba { r: 160, g: 170, b: 0, a: 255 },
            0x29 => Rgba { r: 116, g: 196, b: 0, a: 255 },
            0x2A => Rgba { r: 76, g: 208, b: 32, a: 255 },
            0x2B => Rgba { r: 56, g: 204, b: 108, a: 255 },
            0x2C => Rgba { r: 56, g: 180, b: 204, a: 255 },
            0x2D => Rgba { r: 60, g: 60, b: 60, a: 255 },
            0x2E => Rgba { r: 0, g: 0, b: 0, a: 255 },
            0x2F => Rgba { r: 0, g: 0, b: 0, a: 255 },
            0x30 => Rgba { r: 236, g: 238, b: 236, a: 255 },
            0x31 => Rgba { r: 168, g: 204, b: 236, a: 255 },
            0x32 => Rgba { r: 188, g: 188, b: 236, a: 255 },
            0x33 => Rgba { r: 212, g: 178, b: 236, a: 255 },
            0x34 => Rgba { r: 236, g: 174, b: 236, a: 255 },
            0x35 => Rgba { r: 236, g: 174, b: 212, a: 255 },
            0x36 => Rgba { r: 236, g: 180, b: 176, a: 255 },
            0x37 => Rgba { r: 228, g: 196, b: 144, a: 255 },
            0x38 => Rgba { r: 204, g: 210, b: 120, a: 255 },
            0x39 => Rgba { r: 180, g: 222, b: 120, a: 255 },
            0x3A => Rgba { r: 168, g: 226, b: 144, a: 255 },
            0x3B => Rgba { r: 152, g: 226, b: 180, a: 255 },
            0x3C => Rgba { r: 160, g: 214, b: 228, a: 255 },
            0x3D => Rgba { r: 160, g: 162, b: 160, a: 255 },
            0x3E => Rgba { r: 0, g: 0, b: 0, a: 255 },
            _ => Rgba { r: 0, g: 0, b: 0, a: 255 },
        }
}

/// Relies on rand::random::<bool>: a fair coin; nothing is promised of the outcome.
#[verifier::external_body]
fn coin_flip() -> bool {
    rand::random::<bool>()
}

/// The picture unit.
#[derive(Debug)]
pub struct Ppu2C02 {
    palette_screen: Vec<Rgba>,
    sprite_screen: Vec<Rgba>,
    frame_complete: bool,
    scan_line: i16,
    cycle: i16,
}

/// Where the beam stands, whether a frame has completed, and the picture.
pub struct PpuView {
    pub frame_complete: bool,
    pub scan_line: int,
    pub cycle: int,
    pub screen: Seq<Rgba>,
}

/// The beam position and frame flag after one dot, from line `line` and dot `dot`.
pub open spec fn beam_step(line: int, dot: int, done: bool) -> (int, int, bool) {
    if dot + 1 >= DOTS_PER_LINE {
        if line + 1 >= LAST_LINE {
            (-1, 0, true)
        } else {
            (line + 1, 0, done)
        }
    } else {
        (line, dot + 1, done)
    }
}

/// The picture after the dot at `line`, `dot` is painted with `colour`: only
/// dots 1..=256 of lines 0..240 are visible.
pub open spec fn paint(screen: Seq<Rgba>, line: int, dot: int, colour: Rgba) -> Seq<Rgba> {
    if 1 <= dot <= SCREEN_WIDTH && 0 <= line < SCREEN_HEIGHT {
        screen.update(line * SCREEN_WIDTH + (dot - 1), colour)
    } else {
        screen
    }
}

impl View for Ppu2C02 {
    type V = PpuView;

    closed spec fn view(&self) -> PpuView {
        PpuView {
            frame_complete: self.frame_complete,
            scan_line: self.scan_line as int,
            cycle: self.cycle as int,
            screen: self.sprite_screen@,
        }
    }
}

impl Ppu2C02 {
    /// The palette is the system palette, the picture has one entry per
    /// visible dot, and the beam stays within its lines and dots.
    pub closed spec fn wf(&self) -> bool {
        &&& self.palette_screen@.len() == PALETTE_SIZE
        &&& forall|i: int| 0 <= i < PALETTE_SIZE ==> #[trigger] self.palette_screen@[i] == palette_entry(i as u8)
        &&& self.sprite_screen@.len() == SCREEN_WIDTH * SCREEN_HEIGHT
        &&& -1 <= self.scan_line < LAST_LINE
        &&& 0 <= self.cycle < DOTS_PER_LINE
    }

    pub fn new() -> (r: Self)
        ensures
            r.wf(),
            r@.frame_complete == false,
            r@.scan_line == 0,
            r@.cycle == 0,
            r@.screen == Seq::new((SCREEN_WIDTH * SCREEN_HEIGHT) as nat, |i: int| Rgba { r: 0, g: 0, b: 0, a: 0 }),
    {
        let mut ppu = Ppu2C02 {
            palette_screen: Vec::new(),
            sprite_screen: Vec::new(),
            frame_complete: false,
            scan_line: 0,
            cycle: 0,
        };
        ppu.setup_palette_screen();
        let blank = Rgba { r: 0, g: 0, b: 0, a: 0 };
        let mut i: usize = 0;
        while i < SCREEN_WIDTH * SCREEN_HEIGHT
            invariant
                i <= SCREEN_WIDTH * SCREEN_HEIGHT,
                ppu.sprite_screen@ == Seq::new(i as nat, |j: int| Rgba { r: 0, g: 0, b: 0, a: 0 }),
                blank == (Rgba { r: 0, g: 0, b: 0, a: 0 }),
                ppu.palette_screen@.len() == PALETTE_SIZE,
                forall|k: int| 0 <= k < PALETTE_SIZE ==> #[trigger] ppu.palette_screen@[k] == palette_entry(k as u8),
                ppu.frame_complete == false,
                ppu.scan_line == 0,
                ppu.cycle == 0,
            decreases SCREEN_WIDTH * SCREEN_HEIGHT - i,
        {
            ppu.sprite_screen.push(blank);
            i += 1;
            assert(ppu.sprite_screen@ =~= Seq::new(i as nat, |j: int| Rgba { r: 0, g: 0, b: 0, a: 0 }));
        }
        ppu
    }

    /// Fills the palette with the 64 colours of the system palette.
    fn setup_palette_screen(&mut self)
        ensures
            final(self).palette_screen@.len() == PALETTE_SIZE,
            forall|i: int| 0 <= i < PALETTE_SIZE ==> #[trigger] final(self).palette_screen@[i] == palette_entry(i as u8),
            final(self).sprite_screen == old(self).sprite_screen,
            final(self).frame_complete == old(self).frame_complete,
            final(self).scan_line == old(self).scan_line,
            final(self).cycle == old(self).cycle,
    {
        self.palette_screen = Vec::new();
        let mut i: u8 = 0;
        while i < 64
            invariant
                i <= 64,
                self.palette_screen@.len() == i,
                forall|j: int| 0 <= j < i ==> #[trigger] self.palette_screen@[j] == palette_entry(j as u8),
                self.sprite_screen == old(self).sprite_screen,
                self.frame_complete == old(self).frame_complete,
                self.scan_line == old(self).scan_line,
                self.cycle == old(self).cycle,
            decreases 64 - i,
        {
            self.palette_screen.push(palette_color(i));
            i += 1;
        }
    }

    pub fn is_frame_complete(&self) -> (r: bool)
        ensures
            r == self@.frame_complete,
    {
        self.frame_complete
    }

    pub fn set_frame_complete(&mut self, b: bool)
        requires
            old(self).wf(),
        ensures
            final(self).wf(),
            final(self)@ == (PpuView { frame_complete: b, ..old(self)@ }),
    {
        self.frame_complete = b;
    }

    /// Processor read of register `addr` (0..=7): every register reads as 0.
    pub fn cpu_read(&self, addr: u16, read_only: bool) -> (r: u8)
        ensures
            r == 0,
    {
        0
    }

    /// Processor write of register `addr` (0..=7): registers keep no state yet.
    pub fn cpu_write(&mut self, addr: u16, data: u8)
        ensures
            *final(self) == *old(self),
    {
    }

    /// Read of the picture unit's own bus: the cartridge's character memory
    /// answers, otherwise 0.
    pub fn ppu_read(&self, cartridge: &Option<Cartridge>, addr: u16, read_only: bool) -> (r: u8)
        ensures
            r == match cartridge {
                Some(c) => match c@.ppu_read(addr & 0x3FFF) {
                    Some(d) => d,
                    None => 0,
                },
                None => 0,
            },
    {
        let mut data: u8 = 0;
        let addr = addr & 0x3FFF;
        if let Some(c) = cartridge {
            c.ppu_read(addr, &mut data);
        }
        data
    }

    /// Write to the picture unit's own bus: offered to the cartridge.
    pub fn ppu_write(&self, cartridge: &mut Option<Cartridge>, addr: u16, data: u8)
        ensures
            match *old(cartridge) {
                Some(c) => *final(cartridge) matches Some(n) && n@ == c@.ppu_write(addr & 0x3FFF, data),
                None => final(cartridge).is_none(),
            },
    {
        let addr = addr & 0x3FFF;
        if let Some(c) = cartridge {
            c.ppu_write(addr, data);
        }
    }

    /// One dot: paints the dot under the beam with one of two greys, chosen
    /// by `noise`, and advances the beam; a completed last line flags the frame.
    pub fn clock_with(&mut self, noise: bool)
        requires
            old(self).wf(),
        ensures
            final(self).wf(),
            ({
                let o = old(self)@;
                let (line, dot, done) = beam_step(o.scan_line, o.cycle, o.frame_complete);
                final(self)@ == PpuView {
                    frame_complete: done,
                    scan_line: line,
                    cycle: dot,
                    screen: paint(o.screen, o.scan_line, o.cycle, palette_entry(if noise { 0x3F } else { 0x30 })),
                }
            }),
    {
        if self.cycle >= 1 && self.cycle <= 256 && self.scan_line >= 0 && self.scan_line < 240 {
            let colour = self.palette_screen[if noise { 0x3F } else { 0x30 }];
            let idx: usize = self.scan_line as usize * SCREEN_WIDTH + (self.cycle - 1) as usize;
            self.sprite_screen.set(idx, colour);
        }
        self.cycle = self.cycle + 1;
        if self.cycle >= DOTS_PER_LINE {
            self.cycle = 0;
            self.scan_line = self.scan_line + 1;
            if self.scan_line >= LAST_LINE {
                self.scan_line = -1;
                self.frame_complete = true;
            }
        }
    }

    /// One dot, with the grey drawn at random (the picture is placeholder noise).
    pub fn clock(&mut self)
        requires
            old(self).wf(),
        ensures
            final(self).wf(),
            ({
                let o = old(self)@;
                let (line, dot, done) = beam_step(o.scan_line, o.cycle, o.frame_complete);
                &&& final(self)@.frame_complete == done
                &&& final(self)@.scan_line == line
                &&& final(self)@.cycle == dot
                &&& (final(self)@.screen == paint(o.screen, o.scan_line, o.cycle, palette_entry(0x3F))
                    || final(self)@.screen == paint(o.screen, o.scan_line, o.cycle, palette_entry(0x30)))
            }),
    {
        let noise = coin_flip();
        self.clock_with(noise);
    }

    /// The picture, one colour per visible dot, line after line.
    pub fn get_screen(&self) -> (r: &Vec<Rgba>)
        ensures
            r@ == self@.screen,
    {
        &self.sprite_screen
    }

    /// The system palette.
    pub fn get_palette(&self) -> (r: &Vec<Rgba>)
        requires
            self.wf(),
        ensures
            r@.len() == PALETTE_SIZE,
            forall|i: int| 0 <= i < PALETTE_SIZE ==> #[trigger] r@[i] == palette_entry(i as u8),
    {
        &self.palette_screen
    }
}

} // verus!
