//! A single APA102 pixel: one brightness header and three colour bytes, packed
//! in wire order.
use vstd::prelude::*;

verus! {

/// The three marker bits that open every LED frame (`0b111_00000`).
pub const HEADER_MARKER: u8 = 0xE0;

/// The largest brightness level the 5-bit field can hold.
pub const MAX_LEVEL: u8 = 31;

/// The brightness level of a freshly created pixel (7/31).
pub const DEFAULT_LEVEL: u8 = 7;

const IDX_BRIGHTNESS: usize = 0;
const IDX_BLUE: usize = 1;
const IDX_GREEN: usize = 2;
const IDX_RED: usize = 3;

/// The mathematical content of a pixel: its colour channels and the stored
/// brightness header byte.
#[derive(Debug, Clone, Copy, PartialEq, Eq, Structural)]
pub struct PixelModel {
    pub red: u8,
    pub green: u8,
    pub blue: u8,
    pub header: u8,
}

impl PixelModel {
    /// The four bytes of this pixel's LED frame: header, blue, green, red.
    pub open spec fn wire(self) -> Seq<u8> {
        seq![self.header, self.blue, self.green, self.red]
    }

    /// The 5-bit brightness level held in the low bits of the header.
    pub open spec fn level(self) -> u8 {
        (self.header % 32) as u8
    }

    /// The header carries the `111` marker in its top three bits.
    pub open spec fn wf(self) -> bool {
        self.header >= HEADER_MARKER
    }

    /// This pixel with its colour replaced and its brightness kept.
    pub open spec fn with_rgb(self, red: u8, green: u8, blue: u8) -> PixelModel {
        PixelModel { red, green, blue, header: self.header }
    }

    /// This pixel with its brightness set to a (clamped) level and its colour
    /// kept.
    pub open spec fn with_level(self, level: u8) -> PixelModel {
        PixelModel { header: header_for(level), ..self }
    }
}

/// A black pixel at the default brightness level.
pub open spec fn default_pixel() -> PixelModel {
    PixelModel { red: 0, green: 0, blue: 0, header: header_for(DEFAULT_LEVEL) }
}

/// A requested brightness level, clamped to the 5-bit range.
pub open spec fn clamp_level(level: u8) -> u8 {
    if level < MAX_LEVEL {
        level
    } else {
        MAX_LEVEL
    }
}

/// The header byte stored for a requested brightness level: the marker bits
/// with the clamped level in the low five bits.
pub open spec fn header_for(level: u8) -> u8 {
    (HEADER_MARKER + clamp_level(level)) as u8
}

/// Setting a brightness level and reading it back gives the level, clamped to
/// 31; levels in range come back unchanged. The stored header keeps its top
/// three bits at `111` whatever the level.
pub proof fn lemma_level_round_trip(p: PixelModel, level: u8)
    ensures
        p.with_level(level).level() == clamp_level(level),
        level <= MAX_LEVEL ==> p.with_level(level).level() == level,
        p.with_level(level).header & HEADER_MARKER == HEADER_MARKER,
        p.with_level(level).wf(),
{
    let c = clamp_level(level);
    assert(c <= 31 ==> (0xE0u8 + c) as u8 & 0xE0u8 == 0xE0u8) by (bit_vector);
}

/// Levels above the 5-bit range are clamped: every level of 31 or more
/// stores the same header, `0xFF`.
pub proof fn lemma_level_clamped(p: PixelModel, level: u8)
    requires
        level >= MAX_LEVEL,
    ensures
        p.with_level(level) == p.with_level(MAX_LEVEL),
        p.with_level(level).header == 0xFF,
{
}

/// A pixel on an LED strip or board.
#[derive(Debug, Clone, Copy)]
pub struct Pixel {
    value: [u8; 4],  // brightness header, blue, green, red
}

impl View for Pixel {
    type V = PixelModel;

    closed spec fn view(&self) -> PixelModel {
        PixelModel {
            red: self.value[3],
            green: self.value[2],
            blue: self.value[1],
            header: self.value[0],
        }
    }
}

impl Default for Pixel {
    /// A black pixel at the default brightness level.
    fn default() -> (p: Self)
        ensures
            p@ == default_pixel(),
    {
        proof {
            assert(0xE0u8 | 7u8 == 0xE7u8) by (bit_vector);
        }
        Pixel { value: [HEADER_MARKER | DEFAULT_LEVEL, 0, 0, 0] }
    }
}

impl Pixel {
    /// Returns the values for red, green and blue.
    pub fn rgb(&self) -> (r: (u8, u8, u8))
        ensures
            r == (self@.red, self@.green, self@.blue),
    {
        (self.value[IDX_RED], self.value[IDX_GREEN], self.value[IDX_BLUE])
    }

    /// Sets the values for red, green and blue, each between `0` (0%) and
    /// `255` (100%). The brightness is left as it is.
    pub fn set_rgb(&mut self, red: u8, green: u8, blue: u8)
        ensures
            final(self)@ == (PixelModel { red, green, blue, header: old(self)@.header }),
    {
        self.value[IDX_RED] = red;
        self.value[IDX_GREEN] = green;
        self.value[IDX_BLUE] = blue;
    }

    /// Returns the values for red, green, blue and the 5-bit brightness level.
    pub fn rgbb_level(&self) -> (r: (u8, u8, u8, u8))
        ensures
            r == (self@.red, self@.green, self@.blue, self@.level()),
    {
        (self.value[IDX_RED], self.value[IDX_GREEN], self.value[IDX_BLUE], self.brightness_level())
    }

    /// Sets the values for red, green, blue and the brightness level; a level
    /// above 31 is clamped to 31.
    pub fn set_rgbb_level(&mut self, red: u8, green: u8, blue: u8, level: u8)
        ensures
            final(self)@ == (PixelModel { red, green, blue, header: header_for(level) }),
    {
        self.set_rgb(red, green, blue);
        self.set_brightness_level(level);
    }

    /// Returns the red value.
    pub fn red(&self) -> (r: u8)
        ensures
            r == self@.red,
    {
        self.value[IDX_RED]
    }

    /// Sets the red value.
    pub fn set_red(&mut self, red: u8)
        ensures
            final(self)@ == (PixelModel { red, ..old(self)@ }),
    {
        self.value[IDX_RED] = red;
    }

    /// Returns the green value.
    pub fn green(&self) -> (r: u8)
        ensures
            r == self@.green,
    {
        self.value[IDX_GREEN]
    }

    /// Sets the green value.
    pub fn set_green(&mut self, green: u8)
        ensures
            final(self)@ == (PixelModel { green, ..old(self)@ }),
    {
        self.value[IDX_GREEN] = green;
    }

    /// Returns the blue value.
    pub fn blue(&self) -> (r: u8)
        ensures
            r == self@.blue,
    {
        self.value[IDX_BLUE]
    }

    /// Sets the blue value.
    pub fn set_blue(&mut self, blue: u8)
        ensures
            final(self)@ == (PixelModel { blue, ..old(self)@ }),
    {
        self.value[IDX_BLUE] = blue;
    }

    /// Returns the 5-bit brightness level, between `0` and `31`.
    pub fn brightness_level(&self) -> (r: u8)
        ensures
            r == self@.level(),
            r <= MAX_LEVEL,
    {
        let header = self.value[IDX_BRIGHTNESS];
        proof {
            assert(0x1Fu8 & header == header % 32 && header % 32 <= 31) by (bit_vector);
        }
        0b0001_1111 & header
    }

    /// Sets the brightness level; a level above 31 is clamped to 31. The
    /// header keeps its three marker bits.
    pub fn set_brightness_level(&mut self, level: u8)
        ensures
            final(self)@ == (PixelModel { header: header_for(level), ..old(self)@ }),
    {
        let clamped = if level < MAX_LEVEL {
            level
        } else {
            MAX_LEVEL
        };
        proof {
            assert(clamped <= 31 ==> 0xE0u8 | clamped == 0xE0 + clamped) by (bit_vector);
        }
        self.value[IDX_BRIGHTNESS] = HEADER_MARKER | clamped;
    }

    /// Sets the red, green and blue values to `0`; the brightness is left as
    /// it is.
    pub fn clear(&mut self)
        ensures
            final(self)@ == (PixelModel { red: 0, green: 0, blue: 0, header: old(self)@.header }),
    {
        self.set_rgb(0, 0, 0);
    }

    /// The pixel's LED frame, in wire order: brightness header, blue, green,
    /// red.
    pub fn bytes(&self) -> (r: &[u8])
        ensures
            r@ == self@.wire(),
    {
        proof {
            assert(self.value@ =~= self@.wire());
        }
        &self.value
    }
}

} // verus!
