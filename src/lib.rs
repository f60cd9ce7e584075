//! Driver logic for APA102 and SK9822 addressable RGB LED pixels, as found on
//! the Pimoroni Blinkt! board and on LED strips.
//!
//! `Blinkt` keeps a buffer of pixel colours and brightness levels and encodes
//! it into the byte stream that the LED driver ICs expect. Putting the bytes
//! on the wire (GPIO bit-banging or hardware SPI) is left to the caller:
//! `Blinkt::show` hands back the frame to send, `BlinktGpio::levels` the
//! data-line levels for bit-banging it, and `Blinkt::teardown` what to do when
//! the device is released.
use vstd::prelude::*;

pub mod frame;
pub mod output;
pub mod pixel;
pub mod spi;
pub mod system;

pub use frame::Frame;
pub use output::{BlinktGpio, BlinktSpi, SerialOutput};
pub use pixel::{Pixel, PixelModel};

use frame::{end_frame_len, end_frame_length, led_bytes, led_frames, pixel_models, zero_bytes, zeros};
use pixel::default_pixel;

verus! {

/// Data pin of the Pimoroni Blinkt! board (BCM GPIO 23, physical pin 16).
pub const DAT: u8 = 23;

/// Clock pin of the Pimoroni Blinkt! board (BCM GPIO 24, physical pin 18).
pub const CLK: u8 = 24;

/// Number of pixels on the Pimoroni Blinkt! board.
pub const NUM_PIXELS: usize = 8;

/// The mathematical content of a `Blinkt`.
pub struct BlinktModel {
    /// The transport that frames are sent through.
    pub output: SerialOutput,
    /// The pixel buffer, in chain order.
    pub pixels: Seq<PixelModel>,
    /// Whether tearing down clears the pixels first.
    pub clear_on_drop: bool,
    /// Whether the transport has been released by `teardown`.
    pub released: bool,
}

impl BlinktModel {
    /// Every pixel header carries the `111` marker bits.
    pub open spec fn headers_marked(self) -> bool {
        forall|i: int| 0 <= i < self.pixels.len() ==> #[trigger] self.pixels[i].wf()
    }
}

/// A buffer with every pixel's colour set to black and its brightness kept.
pub open spec fn cleared(pixels: Seq<PixelModel>) -> Seq<PixelModel> {
    pixels.map_values(|p: PixelModel| p.with_rgb(0, 0, 0))
}

/// A buffer of `n` pixels as they are created.
pub open spec fn fresh_pixels(n: nat) -> Seq<PixelModel> {
    Seq::new(n, |_i: int| default_pixel())
}

/// What the caller must do to end a `Blinkt`'s use of its transport.
pub enum TeardownAction {
    /// The transport was released earlier: nothing is left to do.
    AlreadyReleased,
    /// Release the transport.
    Release,
    /// Send the frame (best effort: a failure is ignored), then release the
    /// transport.
    ShowThenRelease(Frame),
}

/// Interface for the Pimoroni Blinkt!, and any similar APA102 or SK9822 LED
/// strips or boards.
///
/// By default, Blinkt is set up for an 8-pixel board with data pin GPIO 23
/// (physical pin 16) and clock pin GPIO 24 (physical pin 18).
pub struct Blinkt {
    serial_output: SerialOutput,
    pixels: Vec<Pixel>,
    clear_on_drop: bool,
    end_frame_len: usize,
    released: bool,
}

impl View for Blinkt {
    type V = BlinktModel;

    closed spec fn view(&self) -> BlinktModel {
        BlinktModel {
            output: self.serial_output,
            pixels: pixel_models(self.pixels@),
            clear_on_drop: self.clear_on_drop,
            released: self.released,
        }
    }
}

/// After a clear, the LED frames carry no colour: in each pixel's four bytes
/// the blue, green and red bytes are zero, and the header keeps the pixel's
/// brightness.
pub proof fn lemma_cleared_led_frames(pixels: Seq<PixelModel>)
    ensures
        led_frames(cleared(pixels)).len() == 4 * pixels.len(),
        forall|j: int|
            0 <= j < 4 * pixels.len() && j % 4 != 0 ==> #[trigger] led_frames(cleared(pixels))[j] == 0,
        forall|j: int|
            0 <= j < 4 * pixels.len() && j % 4 == 0 ==> #[trigger] led_frames(cleared(pixels))[j]
                == pixels[j / 4].header,
{
    frame::lemma_led_frames_len(cleared(pixels));
    assert forall|j: int| 0 <= j < 4 * pixels.len() implies #[trigger] led_frames(cleared(pixels))[j]
        == (if j % 4 == 0 { pixels[j / 4].header } else { 0u8 }) by {
        frame::lemma_led_frames_index(cleared(pixels), j);
    }
}

/// Sets the colour of every pixel, keeping each brightness.
fn recolor_all(pixels: &mut Vec<Pixel>, red: u8, green: u8, blue: u8)
    ensures
        final(pixels).len() == old(pixels).len(),
        forall|j: int|
            0 <= j < old(pixels).len() ==> (#[trigger] final(pixels)@[j])@ == old(pixels)@[j]@.with_rgb(
                red,
                green,
                blue,
            ),
        pixel_models(final(pixels)@) == pixel_models(old(pixels)@).map_values(
            |p: PixelModel| p.with_rgb(red, green, blue),
        ),
{
    let n = pixels.len();
    let mut i: usize = 0;
    while i < n
        invariant
            i <= n,
            n == pixels.len(),
            n == old(pixels).len(),
            forall|j: int| 0 <= j < i ==> #[trigger] pixels@[j]@ == old(pixels)@[j]@.with_rgb(red, green, blue),
            forall|j: int| i <= j < n ==> #[trigger] pixels@[j] == old(pixels)@[j],
        decreases n - i,
    {
        let mut p = pixels[i];
        p.set_rgb(red, green, blue);
        pixels.set(i, p);
        i += 1;
    }
    assert(pixel_models(pixels@) =~= pixel_models(old(pixels)@).map_values(
        |p: PixelModel| p.with_rgb(red, green, blue),
    ));
}

/// Sets the brightness level of every pixel, keeping each colour.
fn set_level_all(pixels: &mut Vec<Pixel>, level: u8)
    ensures
        final(pixels).len() == old(pixels).len(),
        forall|j: int|
            0 <= j < old(pixels).len() ==> (#[trigger] final(pixels)@[j])@ == old(pixels)@[j]@.with_level(
                level,
            ),
        pixel_models(final(pixels)@) == pixel_models(old(pixels)@).map_values(
            |p: PixelModel| p.with_level(level),
        ),
{
    let n = pixels.len();
    let mut i: usize = 0;
    while i < n
        invariant
            i <= n,
            n == pixels.len(),
            n == old(pixels).len(),
            forall|j: int| 0 <= j < i ==> #[trigger] pixels@[j]@ == old(pixels)@[j]@.with_level(level),
            forall|j: int| i <= j < n ==> #[trigger] pixels@[j] == old(pixels)@[j],
        decreases n - i,
    {
        let mut p = pixels[i];
        p.set_brightness_level(level);
        pixels.set(i, p);
        i += 1;
    }
    assert(pixel_models(pixels@) =~= pixel_models(old(pixels)@).map_values(
        |p: PixelModel| p.with_level(level),
    ));
}

impl Blinkt {
    /// The buffer has one pixel per configured LED, every header is marked,
    /// the LED frames fit in memory, and the stored end frame length is
    /// `4 + ceil(n / 16)`.
    pub closed spec fn wf(&self) -> bool {
        &&& forall|i: int| 0 <= i < self.pixels.len() ==> (#[trigger] self.pixels@[i])@.wf()
        &&& 4 * self.pixels.len() <= usize::MAX
        &&& self.end_frame_len == end_frame_len(self.pixels.len() as nat)
    }

    /// A well-formed `Blinkt` has the `111` marker bits in every pixel header.
    pub proof fn lemma_headers_marked(&self)
        requires
            self.wf(),
        ensures
            self@.headers_marked(),
    {
    }

    fn with_output(serial_output: SerialOutput, num_pixels: usize) -> (r: Self)
        requires
            4 * num_pixels <= usize::MAX,
        ensures
            r.wf(),
            r@ == (BlinktModel {
                output: serial_output,
                pixels: fresh_pixels(num_pixels as nat),
                clear_on_drop: true,
                released: false,
            }),
    {
        let mut pixels: Vec<Pixel> = Vec::with_capacity(num_pixels);
        let mut i: usize = 0;
        while i < num_pixels
            invariant
                i <= num_pixels,
                pixels.len() == i,
                forall|j: int| 0 <= j < i ==> (#[trigger] pixels@[j])@ == default_pixel(),
            decreases num_pixels - i,
        {
            pixels.push(Pixel::default());
            i += 1;
        }
        assert(pixel_models(pixels@) =~= fresh_pixels(num_pixels as nat));
        let r = Blinkt {
            serial_output,
            pixels,
            clear_on_drop: true,
            end_frame_len: end_frame_length(num_pixels),
            released: false,
        };
        r
    }

    /// A `Blinkt` for the Pimoroni Blinkt! board: bit-banging on data pin
    /// GPIO 23 and clock pin GPIO 24, with 8 pixels.
    pub fn new() -> (r: Self)
        ensures
            r.wf(),
            r@ == (BlinktModel {
                output: SerialOutput::Gpio(BlinktGpio { pin_data: DAT, pin_clock: CLK }),
                pixels: fresh_pixels(NUM_PIXELS as nat),
                clear_on_drop: true,
                released: false,
            }),
    {
        Self::with_settings(DAT, CLK, NUM_PIXELS)
    }

    /// A `Blinkt` that bit-banges on the given data and clock pins (BCM GPIO
    /// numbers), with `num_pixels` pixels.
    pub fn with_settings(pin_data: u8, pin_clock: u8, num_pixels: usize) -> (r: Self)
        requires
            4 * num_pixels <= usize::MAX,
        ensures
            r.wf(),
            r@ == (BlinktModel {
                output: SerialOutput::Gpio(BlinktGpio { pin_data, pin_clock }),
                pixels: fresh_pixels(num_pixels as nat),
                clear_on_drop: true,
                released: false,
            }),
    {
        Self::with_output(SerialOutput::Gpio(BlinktGpio::with_settings(pin_data, pin_clock)), num_pixels)
    }

    /// A `Blinkt` that sends through a hardware SPI channel, with `num_pixels`
    /// pixels.
    pub fn with_spi(spi: BlinktSpi, num_pixels: usize) -> (r: Self)
        requires
            4 * num_pixels <= usize::MAX,
        ensures
            r.wf(),
            r@ == (BlinktModel {
                output: SerialOutput::Spi(spi),
                pixels: fresh_pixels(num_pixels as nat),
                clear_on_drop: true,
                released: false,
            }),
    {
        Self::with_output(SerialOutput::Spi(spi), num_pixels)
    }

    /// The transport this `Blinkt` sends its frames through.
    pub fn serial_output(&self) -> (r: SerialOutput)
        ensures
            r == self@.output,
    {
        self.serial_output
    }

    /// The number of pixels in the buffer.
    pub fn num_pixels(&self) -> (r: usize)
        ensures
            r == self@.pixels.len(),
    {
        self.pixels.len()
    }

    /// The pixel at `index`, or `None` where `index` is out of range.
    pub fn pixel(&self, index: usize) -> (r: Option<Pixel>)
        ensures
            index < self@.pixels.len() ==> (r matches Some(p) && p@ == self@.pixels[index as int]),
            index >= self@.pixels.len() ==> r is None,
    {
        if index < self.pixels.len() {
            Some(self.pixels[index])
        } else {
            None
        }
    }

    /// Sets the red, green and blue values of the pixel at `index` (counting
    /// from `0`) in the buffer. An index out of range is ignored.
    pub fn set_pixel(&mut self, index: usize, red: u8, green: u8, blue: u8)
        requires
            old(self).wf(),
        ensures
            final(self).wf(),
            index < old(self)@.pixels.len() ==> final(self)@ == (BlinktModel {
                pixels: old(self)@.pixels.update(
                    index as int,
                    old(self)@.pixels[index as int].with_rgb(red, green, blue),
                ),
                ..old(self)@
            }),
            index >= old(self)@.pixels.len() ==> final(self)@ == old(self)@,
    {
        if index < self.pixels.len() {
            let mut p = self.pixels[index];
            p.set_rgb(red, green, blue);
            self.pixels.set(index, p);
            proof {
                assert(pixel_models(self.pixels@) =~= pixel_models(old(self).pixels@).update(
                    index as int,
                    old(self)@.pixels[index as int].with_rgb(red, green, blue),
                ));
            }
        }
    }

    /// Sets the red, green and blue values and the brightness level (clamped
    /// to 31) of the pixel at `index`. An index out of range is ignored.
    pub fn set_pixel_rgbb_level(&mut self, index: usize, red: u8, green: u8, blue: u8, level: u8)
        requires
            old(self).wf(),
        ensures
            final(self).wf(),
            index < old(self)@.pixels.len() ==> final(self)@ == (BlinktModel {
                pixels: old(self)@.pixels.update(
                    index as int,
                    old(self)@.pixels[index as int].with_rgb(red, green, blue).with_level(level),
                ),
                ..old(self)@
            }),
            index >= old(self)@.pixels.len() ==> final(self)@ == old(self)@,
    {
        if index < self.pixels.len() {
            let mut p = self.pixels[index];
            p.set_rgbb_level(red, green, blue, level);
            self.pixels.set(index, p);
            proof {
                assert(pixel_models(self.pixels@) =~= pixel_models(old(self).pixels@).update(
                    index as int,
                    old(self)@.pixels[index as int].with_rgb(red, green, blue).with_level(level),
                ));
            }
        }
    }

    /// Sets the brightness level (clamped to 31) of the pixel at `index`. An
    /// index out of range is ignored.
    pub fn set_pixel_brightness_level(&mut self, index: usize, level: u8)
        requires
            old(self).wf(),
        ensures
            final(self).wf(),
            index < old(self)@.pixels.len() ==> final(self)@ == (BlinktModel {
                pixels: old(self)@.pixels.update(
                    index as int,
                    old(self)@.pixels[index as int].with_level(level),
                ),
                ..old(self)@
            }),
            index >= old(self)@.pixels.len() ==> final(self)@ == old(self)@,
    {
        if index < self.pixels.len() {
            let mut p = self.pixels[index];
            p.set_brightness_level(level);
            self.pixels.set(index, p);
            proof {
                assert(pixel_models(self.pixels@) =~= pixel_models(old(self).pixels@).update(
                    index as int,
                    old(self)@.pixels[index as int].with_level(level),
                ));
            }
        }
    }

    /// Sets the red, green and blue values of every pixel in the buffer.
    pub fn set_all_pixels(&mut self, red: u8, green: u8, blue: u8)
        requires
            old(self).wf(),
        ensures
            final(self).wf(),
            final(self)@ == (BlinktModel {
                pixels: old(self)@.pixels.map_values(|p: PixelModel| p.with_rgb(red, green, blue)),
                ..old(self)@
            }),
    {
        recolor_all(&mut self.pixels, red, green, blue);
    }

    /// Sets the red, green and blue values and the brightness level (clamped
    /// to 31) of every pixel in the buffer.
    pub fn set_all_pixels_rgbb_level(&mut self, red: u8, green: u8, blue: u8, level: u8)
        requires
            old(self).wf(),
        ensures
            final(self).wf(),
            final(self)@ == (BlinktModel {
                pixels: old(self)@.pixels.map_values(
                    |p: PixelModel| p.with_rgb(red, green, blue).with_level(level),
                ),
                ..old(self)@
            }),
    {
        recolor_all(&mut self.pixels, red, green, blue);
        set_level_all(&mut self.pixels, level);
        assert(self@.pixels =~= old(self)@.pixels.map_values(
            |p: PixelModel| p.with_rgb(red, green, blue).with_level(level),
        ));
    }

    /// Sets the brightness level (clamped to 31) of every pixel in the buffer.
    pub fn set_all_pixels_brightness_level(&mut self, level: u8)
        requires
            old(self).wf(),
        ensures
            final(self).wf(),
            final(self)@ == (BlinktModel {
                pixels: old(self)@.pixels.map_values(|p: PixelModel| p.with_level(level)),
                ..old(self)@
            }),
    {
        set_level_all(&mut self.pixels, level);
    }

    /// Sets the red, green and blue values of every pixel to `0`; the
    /// brightness levels are kept.
    pub fn clear(&mut self)
        requires
            old(self).wf(),
        ensures
            final(self).wf(),
            final(self)@ == (BlinktModel { pixels: cleared(old(self)@.pixels), ..old(self)@ }),
    {
        self.set_all_pixels(0, 0, 0);
    }

    /// The frame that sends the buffer to the pixels: a start frame of four
    /// zero bytes, each pixel's LED frame in order, and an end frame of
    /// `4 + ceil(n / 16)` zero bytes. Each of the three parts is meant for
    /// one write on the transport. `None` once the transport is released.
    pub fn show(&self) -> (r: Option<Frame>)
        requires
            self.wf(),
        ensures
            self@.released ==> r is None,
            !self@.released ==> (r matches Some(f) && f.start@ == zeros(4) && f.leds@ == led_frames(
                self@.pixels,
            ) && f.end@ == zeros(end_frame_len(self@.pixels.len()))),
            r matches Some(f) ==> f.stream() == frame::frame_stream(self@.pixels),
    {
        if self.released {
            None
        } else {
            let f = Frame {
                start: zero_bytes(frame::START_FRAME_LEN),
                leds: led_bytes(&self.pixels),
                end: zero_bytes(self.end_frame_len),
            };
            assert(f.stream() =~= frame::frame_stream(self@.pixels));
            Some(f)
        }
    }

    /// Whether tearing down clears the pixels first.
    pub fn clear_on_drop(&self) -> (r: bool)
        ensures
            r == self@.clear_on_drop,
    {
        self.clear_on_drop
    }

    /// Sets whether tearing down clears the pixels first. By default, this
    /// is `true`.
    pub fn set_clear_on_drop(&mut self, clear_on_drop: bool)
        requires
            old(self).wf(),
        ensures
            final(self).wf(),
            final(self)@ == (BlinktModel { clear_on_drop, ..old(self)@ }),
    {
        self.clear_on_drop = clear_on_drop;
    }

    /// Whether the transport has been released.
    pub fn is_released(&self) -> (r: bool)
        ensures
            r == self@.released,
    {
        self.released
    }

    /// Ends the use of the transport. The first call marks it released; if
    /// `clear_on_drop` is set it first clears the buffer and hands back the
    /// frame that shows it. Later calls change nothing and ask for nothing.
    pub fn teardown(&mut self) -> (r: TeardownAction)
        requires
            old(self).wf(),
        ensures
            final(self).wf(),
            final(self)@.released,
            old(self)@.released ==> r is AlreadyReleased && final(self)@ == old(self)@,
            !old(self)@.released && !old(self)@.clear_on_drop ==> r is Release
                && final(self)@ == (BlinktModel { released: true, ..old(self)@ }),
            !old(self)@.released && old(self)@.clear_on_drop ==> final(self)@ == (BlinktModel {
                pixels: cleared(old(self)@.pixels),
                released: true,
                ..old(self)@
            }),
            !old(self)@.released && old(self)@.clear_on_drop ==> (r matches TeardownAction::ShowThenRelease(f)
                && f.start@ == zeros(4) && f.leds@ == led_frames(cleared(old(self)@.pixels))
                && f.end@ == zeros(end_frame_len(old(self)@.pixels.len()))),
    {
        if self.released {
            TeardownAction::AlreadyReleased
        } else if self.clear_on_drop {
            self.clear();
            let frame = Frame {
                start: zero_bytes(frame::START_FRAME_LEN),
                leds: led_bytes(&self.pixels),
                end: zero_bytes(self.end_frame_len),
            };
            self.released = true;
            TeardownAction::ShowThenRelease(frame)
        } else {
            self.released = true;
            TeardownAction::Release
        }
    }
}

} // verus!
