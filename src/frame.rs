//! The APA102 frame protocol: a start frame of four zero bytes, one LED frame
//! per pixel, and an end frame of zero bytes whose length grows with the
//! number of pixels.
use crate::pixel::{Pixel, PixelModel};
use vstd::prelude::*;

verus! {

/// Length in bytes of the start frame (32 zero bits).
pub const START_FRAME_LEN: usize = 4;

/// A run of `n` zero bytes.
pub open spec fn zeros(n: nat) -> Seq<u8> {
    Seq::new(n, |_i: int| 0u8)
}

/// `ceil(n / 16)`: one padding byte for every 16 pixels or part of them.
pub open spec fn padding_len(n: nat) -> nat {
    (n + 15) / 16
}

/// Length of the end frame for `n` pixels: the clock-propagation padding
/// followed by a second start frame, which SK9822 ICs need before they latch.
pub open spec fn end_frame_len(n: nat) -> nat {
    4 + padding_len(n)
}

/// The models of a buffer of pixels.
pub open spec fn pixel_models(pixels: Seq<Pixel>) -> Seq<PixelModel> {
    pixels.map_values(|p: Pixel| p@)
}

/// The LED frames of a buffer: each pixel's four wire bytes, in buffer order.
pub open spec fn led_frames(pixels: Seq<PixelModel>) -> Seq<u8> {
    pixels.map_values(|p: PixelModel| p.wire()).flatten()
}

/// The whole byte stream of one frame for the given pixels.
pub open spec fn frame_stream(pixels: Seq<PixelModel>) -> Seq<u8> {
    zeros(4) + led_frames(pixels) + zeros(end_frame_len(pixels.len()))
}

/// The LED frames of a buffer with one more pixel are those of the buffer
/// followed by the new pixel's four bytes.
pub proof fn lemma_led_frames_push(pixels: Seq<PixelModel>, p: PixelModel)
    ensures
        led_frames(pixels.push(p)) == led_frames(pixels) + p.wire(),
{
    let f = |q: PixelModel| q.wire();
    assert(pixels.push(p).map_values(f) =~= pixels.map_values(f).push(p.wire()));
    pixels.map_values(f).lemma_flatten_push(p.wire());
}

/// Every pixel contributes exactly four bytes.
pub proof fn lemma_led_frames_len(pixels: Seq<PixelModel>)
    ensures
        led_frames(pixels).len() == 4 * pixels.len(),
    decreases pixels.len(),
{
    if pixels.len() > 0 {
        let init = pixels.drop_last();
        lemma_led_frames_len(init);
        assert(init.push(pixels.last()) =~= pixels);
        lemma_led_frames_push(init, pixels.last());
    } else {
        assert(pixels.map_values(|q: PixelModel| q.wire()) =~= Seq::<Seq<u8>>::empty());
    }
}

/// Byte `j` of the LED frames is byte `j % 4` of pixel `j / 4`.
pub proof fn lemma_led_frames_index(pixels: Seq<PixelModel>, j: int)
    requires
        0 <= j < 4 * pixels.len(),
    ensures
        led_frames(pixels)[j] == pixels[j / 4].wire()[j % 4],
    decreases pixels.len(),
{
    let init = pixels.drop_last();
    assert(init.push(pixels.last()) =~= pixels);
    lemma_led_frames_push(init, pixels.last());
    lemma_led_frames_len(init);
    if j < 4 * init.len() {
        lemma_led_frames_index(init, j);
    } else {
        assert(j / 4 == init.len() && j % 4 == j - 4 * init.len());
    }
}

/// One frame for `n` pixels is `4 + 4 * n + (4 + ceil(n / 16))` bytes long.
pub proof fn lemma_frame_length(pixels: Seq<PixelModel>)
    ensures
        frame_stream(pixels).len() == 4 + 4 * pixels.len() + (4 + (pixels.len() + 15) / 16),
{
    lemma_led_frames_len(pixels);
}

/// One frame, split into the three writes that carry it: the start frame,
/// the LED frames, and the end frame.
pub struct Frame {
    pub start: Vec<u8>,
    pub leds: Vec<u8>,
    pub end: Vec<u8>,
}

impl Frame {
    /// The bytes of the three writes, one after the other.
    pub open spec fn stream(&self) -> Seq<u8> {
        self.start@ + self.leds@ + self.end@
    }
}

/// `n` zero bytes.
pub fn zero_bytes(n: usize) -> (r: Vec<u8>)
    ensures
        r@ == zeros(n as nat),
{
    let mut r: Vec<u8> = Vec::with_capacity(n);
    let mut i: usize = 0;
    while i < n
        invariant
            i <= n,
            r@ == zeros(i as nat),
        decreases n - i,
    {
        r.push(0);
        i += 1;
        assert(r@ =~= zeros(i as nat));
    }
    r
}

/// The end frame length for `num_pixels` pixels: `4 + ceil(num_pixels / 16)`.
pub fn end_frame_length(num_pixels: usize) -> (r: usize)
    ensures
        r == end_frame_len(num_pixels as nat),
{
    let padding = if num_pixels % 16 == 0 {
        num_pixels / 16
    } else {
        num_pixels / 16 + 1
    };
    4 + padding
}

/// The LED frames of a buffer of pixels, in buffer order.
pub fn led_bytes(pixels: &Vec<Pixel>) -> (r: Vec<u8>)
    requires
        4 * pixels.len() <= usize::MAX,
    ensures
        r@ == led_frames(pixel_models(pixels@)),
{
    let n = pixels.len();
    let mut r: Vec<u8> = Vec::with_capacity(4 * n);
    let mut i: usize = 0;
    while i < n
        invariant
            i <= n,
            n == pixels.len(),
            r@ == led_frames(pixel_models(pixels@.subrange(0, i as int))),
        decreases n - i,
    {
        let b = pixels[i].bytes();
        r.push(b[0]);
        r.push(b[1]);
        r.push(b[2]);
        r.push(b[3]);
        proof {
            let before = pixel_models(pixels@.subrange(0, i as int));
            lemma_led_frames_push(before, pixels@[i as int]@);
            assert(pixel_models(pixels@.subrange(0, i + 1)) =~= before.push(pixels@[i as int]@));
            assert(r@ =~= led_frames(before) + pixels@[i as int]@.wire());
        }
        i += 1;
    }
    assert(pixels@.subrange(0, n as int) =~= pixels@);
    r
}

} // verus!
