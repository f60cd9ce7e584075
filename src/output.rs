//! The two ways of putting bytes on the wire: bit-banging a data and a clock
//! GPIO pin, or a hardware SPI channel.
use crate::spi::{Bus, Mode, SlaveSelect};
use vstd::prelude::*;

verus! {

/// Bit `k` of `b`, counting from the most significant bit (`k == 0`).
pub open spec fn msb_bit(b: u8, k: int) -> bool {
    (b >> ((7 - k) as u8)) & 1u8 == 1u8
}

/// The data-line levels that carry one byte, most significant bit first.
pub open spec fn byte_levels(b: u8) -> Seq<bool> {
    Seq::new(8, |k: int| msb_bit(b, k))
}

/// The data-line levels that carry a byte sequence, byte after byte.
pub open spec fn data_levels(data: Seq<u8>) -> Seq<bool> {
    data.map_values(|b: u8| byte_levels(b)).flatten()
}

/// Bit-banging on two GPIO pins, given by their BCM GPIO numbers.
///
/// For every bit the data pin is set to the bit's level, then the clock pin
/// is raised and lowered.
#[derive(Debug, Clone, Copy, PartialEq, Eq, Structural)]
pub struct BlinktGpio {
    pub pin_data: u8,
    pub pin_clock: u8,
}

impl BlinktGpio {
    /// Bit-banging on the given data and clock pins.
    pub fn with_settings(pin_data: u8, pin_clock: u8) -> (r: Self)
        ensures
            r == (BlinktGpio { pin_data, pin_clock }),
    {
        BlinktGpio { pin_data, pin_clock }
    }

    /// The data-pin levels, one per clock pulse, that transmit `data`: each
    /// byte in order, most significant bit first.
    pub fn levels(data: &[u8]) -> (r: Vec<bool>)
        requires
            8 * data@.len() <= usize::MAX,
        ensures
            r@ == data_levels(data@),
    {
        let n = data.len();
        let mut r: Vec<bool> = Vec::with_capacity(8 * n);
        let mut i: usize = 0;
        while i < n
            invariant
                i <= n,
                n == data@.len(),
                r@ == data_levels(data@.subrange(0, i as int)),
            decreases n - i,
        {
            let byte = data[i];
            let ghost before = r@;
            let mut k: u8 = 0;
            while k < 8
                invariant
                    k <= 8,
                    r@ == before + byte_levels(byte).subrange(0, k as int),
                decreases 8 - k,
            {
                let shift: u8 = 7 - k;
                let level = (byte & (1u8 << shift)) > 0;
                proof {
                    assert(((byte & (1u8 << shift)) > 0) == ((byte >> shift) & 1u8 == 1u8))
                        by (bit_vector)
                        requires
                            shift < 8,
                    ;
                }
                r.push(level);
                k += 1;
                assert(r@ =~= before + byte_levels(byte).subrange(0, k as int));
            }
            proof {
                let f = |b: u8| byte_levels(b);
                let done = data@.subrange(0, i as int);
                assert(data@.subrange(0, i + 1) =~= done.push(byte));
                assert(done.push(byte).map_values(f) =~= done.map_values(f).push(byte_levels(byte)));
                done.map_values(f).lemma_flatten_push(byte_levels(byte));
                assert(byte_levels(byte).subrange(0, 8) =~= byte_levels(byte));
            }
            i += 1;
        }
        assert(data@.subrange(0, n as int) =~= data@);
        r
    }
}

/// A hardware SPI channel: bus, slave select line, clock speed in Hz, and
/// clock polarity and phase.
#[derive(Debug, Clone, Copy, PartialEq, Eq, Structural)]
pub struct BlinktSpi {
    pub bus: Bus,
    pub slave: SlaveSelect,
    pub clock_speed_hz: u32,
    pub mode: Mode,
}

impl BlinktSpi {
    /// An SPI channel with the given settings.
    pub fn with_settings(bus: Bus, slave: SlaveSelect, clock_speed_hz: u32, mode: Mode) -> (r: Self)
        ensures
            r == (BlinktSpi { bus, slave, clock_speed_hz, mode }),
    {
        BlinktSpi { bus, slave, clock_speed_hz, mode }
    }
}

impl Default for BlinktSpi {
    /// Bus 0, slave select 0, 1 MHz, mode 0.
    fn default() -> (r: Self)
        ensures
            r == (BlinktSpi {
                bus: Bus::Spi0,
                slave: SlaveSelect::Ss0,
                clock_speed_hz: 1_000_000,
                mode: Mode::Mode0,
            }),
    {
        BlinktSpi { bus: Bus::Spi0, slave: SlaveSelect::Ss0, clock_speed_hz: 1_000_000, mode: Mode::Mode0 }
    }
}

/// The transport a `Blinkt` sends its frames through.
#[derive(Debug, Clone, Copy, PartialEq, Eq, Structural)]
pub enum SerialOutput {
    Gpio(BlinktGpio),
    Spi(BlinktSpi),
}

} // verus!
