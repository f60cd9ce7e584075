//! Settings of a hardware SPI channel.
use vstd::prelude::*;

verus! {

/// SPI bus.
#[derive(Debug, Clone, Copy, PartialEq, Eq, Structural)]
pub enum Bus {
    Spi0,
    Spi1,
    Spi2,
    Spi3,
    Spi4,
    Spi5,
    Spi6,
}

/// Slave select (chip select) line.
#[derive(Debug, Clone, Copy, PartialEq, Eq, Structural)]
pub enum SlaveSelect {
    Ss0,
    Ss1,
    Ss2,
    Ss3,
    Ss4,
    Ss5,
    Ss6,
    Ss7,
    Ss8,
    Ss9,
    Ss10,
    Ss11,
    Ss12,
    Ss13,
    Ss14,
    Ss15,
}

/// SPI clock polarity and phase.
#[derive(Debug, Clone, Copy, PartialEq, Eq, Structural)]
pub enum Mode {
    /// CPOL 0, CPHA 0.
    Mode0,
    /// CPOL 0, CPHA 1.
    Mode1,
    /// CPOL 1, CPHA 0.
    Mode2,
    /// CPOL 1, CPHA 1.
    Mode3,
}

} // verus!
