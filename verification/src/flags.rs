use vstd::prelude::*;

verus! {

/// Clock-phase bit of the SPI mode byte (sample on the second clock edge
/// when set).
pub const SPI_CPHA: u8 = 0x01;

/// Clock-polarity bit of the SPI mode byte (clock idles high when set).
pub const SPI_CPOL: u8 = 0x02;

/// Mode 0: clock idles low, sample on the first edge.
pub const SPI_MODE_0: u8 = 0x00;

/// Mode 1: clock idles low, sample on the second edge.
pub const SPI_MODE_1: u8 = 0x01;

/// Mode 2: clock idles high, sample on the first edge.
pub const SPI_MODE_2: u8 = 0x02;

/// Mode 3: clock idles high, sample on the second edge.
pub const SPI_MODE_3: u8 = 0x03;

/// Option bit: chip select is active high.
pub const SPI_CS_HIGH: u8 = 0x04;

/// Option bit: transmit the least significant bit of each word first.
pub const SPI_LSB_FIRST: u8 = 0x08;

/// Option bit: the bus uses a shared data line (three-wire mode).
pub const SPI_3WIRE: u8 = 0x10;

/// Option bit: loopback mode.
pub const SPI_LOOP: u8 = 0x20;

/// Option bit: no chip-select line is driven.
pub const SPI_NO_CS: u8 = 0x40;

/// Option bit: the peripheral pulls a ready line to pause the transfer.
pub const SPI_READY: u8 = 0x80;

/// The four SPI clock modes, the closed set of combinations of the phase and
/// polarity bits. Only bits 0 and 1 of the mode byte belong to the clock
/// mode; the higher bits are the separate option flags above.
#[derive(Clone, Copy, Debug, PartialEq, Eq, Structural)]
pub enum SpiMode {
    Mode0,
    Mode1,
    Mode2,
    Mode3,
}

impl SpiMode {
    /// The value this mode contributes to the kernel's mode byte.
    pub open spec fn spec_bits(self) -> u8 {
        match self {
            SpiMode::Mode0 => SPI_MODE_0,
            SpiMode::Mode1 => SPI_MODE_1,
            SpiMode::Mode2 => SPI_MODE_2,
            SpiMode::Mode3 => SPI_MODE_3,
        }
    }

    /// The mode selected by bits 0 and 1 of a mode byte; higher (option)
    /// bits are ignored.
    pub open spec fn spec_from_bits(bits: u8) -> SpiMode {
        if bits & 3 == 0 {
            SpiMode::Mode0
        } else if bits & 3 == 1 {
            SpiMode::Mode1
        } else if bits & 3 == 2 {
            SpiMode::Mode2
        } else {
            SpiMode::Mode3
        }
    }

    /// Compose this mode's contribution to the kernel's mode byte.
    pub fn bits(self) -> (b: u8)
        ensures
            b == self.spec_bits(),
    {
        match self {
            SpiMode::Mode0 => SPI_MODE_0,
            SpiMode::Mode1 => SPI_MODE_1,
            SpiMode::Mode2 => SPI_MODE_2,
            SpiMode::Mode3 => SPI_MODE_3,
        }
    }

    /// Decompose a mode byte read from the device into its clock mode,
    /// ignoring the option bits.
    pub fn from_bits(bits: u8) -> (m: SpiMode)
        ensures
            m == SpiMode::spec_from_bits(bits),
    {
        let low = bits & 3;
        if low == 0 {
            SpiMode::Mode0
        } else if low == 1 {
            SpiMode::Mode1
        } else if low == 2 {
            SpiMode::Mode2
        } else {
            SpiMode::Mode3
        }
    }
}

/// The four named modes are exactly the OR-combinations of the phase and
/// polarity bits: mode 0 is neither, mode 1 the phase bit, mode 2 the
/// polarity bit, mode 3 both.
pub proof fn lemma_mode_composition()
    ensures
        SPI_MODE_0 == 0,
        SPI_MODE_1 == SPI_CPHA,
        SPI_MODE_2 == SPI_CPOL,
        SPI_MODE_3 == (SPI_CPHA | SPI_CPOL),
        SpiMode::Mode0.spec_bits() == 0,
        SpiMode::Mode1.spec_bits() == SPI_CPHA,
        SpiMode::Mode2.spec_bits() == SPI_CPOL,
        SpiMode::Mode3.spec_bits() == (SPI_CPHA | SPI_CPOL),
{
    assert((0x01u8 | 0x02u8) == 0x03u8) by (bit_vector);
}

/// Composing a mode byte and reading it back yields the same mode, even when
/// option bits are layered into the same byte.
pub proof fn lemma_mode_round_trip(m: SpiMode, options: u8)
    requires
        options & 3 == 0,
    ensures
        SpiMode::spec_from_bits(m.spec_bits()) == m,
        SpiMode::spec_from_bits(m.spec_bits() | options) == m,
{
    let b = m.spec_bits();
    assert(b == 0 || b == 1 || b == 2 || b == 3);
    assert(b < 4 && options & 3 == 0 ==> (b | options) & 3 == b && b & 3 == b) by (bit_vector);
}

} // verus!
