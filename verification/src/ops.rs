use vstd::prelude::*;

use crate::error::SpiError;
use crate::ioc::{encode_read, encode_write, spec_encode_read, spec_encode_write};

verus! {

/// The spidev ioctl family magic byte, the ASCII code of `k`.
pub const SPI_IOC_MAGIC: u8 = 107;

/// Operation number of the compound full-duplex transfer.
pub const SPI_IOC_NR_TRANSFER: u8 = 0;

/// Operation number of the mode byte.
pub const SPI_IOC_NR_MODE: u8 = 1;

/// Operation number of the bit-order flag.
pub const SPI_IOC_NR_LSB_FIRST: u8 = 2;

/// Operation number of the bits-per-word setting.
pub const SPI_IOC_NR_BITS_PER_WORD: u8 = 3;

/// Operation number of the maximum clock speed in Hz.
pub const SPI_IOC_NR_MAX_SPEED_HZ: u8 = 4;

/// Operation number of the 32-bit mode word.
pub const SPI_IOC_NR_MODE32: u8 = 5;

/// The scalar device fields a typed accessor can read or write. Each field
/// pairs with exactly one operation number and one fixed byte width.
#[derive(Clone, Copy, Debug, PartialEq, Eq, Structural)]
pub enum ScalarField {
    /// The mode byte (clock mode and option flags), one byte wide.
    Mode,
    /// The bit-order flag, one byte wide on the wire.
    LsbFirst,
    /// The word size in bits, one byte wide.
    BitsPerWord,
    /// The maximum clock speed in Hz, four bytes wide.
    MaxSpeedHz,
    /// The full 32-bit mode word, four bytes wide.
    Mode32,
}

impl ScalarField {
    /// The per-operation number of this field.
    pub open spec fn spec_nr(self) -> u8 {
        match self {
            ScalarField::Mode => SPI_IOC_NR_MODE,
            ScalarField::LsbFirst => SPI_IOC_NR_LSB_FIRST,
            ScalarField::BitsPerWord => SPI_IOC_NR_BITS_PER_WORD,
            ScalarField::MaxSpeedHz => SPI_IOC_NR_MAX_SPEED_HZ,
            ScalarField::Mode32 => SPI_IOC_NR_MODE32,
        }
    }

    /// The exact byte width of this field's value on the wire.
    pub open spec fn spec_size(self) -> u16 {
        match self {
            ScalarField::Mode => 1,
            ScalarField::LsbFirst => 1,
            ScalarField::BitsPerWord => 1,
            ScalarField::MaxSpeedHz => 4,
            ScalarField::Mode32 => 4,
        }
    }

    /// The per-operation number of this field.
    pub fn nr(self) -> (nr: u8)
        ensures
            nr == self.spec_nr(),
    {
        match self {
            ScalarField::Mode => SPI_IOC_NR_MODE,
            ScalarField::LsbFirst => SPI_IOC_NR_LSB_FIRST,
            ScalarField::BitsPerWord => SPI_IOC_NR_BITS_PER_WORD,
            ScalarField::MaxSpeedHz => SPI_IOC_NR_MAX_SPEED_HZ,
            ScalarField::Mode32 => SPI_IOC_NR_MODE32,
        }
    }

    /// The exact byte width of this field's value on the wire.
    pub fn size(self) -> (size: u16)
        ensures
            size == self.spec_size(),
    {
        match self {
            ScalarField::Mode => 1,
            ScalarField::LsbFirst => 1,
            ScalarField::BitsPerWord => 1,
            ScalarField::MaxSpeedHz => 4,
            ScalarField::Mode32 => 4,
        }
    }
}

/// The operation code a `get` accessor of `field` issues: a read of the
/// field's exact width from the spidev family.
pub fn read_request(field: ScalarField) -> (code: u32)
    ensures
        code == spec_encode_read(SPI_IOC_MAGIC, field.spec_nr(), field.spec_size()),
{
    encode_read(SPI_IOC_MAGIC, field.nr(), field.size())
}

/// The operation code a `set` accessor of `field` issues: a write of the
/// field's exact width to the spidev family.
pub fn write_request(field: ScalarField) -> (code: u32)
    ensures
        code == spec_encode_write(SPI_IOC_MAGIC, field.spec_nr(), field.spec_size()),
{
    encode_write(SPI_IOC_MAGIC, field.nr(), field.size())
}

/// The wire byte of a boolean field: exactly 1 for true, exactly 0 for false.
pub open spec fn spec_encode_flag(value: bool) -> u8 {
    if value {
        1
    } else {
        0
    }
}

/// The boolean a wire byte decodes to: any nonzero byte means true.
pub open spec fn spec_decode_flag(byte: u8) -> bool {
    byte != 0
}

/// Normalize a boolean for the wire: the kernel receives exactly 0 or 1.
pub fn encode_flag(value: bool) -> (byte: u8)
    ensures
        byte == spec_encode_flag(value),
{
    if value {
        1
    } else {
        0
    }
}

/// Decode a boolean read from the wire: any nonzero byte is true.
pub fn decode_flag(byte: u8) -> (value: bool)
    ensures
        value == spec_decode_flag(byte),
{
    byte != 0
}

/// A boolean survives the wire round trip: writing it as its normalized
/// byte and decoding that byte yields the boolean again.
pub proof fn lemma_flag_round_trip(value: bool)
    ensures
        spec_decode_flag(spec_encode_flag(value)) == value,
{
}

/// Finish a `get` of a one-byte field: a successful syscall yields the byte
/// the kernel wrote, and a failed one propagates its errno unchanged.
pub fn decode_byte_reply(raw: Result<u8, i32>) -> (r: Result<u8, SpiError>)
    ensures
        match raw {
            Ok(v) => r == Ok::<u8, SpiError>(v),
            Err(e) => r == Err::<u8, SpiError>(SpiError::Io(e)),
        },
{
    match raw {
        Ok(v) => Ok(v),
        Err(e) => Err(SpiError::Io(e)),
    }
}

/// Finish a `get` of a boolean field: a successful syscall yields the
/// decoded flag byte, and a failed one propagates its errno unchanged.
pub fn decode_flag_reply(raw: Result<u8, i32>) -> (r: Result<bool, SpiError>)
    ensures
        match raw {
            Ok(v) => r == Ok::<bool, SpiError>(spec_decode_flag(v)),
            Err(e) => r == Err::<bool, SpiError>(SpiError::Io(e)),
        },
{
    match raw {
        Ok(v) => Ok(decode_flag(v)),
        Err(e) => Err(SpiError::Io(e)),
    }
}

/// Finish a `get` of a four-byte field: a successful syscall yields the word
/// the kernel wrote, and a failed one propagates its errno unchanged.
pub fn decode_word_reply(raw: Result<u32, i32>) -> (r: Result<u32, SpiError>)
    ensures
        match raw {
            Ok(v) => r == Ok::<u32, SpiError>(v),
            Err(e) => r == Err::<u32, SpiError>(SpiError::Io(e)),
        },
{
    match raw {
        Ok(v) => Ok(v),
        Err(e) => Err(SpiError::Io(e)),
    }
}

/// Finish a `set` or a transfer: success stays success, and a failed syscall
/// propagates its errno unchanged.
pub fn decode_unit_reply(raw: Result<(), i32>) -> (r: Result<(), SpiError>)
    ensures
        match raw {
            Ok(_) => r == Ok::<(), SpiError>(()),
            Err(e) => r == Err::<(), SpiError>(SpiError::Io(e)),
        },
{
    match raw {
        Ok(_) => Ok(()),
        Err(e) => Err(SpiError::Io(e)),
    }
}

} // verus!
