use spidev::flags::{
    SpiMode, SPI_CPHA, SPI_CPOL, SPI_CS_HIGH, SPI_LSB_FIRST, SPI_MODE_0, SPI_MODE_1, SPI_MODE_2,
    SPI_MODE_3,
};

#[test]
fn mode_composition() {
    assert_eq!(SPI_MODE_0, 0);
    assert_eq!(SPI_MODE_1, SPI_CPHA);
    assert_eq!(SPI_MODE_2, SPI_CPOL);
    assert_eq!(SPI_MODE_3, SPI_CPHA | SPI_CPOL);
}

#[test]
fn mode_bits() {
    assert_eq!(SpiMode::Mode0.bits(), 0x00);
    assert_eq!(SpiMode::Mode1.bits(), 0x01);
    assert_eq!(SpiMode::Mode2.bits(), 0x02);
    assert_eq!(SpiMode::Mode3.bits(), 0x03);
}

#[test]
fn mode_round_trip() {
    let modes: [SpiMode; 4] = [SpiMode::Mode0, SpiMode::Mode1, SpiMode::Mode2, SpiMode::Mode3];
    for &m in modes.iter() {
        assert_eq!(SpiMode::from_bits(m.bits()), m);
        // Option bits layered into the same byte do not disturb the mode.
        assert_eq!(SpiMode::from_bits(m.bits() | SPI_CS_HIGH | SPI_LSB_FIRST), m);
    }
}
