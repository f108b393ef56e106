use spidev::error::SpiError;
use spidev::transfer::{encode_message, SpidevTransfer};

#[test]
fn read_descriptor_shape() {
    let t = SpidevTransfer::read(5);
    assert!(t.tx_buf.is_none());
    let rx = t.rx_buf.as_ref().expect("read keeps a receive buffer");
    assert_eq!(rx.len(), 5);
    assert!(rx.iter().all(|&b| b == 0));
    assert_eq!(t.len, 5);
    assert_eq!(t.speed_hz, 0);
    assert_eq!(t.delay_usecs, 0);
    assert_eq!(t.bits_per_word, 0);
    assert_eq!(t.cs_change, 0);
}

#[test]
fn read_descriptor_empty() {
    let t = SpidevTransfer::read(0);
    assert!(t.tx_buf.is_none());
    assert_eq!(t.rx_buf.as_ref().expect("receive buffer").len(), 0);
    assert_eq!(t.len, 0);
}

#[test]
fn write_descriptor_shape() {
    let mut data: Vec<u8> = vec![1, 2, 3];
    let t = SpidevTransfer::write(&data);
    // Independent storage: mutating the source afterwards changes nothing.
    data[0] = 9;
    let tx = t.tx_buf.as_ref().expect("write keeps a transmit buffer");
    assert_eq!(tx.as_slice(), &[1, 2, 3]);
    let rx = t.rx_buf.as_ref().expect("write keeps a receive buffer");
    assert_eq!(rx.len(), 3);
    assert!(rx.iter().all(|&b| b == 0));
    assert_eq!(t.len, 3);
}

#[test]
fn full_duplex_mismatch_is_rejected() {
    let r = SpidevTransfer::full_duplex(Some(vec![1, 2]), Some(vec![0, 0, 0]), 0, 0, 0, 0);
    match r {
        Err(e) => assert_eq!(e, SpiError::InvalidRequest),
        Ok(_) => panic!("mismatched buffer lengths must not build a descriptor"),
    }
}

#[test]
fn full_duplex_equal_lengths() {
    let t = SpidevTransfer::full_duplex(
        Some(vec![0xaa, 0xbb]),
        Some(vec![0, 0]),
        500_000,
        10,
        8,
        1,
    )
    .expect("equal lengths are accepted");
    assert_eq!(t.tx_buf.as_ref().expect("tx").as_slice(), &[0xaa, 0xbb]);
    assert_eq!(t.rx_buf.as_ref().expect("rx").len(), 2);
    assert_eq!(t.len, 2);
    assert_eq!(t.speed_hz, 500_000);
    assert_eq!(t.delay_usecs, 10);
    assert_eq!(t.bits_per_word, 8);
    assert_eq!(t.cs_change, 1);
}

#[test]
fn full_duplex_half_duplex_cases() {
    let t = SpidevTransfer::full_duplex(None, Some(vec![0; 4]), 0, 0, 0, 0).expect("rx only");
    assert_eq!(t.len, 4);
    assert!(t.tx_buf.is_none());
    let t = SpidevTransfer::full_duplex(Some(vec![7; 6]), None, 0, 0, 0, 0).expect("tx only");
    assert_eq!(t.len, 6);
    assert!(t.rx_buf.is_none());
    let t = SpidevTransfer::full_duplex(None, None, 0, 0, 0, 0).expect("empty");
    assert_eq!(t.len, 0);
}

#[test]
fn wire_layout_matches_kernel_abi() {
    let t = SpidevTransfer::full_duplex(
        Some(vec![0xaa, 0xbb]),
        Some(vec![0, 0]),
        0x0007_a120, // 500 kHz
        0x0102,
        8,
        1,
    )
    .expect("descriptor");
    let bytes = t.to_wire(0x1122_3344_5566_7788, 0x8877_6655_4433_2211);
    let expected: [u8; 32] = [
        // tx address, little endian
        0x88, 0x77, 0x66, 0x55, 0x44, 0x33, 0x22, 0x11,
        // rx address, little endian
        0x11, 0x22, 0x33, 0x44, 0x55, 0x66, 0x77, 0x88,
        // len = 2
        0x02, 0x00, 0x00, 0x00,
        // speed override
        0x20, 0xa1, 0x07, 0x00,
        // delay
        0x02, 0x01,
        // bits per word, cs_change
        0x08, 0x01,
        // reserved padding
        0x00, 0x00, 0x00, 0x00,
    ];
    assert_eq!(bytes.as_slice(), &expected);
}

#[test]
fn wire_layout_absent_buffer_is_null() {
    let t = SpidevTransfer::read(4);
    let bytes = t.to_wire(0xdead_0000_0000_0001, 0x0000_0000_0000_4000);
    // No transmit buffer: its address position holds the null encoding,
    // whatever address was offered for it.
    assert_eq!(&bytes[0..8], &[0; 8]);
    assert_eq!(&bytes[8..16], &[0x00, 0x40, 0, 0, 0, 0, 0, 0]);
    assert_eq!(&bytes[16..20], &[4, 0, 0, 0]);
}

#[test]
fn chained_message_is_concatenation() {
    let a = SpidevTransfer::write(&[1, 2, 3, 4]);
    let b = SpidevTransfer::read(4);
    let tx_addrs: Vec<u64> = vec![0x1000, 0x2000];
    let rx_addrs: Vec<u64> = vec![0x3000, 0x4000];
    let first = a.to_wire(0x1000, 0x3000);
    let second = b.to_wire(0x2000, 0x4000);
    let transfers: Vec<SpidevTransfer> = vec![a, b];
    let message = encode_message(&transfers, &tx_addrs, &rx_addrs);
    assert_eq!(message.len(), 64);
    assert_eq!(&message[0..32], first.as_slice());
    assert_eq!(&message[32..64], second.as_slice());
}
