use vstd::prelude::*;

use crate::error::SpiError;
use crate::ioc::{encode_write, spec_encode_write};
use crate::ops::{SPI_IOC_MAGIC, SPI_IOC_NR_TRANSFER};
use vstd::bytes::{
    spec_u16_to_le_bytes, spec_u32_to_le_bytes, spec_u64_to_le_bytes, u16_to_le_bytes,
    u32_to_le_bytes, u64_to_le_bytes,
};

verus! {

/// The byte width of one transfer structure in the kernel ABI.
pub const WIRE_TRANSFER_SIZE: u16 = 32;

/// One full-duplex (or half-duplex) SPI exchange. The descriptor exclusively
/// owns its buffers; their addresses are handed to the kernel only for the
/// duration of one syscall, by the layer that issues it.
///
/// A zero in an override field means "use the device's current
/// configuration". `pad` is the reserved tail of the kernel structure.
pub struct SpidevTransfer {
    /// Bytes to shift out, if any.
    pub tx_buf: Option<Vec<u8>>,
    /// Storage for the bytes that arrive during the exchange, if kept.
    pub rx_buf: Option<Vec<u8>>,
    /// The number of bytes exchanged; equals each present buffer's length.
    pub len: u32,
    /// Per-transfer clock speed override in Hz.
    pub speed_hz: u32,
    /// Delay after this transfer, in microseconds.
    pub delay_usecs: u16,
    /// Per-transfer word-size override in bits.
    pub bits_per_word: u8,
    /// Nonzero deasserts chip select between this segment and the next.
    pub cs_change: u8,
    /// Reserved padding required by the kernel structure's fixed layout.
    pub pad: u32,
}

/// The length of an optional buffer; an absent buffer counts as empty.
pub open spec fn buf_len(buf: Option<Vec<u8>>) -> nat {
    match buf {
        Some(b) => b@.len(),
        None => 0,
    }
}

impl SpidevTransfer {
    /// Each buffer that is present holds exactly `len` bytes.
    pub open spec fn wf(self) -> bool {
        &&& (self.tx_buf matches Some(b) ==> b@.len() == self.len)
        &&& (self.rx_buf matches Some(b) ==> b@.len() == self.len)
    }

    /// All override fields are at their "use current configuration" default.
    pub open spec fn defaults(self) -> bool {
        &&& self.speed_hz == 0
        &&& self.delay_usecs == 0
        &&& self.bits_per_word == 0
        &&& self.cs_change == 0
        &&& self.pad == 0
    }

    /// A half-duplex read of `length` bytes: no transmit buffer, a
    /// zero-initialized receive buffer of exactly `length` bytes, and all
    /// overrides default.
    pub fn read(length: u32) -> (t: SpidevTransfer)
        ensures
            t.tx_buf is None,
            t.rx_buf matches Some(b) && b@.len() == length && (forall|i: int|
                0 <= i < length ==> b@[i] == 0u8),
            t.len == length,
            t.defaults(),
            t.wf(),
    {
        SpidevTransfer {
            tx_buf: None,
            rx_buf: Some(zero_vec(length)),
            len: length,
            speed_hz: 0,
            delay_usecs: 0,
            bits_per_word: 0,
            cs_change: 0,
            pad: 0,
        }
    }

    /// A write of `tx_buf`: the transmit buffer holds an owned copy of the
    /// caller's bytes, and a zero-initialized receive buffer of the same
    /// length keeps whatever arrives on the wire during the write
    /// (full-duplex semantics).
    pub fn write(tx_buf: &[u8]) -> (t: SpidevTransfer)
        requires
            tx_buf@.len() <= u32::MAX,
        ensures
            t.tx_buf matches Some(b) && b@ == tx_buf@,
            t.rx_buf matches Some(b) && b@.len() == tx_buf@.len() && (forall|i: int|
                0 <= i < tx_buf@.len() ==> b@[i] == 0u8),
            t.len == tx_buf@.len(),
            t.defaults(),
            t.wf(),
    {
        let length = tx_buf.len();
        let mut copy: Vec<u8> = Vec::new();
        let mut i: usize = 0;
        while i < length
            invariant
                i <= length,
                length == tx_buf@.len(),
                copy@ == tx_buf@.subrange(0, i as int),
            decreases length - i,
        {
            copy.push(tx_buf[i]);
            i = i + 1;
            proof {
                assert(copy@ =~= tx_buf@.subrange(0, i as int));
            }
        }
        proof {
            assert(copy@ =~= tx_buf@);
        }
        SpidevTransfer {
            tx_buf: Some(copy),
            rx_buf: Some(zero_vec(length as u32)),
            len: length as u32,
            speed_hz: 0,
            delay_usecs: 0,
            bits_per_word: 0,
            cs_change: 0,
            pad: 0,
        }
    }

    /// The general constructor: an arbitrary combination of explicit
    /// buffers and per-transfer overrides. When both buffers are present
    /// they must agree in length, and `len` becomes the length of what is
    /// present; a mismatch, or a buffer too long for the kernel's 32-bit
    /// length field, is rejected before any descriptor is built.
    pub fn full_duplex(
        tx_buf: Option<Vec<u8>>,
        rx_buf: Option<Vec<u8>>,
        speed_hz: u32,
        delay_usecs: u16,
        bits_per_word: u8,
        cs_change: u8,
    ) -> (r: Result<SpidevTransfer, SpiError>)
        ensures
            match r {
                Ok(t) => {
                    &&& buf_len(tx_buf) <= u32::MAX
                    &&& buf_len(rx_buf) <= u32::MAX
                    &&& (tx_buf is Some && rx_buf is Some ==> buf_len(tx_buf) == buf_len(rx_buf))
                    &&& t.tx_buf == tx_buf
                    &&& t.rx_buf == rx_buf
                    &&& t.len == (if tx_buf is Some {
                        buf_len(tx_buf)
                    } else {
                        buf_len(rx_buf)
                    })
                    &&& t.speed_hz == speed_hz
                    &&& t.delay_usecs == delay_usecs
                    &&& t.bits_per_word == bits_per_word
                    &&& t.cs_change == cs_change
                    &&& t.pad == 0
                    &&& t.wf()
                },
                Err(e) => {
                    &&& e == SpiError::InvalidRequest
                    &&& ((tx_buf is Some && rx_buf is Some && buf_len(tx_buf) != buf_len(rx_buf))
                        || buf_len(tx_buf) > u32::MAX
                        || buf_len(rx_buf) > u32::MAX)
                },
            },
    {
        let tx_len = match &tx_buf {
            Some(b) => b.len(),
            None => 0,
        };
        let rx_len = match &rx_buf {
            Some(b) => b.len(),
            None => 0,
        };
        if tx_buf.is_some() && rx_buf.is_some() && tx_len != rx_len {
            return Err(SpiError::InvalidRequest);
        }
        let length = if tx_buf.is_some() {
            tx_len
        } else {
            rx_len
        };
        if length > u32::MAX as usize {
            return Err(SpiError::InvalidRequest);
        }
        Ok(
            SpidevTransfer {
                tx_buf,
                rx_buf,
                len: length as u32,
                speed_hz,
                delay_usecs,
                bits_per_word,
                cs_change,
                pad: 0,
            },
        )
    }
}

/// The address the kernel is shown for one buffer position: the given
/// address when the buffer is present, the null encoding otherwise.
pub open spec fn spec_buf_addr(buf: Option<Vec<u8>>, addr: u64) -> u64 {
    if buf is Some {
        addr
    } else {
        0
    }
}

impl SpidevTransfer {
    /// The fixed kernel ABI image of this descriptor, given the addresses of
    /// its two buffers. Little-endian fields in order: transmit-buffer
    /// address (8 bytes), receive-buffer address (8), length (4), speed
    /// override (4), delay in microseconds (2), bits-per-word override (1),
    /// chip-select-change flag (1), padding (4). An absent buffer appears as
    /// the null address.
    pub open spec fn spec_wire_bytes(self, tx_addr: u64, rx_addr: u64) -> Seq<u8> {
        spec_u64_to_le_bytes(spec_buf_addr(self.tx_buf, tx_addr)) + spec_u64_to_le_bytes(
            spec_buf_addr(self.rx_buf, rx_addr),
        ) + spec_u32_to_le_bytes(self.len) + spec_u32_to_le_bytes(self.speed_hz)
            + spec_u16_to_le_bytes(self.delay_usecs) + seq![self.bits_per_word, self.cs_change]
            + spec_u32_to_le_bytes(self.pad)
    }

    /// Copy this descriptor into its kernel-visible 32-byte image. The
    /// caller supplies the buffers' addresses and must keep the buffers
    /// valid and unmoved until the kernel call made with the image returns.
    pub fn to_wire(&self, tx_addr: u64, rx_addr: u64) -> (bytes: Vec<u8>)
        ensures
            bytes@ == self.spec_wire_bytes(tx_addr, rx_addr),
            bytes@.len() == WIRE_TRANSFER_SIZE,
    {
        let tx_ptr: u64 = if self.tx_buf.is_some() {
            tx_addr
        } else {
            0
        };
        let rx_ptr: u64 = if self.rx_buf.is_some() {
            rx_addr
        } else {
            0
        };
        let mut bytes = u64_to_le_bytes(tx_ptr);
        let mut part = u64_to_le_bytes(rx_ptr);
        bytes.append(&mut part);
        let mut part = u32_to_le_bytes(self.len);
        bytes.append(&mut part);
        let mut part = u32_to_le_bytes(self.speed_hz);
        bytes.append(&mut part);
        let mut part = u16_to_le_bytes(self.delay_usecs);
        bytes.append(&mut part);
        bytes.push(self.bits_per_word);
        bytes.push(self.cs_change);
        let mut part = u32_to_le_bytes(self.pad);
        bytes.append(&mut part);
        proof {
            assert(bytes@ =~= self.spec_wire_bytes(tx_addr, rx_addr));
        }
        bytes
    }
}

/// The payload size the kernel encoding gives a message of `count` transfer
/// structures: their total byte width while it fits the fourteen-bit size
/// field of the operation code, and the kernel's sentinel 0 when it does
/// not.
pub open spec fn spec_message_size(count: u32) -> u16 {
    if count * WIRE_TRANSFER_SIZE < 0x4000 {
        (count * WIRE_TRANSFER_SIZE) as u16
    } else {
        0
    }
}

/// The operation code that submits `count` chained transfer structures to
/// the kernel as one atomic call: a write of their total byte width.
pub fn message_request(count: u32) -> (code: u32)
    ensures
        code == spec_encode_write(SPI_IOC_MAGIC, SPI_IOC_NR_TRANSFER, spec_message_size(count)),
{
    let size: u16 = if count < 512 {
        (count as u16) * WIRE_TRANSFER_SIZE
    } else {
        0
    };
    encode_write(SPI_IOC_MAGIC, SPI_IOC_NR_TRANSFER, size)
}

/// The wire image of a chained message: the kernel ABI images of the given
/// transfers laid end to end, in order. The address vectors supply, per
/// transfer, the addresses the kernel is shown for its buffers; chip-select
/// behavior between segments is governed by each transfer's own `cs_change`
/// flag, already part of its image.
pub fn encode_message(
    transfers: &Vec<SpidevTransfer>,
    tx_addrs: &Vec<u64>,
    rx_addrs: &Vec<u64>,
) -> (bytes: Vec<u8>)
    requires
        tx_addrs@.len() == transfers@.len(),
        rx_addrs@.len() == transfers@.len(),
    ensures
        bytes@.len() == transfers@.len() * WIRE_TRANSFER_SIZE,
        forall|i: int|
            0 <= i < transfers@.len() ==> bytes@.subrange(i * 32, i * 32 + 32)
                == transfers@[i].spec_wire_bytes(tx_addrs@[i], rx_addrs@[i]),
{
    let n = transfers.len();
    let mut bytes: Vec<u8> = Vec::new();
    let mut i: usize = 0;
    while i < n
        invariant
            i <= n,
            n == transfers@.len(),
            tx_addrs@.len() == n,
            rx_addrs@.len() == n,
            bytes@.len() == i * 32,
            forall|j: int|
                0 <= j < i ==> bytes@.subrange(j * 32, j * 32 + 32) == transfers@[j].spec_wire_bytes(
                    tx_addrs@[j],
                    rx_addrs@[j],
                ),
        decreases n - i,
    {
        let mut part = transfers[i].to_wire(tx_addrs[i], rx_addrs[i]);
        let ghost wire = part@;
        let ghost prev = bytes@;
        bytes.append(&mut part);
        proof {
            assert forall|j: int|
                0 <= j < i + 1 implies bytes@.subrange(j * 32, j * 32 + 32)
                == transfers@[j].spec_wire_bytes(tx_addrs@[j], rx_addrs@[j]) by {
                if j < i {
                    assert(bytes@.subrange(j * 32, j * 32 + 32) =~= prev.subrange(
                        j * 32,
                        j * 32 + 32,
                    ));
                } else {
                    assert(bytes@.subrange(j * 32, j * 32 + 32) =~= wire);
                }
            }
        }
        i = i + 1;
    }
    bytes
}

/// A vector of `length` zero bytes.
fn zero_vec(length: u32) -> (v: Vec<u8>)
    ensures
        v@.len() == length,
        forall|i: int| 0 <= i < length ==> v@[i] == 0u8,
{
    let n = length as usize;
    let mut v: Vec<u8> = Vec::new();
    let mut i: usize = 0;
    while i < n
        invariant
            i <= n,
            v@.len() == i,
            forall|j: int| 0 <= j < i ==> v@[j] == 0u8,
        decreases n - i,
    {
        v.push(0u8);
        i = i + 1;
    }
    v
}

} // verus!
