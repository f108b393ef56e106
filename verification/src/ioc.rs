use vstd::prelude::*;

verus! {

/// Direction value of an operation that moves data from user space into the
/// kernel, as in the Linux `_IOC_WRITE` encoding.
pub const IOC_DIR_WRITE: u32 = 1;

/// Direction value of an operation that moves data from the kernel out to
/// user space, as in the Linux `_IOC_READ` encoding.
pub const IOC_DIR_READ: u32 = 2;

/// Mask selecting everything of an operation code below its direction bits:
/// the size, magic and operation-number fields.
pub const IOC_PAYLOAD_MASK: u32 = 0x3fff_ffff;

/// An ioctl operation code packs `(direction, magic, operation number, size)`
/// as the Linux `_IOC` macro does: two direction bits at bit 30, fourteen
/// payload-size bits at bit 16, the subsystem magic byte at bit 8, and the
/// per-operation number in the low byte.
///
/// A `size` of `0x4000` or more does not fit its fourteen-bit field and
/// bleeds into the direction bits; such a code is a caller error, not a
/// runtime failure. Callers that pass the byte width of a fixed-width value
/// never reach that range.
pub open spec fn spec_ioc(dir: u32, magic: u8, nr: u8, size: u16) -> u32 {
    (dir << 30) | ((size as u32) << 16) | ((magic as u32) << 8) | (nr as u32)
}

/// The operation code of a read (kernel fills the payload) of `size` bytes.
pub open spec fn spec_encode_read(magic: u8, operation_id: u8, size: u16) -> u32 {
    spec_ioc(IOC_DIR_READ, magic, operation_id, size)
}

/// The operation code of a write (kernel consumes the payload) of `size` bytes.
pub open spec fn spec_encode_write(magic: u8, operation_id: u8, size: u16) -> u32 {
    spec_ioc(IOC_DIR_WRITE, magic, operation_id, size)
}

fn ioc(dir: u32, magic: u8, nr: u8, size: u16) -> (code: u32)
    ensures
        code == spec_ioc(dir, magic, nr, size),
{
    (dir << 30u32) | ((size as u32) << 16u32) | ((magic as u32) << 8u32) | (nr as u32)
}

/// Encode the operation code of a read of `size` bytes from the field
/// `operation_id` of the ioctl family `magic`. Pure arithmetic: the same
/// inputs always produce the same code.
pub fn encode_read(magic: u8, operation_id: u8, size: u16) -> (code: u32)
    ensures
        code == spec_encode_read(magic, operation_id, size),
{
    ioc(IOC_DIR_READ, magic, operation_id, size)
}

/// Encode the operation code of a write of `size` bytes to the field
/// `operation_id` of the ioctl family `magic`. Pure arithmetic: the same
/// inputs always produce the same code.
pub fn encode_write(magic: u8, operation_id: u8, size: u16) -> (code: u32)
    ensures
        code == spec_encode_write(magic, operation_id, size),
{
    ioc(IOC_DIR_WRITE, magic, operation_id, size)
}

/// For every triple whose size fits its fourteen-bit field, the read and the
/// write encoding are distinct codes.
pub proof fn lemma_read_write_distinct(magic: u8, operation_id: u8, size: u16)
    by (bit_vector)
    requires
        size < 0x4000,
    ensures
        spec_encode_read(magic, operation_id, size) != spec_encode_write(
            magic,
            operation_id,
            size,
        ),
{
}

/// The read and the write encoding of one triple agree on everything below
/// the direction bits: they differ only in how the direction is encoded.
pub proof fn lemma_read_write_same_payload(magic: u8, operation_id: u8, size: u16)
    by (bit_vector)
    ensures
        spec_encode_read(magic, operation_id, size) & IOC_PAYLOAD_MASK == spec_encode_write(
            magic,
            operation_id,
            size,
        ) & IOC_PAYLOAD_MASK,
{
}

/// Each field of a well-formed operation code can be read back from it: the
/// encoding loses nothing, so distinct triples give distinct codes.
pub proof fn lemma_code_fields(dir: u32, magic: u8, nr: u8, size: u16)
    by (bit_vector)
    requires
        dir < 4,
        size < 0x4000,
    ensures
        spec_ioc(dir, magic, nr, size) >> 30 == dir,
        (spec_ioc(dir, magic, nr, size) >> 16) & 0x3fff == size as u32,
        (spec_ioc(dir, magic, nr, size) >> 8) & 0xff == magic as u32,
        spec_ioc(dir, magic, nr, size) & 0xff == nr as u32,
{
}

} // verus!
