/// Userspace control of a SPI bus through the Linux spidev character-device
/// ioctl interface: operation-code encoding, mode and option flags, typed
/// accessor marshaling, and full-duplex transfer descriptors with their
/// kernel-visible wire layout.
///
/// The raw `ioctl` syscall itself is an external collaborator: this crate
/// computes the operation codes and payloads and decodes the replies, and the
/// surrounding application issues the actual kernel call.
pub mod error;
pub mod flags;
pub mod ioc;
pub mod ops;
pub mod transfer;
