use vstd::prelude::*;

verus! {

/// Failures surfaced by this crate.
///
/// A failed kernel call is reported as `Io` carrying the operating-system
/// error number unchanged; nothing is retried or downgraded. `InvalidRequest`
/// reports a request that is malformed before any kernel call is made, such
/// as a full-duplex transfer whose two buffers disagree in length.
#[derive(Clone, Copy, Debug, PartialEq, Eq, Structural)]
pub enum SpiError {
    /// The underlying ioctl syscall failed with this errno value.
    Io(i32),
    /// The request was rejected before reaching the kernel.
    InvalidRequest,
}

} // verus!
