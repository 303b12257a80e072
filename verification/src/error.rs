//! Errors surfaced while assembling a PDU.

use vstd::prelude::*;

verus! {

/// Why constructing a PDU did not produce a buffer.
#[derive(Clone, Copy, Debug, PartialEq, Eq, Structural)]
pub enum Error {
    /// The advertising data does not fit in the space the payload buffer has
    /// left. Recoverable: the caller simply gets no buffer, never a
    /// truncated one.
    CapacityExceeded,
    /// The requested PDU kind has no payload layout in this version; the
    /// operation fails deterministically and produces nothing.
    Unsupported,
}

} // verus!
