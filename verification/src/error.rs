//! The errors of the library.
use vstd::prelude::*;

verus! {

/// Why an operation of the library failed.
#[derive(Clone, Copy, Debug, PartialEq, Eq, Structural)]
pub enum UblkError {
    /// The driver answered a control command with this nonzero result.
    CtrlCmd(i32),
    /// The descriptor array of a queue could not be mapped.
    MapFailed,
    /// The number of slot buffers handed over is not the queue depth.
    BufferCount,
    /// The file table is full.
    TooManyFiles,
    /// The backend left the descriptor of the device out of order: it changed
    /// the identity or geometry of the device, or it did not keep the
    /// character device as entry 0 of a file table with 1 to 32 entries.
    BadDescriptor,
    /// A backend hook failed with this error code.
    Target(i32),
}

} // verus!
