use vstd::prelude::*;

verus! {

/// Why an operation on the palette was turned down. Every one of these is
/// recoverable: the state is left as it was before the attempt.
#[derive(Clone, Copy, Debug, PartialEq, Eq, Structural)]
pub enum Error {
    /// An index at or past the current length (or, for an insert, past it).
    OutOfRange,
    /// An insert into a grid that already holds `cols * rows` cells.
    CapacityExceeded,
    /// A delete that would leave the grid empty.
    MinimumSize,
    /// Text that is not exactly six lowercase hexadecimal digits.
    InvalidFormat,
    /// The system clipboard could not be read.
    ClipboardUnavailable,
}

} // verus!
