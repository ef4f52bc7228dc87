//! What can go wrong.

use vstd::prelude::*;
use crate::format::{ElementType, Format};

verus! {

/// Why an operation was refused. A transfer or a render operation that is
/// refused has recorded nothing. A construction that is refused keeps what
/// it recorded before the step that failed; its contract says what that is.
#[derive(Clone, Copy, Debug, PartialEq, Eq, Structural)]
pub enum Error {
    /// The driver handed out no object name.
    AllocationError,
    /// The driver has no storage format for texels of `format` made of `element`s.
    UnsupportedFormat { format: Format, element: ElementType },
    /// Pixel data of `actual` elements was given where `expected` are needed.
    DataLengthMismatch { expected: u128, actual: usize },
    /// Colour was read from a texture whose format is not RGBA.
    UnsupportedReadFormat,
    /// Depth was copied to a colour destination or colour to a depth
    /// destination, or colour met data or a destination of another element
    /// type than its own.
    FormatMismatch,
    /// A region or a layer lies outside the texture or the destination.
    OutOfBounds,
}

} // verus!
