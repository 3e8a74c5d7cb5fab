//! Error types.

use vstd::prelude::*;

use crate::interface::DisplayInterface;

verus! {

/// Largest number of gate outputs (rows) that the controller drives.
pub const MAX_GATE_OUTPUTS: u16 = 680;

/// Largest number of source outputs (columns) that the controller drives.
pub const MAX_SOURCE_OUTPUTS: u16 = 960;

/// Why an operation on the display failed.
///
/// Every variant but `Interface` is found before the first byte is sent.
#[derive(Debug)]
pub enum Error<I: DisplayInterface> {
    /// The transport failed; the controller may have received part of the
    /// operation.
    Interface(I::Error),
    /// The dimensions are outside what the controller supports.
    InvalidDimensions {
        /// Rows asked for.
        rows: u16,
        /// Columns asked for.
        cols: u16,
    },
    /// The rotation is not one of the four supported ones.
    InvalidRotation,
    /// A pixel buffer is shorter than the area it is to fill.
    BufferTooSmall {
        /// Bytes needed.
        required: usize,
        /// Bytes given.
        provided: usize,
    },
    /// The area is empty, reaches beyond the panel, or does not start and
    /// end on a byte boundary.
    InvalidRamArea {
        /// Left edge in pixels.
        x: u16,
        /// Top edge in pixels.
        y: u16,
        /// Width in pixels.
        w: u16,
        /// Height in pixels.
        h: u16,
    },
    /// A waveform table does not have the length that the controller reads.
    InvalidLutLength {
        /// Bytes needed.
        expected: usize,
        /// Bytes given.
        provided: usize,
    },
    /// A short waveform table does not have the length of the short form.
    InvalidLutShortLength {
        /// Bytes needed.
        expected: usize,
        /// Bytes given.
        provided: usize,
    },
}

/// Why a configuration could not be built.
#[derive(Clone, Copy, Debug, PartialEq, Eq, Structural)]
pub enum BuilderError {
    /// No dimensions were given to the builder.
    MissingDimensions,
    /// The dimensions are outside what the controller supports.
    InvalidDimensions {
        /// Rows asked for.
        rows: u16,
        /// Columns asked for.
        cols: u16,
    },
}

} // verus!
