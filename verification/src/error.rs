//! The ways in which an operation of the player fails.

use vstd::prelude::*;

verus! {

/// The two raw operations on the control line.
#[derive(Debug, Clone, Copy, PartialEq, Eq)]
pub enum LineOp {
    /// Reading the current control signal bits.
    ReadBits,
    /// Writing the control signal bits back.
    WriteBits,
}

/// Why an operation was refused or could not be carried out.
#[derive(Debug, PartialEq, Eq)]
pub enum PlayerError {
    /// The line's device node at this path could not be opened for reading
    /// and writing.
    DeviceOpen { path: String, errno: i32 },
    /// No audio output device carries exactly this name.
    DeviceNotFound { name: String },
    /// The matched audio device could not be opened for output.
    StreamInit,
    /// The audio file could not be opened.
    FileOpen { path: String },
    /// The audio file could not be decoded.
    Decode { path: String },
    /// A raw operation on the control line failed.
    IoControl { op: LineOp, errno: i32 },
    /// `play` was asked for while the line is asserted or audio is flowing.
    AlreadyTransmitting,
    /// `pause` was asked for while the line is released or audio is halted.
    AlreadyPaused,
}

} // verus!
