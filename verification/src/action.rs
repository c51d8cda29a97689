//! What the player asks its caller to do to the hardware.

use vstd::prelude::*;

verus! {

/// One step of a plan. The caller performs the steps of a plan in order and
/// stops at the first that fails.
#[derive(Debug, Clone, Copy, PartialEq, Eq)]
pub enum Action {
    /// Read the control word, invert its transmit-enable bit with
    /// `Player::toggle_rts`, and write the word back.
    ToggleLine,
    /// Block the calling thread for this many milliseconds.
    Settle { millis: u64 },
    /// Let the sink play what is queued.
    ResumeSink,
    /// Halt the sink.
    PauseSink,
    /// Append the decoded audio to the sink's queue.
    AppendSource,
    /// Close the line's handle.
    CloseLine { fd: i32 },
    /// Release the sink.
    ReleaseSink,
    /// Release the output stream that feeds the sink.
    ReleaseStream,
}

} // verus!
