//! The control word of the serial line and its transmit-enable bit.

use vstd::prelude::*;

verus! {

/// Request number of the "get control signal bits" operation.
pub const IOCTL_TIOCMGET: i32 = 0x5415;

/// Request number of the "set control signal bits" operation.
pub const IOCTL_TIOCMSET: i32 = 0x5418;

/// The request-to-send bit of the control word: the radio's transmit switch.
pub const TIOCM_RTS_FLAG: i32 = 0x004;

/// Whether the transmit-enable bit is set in a control word.
pub open spec fn rts_asserted(control_bits: i32) -> bool {
    control_bits & 0x004i32 != 0i32
}

/// The control word with exactly the transmit-enable bit inverted.
pub open spec fn rts_flipped(control_bits: i32) -> i32 {
    control_bits ^ 0x004i32
}

/// Tests the transmit-enable bit of a control word.
pub fn is_asserted(control_bits: i32) -> (asserted: bool)
    ensures
        asserted == rts_asserted(control_bits),
{
    (control_bits & TIOCM_RTS_FLAG) != 0
}

/// Inverts the transmit-enable bit of a control word and leaves the others.
pub fn flipped(control_bits: i32) -> (word: i32)
    ensures
        word == rts_flipped(control_bits),
        rts_asserted(word) == !rts_asserted(control_bits),
        word & !0x004i32 == control_bits & !0x004i32,
{
    proof {
        lemma_flip(control_bits);
    }
    control_bits ^ TIOCM_RTS_FLAG
}

/// Flipping changes the transmit-enable bit, keeps every other bit, and
/// undoes itself.
pub proof fn lemma_flip(control_bits: i32)
    ensures
        rts_asserted(rts_flipped(control_bits)) == !rts_asserted(control_bits),
        rts_flipped(control_bits) & !0x004i32 == control_bits & !0x004i32,
        rts_flipped(rts_flipped(control_bits)) == control_bits,
{
    assert(((control_bits ^ 0x004i32) & 0x004i32 != 0i32) == !(control_bits & 0x004i32 != 0i32))
        by (bit_vector);
    assert((control_bits ^ 0x004i32) & !0x004i32 == control_bits & !0x004i32) by (bit_vector);
    assert((control_bits ^ 0x004i32) ^ 0x004i32 == control_bits) by (bit_vector);
}

} // verus!
