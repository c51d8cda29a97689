//! Push-to-talk coordination for a half-duplex radio interface.
//!
//! The library decides; its caller acts. Every operation takes what was just
//! observed of the control line and of the audio sink as plain values and
//! answers with a plan: the ordered actions that the caller performs on the
//! hardware. The module `rig` models what those actions do, and `laws` proves
//! over that model that the line is asserted exactly while audio flows.

pub mod action;
pub mod error;
pub mod laws;
pub mod line;
pub mod player;
pub mod rig;
