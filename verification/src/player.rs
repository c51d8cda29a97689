//! The coordinator of control line and audio sink.

use vstd::prelude::*;
use crate::action::Action;
use crate::error::{LineOp, PlayerError};
use crate::line::{flipped, is_asserted, rts_asserted, rts_flipped};

verus! {

/// Milliseconds the radio is given to key up before audio starts, and to
/// drain its audio path before the line is released.
pub const SETTLE_MILLIS: u64 = 250;

/// How far the caller got in bringing the two devices up, in the order audio
/// output, line, first query of the line.
#[derive(Debug, Clone, Copy, PartialEq, Eq)]
pub enum Opening {
    /// The matched audio device could not be opened: no stream, no sink.
    OutputFailed,
    /// Stream and sink exist, but the line's device node could not be opened.
    LineFailed { errno: i32 },
    /// The line is open, but reading its control word failed.
    QueryFailed { fd: i32, errno: i32 },
    /// Everything is open and the line's control word was read.
    Ready { fd: i32, control_bits: i32 },
}

/// What became of the audio file that was to be queued.
#[derive(Debug, Clone, Copy, PartialEq, Eq)]
pub enum Loading {
    /// The file could not be opened.
    Unreadable,
    /// The file was opened, but is no audio that can be decoded.
    Undecodable,
    /// The file was decoded; the caller holds the audio.
    Decoded,
}

/// The coordinator. It owns the handle of the control line for as long as it
/// lives, and gives it up once, in `teardown`.
#[derive(Debug)]
pub struct Player {
    tty_fd: i32,
}

/// Whether `names[i]` is a device that reported exactly the name `wanted`.
pub open spec fn names_device(names: Seq<Option<String>>, i: int, wanted: Seq<char>) -> bool {
    &&& 0 <= i < names.len()
    &&& names[i] matches Some(name)
    &&& name@ == wanted
}

/// The actions that key the radio up and then start the audio.
pub open spec fn play_plan() -> Seq<Action> {
    seq![Action::ToggleLine, Action::Settle { millis: 250 }, Action::ResumeSink]
}

/// The actions that halt the audio and then release the radio.
pub open spec fn pause_plan() -> Seq<Action> {
    seq![Action::PauseSink, Action::Settle { millis: 250 }, Action::ToggleLine]
}

/// The actions that queue decoded audio without letting it play yet.
pub open spec fn queue_plan() -> Seq<Action> {
    seq![Action::AppendSource, Action::PauseSink]
}

/// The actions that force the line off when it was found in this state.
pub open spec fn safety_plan(control_bits: i32) -> Seq<Action> {
    if rts_asserted(control_bits) {
        seq![Action::ToggleLine]
    } else {
        Seq::<Action>::empty()
    }
}

/// The actions that release what a live player holds: the line first, then
/// the sink, and the stream that feeds it last.
pub open spec fn teardown_plan(fd: i32) -> Seq<Action> {
    seq![Action::CloseLine { fd }, Action::ReleaseSink, Action::ReleaseStream]
}

/// The actions that release what had been opened when construction stopped.
pub open spec fn abort_plan(opening: Opening) -> Seq<Action> {
    match opening {
        Opening::OutputFailed => Seq::<Action>::empty(),
        Opening::LineFailed { errno } => seq![Action::ReleaseSink, Action::ReleaseStream],
        Opening::QueryFailed { fd, errno } => teardown_plan(fd),
        Opening::Ready { fd, control_bits } => Seq::<Action>::empty(),
    }
}

/// The error with which construction stops, if it does.
pub open spec fn opening_error(tty_path: String, opening: Opening) -> Option<PlayerError> {
    match opening {
        Opening::OutputFailed => Some(PlayerError::StreamInit),
        Opening::LineFailed { errno } => Some(PlayerError::DeviceOpen { path: tty_path, errno }),
        Opening::QueryFailed { fd, errno } => Some(
            PlayerError::IoControl { op: LineOp::ReadBits, errno },
        ),
        Opening::Ready { fd, control_bits } => None,
    }
}

/// What `play` answers to a reading of the line and the state of the sink.
pub open spec fn play_outcome(reading: Result<i32, i32>, sink_paused: bool) -> Result<
    Seq<Action>,
    PlayerError,
> {
    match reading {
        Err(errno) => Err(PlayerError::IoControl { op: LineOp::ReadBits, errno }),
        Ok(control_bits) => if rts_asserted(control_bits) || !sink_paused {
            Err(PlayerError::AlreadyTransmitting)
        } else {
            Ok(play_plan())
        },
    }
}

/// What `pause` answers to a reading of the line and the state of the sink.
pub open spec fn pause_outcome(reading: Result<i32, i32>, sink_paused: bool) -> Result<
    Seq<Action>,
    PlayerError,
> {
    match reading {
        Err(errno) => Err(PlayerError::IoControl { op: LineOp::ReadBits, errno }),
        Ok(control_bits) => if !rts_asserted(control_bits) || sink_paused {
            Err(PlayerError::AlreadyPaused)
        } else {
            Ok(pause_plan())
        },
    }
}

/// Whether an exec answer is the given outcome.
pub open spec fn answers(given: Result<Vec<Action>, PlayerError>, outcome: Result<Seq<Action>, PlayerError>) -> bool {
    match given {
        Ok(plan) => outcome == Ok::<Seq<Action>, PlayerError>(plan@),
        Err(error) => outcome == Err::<Seq<Action>, PlayerError>(error),
    }
}

impl Player {
    /// The handle of the control line.
    pub closed spec fn line_fd(&self) -> i32 {
        self.tty_fd
    }

    /// The handle of the control line, for the caller's raw operations.
    pub fn tty_fd(&self) -> (fd: i32)
        ensures
            fd == self.line_fd(),
    {
        self.tty_fd
    }

    /// Picks the audio output device by its exact name. `names` holds, in
    /// the order of enumeration, the name each device reported, or `None`
    /// where a device gave none. Of several devices with the name the last
    /// is taken.
    pub fn select_output(names: &Vec<Option<String>>, audio_device_name: String) -> (found: Result<
        usize,
        PlayerError,
    >)
        ensures
            match found {
                Ok(index) => {
                    &&& names_device(names@, index as int, audio_device_name@)
                    &&& forall|j: int|
                        index < j < names.len() ==> !names_device(names@, j, audio_device_name@)
                },
                Err(error) => {
                    &&& error == (PlayerError::DeviceNotFound { name: audio_device_name })
                    &&& forall|j: int|
                        0 <= j < names.len() ==> !names_device(names@, j, audio_device_name@)
                },
            },
    {
        let mut found: Option<usize> = None;
        let mut i: usize = 0;
        while i < names.len()
            invariant
                i <= names.len(),
                match found {
                    Some(index) => {
                        &&& index < i
                        &&& names_device(names@, index as int, audio_device_name@)
                        &&& forall|j: int|
                            index < j < i ==> !names_device(names@, j, audio_device_name@)
                    },
                    None => forall|j: int|
                        0 <= j < i ==> !names_device(names@, j, audio_device_name@),
                },
            decreases names.len() - i,
        {
            match &names[i] {
                Some(name) => {
                    if *name == audio_device_name {
                        found = Some(i);
                    }
                },
                None => {},
            }
            i = i + 1;
        }
        match found {
            Some(index) => Ok(index),
            None => Err(PlayerError::DeviceNotFound { name: audio_device_name }),
        }
    }

    /// Builds the player from what the caller found when opening the audio
    /// output and the line at `tty_path`. On success the caller runs the plan that comes
    /// with the player before anything else: it forces the line off if it
    /// was found asserted. On failure the plan beside the error releases
    /// whatever had been opened.
    pub fn for_devices(tty_path: String, opening: Opening) -> (built: Result<
        (Player, Vec<Action>),
        (PlayerError, Vec<Action>),
    >)
        ensures
            match built {
                Ok((player, safety)) => {
                    &&& opening matches Opening::Ready { fd, control_bits }
                    &&& player.line_fd() == fd
                    &&& safety@ == safety_plan(control_bits)
                },
                Err((error, release)) => {
                    &&& opening_error(tty_path, opening) == Some(error)
                    &&& release@ == abort_plan(opening)
                },
            },
    {
        match opening {
            Opening::OutputFailed => Err((PlayerError::StreamInit, Vec::new())),
            Opening::LineFailed { errno } => {
                let release = vec![Action::ReleaseSink, Action::ReleaseStream];
                Err((PlayerError::DeviceOpen { path: tty_path, errno }, release))
            },
            Opening::QueryFailed { fd, errno } => {
                let release = vec![
                    Action::CloseLine { fd },
                    Action::ReleaseSink,
                    Action::ReleaseStream,
                ];
                Err((PlayerError::IoControl { op: LineOp::ReadBits, errno }, release))
            },
            Opening::Ready { fd, control_bits } => {
                let player = Player { tty_fd: fd };
                if is_asserted(control_bits) {
                    Ok((player, vec![Action::ToggleLine]))
                } else {
                    Ok((player, Vec::new()))
                }
            },
        }
    }

    /// Plans the queuing of an audio file that the caller tried to load:
    /// the audio is appended to what is queued and the sink halted, so that
    /// nothing plays before `play`.
    pub fn queue_audio(&self, audiofile_path: String, loading: Loading) -> (planned: Result<
        Vec<Action>,
        PlayerError,
    >)
        ensures
            match loading {
                Loading::Unreadable => planned == Err::<Vec<Action>, PlayerError>(
                    PlayerError::FileOpen { path: audiofile_path },
                ),
                Loading::Undecodable => planned == Err::<Vec<Action>, PlayerError>(
                    PlayerError::Decode { path: audiofile_path },
                ),
                Loading::Decoded => planned is Ok && planned->Ok_0@ == queue_plan(),
            },
    {
        match loading {
            Loading::Unreadable => Err(PlayerError::FileOpen { path: audiofile_path }),
            Loading::Undecodable => Err(PlayerError::Decode { path: audiofile_path }),
            Loading::Decoded => Ok(vec![Action::AppendSource, Action::PauseSink]),
        }
    }

    /// Plans the start of a transmission. `reading` is the control word just
    /// read from the line, or the error number of the failed read;
    /// `sink_paused` is the state of the sink. Refused unless the line is
    /// released and the sink halted.
    pub fn play(&self, reading: Result<i32, i32>, sink_paused: bool) -> (planned: Result<
        Vec<Action>,
        PlayerError,
    >)
        ensures
            answers(planned, play_outcome(reading, sink_paused)),
    {
        match reading {
            Err(errno) => Err(PlayerError::IoControl { op: LineOp::ReadBits, errno }),
            Ok(control_bits) => {
                if is_asserted(control_bits) || !sink_paused {
                    Err(PlayerError::AlreadyTransmitting)
                } else {
                    Ok(
                        vec![
                            Action::ToggleLine,
                            Action::Settle { millis: SETTLE_MILLIS },
                            Action::ResumeSink,
                        ],
                    )
                }
            },
        }
    }

    /// Plans the end of a transmission. Refused unless the line is asserted
    /// and the sink playing.
    pub fn pause(&self, reading: Result<i32, i32>, sink_paused: bool) -> (planned: Result<
        Vec<Action>,
        PlayerError,
    >)
        ensures
            answers(planned, pause_outcome(reading, sink_paused)),
    {
        match reading {
            Err(errno) => Err(PlayerError::IoControl { op: LineOp::ReadBits, errno }),
            Ok(control_bits) => {
                if !is_asserted(control_bits) || sink_paused {
                    Err(PlayerError::AlreadyPaused)
                } else {
                    Ok(
                        vec![
                            Action::PauseSink,
                            Action::Settle { millis: SETTLE_MILLIS },
                            Action::ToggleLine,
                        ],
                    )
                }
            },
        }
    }

    /// Whether the line is asserted, from the control word just read or the
    /// error number of the failed read.
    pub fn rts_is_enabled(&self, reading: Result<i32, i32>) -> (enabled: Result<bool, PlayerError>)
        ensures
            match reading {
                Ok(control_bits) => enabled == Ok::<bool, PlayerError>(rts_asserted(control_bits)),
                Err(errno) => enabled == Err::<bool, PlayerError>(
                    PlayerError::IoControl { op: LineOp::ReadBits, errno },
                ),
            },
    {
        match reading {
            Ok(control_bits) => Ok(is_asserted(control_bits)),
            Err(errno) => Err(PlayerError::IoControl { op: LineOp::ReadBits, errno }),
        }
    }

    /// The control word to write back so that the line changes state, from
    /// the word just read or the error number of the failed read.
    pub fn toggle_rts(&self, reading: Result<i32, i32>) -> (word: Result<i32, PlayerError>)
        ensures
            match reading {
                Ok(control_bits) => word == Ok::<i32, PlayerError>(rts_flipped(control_bits)),
                Err(errno) => word == Err::<i32, PlayerError>(
                    PlayerError::IoControl { op: LineOp::ReadBits, errno },
                ),
            },
    {
        match reading {
            Ok(control_bits) => Ok(flipped(control_bits)),
            Err(errno) => Err(PlayerError::IoControl { op: LineOp::ReadBits, errno }),
        }
    }

    /// What the caller reports when writing the control word back failed.
    pub fn write_failed(&self, errno: i32) -> (error: PlayerError)
        ensures
            error == (PlayerError::IoControl { op: LineOp::WriteBits, errno }),
    {
        PlayerError::IoControl { op: LineOp::WriteBits, errno }
    }

    /// Ends the player's life and plans the release of what it holds. The
    /// player is consumed, so its line is closed by this plan and no other.
    pub fn teardown(self) -> (release: Vec<Action>)
        ensures
            release@ == teardown_plan(self.line_fd()),
    {
        vec![Action::CloseLine { fd: self.tty_fd }, Action::ReleaseSink, Action::ReleaseStream]
    }
}

} // verus!
