use ptt_player::action::Action;
use ptt_player::error::{LineOp, PlayerError};
use ptt_player::line::is_asserted;
use ptt_player::player::{Loading, Opening, Player, SETTLE_MILLIS};

const ENOENT: i32 = 2;
const EIO: i32 = 5;

fn names(list: &[&str]) -> Vec<Option<String>> {
    list.iter().map(|n| Some(n.to_string())).collect()
}

fn player_on(fd: i32) -> Player {
    match Player::for_devices("/dev/ttyUSB0".to_string(), Opening::Ready { fd, control_bits: 0 }) {
        Ok((player, _)) => player,
        Err(_) => panic!("a ready opening builds a player"),
    }
}

#[test]
fn missing_device_is_named_in_the_error() {
    let listed = names(&[
        "sysdefault:CARD=Device",
        "surround40:CARD=Device,DEV=0",
        "iec958:CARD=Device,DEV=0",
    ]);
    let found = Player::select_output(&listed, "front:CARD=Device,DEV=0".to_string());
    assert_eq!(
        found,
        Err(PlayerError::DeviceNotFound { name: "front:CARD=Device,DEV=0".to_string() })
    );
}

#[test]
fn no_devices_at_all_means_not_found() {
    let found = Player::select_output(&Vec::new(), "front:CARD=Device,DEV=0".to_string());
    assert_eq!(
        found,
        Err(PlayerError::DeviceNotFound { name: "front:CARD=Device,DEV=0".to_string() })
    );
}

#[test]
fn device_is_found_by_exact_name() {
    let listed = names(&[
        "sysdefault:CARD=Device",
        "front:CARD=Device,DEV=0",
        "surround40:CARD=Device,DEV=0",
    ]);
    assert_eq!(Player::select_output(&listed, "front:CARD=Device,DEV=0".to_string()), Ok(1));
    assert_eq!(Player::select_output(&listed, "sysdefault:CARD=Device".to_string()), Ok(0));
    assert_eq!(Player::select_output(&listed, "surround40:CARD=Device,DEV=0".to_string()), Ok(2));
}

#[test]
fn partial_names_do_not_match() {
    let listed = names(&["front:CARD=Device,DEV=0", "Front:CARD=Device,DEV=0"]);
    assert_eq!(
        Player::select_output(&listed, "front:CARD=Device".to_string()),
        Err(PlayerError::DeviceNotFound { name: "front:CARD=Device".to_string() })
    );
    assert_eq!(
        Player::select_output(&listed, "front:CARD=Device,DEV=0 ".to_string()),
        Err(PlayerError::DeviceNotFound { name: "front:CARD=Device,DEV=0 ".to_string() })
    );
    assert_eq!(Player::select_output(&listed, "Front:CARD=Device,DEV=0".to_string()), Ok(1));
}

#[test]
fn last_of_several_equal_names_is_taken() {
    let listed = names(&["a", "b", "a", "c"]);
    assert_eq!(Player::select_output(&listed, "a".to_string()), Ok(2));
}

#[test]
fn devices_without_a_name_are_passed_over() {
    let listed = vec![None, Some("a".to_string()), None];
    assert_eq!(Player::select_output(&listed, "a".to_string()), Ok(1));
    assert_eq!(
        Player::select_output(&vec![None, None], "".to_string()),
        Err(PlayerError::DeviceNotFound { name: "".to_string() })
    );
}

#[test]
fn output_that_cannot_be_opened_stops_construction() {
    match Player::for_devices("/dev/ttyUSB0".to_string(), Opening::OutputFailed) {
        Err((error, release)) => {
            assert_eq!(error, PlayerError::StreamInit);
            assert_eq!(release, Vec::<Action>::new());
        }
        Ok(_) => panic!("no player without audio output"),
    }
}

#[test]
fn missing_line_releases_the_audio_output() {
    match Player::for_devices("/dev/ttyUSB0".to_string(), Opening::LineFailed { errno: ENOENT }) {
        Err((error, release)) => {
            assert_eq!(
                error,
                PlayerError::DeviceOpen { path: "/dev/ttyUSB0".to_string(), errno: ENOENT }
            );
            assert_eq!(release, vec![Action::ReleaseSink, Action::ReleaseStream]);
        }
        Ok(_) => panic!("no player without a line"),
    }
}

#[test]
fn failed_first_query_releases_line_and_audio() {
    match Player::for_devices("/dev/ttyUSB0".to_string(), Opening::QueryFailed { fd: 7, errno: EIO }) {
        Err((error, release)) => {
            assert_eq!(error, PlayerError::IoControl { op: LineOp::ReadBits, errno: EIO });
            assert_eq!(
                release,
                vec![Action::CloseLine { fd: 7 }, Action::ReleaseSink, Action::ReleaseStream]
            );
        }
        Ok(_) => panic!("no player without a reading of the line"),
    }
}

#[test]
fn line_found_released_is_left_alone() {
    match Player::for_devices("/dev/ttyUSB0".to_string(), Opening::Ready { fd: 3, control_bits: 0x002 }) {
        Ok((player, safety)) => {
            assert_eq!(player.tty_fd(), 3);
            assert_eq!(safety, Vec::<Action>::new());
        }
        Err(_) => panic!("a ready opening builds a player"),
    }
}

#[test]
fn line_found_asserted_is_forced_off() {
    match Player::for_devices("/dev/ttyUSB0".to_string(), Opening::Ready { fd: 3, control_bits: 0x006 }) {
        Ok((player, safety)) => {
            assert_eq!(player.tty_fd(), 3);
            assert_eq!(safety, vec![Action::ToggleLine]);
            let word = player.toggle_rts(Ok(0x006));
            assert_eq!(word, Ok(0x002));
            assert_eq!(player.rts_is_enabled(Ok(0x002)), Ok(false));
        }
        Err(_) => panic!("a ready opening builds a player"),
    }
}

#[test]
fn queued_audio_is_appended_and_held() {
    let player = player_on(3);
    assert_eq!(
        player.queue_audio("./test_transmission.mp3".to_string(), Loading::Decoded),
        Ok(vec![Action::AppendSource, Action::PauseSink])
    );
}

#[test]
fn unreadable_file_is_a_file_open_error() {
    let player = player_on(3);
    assert_eq!(
        player.queue_audio("./nothing.mp3".to_string(), Loading::Unreadable),
        Err(PlayerError::FileOpen { path: "./nothing.mp3".to_string() })
    );
}

#[test]
fn undecodable_file_is_a_decode_error() {
    let player = player_on(3);
    assert_eq!(
        player.queue_audio("./notes.txt".to_string(), Loading::Undecodable),
        Err(PlayerError::Decode { path: "./notes.txt".to_string() })
    );
}

#[test]
fn settle_delay_is_a_quarter_second() {
    assert_eq!(SETTLE_MILLIS, 250);
}

#[test]
fn play_from_idle_keys_up_then_waits_then_resumes() {
    let player = player_on(3);
    assert_eq!(
        player.play(Ok(0), true),
        Ok(vec![Action::ToggleLine, Action::Settle { millis: 250 }, Action::ResumeSink])
    );
    assert_eq!(
        player.play(Ok(0x002), true),
        Ok(vec![Action::ToggleLine, Action::Settle { millis: 250 }, Action::ResumeSink])
    );
}

#[test]
fn play_is_refused_while_line_is_asserted() {
    let player = player_on(3);
    assert_eq!(player.play(Ok(0x004), true), Err(PlayerError::AlreadyTransmitting));
    assert_eq!(player.play(Ok(0x004), false), Err(PlayerError::AlreadyTransmitting));
}

#[test]
fn play_is_refused_while_audio_flows() {
    let player = player_on(3);
    assert_eq!(player.play(Ok(0), false), Err(PlayerError::AlreadyTransmitting));
}

#[test]
fn play_reports_a_failed_reading() {
    let player = player_on(3);
    assert_eq!(
        player.play(Err(EIO), true),
        Err(PlayerError::IoControl { op: LineOp::ReadBits, errno: EIO })
    );
}

#[test]
fn pause_while_transmitting_halts_then_waits_then_releases() {
    let player = player_on(3);
    assert_eq!(
        player.pause(Ok(0x004), false),
        Ok(vec![Action::PauseSink, Action::Settle { millis: 250 }, Action::ToggleLine])
    );
}

#[test]
fn pause_is_refused_while_line_is_released() {
    let player = player_on(3);
    assert_eq!(player.pause(Ok(0), false), Err(PlayerError::AlreadyPaused));
    assert_eq!(player.pause(Ok(0x002), true), Err(PlayerError::AlreadyPaused));
}

#[test]
fn pause_is_refused_while_audio_is_halted() {
    let player = player_on(3);
    assert_eq!(player.pause(Ok(0x004), true), Err(PlayerError::AlreadyPaused));
}

#[test]
fn pause_reports_a_failed_reading() {
    let player = player_on(3);
    assert_eq!(
        player.pause(Err(EIO), false),
        Err(PlayerError::IoControl { op: LineOp::ReadBits, errno: EIO })
    );
}

#[test]
fn rts_is_enabled_reads_the_flag() {
    let player = player_on(3);
    assert_eq!(player.rts_is_enabled(Ok(0x004)), Ok(true));
    assert_eq!(player.rts_is_enabled(Ok(0x1fb)), Ok(false));
    assert_eq!(
        player.rts_is_enabled(Err(EIO)),
        Err(PlayerError::IoControl { op: LineOp::ReadBits, errno: EIO })
    );
}

#[test]
fn toggle_rts_flips_only_the_flag() {
    let player = player_on(3);
    assert_eq!(player.toggle_rts(Ok(0x002)), Ok(0x006));
    assert_eq!(player.toggle_rts(Ok(0x006)), Ok(0x002));
    assert_eq!(
        player.toggle_rts(Err(EIO)),
        Err(PlayerError::IoControl { op: LineOp::ReadBits, errno: EIO })
    );
}

#[test]
fn failed_write_is_an_io_control_error() {
    let player = player_on(3);
    assert_eq!(
        player.write_failed(EIO),
        PlayerError::IoControl { op: LineOp::WriteBits, errno: EIO }
    );
}

#[test]
fn teardown_closes_the_line_once_and_the_stream_last() {
    let player = player_on(9);
    let release = player.teardown();
    assert_eq!(
        release,
        vec![Action::CloseLine { fd: 9 }, Action::ReleaseSink, Action::ReleaseStream]
    );
    let closes = release.iter().filter(|a| matches!(a, Action::CloseLine { .. })).count();
    assert_eq!(closes, 1);
}

/// Line word, sink state and milliseconds since the line changed, as a rig
/// on the bench would show them.
struct Bench {
    control_bits: i32,
    sink_paused: bool,
    settled: u64,
    player: Player,
}

impl Bench {
    fn new(control_bits: i32, sink_paused: bool) -> Bench {
        match Player::for_devices("/dev/ttyUSB0".to_string(), Opening::Ready { fd: 3, control_bits }) {
            Ok((player, safety)) => {
                let mut bench = Bench { control_bits, sink_paused, settled: 0, player };
                bench.perform(&safety);
                bench
            }
            Err(_) => panic!("a ready opening builds a player"),
        }
    }

    fn perform(&mut self, plan: &[Action]) {
        for action in plan {
            match action {
                Action::ToggleLine => {
                    self.control_bits = self.player.toggle_rts(Ok(self.control_bits)).unwrap();
                    self.settled = 0;
                }
                Action::Settle { millis } => self.settled += millis,
                Action::ResumeSink => {
                    assert!(is_asserted(self.control_bits));
                    assert!(self.settled >= 250);
                    self.sink_paused = false;
                }
                Action::PauseSink => self.sink_paused = true,
                _ => {}
            }
        }
    }

    fn play(&mut self) -> Result<(), PlayerError> {
        let plan = self.player.play(Ok(self.control_bits), self.sink_paused)?;
        self.perform(&plan);
        Ok(())
    }

    fn pause(&mut self) -> Result<(), PlayerError> {
        let plan = self.player.pause(Ok(self.control_bits), self.sink_paused)?;
        self.perform(&plan);
        Ok(())
    }

    fn queue(&mut self) {
        let plan = self.player.queue_audio("a.mp3".to_string(), Loading::Decoded).unwrap();
        self.perform(&plan);
    }

    fn in_step(&self) -> bool {
        is_asserted(self.control_bits) == !self.sink_paused
    }
}

#[test]
fn construction_releases_a_line_left_asserted() {
    let bench = Bench::new(0x004, false);
    assert!(!is_asserted(bench.control_bits));
    assert_eq!(bench.control_bits, 0);
}

#[test]
fn construction_keeps_a_released_line_released() {
    let bench = Bench::new(0x002, false);
    assert!(!is_asserted(bench.control_bits));
    assert_eq!(bench.control_bits, 0x002);
}

#[test]
fn second_play_in_a_row_is_refused() {
    let mut bench = Bench::new(0x004, false);
    bench.queue();
    assert_eq!(bench.play(), Ok(()));
    assert_eq!(bench.play(), Err(PlayerError::AlreadyTransmitting));
}

#[test]
fn second_pause_in_a_row_is_refused() {
    let mut bench = Bench::new(0, false);
    bench.queue();
    assert_eq!(bench.play(), Ok(()));
    assert_eq!(bench.pause(), Ok(()));
    assert_eq!(bench.pause(), Err(PlayerError::AlreadyPaused));
}

#[test]
fn pause_before_any_play_is_refused() {
    let mut bench = Bench::new(0, false);
    bench.queue();
    assert_eq!(bench.pause(), Err(PlayerError::AlreadyPaused));
}

#[test]
fn play_before_anything_is_queued_is_refused() {
    let mut bench = Bench::new(0, false);
    assert_eq!(bench.play(), Err(PlayerError::AlreadyTransmitting));
}

#[test]
fn line_and_audio_stay_in_step_over_any_calls() {
    let mut bench = Bench::new(0x006, false);
    bench.queue();
    assert!(bench.in_step());
    let calls = [true, true, false, true, false, false, false, true, true, false];
    for play in calls {
        let _ = if play { bench.play() } else { bench.pause() };
        assert!(bench.in_step());
    }
    assert_eq!(bench.control_bits, 0x002);
    assert!(bench.sink_paused);
}

#[test]
fn audio_resumes_only_after_the_line_has_settled() {
    let mut bench = Bench::new(0, false);
    bench.queue();
    assert!(bench.sink_paused);
    assert_eq!(bench.play(), Ok(()));
    assert!(is_asserted(bench.control_bits));
    assert!(!bench.sink_paused);
    assert_eq!(bench.settled, 250);
}
