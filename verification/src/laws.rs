//! What holds of the player's plans when they run on the rig.

use vstd::prelude::*;
use crate::action::Action;
use crate::error::PlayerError;
use crate::line::{lemma_flip, rts_asserted};
use crate::player::{
    abort_plan, pause_outcome, pause_plan, play_outcome, play_plan, queue_plan, safety_plan,
    teardown_plan, Opening,
};
use crate::rig::{
    apply, closes_in, lemma_run_empty, lemma_run_one, lemma_run_three, lemma_run_two, run, Rig,
};

verus! {

/// A request made of the player.
pub enum Call {
    Play,
    Pause,
}

/// The rig after one request: the request is decided on what the rig shows,
/// and its plan, if it is granted one, runs to the end.
pub open spec fn after_call(rig: Rig, call: Call) -> Rig {
    let outcome = match call {
        Call::Play => play_outcome(Ok(rig.control_bits), rig.sink_paused),
        Call::Pause => pause_outcome(Ok(rig.control_bits), rig.sink_paused),
    };
    match outcome {
        Ok(plan) => run(rig, plan),
        Err(_) => rig,
    }
}

/// The rig after a series of requests, one after the other.
pub open spec fn after_calls(rig: Rig, calls: Seq<Call>) -> Rig
    decreases calls.len(),
{
    if calls.len() == 0 {
        rig
    } else {
        after_call(after_calls(rig, calls.drop_last()), calls.last())
    }
}

/// A granted `play` leaves the line asserted and the audio flowing, with the
/// settle delay behind it.
pub proof fn lemma_play_transmits(rig: Rig)
    requires
        play_outcome(Ok(rig.control_bits), rig.sink_paused) is Ok,
    ensures
        run(rig, play_plan()).line_asserted(),
        run(rig, play_plan()).sink_playing(),
{
    lemma_flip(rig.control_bits);
    lemma_run_three(
        rig,
        Action::ToggleLine,
        Action::Settle { millis: 250 },
        Action::ResumeSink,
    );
}

/// A granted `pause` leaves the audio halted and the line released.
pub proof fn lemma_pause_idles(rig: Rig)
    requires
        pause_outcome(Ok(rig.control_bits), rig.sink_paused) is Ok,
    ensures
        !run(rig, pause_plan()).line_asserted(),
        !run(rig, pause_plan()).sink_playing(),
{
    lemma_flip(rig.control_bits);
    lemma_run_three(
        rig,
        Action::PauseSink,
        Action::Settle { millis: 250 },
        Action::ToggleLine,
    );
}

/// One request, granted or refused, keeps the line and the audio in step.
pub proof fn lemma_call_keeps_coherent(rig: Rig, call: Call)
    requires
        rig.coherent(),
    ensures
        after_call(rig, call).coherent(),
{
    match call {
        Call::Play => {
            if play_outcome(Ok(rig.control_bits), rig.sink_paused) is Ok {
                lemma_play_transmits(rig);
            }
        },
        Call::Pause => {
            if pause_outcome(Ok(rig.control_bits), rig.sink_paused) is Ok {
                lemma_pause_idles(rig);
            }
        },
    }
}

/// Whatever series of `play` and `pause` requests is made of a rig whose
/// line and audio are in step, once the last of them has returned the line
/// is asserted exactly if audio is flowing.
pub proof fn lemma_correspondence(rig: Rig, calls: Seq<Call>)
    requires
        rig.coherent(),
    ensures
        after_calls(rig, calls).coherent(),
    decreases calls.len(),
{
    if calls.len() > 0 {
        lemma_correspondence(rig, calls.drop_last());
        lemma_call_keeps_coherent(after_calls(rig, calls.drop_last()), calls.last());
    }
}

/// Of two `play` requests in a row the second is refused as already
/// transmitting, whatever became of the first.
pub proof fn lemma_second_play_refused(rig: Rig)
    ensures
        ({
            let next = after_call(rig, Call::Play);
            play_outcome(Ok(next.control_bits), next.sink_paused) == Err::<
                Seq<Action>,
                PlayerError,
            >(PlayerError::AlreadyTransmitting)
        }),
{
    if play_outcome(Ok(rig.control_bits), rig.sink_paused) is Ok {
        lemma_play_transmits(rig);
    }
}

/// Of two `pause` requests in a row the second is refused as already
/// paused, whatever became of the first.
pub proof fn lemma_second_pause_refused(rig: Rig)
    ensures
        ({
            let next = after_call(rig, Call::Pause);
            pause_outcome(Ok(next.control_bits), next.sink_paused) == Err::<
                Seq<Action>,
                PlayerError,
            >(PlayerError::AlreadyPaused)
        }),
{
    if pause_outcome(Ok(rig.control_bits), rig.sink_paused) is Ok {
        lemma_pause_idles(rig);
    }
}

/// The plan that comes with a new player leaves the line released, whether
/// the line was found asserted or not.
pub proof fn lemma_construction_releases_line(rig: Rig)
    ensures
        !run(rig, safety_plan(rig.control_bits)).line_asserted(),
{
    lemma_flip(rig.control_bits);
    if rts_asserted(rig.control_bits) {
        lemma_run_one(rig, Action::ToggleLine);
    } else {
        lemma_run_empty(rig);
    }
}

/// Once the plan that comes with a new player has run and audio has been
/// queued, the line is released and the audio halted: the state from which
/// `play` is granted, and in which line and audio are in step.
pub proof fn lemma_queued_player_is_idle(rig: Rig)
    ensures
        ({
            let ready = run(run(rig, safety_plan(rig.control_bits)), queue_plan());
            &&& !ready.line_asserted()
            &&& !ready.sink_playing()
            &&& ready.coherent()
            &&& ready.queued == rig.queued + 1
        }),
{
    lemma_construction_releases_line(rig);
    let built = run(rig, safety_plan(rig.control_bits));
    lemma_run_two(built, Action::AppendSource, Action::PauseSink);
    if rts_asserted(rig.control_bits) {
        lemma_run_one(rig, Action::ToggleLine);
    } else {
        lemma_run_empty(rig);
    }
}

/// When construction stops after the audio output was opened, the plan
/// beside the error leaves neither sink nor stream behind, and closes the
/// line's handle once if the line had been opened and not at all otherwise.
pub proof fn lemma_abort_releases(rig: Rig, opening: Opening)
    requires
        opening is LineFailed || opening is QueryFailed,
    ensures
        ({
            let left = run(rig, abort_plan(opening));
            &&& !left.sink_live
            &&& !left.stream_live
            &&& left.line_closes == rig.line_closes + if opening is QueryFailed {
                1nat
            } else {
                0nat
            }
        }),
{
    match opening {
        Opening::LineFailed { errno } => {
            lemma_run_two(rig, Action::ReleaseSink, Action::ReleaseStream);
        },
        Opening::QueryFailed { fd, errno } => {
            lemma_run_three(
                rig,
                Action::CloseLine { fd },
                Action::ReleaseSink,
                Action::ReleaseStream,
            );
        },
        _ => {},
    }
}

/// When audio is queued and `play` follows at once, audio flows at no point
/// of what `play` has done unless the line is asserted and the settle delay
/// has passed since; where `play` is refused the audio stays halted.
pub proof fn lemma_audio_waits_for_line(rig: Rig)
    ensures
        ({
            let queued = run(rig, queue_plan());
            match play_outcome(Ok(queued.control_bits), queued.sink_paused) {
                Ok(plan) => {
                    &&& plan == play_plan()
                    &&& forall|steps: int|
                        0 <= steps <= plan.len() ==> {
                            let partway = #[trigger] run(queued, plan.take(steps));
                            partway.sink_playing() ==> partway.line_asserted()
                                && partway.settled_ms >= 250
                        }
                },
                Err(_) => !queued.sink_playing(),
            }
        }),
{
    lemma_run_two(rig, Action::AppendSource, Action::PauseSink);
    let queued = run(rig, queue_plan());
    lemma_flip(queued.control_bits);
    let a = Action::ToggleLine;
    let b = Action::Settle { millis: 250 };
    let c = Action::ResumeSink;
    let plan = play_plan();
    lemma_run_empty(queued);
    lemma_run_one(queued, a);
    lemma_run_two(queued, a, b);
    lemma_run_three(queued, a, b, c);
    assert(plan.take(0) =~= Seq::<Action>::empty());
    assert(plan.take(1) =~= seq![a]);
    assert(plan.take(2) =~= seq![a, b]);
    assert(plan.take(3) =~= seq![a, b, c]);
}

/// Teardown closes the line's handle exactly once, and at no point of its
/// plan has the stream gone while the sink is still there.
pub proof fn lemma_teardown_closes_once(rig: Rig, fd: i32)
    requires
        rig.stream_outlives_sink(),
    ensures
        closes_in(teardown_plan(fd)) == 1,
        run(rig, teardown_plan(fd)).line_closes == rig.line_closes + 1,
        !run(rig, teardown_plan(fd)).sink_live,
        !run(rig, teardown_plan(fd)).stream_live,
        forall|steps: int|
            0 <= steps <= teardown_plan(fd).len() ==> (#[trigger] run(
                rig,
                teardown_plan(fd).take(steps),
            )).stream_outlives_sink(),
{
    let a = Action::CloseLine { fd };
    let b = Action::ReleaseSink;
    let c = Action::ReleaseStream;
    let plan = teardown_plan(fd);
    lemma_run_empty(rig);
    lemma_run_one(rig, a);
    lemma_run_two(rig, a, b);
    lemma_run_three(rig, a, b, c);
    assert(plan.take(0) =~= Seq::<Action>::empty());
    assert(plan.take(1) =~= seq![a]);
    assert(plan.take(2) =~= seq![a, b]);
    assert(plan.take(3) =~= plan);
    assert(plan.drop_last() =~= seq![a, b]);
    assert(seq![a, b].drop_last() =~= seq![a]);
    assert(seq![a].drop_last() =~= Seq::<Action>::empty());
    reveal_with_fuel(closes_in, 4);
}

} // verus!
