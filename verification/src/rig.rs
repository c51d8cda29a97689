//! A model of the attached hardware: what each action does to the control
//! line, the sink and the handles when it succeeds.

use vstd::prelude::*;
use crate::action::Action;
use crate::line::{rts_asserted, rts_flipped};

verus! {

/// The observable state of the radio interface.
pub struct Rig {
    /// The control word of the line as the hardware holds it.
    pub control_bits: i32,
    /// Whether the sink is halted.
    pub sink_paused: bool,
    /// How many audio items were appended to the sink.
    pub queued: nat,
    /// Milliseconds waited since the line last changed.
    pub settled_ms: nat,
    /// How many times the line's handle was closed.
    pub line_closes: nat,
    /// Whether the sink still exists.
    pub sink_live: bool,
    /// Whether the output stream still exists.
    pub stream_live: bool,
}

impl Rig {
    /// Whether the transmit-enable line is asserted.
    pub open spec fn line_asserted(self) -> bool {
        rts_asserted(self.control_bits)
    }

    /// Whether audio is flowing.
    pub open spec fn sink_playing(self) -> bool {
        !self.sink_paused
    }

    /// The correspondence that the player maintains: the line is asserted
    /// exactly while audio flows.
    pub open spec fn coherent(self) -> bool {
        self.line_asserted() == self.sink_playing()
    }

    /// A sink never outlives the stream that feeds it.
    pub open spec fn stream_outlives_sink(self) -> bool {
        self.sink_live ==> self.stream_live
    }
}

/// The rig after one action that succeeded.
pub open spec fn apply(rig: Rig, action: Action) -> Rig {
    match action {
        Action::ToggleLine => Rig {
            control_bits: rts_flipped(rig.control_bits),
            settled_ms: 0,
            ..rig
        },
        Action::Settle { millis } => Rig { settled_ms: rig.settled_ms + millis as nat, ..rig },
        Action::ResumeSink => Rig { sink_paused: false, ..rig },
        Action::PauseSink => Rig { sink_paused: true, ..rig },
        Action::AppendSource => Rig { queued: rig.queued + 1, ..rig },
        Action::CloseLine { fd } => Rig { line_closes: rig.line_closes + 1, ..rig },
        Action::ReleaseSink => Rig { sink_live: false, ..rig },
        Action::ReleaseStream => Rig { stream_live: false, ..rig },
    }
}

/// The rig after every action of a plan, in order.
pub open spec fn run(rig: Rig, plan: Seq<Action>) -> Rig
    decreases plan.len(),
{
    if plan.len() == 0 {
        rig
    } else {
        apply(run(rig, plan.drop_last()), plan.last())
    }
}

/// How many actions of a plan close the line's handle.
pub open spec fn closes_in(plan: Seq<Action>) -> nat
    decreases plan.len(),
{
    if plan.len() == 0 {
        0
    } else {
        closes_in(plan.drop_last()) + if plan.last() is CloseLine { 1nat } else { 0nat }
    }
}

/// Running a plan of one more action applies that action last.
pub proof fn lemma_run_push(rig: Rig, plan: Seq<Action>, action: Action)
    ensures
        run(rig, plan.push(action)) == apply(run(rig, plan), action),
{
    assert(plan.push(action).drop_last() =~= plan);
}

/// Running the empty plan changes nothing.
pub proof fn lemma_run_empty(rig: Rig)
    ensures
        run(rig, Seq::<Action>::empty()) == rig,
{
}

/// Running a plan of one action applies it.
pub proof fn lemma_run_one(rig: Rig, a: Action)
    ensures
        run(rig, seq![a]) == apply(rig, a),
{
    lemma_run_push(rig, Seq::<Action>::empty(), a);
    assert(seq![a] =~= Seq::<Action>::empty().push(a));
}

/// Running a plan of two actions applies them in order.
pub proof fn lemma_run_two(rig: Rig, a: Action, b: Action)
    ensures
        run(rig, seq![a, b]) == apply(apply(rig, a), b),
{
    lemma_run_one(rig, a);
    lemma_run_push(rig, seq![a], b);
    assert(seq![a, b] =~= seq![a].push(b));
}

/// Running a plan of three actions applies them in order.
pub proof fn lemma_run_three(rig: Rig, a: Action, b: Action, c: Action)
    ensures
        run(rig, seq![a, b, c]) == apply(apply(apply(rig, a), b), c),
{
    lemma_run_two(rig, a, b);
    lemma_run_push(rig, seq![a, b], c);
    assert(seq![a, b, c] =~= seq![a, b].push(c));
}

} // verus!
