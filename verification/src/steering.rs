//! The steering-position accumulator and its clamping policy: the core of the
//! translation engine.

use vstd::prelude::*;

use crate::events::{event_is_rel_x, is_rel_x, InputEventData, OutputEvent, ABS_X, EV_ABS};

verus! {

/// Leftmost wheel position (the left extreme of the 900-degree range).
pub const WHEEL_MIN: i32 = -4500;

/// Rightmost wheel position (the right extreme of the 900-degree range).
pub const WHEEL_MAX: i32 = 4500;

/// The mutable accumulator: the wheel's current absolute position.
#[derive(Clone, Copy, PartialEq, Eq, Structural, Debug)]
pub struct SteeringState {
    pub position: i32,
}

/// Clamps a mathematical position into the wheel's range.
pub open spec fn clamp_spec(x: int) -> int {
    if x < WHEEL_MIN as int {
        WHEEL_MIN as int
    } else if x > WHEEL_MAX as int {
        WHEEL_MAX as int
    } else {
        x
    }
}

/// The position after one relative-motion value is applied: the scaled delta
/// is added and the sum is clamped into the wheel's range.
pub open spec fn next_position(p: int, value: int, sensitivity: int) -> int {
    clamp_spec(p + value * sensitivity)
}

impl SteeringState {
    /// The accumulator's invariant: the position never leaves the wheel range.
    pub open spec fn wf(self) -> bool {
        WHEEL_MIN <= self.position <= WHEEL_MAX
    }

    /// A wheel centered at position zero, as at startup.
    pub fn new() -> (s: Self)
        ensures
            s.wf(),
            s.position == 0,
    {
        SteeringState { position: 0 }
    }

    /// Applies one input event. Horizontal relative motion advances the
    /// position by `value * sensitivity`, clamped into the wheel range, and
    /// yields the absolute-axis event to emit; every other event is ignored
    /// and leaves the state untouched.
    pub fn apply_event(&mut self, ev: InputEventData, sensitivity: i32) -> (r: Option<OutputEvent>)
        requires
            old(self).wf(),
        ensures
            final(self).wf(),
            is_rel_x(ev) ==> final(self).position as int == next_position(
                old(self).position as int,
                ev.value as int,
                sensitivity as int,
            ),
            is_rel_x(ev) ==> r == Some(
                (OutputEvent { event_type: EV_ABS, code: ABS_X, value: final(self).position }),
            ),
            !is_rel_x(ev) ==> *final(self) == *old(self) && r is None,
    {
        if event_is_rel_x(&ev) {
            proof {
                assert((ev.value as int) * (sensitivity as int) <= 0x4000_0000_0000_0000
                    && (ev.value as int) * (sensitivity as int) >= -0x4000_0000_0000_0000)
                    by (nonlinear_arith)
                    requires
                        -0x8000_0000 <= ev.value as int <= 0x7fff_ffff,
                        -0x8000_0000 <= sensitivity as int <= 0x7fff_ffff,
                ;
            }
            let delta: i64 = (ev.value as i64) * (sensitivity as i64);
            let mut pos: i64 = (self.position as i64) + delta;
            if pos < (WHEEL_MIN as i64) {
                pos = WHEEL_MIN as i64;
            } else if pos > (WHEEL_MAX as i64) {
                pos = WHEEL_MAX as i64;
            }
            self.position = pos as i32;
            Some(OutputEvent { event_type: EV_ABS, code: ABS_X, value: self.position })
        } else {
            None
        }
    }
}

/// The horizontal relative-motion values of a batch, in delivery order;
/// events of every other type or axis contribute nothing.
pub open spec fn rel_deltas(events: Seq<InputEventData>) -> Seq<int>
    decreases events.len(),
{
    if events.len() == 0 {
        Seq::empty()
    } else if is_rel_x(events.last()) {
        rel_deltas(events.drop_last()).push(events.last().value as int)
    } else {
        rel_deltas(events.drop_last())
    }
}

/// Events of any other type or axis never move the wheel: a batch without
/// horizontal relative motion contributes no deltas, so translating it leaves
/// the position where it was and emits nothing.
pub proof fn lemma_non_motion_batch(events: Seq<InputEventData>)
    requires
        forall|j: int| 0 <= j < events.len() ==> !is_rel_x(#[trigger] events[j]),
    ensures
        rel_deltas(events) == Seq::<int>::empty(),
    decreases events.len(),
{
    if events.len() > 0 {
        assert(!is_rel_x(events[events.len() - 1]));
        lemma_non_motion_batch(events.drop_last());
    }
}

/// The position after a sequence of relative-motion values is applied in
/// order, each scaled and clamped.
pub open spec fn run_position(p: int, deltas: Seq<int>, sensitivity: int) -> int
    decreases deltas.len(),
{
    if deltas.len() == 0 {
        p
    } else {
        next_position(run_position(p, deltas.drop_last(), sensitivity), deltas.last(), sensitivity)
    }
}

/// The successive positions a sequence of relative-motion values steps
/// through, one per value.
pub open spec fn run_positions(p: int, deltas: Seq<int>, sensitivity: int) -> Seq<int>
    decreases deltas.len(),
{
    if deltas.len() == 0 {
        Seq::empty()
    } else {
        run_positions(p, deltas.drop_last(), sensitivity).push(
            run_position(p, deltas, sensitivity),
        )
    }
}

/// The absolute-axis events a run of relative-motion values produces: one
/// per value, each carrying the position the wheel advanced to.
pub open spec fn output_events(p: int, deltas: Seq<int>, sensitivity: int) -> Seq<OutputEvent>
    decreases deltas.len(),
{
    if deltas.len() == 0 {
        Seq::empty()
    } else {
        output_events(p, deltas.drop_last(), sensitivity).push(
            (OutputEvent {
                event_type: EV_ABS,
                code: ABS_X,
                value: run_position(p, deltas, sensitivity) as i32,
            }),
        )
    }
}

impl SteeringState {
    /// Translates one batch of input events in delivery order. Each
    /// horizontal relative-motion event advances the position and yields one
    /// absolute-axis event carrying the position it advanced to; every other
    /// event is ignored. The accumulator advances for every motion event no
    /// matter what later becomes of the produced events, so a failed emission
    /// downstream never holds the position back.
    pub fn process_batch(&mut self, events: &Vec<InputEventData>, sensitivity: i32) -> (out: Vec<
        OutputEvent,
    >)
        requires
            old(self).wf(),
        ensures
            final(self).wf(),
            final(self).position as int == run_position(
                old(self).position as int,
                rel_deltas(events@),
                sensitivity as int,
            ),
            out@ == output_events(
                old(self).position as int,
                rel_deltas(events@),
                sensitivity as int,
            ),
    {
        let ghost p0: int = self.position as int;
        let mut out: Vec<OutputEvent> = Vec::new();
        let mut idx: usize = 0;
        while idx < events.len()
            invariant
                idx <= events@.len(),
                self.wf(),
                self.position as int == run_position(
                    p0,
                    rel_deltas(events@.take(idx as int)),
                    sensitivity as int,
                ),
                out@ == output_events(
                    p0,
                    rel_deltas(events@.take(idx as int)),
                    sensitivity as int,
                ),
            decreases events@.len() - idx,
        {
            let ev = events[idx];
            let ghost before: Seq<int> = rel_deltas(events@.take(idx as int));
            let ghost old_out: Seq<OutputEvent> = out@;
            proof {
                assert(events@.take(idx + 1).drop_last() =~= events@.take(idx as int));
                assert(events@.take(idx + 1).last() == events@[idx as int]);
                if is_rel_x(ev) {
                    assert(rel_deltas(events@.take(idx + 1)) == before.push(ev.value as int));
                    lemma_run_push(p0, before, ev.value as int, sensitivity as int);
                } else {
                    assert(rel_deltas(events@.take(idx + 1)) == before);
                }
            }
            match self.apply_event(ev, sensitivity) {
                Some(o) => {
                    out.push(o);
                    proof {
                        let s = sensitivity as int;
                        let d1 = rel_deltas(events@.take(idx + 1));
                        assert(is_rel_x(ev));
                        assert(out@ == old_out.push(o));
                        assert(d1.drop_last() =~= before);
                        assert(d1.last() == ev.value as int);
                        assert(o == (OutputEvent {
                            event_type: EV_ABS,
                            code: ABS_X,
                            value: run_position(p0, d1, s) as i32,
                        }));
                        assert(output_events(p0, d1, s) == old_out.push(o));
                    }
                },
                None => {
                    proof {
                        assert(!is_rel_x(ev));
                        assert(rel_deltas(events@.take(idx + 1)) == before);
                        assert(out@ == old_out);
                    }
                },
            }
            idx += 1;
        }
        proof {
            assert(events@.take(events@.len() as int) =~= events@);
        }
        out
    }
}

/// The trace of produced events has the documented shape: one event per
/// relative-motion value, each on the horizontal absolute axis, each carrying
/// the position of its step — and, as the clamping invariant has it, every
/// carried position lies within the wheel range.
pub proof fn lemma_output_events_shape(p: int, deltas: Seq<int>, sensitivity: int)
    ensures
        output_events(p, deltas, sensitivity).len() == deltas.len(),
        forall|j: int|
            0 <= j < deltas.len() ==> #[trigger] output_events(p, deltas, sensitivity)[j]
                == (OutputEvent {
                event_type: EV_ABS,
                code: ABS_X,
                value: run_positions(p, deltas, sensitivity)[j] as i32,
            }),
        forall|j: int|
            0 <= j < deltas.len() ==> WHEEL_MIN as int <= #[trigger] run_positions(
                p,
                deltas,
                sensitivity,
            )[j] <= WHEEL_MAX as int,
    decreases deltas.len(),
{
    lemma_run_positions_len(p, deltas, sensitivity);
    if deltas.len() > 0 {
        let front = deltas.drop_last();
        lemma_output_events_shape(p, front, sensitivity);
        lemma_run_positions_len(p, front, sensitivity);
        assert forall|j: int|
            0 <= j < deltas.len() implies #[trigger] output_events(p, deltas, sensitivity)[j]
            == (OutputEvent {
            event_type: EV_ABS,
            code: ABS_X,
            value: run_positions(p, deltas, sensitivity)[j] as i32,
        }) && WHEEL_MIN as int <= run_positions(p, deltas, sensitivity)[j] <= WHEEL_MAX as int by {
            if j < front.len() {
                assert(output_events(p, deltas, sensitivity)[j] == output_events(
                    p,
                    front,
                    sensitivity,
                )[j]);
                assert(run_positions(p, deltas, sensitivity)[j] == run_positions(
                    p,
                    front,
                    sensitivity,
                )[j]);
            }
        }
    }
}

/// A run's trace holds exactly one position per relative-motion value.
proof fn lemma_run_positions_len(p: int, deltas: Seq<int>, sensitivity: int)
    ensures
        run_positions(p, deltas, sensitivity).len() == deltas.len(),
    decreases deltas.len(),
{
    if deltas.len() > 0 {
        lemma_run_positions_len(p, deltas.drop_last(), sensitivity);
    }
}

/// Appending one value to a run steps the final position once and appends
/// that position to the trace.
proof fn lemma_run_push(p: int, deltas: Seq<int>, v: int, sensitivity: int)
    ensures
        run_position(p, deltas.push(v), sensitivity) == next_position(
            run_position(p, deltas, sensitivity),
            v,
            sensitivity,
        ),
        run_positions(p, deltas.push(v), sensitivity) == run_positions(p, deltas, sensitivity).push(
            run_position(p, deltas.push(v), sensitivity),
        ),
{
    assert(deltas.push(v).drop_last() =~= deltas);
    assert(deltas.push(v).last() == v);
}

/// The sum of a sequence of relative-motion values.
pub open spec fn sum_of(deltas: Seq<int>) -> int
    decreases deltas.len(),
{
    if deltas.len() == 0 {
        0
    } else {
        sum_of(deltas.drop_last()) + deltas.last()
    }
}

/// No step of the run leaves the wheel range, so no clamping ever triggers:
/// after each prefix the unclamped accumulated position is already in range.
pub open spec fn no_clamping(p: int, deltas: Seq<int>, sensitivity: int) -> bool {
    forall|i: int|
        0 <= i <= deltas.len() ==> WHEEL_MIN <= p + sensitivity * sum_of(#[trigger] deltas.take(i))
            <= WHEEL_MAX
}

/// Monotonic accumulation: as long as no step triggers clamping, the position
/// after a run of relative-motion values is the start position plus the
/// sensitivity times the sum of the values.
pub proof fn lemma_monotonic_accumulation(p: int, deltas: Seq<int>, sensitivity: int)
    requires
        no_clamping(p, deltas, sensitivity),
    ensures
        run_position(p, deltas, sensitivity) == p + sensitivity * sum_of(deltas),
    decreases deltas.len(),
{
    if deltas.len() == 0 {
        assert(deltas.take(0) =~= deltas);
        assert(sensitivity * 0 == 0) by (nonlinear_arith);
    } else {
        let front = deltas.drop_last();
        let v = deltas.last();
        assert forall|i: int|
            0 <= i <= front.len() implies WHEEL_MIN <= p + sensitivity * sum_of(
            #[trigger] front.take(i),
        ) <= WHEEL_MAX by {
            assert(front.take(i) =~= deltas.take(i));
        }
        lemma_monotonic_accumulation(p, front, sensitivity);
        assert(sensitivity * sum_of(front) + v * sensitivity == sensitivity * (sum_of(front) + v))
            by (nonlinear_arith);
        assert(deltas.take(deltas.len() as int) =~= deltas);
        assert(WHEEL_MIN <= p + sensitivity * sum_of(deltas) <= WHEEL_MAX);
    }
}

} // verus!
