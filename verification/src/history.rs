//! Delivery rules over whole histories of the machine.
//!
//! [`crate::encoder::EncoderState`] starts idle, and every operation on it
//! runs inside the platform's critical section, so a run of the machine is a
//! sequence of atomic steps: change events (each with the line levels the
//! handler sampled) interleaved with drains. [`pending_after`] gives the
//! buffered turn after any such sequence, matching the contracts of
//! `notify_changed` and `take_pending_turn` step by step, and the lemmas
//! here state what any interleaving of the two contexts can observe.

use crate::direction::classified;
use crate::direction::Direction;
use vstd::prelude::*;

verus! {

/// One atomic step of a run: a change event with the levels sampled at that
/// moment, or a drain by the main loop.
pub enum Step {
    Changed { clock_high: bool, data_high: bool },
    Drained,
}

/// The turn left pending after the steps have run, in order, from the idle
/// state. A change event buffers exactly the classification of its levels; a
/// drain clears the buffer; nothing else touches it.
pub open spec fn pending_after(steps: Seq<Step>) -> Option<Direction> {
    if steps.len() == 0 {
        None
    } else {
        match steps.last() {
            Step::Changed { clock_high, data_high } => Some(classified(clock_high, data_high)),
            Step::Drained => None,
        }
    }
}

/// What the drain at position `i` returns: the turn pending just before it
/// ran.
pub open spec fn drain_result(steps: Seq<Step>, i: int) -> Option<Direction>
    recommends
        0 <= i < steps.len(),
        steps[i] is Drained,
{
    pending_after(steps.take(i))
}

/// Draining twice with no change event in between delivers the pending turn
/// once: the first drain returns it and empties the buffer, so the second
/// returns `None`.
pub proof fn lemma_drain_idempotent(steps: Seq<Step>)
    ensures
        drain_result(steps.push(Step::Drained), steps.len() as int) == pending_after(steps),
        drain_result(steps.push(Step::Drained).push(Step::Drained), steps.len() as int + 1) is None,
{
    assert(steps.push(Step::Drained).take(steps.len() as int) =~= steps);
    assert(steps.push(Step::Drained).push(Step::Drained).take(steps.len() as int + 1) =~= steps.push(
        Step::Drained,
    ));
}

/// A change event that arrives before the previous turn was drained
/// overwrites it: after equal levels and then unequal levels, a single drain
/// yields exactly `Some(Left)`, leaves nothing pending, and the earlier
/// right turn is lost, never queued.
pub proof fn lemma_overwrite(
    steps: Seq<Step>,
    clock1: bool,
    data1: bool,
    clock2: bool,
    data2: bool,
)
    requires
        clock1 == data1,
        clock2 != data2,
    ensures
        pending_after(
            steps.push(Step::Changed { clock_high: clock1, data_high: data1 }).push(
                Step::Changed { clock_high: clock2, data_high: data2 },
            ),
        ) == Some(Direction::Left),
        drain_result(
            steps.push(Step::Changed { clock_high: clock1, data_high: data1 }).push(
                Step::Changed { clock_high: clock2, data_high: data2 },
            ).push(Step::Drained),
            steps.len() as int + 2,
        ) == Some(Direction::Left),
        pending_after(
            steps.push(Step::Changed { clock_high: clock1, data_high: data1 }).push(
                Step::Changed { clock_high: clock2, data_high: data2 },
            ).push(Step::Drained),
        ) is None,
{
    let two = steps.push(Step::Changed { clock_high: clock1, data_high: data1 }).push(
        Step::Changed { clock_high: clock2, data_high: data2 },
    );
    assert(two.push(Step::Drained).take(steps.len() as int + 2) =~= two);
}

/// No spurious output: in a run without any change event, every drain
/// returns `None`, and nothing is ever pending.
pub proof fn lemma_no_spurious_output(steps: Seq<Step>, i: int)
    requires
        forall|j: int| 0 <= j < steps.len() ==> steps[j] is Drained,
        0 <= i < steps.len(),
        steps[i] is Drained,
    ensures
        drain_result(steps, i) is None,
        pending_after(steps) is None,
{
    if i > 0 {
        assert(steps.take(i).last() == steps[i - 1]);
    }
}

} // verus!
