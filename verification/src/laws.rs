//! What holds of the drain over whole runs of inputs.

use vstd::prelude::*;
use crate::drain::{bump, DrainState, Input, Lifecycle};
use crate::trigger::time_trigger;

verus! {

/// Feeds `inputs` to the drain one after the other. The result is the state
/// at the end and the batches that were cut on the way, in the order in
/// which they were cut.
pub open spec fn run(state: DrainState, inputs: Seq<Input>) -> (DrainState, Seq<Seq<Seq<u8>>>)
    decreases inputs.len(),
{
    if inputs.len() == 0 {
        (state, Seq::empty())
    } else {
        let (before, shipped) = run(state, inputs.drop_last());
        let (after, batch) = before.step(inputs.last());
        (
            after,
            match batch {
                Some(units) => shipped.push(units),
                None => shipped,
            },
        )
    }
}

/// The units among `inputs`, in the order in which they were submitted.
pub open spec fn units_of(inputs: Seq<Input>) -> Seq<Seq<u8>>
    decreases inputs.len(),
{
    if inputs.len() == 0 {
        Seq::empty()
    } else {
        match inputs.last() {
            Input::Unit(unit) => units_of(inputs.drop_last()).push(unit),
            _ => units_of(inputs.drop_last()),
        }
    }
}

/// The inputs that submit `units` one by one and do nothing else.
pub open spec fn submissions(units: Seq<Seq<u8>>) -> Seq<Input> {
    units.map_values(|unit: Seq<u8>| Input::Unit(unit))
}

/// Whether `inputs` holds no request to shut down.
pub open spec fn no_shutdown(inputs: Seq<Input>) -> bool {
    forall|i: int| 0 <= i < inputs.len() ==> inputs[i] != Input::Shutdown
}

/// Whether `inputs` holds timer ticks and flush signals only.
pub open spec fn only_flushes(inputs: Seq<Input>) -> bool {
    forall|i: int| 0 <= i < inputs.len() ==> inputs[i] is Tick || inputs[i] is Flush
}

/// Every step keeps the state well-formed, and a batch that is cut is never
/// empty.
pub proof fn lemma_step_wf(state: DrainState, input: Input)
    requires
        state.wf(),
    ensures
        state.step(input).0.wf(),
        state.step(input).0.inner.capacity == state.inner.capacity,
        state.step(input).1 matches Some(units) ==> units.len() > 0,
{
}

/// Every run keeps the state well-formed, and no batch that it ships is
/// empty.
pub proof fn lemma_run_wf(state: DrainState, inputs: Seq<Input>)
    requires
        state.wf(),
    ensures
        run(state, inputs).0.wf(),
        run(state, inputs).0.inner.capacity == state.inner.capacity,
        forall|i: int| 0 <= i < run(state, inputs).1.len() ==> run(state, inputs).1[i].len() > 0,
    decreases inputs.len(),
{
    if inputs.len() > 0 {
        lemma_run_wf(state, inputs.drop_last());
        lemma_step_wf(run(state, inputs.drop_last()).0, inputs.last());
    }
}

/// A buffer with room to spare keeps room to spare: once the buffer is
/// below its capacity, as it is in a drain that was just built, no run ever
/// leaves it full.
pub proof fn lemma_never_full(state: DrainState, inputs: Seq<Input>)
    requires
        state.wf(),
        state.inner.buffer.len() < state.inner.capacity,
    ensures
        run(state, inputs).0.inner.buffer.len() < run(state, inputs).0.inner.capacity,
    decreases inputs.len(),
{
    if inputs.len() > 0 {
        lemma_never_full(state, inputs.drop_last());
        lemma_run_wf(state, inputs.drop_last());
    }
}

/// Ordering. While the drain runs, the batches shipped so far, one after
/// the other, followed by what is still buffered, are exactly the units
/// that were submitted, in the order of submission: nothing is lost,
/// nothing is sent twice, nothing overtakes.
pub proof fn lemma_ordering(state: DrainState, inputs: Seq<Input>)
    requires
        state.wf(),
        state.phase == Lifecycle::Running,
        no_shutdown(inputs),
    ensures
        run(state, inputs).0.phase == Lifecycle::Running,
        run(state, inputs).1.flatten() + run(state, inputs).0.inner.buffer
            == state.inner.buffer + units_of(inputs),
    decreases inputs.len(),
{
    broadcast use Seq::lemma_flatten_push;

    if inputs.len() > 0 {
        let earlier = inputs.drop_last();
        lemma_ordering(state, earlier);
        lemma_run_wf(state, earlier);
        // The last input ships the buffer, moves a unit into it, does both,
        // or leaves both alone: shipped and buffered units together grow
        // by that unit or stay as they are.
        match inputs.last() {
            Input::Unit(unit) => {
                assert(state.inner.buffer + units_of(inputs) =~= (state.inner.buffer + units_of(
                    earlier,
                )).push(unit));
            },
            _ => {},
        }
    }
}

/// Ordering, to the end. Once a running drain has been shut down, the
/// batches it shipped, one after the other, are exactly the units that were
/// submitted, in the order of submission, and nothing is left behind.
pub proof fn lemma_ordering_at_shutdown(state: DrainState, inputs: Seq<Input>)
    requires
        state.wf(),
        state.phase == Lifecycle::Running,
        no_shutdown(inputs),
    ensures
        run(state, inputs.push(Input::Shutdown)).1.flatten() == state.inner.buffer + units_of(
            inputs,
        ),
        run(state, inputs.push(Input::Shutdown)).0.inner.buffer.len() == 0,
        run(state, inputs.push(Input::Shutdown)).0.phase != Lifecycle::Running,
{
    broadcast use Seq::lemma_flatten_push;

    lemma_ordering(state, inputs);
    lemma_run_wf(state, inputs);
    assert(inputs.push(Input::Shutdown).drop_last() =~= inputs);
}

/// A drain with an empty buffer that takes in fewer units than its capacity
/// ships nothing and buffers them all, in order.
proof fn lemma_filling(state: DrainState, units: Seq<Seq<u8>>)
    requires
        state.wf(),
        state.phase == Lifecycle::Running,
        state.inner.buffer.len() == 0,
        units.len() < state.inner.capacity,
    ensures
        run(state, submissions(units)) == (
            DrainState { inner: state.inner.with_buffer(units), ..state },
            Seq::<Seq<Seq<u8>>>::empty(),
        ),
    decreases units.len(),
{
    let inputs = submissions(units);
    if units.len() == 0 {
        assert(state.inner.with_buffer(units) == state.inner) by {
            assert(units =~= state.inner.buffer);
        }
    } else {
        assert(inputs.drop_last() =~= submissions(units.drop_last()));
        lemma_filling(state, units.drop_last());
        assert(units.drop_last().push(units.last()) =~= units);
    }
}

/// Capacity trigger. A running drain with an empty buffer and capacity `k`
/// that takes in exactly `k` units, and no flush signal, ships exactly one
/// batch, which holds exactly those `k` units in order; afterwards its
/// buffer is empty again.
pub proof fn lemma_capacity_trigger(state: DrainState, units: Seq<Seq<u8>>)
    requires
        state.wf(),
        state.phase == Lifecycle::Running,
        state.inner.buffer.len() == 0,
        units.len() == state.inner.capacity,
    ensures
        run(state, submissions(units)).1 == seq![units],
        run(state, submissions(units)).0.inner.buffer.len() == 0,
        run(state, submissions(units)).0 == state,
{
    let inputs = submissions(units);
    assert(inputs.drop_last() =~= submissions(units.drop_last()));
    lemma_filling(state, units.drop_last());
    assert(units.drop_last().push(units.last()) =~= units);
    assert(run(state, inputs).0.inner.buffer =~= state.inner.buffer);
}

/// Time trigger, empty buffer. As long as no record arrives, a drain with
/// nothing buffered ships nothing, however often the timer looks at it and
/// whatever the time.
pub proof fn lemma_idle_ships_nothing(state: DrainState, inputs: Seq<Input>)
    requires
        state.wf(),
        state.inner.buffer.len() == 0,
        only_flushes(inputs),
    ensures
        run(state, inputs).1.len() == 0,
        run(state, inputs).0.inner.buffer.len() == 0,
    decreases inputs.len(),
{
    if inputs.len() > 0 {
        lemma_idle_ships_nothing(state, inputs.drop_last());
    }
}

/// Time trigger, partial buffer. Once the flush interval has passed, the
/// timer's look at a running drain ships what is buffered, all of it and
/// nothing else, however far from full the buffer is; and the interval
/// starts anew.
pub proof fn lemma_time_trigger(state: DrainState, now: nat)
    requires
        state.wf(),
        state.phase == Lifecycle::Running,
        state.inner.buffer.len() > 0,
        time_trigger(state.last_flush, state.interval, now),
    ensures
        state.tick(now).1 == Some(state.inner.buffer),
        state.tick(now).0.inner.buffer.len() == 0,
        state.tick(now).0.last_flush == now,
        state.tick(now).0.phase == Lifecycle::Running,
{
}

/// Before the flush interval has passed, the timer's look changes nothing.
pub proof fn lemma_time_trigger_waits(state: DrainState, now: nat)
    requires
        !time_trigger(state.last_flush, state.interval, now),
    ensures
        state.tick(now) == (state, None::<Seq<Seq<u8>>>),
{
}

/// Idempotent shutdown. The first request to shut down ships the final
/// batch, which is all that is buffered, if the drain is running and holds
/// anything; a second request ships nothing and changes nothing.
pub proof fn lemma_shutdown_idempotent(state: DrainState)
    requires
        state.wf(),
    ensures
        ({
            let (once, first) = state.shutdown();
            let (twice, second) = once.shutdown();
            &&& first is Some <==> state.phase == Lifecycle::Running && state.inner.buffer.len()
                > 0
            &&& first is Some ==> first == Some(state.inner.buffer)
            &&& once.wf()
            &&& once.phase != Lifecycle::Running
            &&& second is None
            &&& twice == once
        }),
{
}

/// Shutdown is final. A drain that is past running never runs again, and
/// whatever comes in, it ships nothing more; a drain that has stopped stays
/// stopped.
pub proof fn lemma_shutdown_final(state: DrainState, inputs: Seq<Input>)
    requires
        state.wf(),
        state.phase != Lifecycle::Running,
    ensures
        run(state, inputs).0.phase != Lifecycle::Running,
        run(state, inputs).1.len() == 0,
        state.phase == Lifecycle::Stopped ==> run(state, inputs).0.phase == Lifecycle::Stopped,
    decreases inputs.len(),
{
    if inputs.len() > 0 {
        lemma_shutdown_final(state, inputs.drop_last());
    }
}

/// Failure isolation. A delivery that failed leaves the drain as a
/// delivery that succeeded would, but for the count of failures: the buffer
/// is the same, so nothing of the failed batch is queued again, the drain
/// takes in the next input in the same way, and it ships the same batch in
/// answer to it.
pub proof fn lemma_failure_isolation(state: DrainState, now: nat, next: Input)
    requires
        state.wf(),
    ensures
        ({
            let failed = state.complete(false, now);
            let delivered = state.complete(true, now);
            &&& failed.wf()
            &&& failed.inner == state.inner
            &&& failed == DrainState { failures: bump(state.failures), ..delivered }
            &&& failed.step(next).1 == delivered.step(next).1
            &&& failed.step(next).0 == DrainState {
                failures: failed.step(next).0.failures,
                ..delivered.step(next).0
            }
        }),
{
}

} // verus!
