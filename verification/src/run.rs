//! The run of a job: what its steps do, taken together, from its creation
//! until all ticks are played.

use vstd::prelude::*;
use crate::event::HubEventView;
use crate::job::{
    advance_action, advanced, delay_ms, highlight_at, resolved, start_event,
    tick_event, valid_job, ActionView, Phase, SpinJobView,
};
use crate::outside::is_pick_of;

verus! {

/// The job after `steps` steps.
pub open spec fn state_after(job: SpinJobView, steps: nat) -> SpinJobView
    decreases steps,
{
    if steps == 0 {
        job
    } else {
        advanced(state_after(job, (steps - 1) as nat))
    }
}

/// What step number `step` asks of the caller; the first step has number 0.
pub open spec fn action_at(job: SpinJobView, step: nat) -> ActionView {
    advance_action(state_after(job, step))
}

/// The tick events that the first `steps` steps publish, in the order in
/// which they are published.
pub open spec fn ticks_before(job: SpinJobView, steps: nat) -> Seq<HubEventView>
    decreases steps,
{
    if steps == 0 {
        Seq::<HubEventView>::empty()
    } else {
        let earlier = ticks_before(job, (steps - 1) as nat);
        match action_at(job, (steps - 1) as nat) {
            ActionView::Publish(event) => if event is SpinTick {
                earlier.push(event)
            } else {
                earlier
            },
            _ => earlier,
        }
    }
}

/// Number of steps from the creation of a job until its ticks are played:
/// the announcement, and a wait and a tick for every tick.
pub open spec fn run_length(job: SpinJobView) -> nat {
    2 * job.total_ticks + 1
}

/// Where a job stands after `steps` steps of its run.
pub open spec fn scheduled_state(job: SpinJobView, steps: nat) -> SpinJobView {
    if steps == 0 {
        job
    } else {
        SpinJobView {
            cursor: ((steps - 1) / 2) as nat,
            rested: (steps - 1) % 2 == 1,
            phase: if steps == run_length(job) {
                Phase::Finalizing
            } else {
                Phase::Ticking
            },
            ..job
        }
    }
}

/// A step keeps the invariant of a job.
pub proof fn lemma_step_keeps_valid(job: SpinJobView)
    requires
        valid_job(job),
    ensures
        valid_job(advanced(job)),
{
}

/// The state of a new job after any number of steps of its run.
pub proof fn lemma_state_in_run(job: SpinJobView, steps: nat)
    requires
        valid_job(job),
        job.phase == Phase::Created,
        steps <= run_length(job),
    ensures
        state_after(job, steps) == scheduled_state(job, steps),
        valid_job(state_after(job, steps)),
    decreases steps,
{
    if steps > 0 {
        lemma_state_in_run(job, (steps - 1) as nat);
    }
}

/// The script of a run. A new job is announced first; then, for every tick
/// in turn, it asks for the delay of that tick and publishes the tick; it
/// takes `run_length` steps to play all ticks, no fewer, and after them
/// only the closing step is left.
pub proof fn lemma_run_follows_script(job: SpinJobView)
    requires
        valid_job(job),
        job.phase == Phase::Created,
    ensures
        action_at(job, 0) == ActionView::Publish(start_event(job)),
        forall|i: nat|
            i < job.total_ticks ==> #[trigger] action_at(job, 2 * i + 1) == ActionView::Sleep(
                delay_ms(i),
            ),
        forall|i: nat|
            i < job.total_ticks ==> #[trigger] action_at(job, 2 * i + 2) == ActionView::Publish(
                tick_event(job, i),
            ),
        forall|steps: nat|
            steps < run_length(job) ==> (#[trigger] state_after(job, steps)).phase
                != Phase::Finalizing,
        state_after(job, run_length(job)) == (SpinJobView {
            cursor: job.total_ticks,
            phase: Phase::Finalizing,
            ..job
        }),
        action_at(job, run_length(job)) == ActionView::Halt,
{
    assert forall|i: nat| i < job.total_ticks implies #[trigger] action_at(job, 2 * i + 1)
        == ActionView::Sleep(delay_ms(i)) by {
        lemma_state_in_run(job, 2 * i + 1);
    }
    assert forall|i: nat| i < job.total_ticks implies #[trigger] action_at(job, 2 * i + 2)
        == ActionView::Publish(tick_event(job, i)) by {
        lemma_state_in_run(job, 2 * i + 2);
    }
    assert forall|steps: nat| steps < run_length(job) implies (#[trigger] state_after(
        job,
        steps,
    )).phase != Phase::Finalizing by {
        lemma_state_in_run(job, steps);
    }
    lemma_state_in_run(job, run_length(job));
}

/// The ticks that the first `steps` steps of a run have published.
proof fn lemma_ticks_in_run(job: SpinJobView, steps: nat)
    requires
        valid_job(job),
        job.phase == Phase::Created,
        steps <= run_length(job),
    ensures
        ticks_before(job, steps) == Seq::new(
            (if steps == 0 {
                0
            } else {
                (steps - 1) / 2
            }) as nat,
            |i: int| tick_event(job, i as nat),
        ),
    decreases steps,
{
    let count = (if steps == 0 {
        0
    } else {
        (steps - 1) / 2
    }) as nat;
    let expected = Seq::new(count, |i: int| tick_event(job, i as nat));
    if steps == 0 {
        assert(ticks_before(job, steps) =~= expected);
    } else {
        let before = (steps - 1) as nat;
        lemma_ticks_in_run(job, before);
        lemma_state_in_run(job, before);
        assert(ticks_before(job, steps) =~= expected);
    }
}

/// A job publishes as many ticks as its tick count says, each once and in
/// rising order: the tick at place `i` has number `i` and highlights the
/// option `i mod n`, where `n` is the number of options.
pub proof fn lemma_run_publishes_every_tick_in_order(job: SpinJobView)
    requires
        valid_job(job),
        job.phase == Phase::Created,
    ensures
        ticks_before(job, run_length(job)).len() == job.total_ticks,
        forall|i: int|
            0 <= i < job.total_ticks ==> #[trigger] ticks_before(job, run_length(job))[i]
                == tick_event(job, i as nat),
        forall|i: int|
            0 <= i < job.total_ticks ==> {
                let event = #[trigger] ticks_before(job, run_length(job))[i];
                &&& event is SpinTick
                &&& event->tick == i
                &&& event->highlight_index == highlight_at(i as nat, job.options.len())
                &&& event->highlight_index < job.options.len()
                &&& event->current_option == job.options[event->highlight_index as int]
            },
        forall|i: int, j: int|
            0 <= i < j < job.total_ticks ==> (#[trigger] ticks_before(
                job,
                run_length(job),
            )[i])->tick < (#[trigger] ticks_before(job, run_length(job))[j])->tick,
{
    lemma_ticks_in_run(job, run_length(job));
}

/// Once its ticks are played, a job publishes no further tick: steps that
/// need nothing from outside leave it where it is, however many are taken.
pub proof fn lemma_no_tick_after_run(job: SpinJobView, steps: nat)
    requires
        valid_job(job),
        job.phase == Phase::Created,
        steps >= run_length(job),
    ensures
        state_after(job, steps) == state_after(job, run_length(job)),
        ticks_before(job, steps) == ticks_before(job, run_length(job)),
        ticks_before(job, steps).len() == job.total_ticks,
    decreases steps,
{
    lemma_state_in_run(job, run_length(job));
    lemma_run_publishes_every_tick_in_order(job);
    if steps > run_length(job) {
        lemma_no_tick_after_run(job, (steps - 1) as nat);
    }
}

/// The result of a job is one of its options, whichever of them is drawn.
pub proof fn lemma_result_is_an_option(job: SpinJobView, picked: Option<Seq<char>>)
    requires
        valid_job(job),
        is_pick_of(job.options, picked),
    ensures
        job.options.contains(resolved(picked)),
{
}

} // verus!
