//! What the pipeline guarantees, proved of every run of the model.

use crate::batch::{batch_limit, completes, gathered, lemma_gathered, lemma_one_more};
use crate::dispatcher::shutdown_effect;
use crate::model::{
    consistent, delivered, in_hand, lemma_run_consistent, lemma_step_consistent, next, run,
    worker_run, worker_step, Pipeline, Step,
};
use crate::protocol::OutcomeView;
use crate::publication::PublicationView;
use crate::worker::Phase;
use vstd::prelude::*;

verus! {

/// Within one iteration nothing is reordered, dropped or added. The batch
/// holds what the receives handed out, in that order, and never more than
/// the sample allows; it falls short of that only where the last receive
/// found the queue closed.
pub proof fn batch_is_its_arrivals(depth: nat, arrivals: Seq<Option<PublicationView>>)
    requires
        completes(depth, arrivals),
    ensures
        ({
            let batch = gathered(depth, arrivals);
            &&& batch.items.len() <= batch_limit(depth)
            &&& depth == 0 ==> batch.items.len() <= 1
            &&& depth > 0 ==> batch.items.len() <= depth
            &&& batch.closed <==> arrivals.len() > 0 && arrivals.last() is None
            &&& !batch.closed ==> batch.items.len() == batch_limit(depth)
            &&& arrivals == batch.items.map_values(|p: PublicationView| Some(p)) + (if batch.closed {
                seq![None]
            } else {
                Seq::empty()
            })
        }),
{
    lemma_gathered(depth, arrivals);
    let batch = gathered(depth, arrivals);
    let written = batch.items.map_values(|p: PublicationView| Some(p)) + (if batch.closed {
        seq![None::<PublicationView>]
    } else {
        Seq::empty()
    });
    assert(arrivals =~= written);
}

/// First in, first out. At every point of every run, what the broker client
/// has been given, read batch after batch, is the beginning of what `send`
/// accepted, in the order of acceptance: batches group neighbours and never
/// reorder, skip or repeat.
pub proof fn fifo_preserved(steps: Seq<Step>)
    ensures
        delivered(run(steps).presented).is_prefix_of(run(steps).accepted),
{
    lemma_run_consistent(steps);
    let s = run(steps);
    let given = delivered(s.presented);
    assert(given + in_hand(s) + s.queue =~= given + (in_hand(s) + s.queue));
    assert(given =~= s.accepted.subrange(0, given.len() as int));
}

/// Nothing is lost or repeated on the way. At every point of every run, the
/// publications that `send` accepted are those already given to the broker
/// client, then those of the batch under way, then those still queued.
pub proof fn accepted_is_conserved(steps: Seq<Step>)
    ensures
        delivered(run(steps).presented) + in_hand(run(steps)) + run(steps).queue == run(
            steps,
        ).accepted,
{
    lemma_run_consistent(steps);
}

/// The batch bound. No batch is empty, and none holds more items than the
/// queue held when its iteration sampled it; on an empty sample the batch is
/// the one item that the worker waited for.
pub proof fn batch_bounded(steps: Seq<Step>, k: int)
    requires
        0 <= k < run(steps).presented.len(),
    ensures
        ({
            let iteration = run(steps).presented[k];
            &&& iteration.sampled == 0 ==> iteration.batch().items.len() == 1
            &&& iteration.sampled > 0 ==> 1 <= iteration.batch().items.len() <= iteration.sampled
        }),
{
    lemma_run_consistent(steps);
    let iteration = run(steps).presented[k];
    batch_is_its_arrivals(iteration.sampled, iteration.arrivals);
}

/// Every batch that reaches the broker client is the batch of one whole
/// iteration, as [`Worker::drain`](crate::worker::Worker::drain) makes it.
pub proof fn presented_batches_are_whole(steps: Seq<Step>, k: int)
    requires
        0 <= k < run(steps).presented.len(),
    ensures
        completes(run(steps).presented[k].sampled, run(steps).presented[k].arrivals),
{
    lemma_run_consistent(steps);
}

/// The worker stops only on a queue that is closed and drained, with no
/// batch under way.
pub proof fn stops_only_when_drained(steps: Seq<Step>)
    requires
        run(steps).phase is Stopped,
    ensures
        !run(steps).open,
        run(steps).queue.len() == 0,
        run(steps).current is None,
{
    lemma_run_consistent(steps);
}

/// No loss at a graceful shutdown. Once the worker has stopped, every
/// publication that `send` accepted has been given to the broker client
/// exactly once, in order, the last one of a batch that closure cut short
/// included.
pub proof fn nothing_lost_at_shutdown(steps: Seq<Step>)
    requires
        run(steps).phase is Stopped,
    ensures
        delivered(run(steps).presented) == run(steps).accepted,
{
    lemma_run_consistent(steps);
    let s = run(steps);
    assert(delivered(s.presented) + in_hand(s) + s.queue =~= delivered(s.presented));
}

/// How far the worker is from its next change of phase.
pub open spec fn rank(s: Pipeline) -> nat {
    match s.current {
        Some(_) => 1,
        None => match s.phase {
            Phase::Dispatching => 3,
            Phase::Waiting => 2,
            Phase::Stopped => 0,
        },
    }
}

/// How many receives the batch under way can still take.
pub open spec fn slack(s: Pipeline) -> nat {
    match s.current {
        Some(iteration) => {
            let batch = iteration.batch();
            (batch.limit - batch.items.len() + (if batch.closed {
                0int
            } else {
                1int
            })) as nat
        },
        None => 0,
    }
}

/// Shutdown drains. Once the handle is closed, the worker left to itself
/// stops after finitely many steps, however its dispatches end, and by then
/// the broker client has been given every publication that `send` accepted,
/// in order and once. The number of steps is returned.
pub proof fn shutdown_drains(s: Pipeline, outcome: OutcomeView) -> (n: nat)
    requires
        consistent(s),
        !s.open,
    ensures
        worker_run(s, outcome, n).phase is Stopped,
        delivered(worker_run(s, outcome, n).presented) == s.accepted,
    decreases s.queue.len() + in_hand(s).len(), rank(s), slack(s),
{
    if s.phase is Stopped {
        assert(delivered(s.presented) + in_hand(s) + s.queue =~= delivered(s.presented));
        0
    } else {
        let step = worker_step(s, outcome);
        let t = next(s, step);
        lemma_step_consistent(s, step);
        if let Some(iteration) = s.current {
            lemma_gathered(iteration.sampled, iteration.arrivals);
            if !iteration.batch().done() {
                if s.queue.len() > 0 {
                    lemma_one_more(iteration.sampled, iteration.arrivals, Some(s.queue[0]));
                } else {
                    lemma_one_more(iteration.sampled, iteration.arrivals, None);
                }
            }
        }
        let m = shutdown_drains(t, outcome);
        (m + 1) as nat
    }
}

/// A batch that closure cuts short is still handed over: when the worker
/// presents a finished batch with items in it, that batch is the next one
/// given to the broker client, whether or not the queue was found closed.
pub proof fn closing_batch_is_presented(s: Pipeline)
    requires
        consistent(s),
        s.current matches Some(iteration) && iteration.batch().done()
            && iteration.batch().items.len() > 0,
    ensures
        next(s, Step::Present).presented == s.presented.push(s.current->Some_0),
        next(s, Step::Present).phase is Dispatching,
{
}

/// Failure isolation. How a dispatch ended changes nothing in the pipeline:
/// after any outcome the worker is ready again, and its next iteration
/// begins as it would have after a success.
pub proof fn failure_isolated(s: Pipeline, failed: OutcomeView, succeeded: OutcomeView)
    requires
        consistent(s),
        s.phase is Dispatching,
    ensures
        next(s, Step::Settle(failed)) == next(s, Step::Settle(succeeded)),
        next(s, Step::Settle(failed)).phase is Waiting,
        next(next(s, Step::Settle(failed)), Step::Sample).current is Some,
{
}

/// The steps `a` and `b` are the same but for how a dispatch ended.
pub open spec fn same_but_outcome(a: Step, b: Step) -> bool {
    match (a, b) {
        (Step::Settle(_), Step::Settle(_)) => true,
        _ => a == b,
    }
}

/// Failure isolation, of whole runs. Two runs that differ only in how their
/// dispatches ended leave the pipeline in the same state: no failure makes
/// the worker skip, repeat or hold back anything.
pub proof fn outcomes_change_nothing(steps: Seq<Step>, others: Seq<Step>)
    requires
        steps.len() == others.len(),
        forall|i: int| 0 <= i < steps.len() ==> same_but_outcome(#[trigger] steps[i], others[i]),
    ensures
        run(steps) == run(others),
    decreases steps.len(),
{
    if steps.len() > 0 {
        assert(same_but_outcome(steps[steps.len() - 1], others[steps.len() - 1]));
        outcomes_change_nothing(steps.drop_last(), others.drop_last());
    }
}

/// Shutdown is idempotent. A second shutdown leaves the pipeline as the
/// first left it, and only the first is told to wait for the worker.
pub proof fn shutdown_idempotent(s: Pipeline)
    ensures
        next(next(s, Step::Shutdown), Step::Shutdown) == next(s, Step::Shutdown),
        !next(s, Step::Shutdown).open,
        shutdown_effect(shutdown_effect(s.open).0) == (false, false),
{
}

/// After shutdown nothing more is accepted: a send on a closed handle
/// leaves the pipeline as it is.
pub proof fn closed_handle_accepts_nothing(s: Pipeline, p: PublicationView)
    requires
        !s.open,
    ensures
        next(s, Step::Send(p)) == s,
{
}

} // verus!
