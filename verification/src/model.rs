//! The pipeline as a whole, as a state machine over mathematical values.
//!
//! The executable parts each see one end of the queue. What they guarantee
//! together (order, bounded batches, nothing lost at shutdown) holds of the
//! runs of the whole, so it is stated here over a model in which the queue
//! is a sequence: `send` appends to it while the handle is open, and the
//! worker takes from its front. The worker's steps are those of
//! [`Worker::drain`](crate::worker::Worker::drain): an iteration is the depth
//! that it sampled and the outcomes of its receives, and its batch is what
//! [`gathered`] makes of them.
//!
//! Two things the model takes from outside and does not prove: that the
//! channel hands messages out in the order in which it took them in, and
//! that the worker keeps its end for as long as it runs, so that an open
//! handle is never refused.

use crate::batch::{completes, gathered, lemma_gathered, lemma_one_more, BatchView};
use crate::dispatcher::shutdown_effect;
use crate::protocol::OutcomeView;
use crate::publication::PublicationView;
use crate::worker::{phase_after_batch, Phase};
use vstd::prelude::*;

verus! {

/// One iteration of the worker: the depth that it sampled and what its
/// receives have handed out so far.
pub struct Iteration {
    pub sampled: nat,
    pub arrivals: Seq<Option<PublicationView>>,
}

impl Iteration {
    /// The batch of the iteration.
    pub open spec fn batch(self) -> BatchView {
        gathered(self.sampled, self.arrivals)
    }

    /// The iteration after one more receive.
    pub open spec fn receive(self, arrival: Option<PublicationView>) -> Iteration {
        Iteration { arrivals: self.arrivals.push(arrival), ..self }
    }
}

/// The state of the pipeline.
pub struct Pipeline {
    /// The dispatcher handle still holds the producer end.
    pub open: bool,
    /// Every publication that `send` accepted, in the order of acceptance.
    pub accepted: Seq<PublicationView>,
    /// The publications in the queue, oldest first.
    pub queue: Seq<PublicationView>,
    /// Where the worker stands.
    pub phase: Phase,
    /// The iteration under way, if one is.
    pub current: Option<Iteration>,
    /// The iterations whose batches were handed to the broker client, oldest
    /// first.
    pub presented: Seq<Iteration>,
}

/// What can happen to the pipeline.
pub enum Step {
    /// A caller sends a publication.
    Send(PublicationView),
    /// A caller shuts the dispatcher down.
    Shutdown,
    /// The worker begins an iteration by sampling the queue's depth.
    Sample,
    /// The worker receives: the oldest publication, or the news that the
    /// queue is closed and empty.
    Receive,
    /// The worker hands its finished batch over.
    Present,
    /// The remote call for the batch comes back.
    Settle(OutcomeView),
}

/// The pipeline as construction leaves it.
pub open spec fn initial() -> Pipeline {
    Pipeline {
        open: true,
        accepted: Seq::empty(),
        queue: Seq::empty(),
        phase: Phase::Waiting,
        current: None,
        presented: Seq::empty(),
    }
}

/// The pipeline after `step`. A step that cannot happen in `s` (a receive
/// that would block, a settle with nothing out for dispatch) leaves `s` as
/// it is; a send on a closed handle is refused and leaves it too.
pub open spec fn next(s: Pipeline, step: Step) -> Pipeline {
    match step {
        Step::Send(p) => if s.open {
            Pipeline { accepted: s.accepted.push(p), queue: s.queue.push(p), ..s }
        } else {
            s
        },
        Step::Shutdown => Pipeline { open: shutdown_effect(s.open).0, ..s },
        Step::Sample => if s.phase is Waiting && s.current is None {
            Pipeline {
                current: Some(Iteration { sampled: s.queue.len(), arrivals: Seq::empty() }),
                ..s
            }
        } else {
            s
        },
        Step::Receive => match s.current {
            Some(iteration) => if iteration.batch().done() {
                s
            } else if s.queue.len() > 0 {
                Pipeline {
                    queue: s.queue.skip(1),
                    current: Some(iteration.receive(Some(s.queue[0]))),
                    ..s
                }
            } else if !s.open {
                Pipeline { current: Some(iteration.receive(None)), ..s }
            } else {
                s
            },
            None => s,
        },
        Step::Present => match s.current {
            Some(iteration) => if iteration.batch().done() {
                Pipeline {
                    phase: phase_after_batch(iteration.batch().items.len()),
                    current: None,
                    presented: if iteration.batch().items.len() > 0 {
                        s.presented.push(iteration)
                    } else {
                        s.presented
                    },
                    ..s
                }
            } else {
                s
            },
            None => s,
        },
        Step::Settle(outcome) => if s.phase is Dispatching {
            Pipeline { phase: Phase::Waiting, ..s }
        } else {
            s
        },
    }
}

/// The pipeline after `steps`, from its construction.
pub open spec fn run(steps: Seq<Step>) -> Pipeline
    decreases steps.len(),
{
    if steps.len() == 0 {
        initial()
    } else {
        next(run(steps.drop_last()), steps.last())
    }
}

/// The step that the worker takes next, where `outcome` is how a dispatch
/// that is out comes back. A stopped worker takes none; it is given the
/// step that leaves it stopped.
pub open spec fn worker_step(s: Pipeline, outcome: OutcomeView) -> Step {
    match s.current {
        Some(iteration) => if iteration.batch().done() {
            Step::Present
        } else {
            Step::Receive
        },
        None => if s.phase is Dispatching {
            Step::Settle(outcome)
        } else {
            Step::Sample
        },
    }
}

/// The pipeline after `n` steps of the worker alone, every dispatch coming
/// back as `outcome`.
pub open spec fn worker_run(s: Pipeline, outcome: OutcomeView, n: nat) -> Pipeline
    decreases n,
{
    if n == 0 {
        s
    } else {
        worker_run(next(s, worker_step(s, outcome)), outcome, (n - 1) as nat)
    }
}

/// The publications that the broker client was given, batch after batch.
pub open spec fn delivered(presented: Seq<Iteration>) -> Seq<PublicationView>
    decreases presented.len(),
{
    if presented.len() == 0 {
        Seq::empty()
    } else {
        delivered(presented.drop_last()) + presented.last().batch().items
    }
}

/// The items of the batch under way.
pub open spec fn in_hand(s: Pipeline) -> Seq<PublicationView> {
    match s.current {
        Some(iteration) => iteration.batch().items,
        None => Seq::empty(),
    }
}

/// What holds of the pipeline in every state that a run reaches.
pub open spec fn consistent(s: Pipeline) -> bool {
    &&& delivered(s.presented) + in_hand(s) + s.queue == s.accepted
    &&& s.current matches Some(iteration) ==> {
        &&& s.phase is Waiting
        &&& forall|n: int|
            0 <= n < iteration.arrivals.len() ==> !gathered(
                iteration.sampled,
                #[trigger] iteration.arrivals.take(n),
            ).done()
        &&& iteration.batch().closed ==> !s.open && s.queue.len() == 0
    }
    &&& s.phase is Stopped ==> !s.open && s.queue.len() == 0
    &&& forall|k: int|
        0 <= k < s.presented.len() ==> completes(
            (#[trigger] s.presented[k]).sampled,
            s.presented[k].arrivals,
        ) && s.presented[k].batch().items.len() > 0
}

/// A step keeps the pipeline consistent.
pub proof fn lemma_step_consistent(s: Pipeline, step: Step)
    requires
        consistent(s),
    ensures
        consistent(next(s, step)),
{
    let t = next(s, step);
    let given = delivered(s.presented);
    match step {
        Step::Send(p) => {
            if s.open {
                assert(given + in_hand(s) + s.queue.push(p) =~= (given + in_hand(s)
                    + s.queue).push(p));
            }
        },
        Step::Shutdown => {},
        Step::Sample => {
            if s.phase is Waiting && s.current is None {
                assert(in_hand(t) =~= in_hand(s));
            }
        },
        Step::Receive => {
            if let Some(iteration) = s.current {
                if !iteration.batch().done() {
                    if s.queue.len() > 0 {
                        lemma_one_more(iteration.sampled, iteration.arrivals, Some(s.queue[0]));
                        assert(given + in_hand(t) + t.queue =~= given + in_hand(s) + s.queue);
                    } else if !s.open {
                        lemma_one_more(iteration.sampled, iteration.arrivals, None);
                    }
                }
            }
        },
        Step::Present => {
            if let Some(iteration) = s.current {
                if iteration.batch().done() {
                    lemma_gathered(iteration.sampled, iteration.arrivals);
                    if iteration.batch().items.len() > 0 {
                        assert(t.presented.drop_last() =~= s.presented);
                        assert(delivered(t.presented) == given + iteration.batch().items);
                    }
                    assert(delivered(t.presented) + in_hand(t) + t.queue =~= given + in_hand(s)
                        + s.queue);
                }
            }
        },
        Step::Settle(outcome) => {},
    }
}

/// Every state that a run reaches is consistent.
pub proof fn lemma_run_consistent(steps: Seq<Step>)
    ensures
        consistent(run(steps)),
    decreases steps.len(),
{
    if steps.len() == 0 {
        assert(delivered(initial().presented) + in_hand(initial()) + initial().queue
            =~= initial().accepted);
    } else {
        lemma_run_consistent(steps.drop_last());
        lemma_step_consistent(run(steps.drop_last()), steps.last());
    }
}

} // verus!
