//! The batch worker: the single consumer of the queue.
//!
//! One iteration waits for work, accumulates a batch and hands it out for
//! dispatch; the next begins when the dispatch has come back, however it
//! ended. The worker stops when it finds the queue closed with nothing left.
//! The program that embeds the dispatcher runs the iterations and makes the
//! remote call between [`Worker::next`] and [`Worker::complete`].

use crate::batch::{arrival_view, batch_limit, completes, gathered, lemma_one_more, Batch};
use crate::client::CentrifugoClient;
use crate::error::{Error, ErrorView};
use crate::protocol::{commands_for, verdict, BatchRequest, Outcome};
use crate::publication::{Publication, PublicationView};
use crate::queue::{depth, pull};
use crossbeam_channel::Receiver;
use vstd::prelude::*;

verus! {

/// Where the worker stands between two calls.
#[derive(Clone, Copy, Debug, PartialEq, Eq)]
pub enum Phase {
    /// Ready to begin an iteration.
    Waiting,
    /// A batch is out for dispatch.
    Dispatching,
    /// The queue was closed and drained. Nothing follows.
    Stopped,
}

/// What the worker asks of the program that runs it.
#[derive(Debug)]
pub enum Action {
    /// Make one remote call with this request, then report how it ended.
    Dispatch(BatchRequest),
    /// The worker has stopped.
    Stop,
}

/// The phase after a finished batch of `items` is handed over: an empty one
/// can only come from a closed queue, and ends the worker.
pub open spec fn phase_after_batch(items: nat) -> Phase {
    if items == 0 {
        Phase::Stopped
    } else {
        Phase::Dispatching
    }
}

/// What one iteration comes to, given the depth that it sampled and the
/// outcomes of its receives: a batch with items goes out as one request, an
/// empty one stops the worker.
pub open spec fn iteration(
    sampled: nat,
    arrivals: Seq<Option<PublicationView>>,
    action: Action,
    phase: Phase,
) -> bool {
    let items = gathered(sampled, arrivals).items;
    &&& completes(sampled, arrivals)
    &&& phase == phase_after_batch(items.len())
    &&& match action {
        Action::Dispatch(request) => items.len() > 0 && request@ == commands_for(items),
        Action::Stop => items.len() == 0,
    }
}

/// The diagnostic that an outcome leaves, if any.
pub open spec fn diagnostic_view(diagnostic: Option<Error>) -> Option<ErrorView> {
    match diagnostic {
        Some(e) => Some(e@),
        None => None,
    }
}

/// The consumer of the queue, with the client that its batches go to.
pub struct Worker {
    receiver: Receiver<Publication>,
    client: CentrifugoClient,
    phase: Phase,
}

impl Worker {
    /// Where the worker stands.
    pub closed spec fn phase(&self) -> Phase {
        self.phase
    }

    /// The client that the batches go to.
    pub closed spec fn client_view(&self) -> CentrifugoClient {
        self.client
    }

    /// A worker that waits on `receiver` and dispatches through `client`.
    pub fn new(receiver: Receiver<Publication>, client: CentrifugoClient) -> (worker: Worker)
        ensures
            worker.phase() is Waiting,
            worker.client_view() == client,
    {
        Worker { receiver, client, phase: Phase::Waiting }
    }

    /// Where the worker stands.
    pub fn current_phase(&self) -> (phase: Phase)
        ensures
            phase == self.phase(),
    {
        self.phase
    }

    /// The client that the batches go to.
    pub fn client(&self) -> (client: &CentrifugoClient)
        ensures
            *client == self.client_view(),
    {
        &self.client
    }

    /// One iteration up to the dispatch: samples the queue's depth and
    /// drains accordingly. Blocks while the queue is empty and open.
    pub fn next(&mut self) -> (action: Action)
        requires
            old(self).phase() is Waiting,
        ensures
            final(self).client_view() == old(self).client_view(),
            exists|sampled: nat, arrivals: Seq<Option<PublicationView>>|
                iteration(sampled, arrivals, action, final(self).phase()),
    {
        let sampled = depth(&self.receiver);
        let action = self.drain(sampled);
        assert(exists|arrivals: Seq<Option<PublicationView>>|
            iteration(sampled as nat, arrivals, action, self.phase()));
        action
    }

    /// One iteration up to the dispatch, for a queue that held `sampled`
    /// items when it was sampled: receives until the batch is as long as the
    /// sample allows, one item on an empty sample, or until the queue is
    /// found closed. A batch cut short by closure is still handed out.
    ///
    /// Whatever the receives hand out, the action is what [`Worker::present`]
    /// makes of the batch that they come to.
    pub fn drain(&mut self, sampled: usize) -> (action: Action)
        requires
            old(self).phase() is Waiting,
        ensures
            final(self).client_view() == old(self).client_view(),
            exists|arrivals: Seq<Option<PublicationView>>|
                iteration(sampled as nat, arrivals, action, final(self).phase()),
            action matches Action::Dispatch(request) ==> 1 <= request@.len() <= batch_limit(
                sampled as nat,
            ),
    {
        let mut batch = Batch::begin(sampled);
        let mut done = batch.is_done();
        let ghost mut arrivals: Seq<Option<PublicationView>> = Seq::empty();
        while !done
            invariant
                done == batch@.done(),
                batch@.wf(),
                batch@.limit == batch_limit(sampled as nat),
                batch@ == gathered(sampled as nat, arrivals),
                forall|n: int|
                    0 <= n < arrivals.len() ==> !gathered(
                        sampled as nat,
                        #[trigger] arrivals.take(n),
                    ).done(),
            decreases batch@.limit - batch@.items.len() + (if batch@.closed { 0int } else { 1int }),
        {
            let arrival = pull(&self.receiver);
            proof {
                lemma_one_more(sampled as nat, arrivals, arrival_view(arrival));
                arrivals = arrivals.push(arrival_view(arrival));
            }
            done = batch.absorb(arrival);
        }
        let action = self.present(batch);
        assert(iteration(sampled as nat, arrivals, action, self.phase()));
        action
    }

    /// Hands a finished batch over. A batch with items goes out for dispatch
    /// as one request; an empty one means that the queue was closed with
    /// nothing pending, and stops the worker.
    pub fn present(&mut self, batch: Batch) -> (action: Action)
        requires
            old(self).phase() is Waiting,
            batch@.done(),
        ensures
            final(self).client_view() == old(self).client_view(),
            final(self).phase() == phase_after_batch(batch@.items.len()),
            match action {
                Action::Dispatch(request) => batch@.items.len() > 0 && request@ == commands_for(
                    batch@.items,
                ),
                Action::Stop => batch@.items.len() == 0 && batch@.closed,
            },
    {
        let items = batch.into_items();
        if items.len() == 0 {
            self.phase = Phase::Stopped;
            Action::Stop
        } else {
            let request = self.client.publish(items);
            self.phase = Phase::Dispatching;
            Action::Dispatch(request)
        }
    }

    /// Takes note of how the dispatch ended and makes the worker ready for
    /// its next iteration. A failure leaves a diagnostic and nothing else:
    /// the batch is not retried and the worker goes on.
    pub fn complete(&mut self, outcome: Outcome) -> (diagnostic: Option<Error>)
        requires
            old(self).phase() is Dispatching,
        ensures
            final(self).phase() is Waiting,
            final(self).client_view() == old(self).client_view(),
            diagnostic_view(diagnostic) == verdict(outcome@),
    {
        self.phase = Phase::Waiting;
        match self.client.settle(outcome) {
            Ok(()) => None,
            Err(e) => Some(e),
        }
    }
}

} // verus!
