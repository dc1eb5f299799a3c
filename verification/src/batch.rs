//! Snapshot-then-drain: how large a batch may grow, and how it grows.
//!
//! An iteration of the worker samples the queue's depth once and then
//! receives until the batch is as long as that sample allows, or until the
//! queue is found closed. On an empty sample it takes exactly one item.

use crate::protocol::MAX_BATCH;
use crate::publication::{views, Publication, PublicationView};
use vstd::prelude::*;

verus! {

/// The most items that a batch takes when the queue held `depth` at sampling:
/// as many as were seen, one where none was seen, and never more than one
/// request can number.
pub open spec fn batch_limit(depth: nat) -> nat {
    if depth == 0 {
        1
    } else if depth > MAX_BATCH {
        MAX_BATCH as nat
    } else {
        depth
    }
}

/// A batch under accumulation, as mathematical values.
pub struct BatchView {
    pub limit: nat,
    pub items: Seq<PublicationView>,
    pub closed: bool,
}

impl BatchView {
    /// The empty batch of an iteration that sampled `depth`.
    pub open spec fn begin(depth: nat) -> BatchView {
        BatchView { limit: batch_limit(depth), items: Seq::empty(), closed: false }
    }

    /// No further receive belongs to this batch.
    pub open spec fn done(self) -> bool {
        self.closed || self.items.len() >= self.limit
    }

    /// The batch after one receive: an item goes to its end, a closed queue
    /// ends it as it stands.
    pub open spec fn absorb(self, arrival: Option<PublicationView>) -> BatchView {
        match arrival {
            Some(item) => BatchView { items: self.items.push(item), ..self },
            None => BatchView { closed: true, ..self },
        }
    }

    /// The batch is within its limit, and its limit within what a request
    /// can carry.
    pub open spec fn wf(self) -> bool {
        1 <= self.limit <= MAX_BATCH && self.items.len() <= self.limit
    }
}

/// The batch that an iteration which sampled `depth` makes of the outcomes of
/// its receives, taken in order.
pub open spec fn gathered(depth: nat, arrivals: Seq<Option<PublicationView>>) -> BatchView
    decreases arrivals.len(),
{
    if arrivals.len() == 0 {
        BatchView::begin(depth)
    } else {
        gathered(depth, arrivals.drop_last()).absorb(arrivals.last())
    }
}

/// `arrivals` are the receives of one whole iteration that sampled `depth`:
/// the batch is done after the last of them, and not before.
pub open spec fn completes(depth: nat, arrivals: Seq<Option<PublicationView>>) -> bool {
    &&& gathered(depth, arrivals).done()
    &&& forall|n: int|
        0 <= n < arrivals.len() ==> !gathered(depth, #[trigger] arrivals.take(n)).done()
}

/// One more receive on an open batch: the batch absorbs what it hands out,
/// and the receives before it are still those of an unfinished batch.
pub proof fn lemma_one_more(
    depth: nat,
    arrivals: Seq<Option<PublicationView>>,
    arrival: Option<PublicationView>,
)
    requires
        !gathered(depth, arrivals).done(),
        forall|n: int|
            0 <= n < arrivals.len() ==> !gathered(depth, #[trigger] arrivals.take(n)).done(),
    ensures
        gathered(depth, arrivals.push(arrival)) == gathered(depth, arrivals).absorb(arrival),
        forall|n: int|
            0 <= n < arrivals.push(arrival).len() ==> !gathered(
                depth,
                #[trigger] arrivals.push(arrival).take(n),
            ).done(),
{
    let after = arrivals.push(arrival);
    assert(after.drop_last() =~= arrivals);
    assert forall|n: int| 0 <= n < after.len() implies !gathered(
        depth,
        #[trigger] after.take(n),
    ).done() by {
        if n < arrivals.len() {
            assert(after.take(n) =~= arrivals.take(n));
        } else {
            assert(after.take(n) =~= arrivals);
        }
    }
}

/// What receives make of a batch while none of them has finished it: every
/// receive but the last handed out an item, and the batch holds the items in
/// the order of their arrival.
pub proof fn lemma_gathered(depth: nat, arrivals: Seq<Option<PublicationView>>)
    requires
        forall|n: int|
            0 <= n < arrivals.len() ==> !gathered(depth, #[trigger] arrivals.take(n)).done(),
    ensures
        gathered(depth, arrivals).limit == batch_limit(depth),
        gathered(depth, arrivals).closed <==> arrivals.len() > 0 && arrivals.last() is None,
        gathered(depth, arrivals).items.len() + (if gathered(depth, arrivals).closed {
            1int
        } else {
            0int
        }) == arrivals.len(),
        gathered(depth, arrivals).items.len() <= batch_limit(depth),
        forall|i: int|
            0 <= i < gathered(depth, arrivals).items.len() ==> #[trigger] arrivals[i] == Some(
                gathered(depth, arrivals).items[i],
            ),
    decreases arrivals.len(),
{
    if arrivals.len() > 0 {
        let earlier = arrivals.drop_last();
        assert(earlier =~= arrivals.take(arrivals.len() - 1));
        assert forall|n: int| 0 <= n < earlier.len() implies !gathered(
            depth,
            #[trigger] earlier.take(n),
        ).done() by {
            assert(earlier.take(n) =~= arrivals.take(n));
        }
        lemma_gathered(depth, earlier);
        let batch = gathered(depth, arrivals);
        assert forall|i: int| 0 <= i < batch.items.len() implies #[trigger] arrivals[i] == Some(
            batch.items[i],
        ) by {
            if i < earlier.len() {
                assert(earlier[i] == arrivals[i]);
            }
        }
    }
}

/// The view of what a receive handed out.
pub open spec fn arrival_view(arrival: Option<Publication>) -> Option<PublicationView> {
    match arrival {
        Some(p) => Some(p@),
        None => None,
    }
}

/// A batch under accumulation.
pub struct Batch {
    limit: usize,
    items: Vec<Publication>,
    closed: bool,
}

impl View for Batch {
    type V = BatchView;

    closed spec fn view(&self) -> BatchView {
        BatchView { limit: self.limit as nat, items: views(self.items@), closed: self.closed }
    }
}

impl Batch {
    #[verifier::type_invariant]
    spec fn inv(self) -> bool {
        1 <= self.limit <= MAX_BATCH && self.items.len() <= self.limit
    }

    /// Starts the batch of an iteration that sampled `depth`.
    pub fn begin(depth: usize) -> (batch: Batch)
        ensures
            batch@ == BatchView::begin(depth as nat),
    {
        let limit = if depth == 0 {
            1
        } else if depth > MAX_BATCH {
            MAX_BATCH
        } else {
            depth
        };
        let batch = Batch { limit, items: Vec::new(), closed: false };
        assert(batch@.items =~= Seq::empty());
        batch
    }

    /// Whether the batch takes no further receive.
    pub fn is_done(&self) -> (done: bool)
        ensures
            done == self@.done(),
            self@.wf(),
    {
        proof {
            use_type_invariant(self);
        }
        self.closed || self.items.len() >= self.limit
    }

    /// Takes the outcome of one receive into the batch and says whether the
    /// batch is done.
    pub fn absorb(&mut self, arrival: Option<Publication>) -> (done: bool)
        requires
            !old(self)@.done(),
        ensures
            final(self)@ == old(self)@.absorb(arrival_view(arrival)),
            final(self)@.wf(),
            done == final(self)@.done(),
    {
        proof {
            use_type_invariant(&*self);
        }
        match arrival {
            Some(item) => {
                let mut items = Vec::new();
                core::mem::swap(&mut self.items, &mut items);
                items.push(item);
                self.items = items;
                assert(views(self.items@) =~= views(old(self).items@).push(item@));
            },
            None => {
                self.closed = true;
            },
        }
        self.closed || self.items.len() >= self.limit
    }

    /// The items of the batch, in the order of their arrival.
    pub fn into_items(self) -> (items: Vec<Publication>)
        ensures
            views(items@) == self@.items,
            self@.wf(),
    {
        proof {
            use_type_invariant(&self);
        }
        self.items
    }

    /// The most items that the batch takes.
    pub fn limit(&self) -> (limit: usize)
        ensures
            limit == self@.limit,
    {
        self.limit
    }

    /// The number of items taken so far.
    pub fn len(&self) -> (len: usize)
        ensures
            len == self@.items.len(),
    {
        self.items.len()
    }

    /// Whether the queue was found closed.
    pub fn is_closed(&self) -> (closed: bool)
        ensures
            closed == self@.closed,
    {
        self.closed
    }
}

} // verus!
