//! The dispatcher handle: it owns the producer end of the queue while it
//! accepts work, and gives it up exactly once, at shutdown.

use crate::client::{reads_as_uri, CentrifugoClient};
use crate::error::{Error, ErrorView};
use crate::publication::{Options, Publication};
use crate::queue::{open_queue, push};
use crate::worker::Worker;
use crossbeam_channel::Sender;
use vstd::prelude::*;

verus! {

/// What shutdown makes of a handle that is open or not: the handle is closed
/// afterwards, and the worker is to be awaited only by the call that closed
/// it.
pub open spec fn shutdown_effect(open: bool) -> (bool, bool) {
    (false, open)
}

/// What an enqueue comes to on an open handle, given whether the queue
/// refused the publication.
pub open spec fn enqueue_result(refused: bool) -> Result<(), ErrorView> {
    if refused {
        Err(ErrorView::Disconnected)
    } else {
        Ok(())
    }
}

/// The view of an enqueue's result.
pub open spec fn result_view(result: Result<(), Error>) -> Result<(), ErrorView> {
    match result {
        Ok(()) => Ok(()),
        Err(e) => Err(e@),
    }
}

/// The dispatcher handle.
pub struct App {
    sender: Option<Sender<Publication>>,
}

impl App {
    /// Whether the handle still accepts work.
    pub closed spec fn is_open(&self) -> bool {
        self.sender is Some
    }

    /// A dispatcher for the broker at `options.address`, with the worker that
    /// is to consume its queue. The worker is handed to the caller, who runs
    /// it in an execution context of its own.
    pub fn new(options: Options) -> (made: Result<(App, Worker), Error>)
        ensures
            made is Ok <==> reads_as_uri(options.address@),
            made matches Ok((app, worker)) ==> app.is_open() && worker.phase() is Waiting
                && worker.client_view().address_view() == options.address@,
            made matches Err(e) ==> e@ is InvalidAddress,
    {
        match CentrifugoClient::new(options.address.as_str()) {
            Ok(client) => {
                let (sender, receiver) = open_queue();
                Ok((App { sender: Some(sender) }, Worker::new(receiver, client)))
            },
            Err(e) => Err(e),
        }
    }

    /// Whether the handle still accepts work.
    pub fn accepting(&self) -> (open: bool)
        ensures
            open == self.is_open(),
    {
        self.sender.is_some()
    }

    /// Enqueues `msg` without blocking. Success means that the publication
    /// was accepted into the pipeline, not that it was delivered. After
    /// shutdown every call fails with [`Error::Closed`]; before it, a call
    /// fails only if the queue has lost its worker.
    pub fn send(&self, msg: Publication) -> (result: Result<(), Error>)
        ensures
            !self.is_open() ==> result_view(result) == Err::<(), _>(ErrorView::Closed),
            self.is_open() ==> result is Ok || result_view(result) == Err::<(), _>(
                ErrorView::Disconnected,
            ),
    {
        match &self.sender {
            None => Err(Error::Closed),
            Some(sender) => {
                let refused = push(sender, msg);
                App::accepted(refused)
            },
        }
    }

    /// What an enqueue on an open handle comes to, given what the queue
    /// handed back.
    pub fn accepted(refused: Option<Publication>) -> (result: Result<(), Error>)
        ensures
            result_view(result) == enqueue_result(refused is Some),
    {
        match refused {
            None => Ok(()),
            Some(_) => Err(Error::Disconnected),
        }
    }

    /// Closes the queue to new entries; what is in it stays to be drained.
    /// Returns whether this call closed it: the caller then waits for the
    /// worker to stop. A second call finds the handle closed and does
    /// nothing.
    pub fn shutdown(&mut self) -> (closing: bool)
        ensures
            (final(self).is_open(), closing) == shutdown_effect(old(self).is_open()),
    {
        match self.sender.take() {
            Some(_) => true,
            None => false,
        }
    }
}

} // verus!
