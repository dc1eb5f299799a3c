//! The unit of work and the construction options.

use vstd::prelude::*;

verus! {

/// A request to publish `data` to `channel`.
#[derive(Clone, Debug, PartialEq, Eq)]
pub struct Publication {
    pub channel: String,
    pub data: Vec<u8>,
}

/// What a [`Publication`] holds, as mathematical values.
pub struct PublicationView {
    pub channel: Seq<char>,
    pub data: Seq<u8>,
}

impl View for Publication {
    type V = PublicationView;

    open spec fn view(&self) -> PublicationView {
        PublicationView { channel: self.channel@, data: self.data@ }
    }
}

/// The views of a run of publications, in the same order.
pub open spec fn views(batch: Seq<Publication>) -> Seq<PublicationView> {
    batch.map_values(|p: Publication| p@)
}

impl Publication {
    /// A publication of `data` to `channel`.
    pub fn new(channel: String, data: Vec<u8>) -> (p: Publication)
        ensures
            p@.channel == channel@,
            p@.data == data@,
    {
        Publication { channel, data }
    }
}

/// Where the broker is reached.
#[derive(Clone, Debug, PartialEq, Eq)]
pub struct Options {
    pub address: String,
}

} // verus!
