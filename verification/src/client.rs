//! The broker client: it validates the broker's address, turns a batch into
//! the request of one remote call, and reads what the call came to.
//!
//! The call itself is made by the program that embeds the dispatcher, over a
//! connection to [`CentrifugoClient::endpoint`].

use crate::error::Error;
use crate::protocol::{
    commands_for, first_rejected, lemma_first_rejected, verdict, BatchRequest, Command, Outcome,
    OutcomeView, Reply, MAX_BATCH,
};
use crate::publication::{views, Publication};
use tonic::codegen::http::uri::InvalidUri;
use tonic::transport::Uri;
use vstd::prelude::*;
use vstd::string::*;

verus! {

/// `tonic::transport::Uri`, the `http` crate's URI. Opaque.
#[verifier::external_type_specification]
#[verifier::external_body]
pub struct ExUri(Uri);

/// The `http` crate's `InvalidUri`, why a text is no URI. Opaque.
#[verifier::external_type_specification]
#[verifier::external_body]
pub struct ExInvalidUri(InvalidUri);

/// Whether `address` reads as a URI, by the grammar of the `http` crate that
/// `tonic` takes its endpoints in.
pub uninterp spec fn reads_as_uri(address: Seq<char>) -> bool;

/// `<Uri as FromStr>::from_str`, reached as `str::parse`: the URI that
/// `address` writes, or why it writes none. Claimed: whether it succeeds
/// depends on the text alone.
#[verifier::external_body]
pub(crate) fn parse_uri(address: &str) -> (parsed: Result<Uri, InvalidUri>)
    ensures
        parsed is Ok <==> reads_as_uri(address@),
{
    address.parse::<Uri>()
}

/// `<InvalidUri as Display>::fmt`, reached as `to_string`: the text of a
/// rejection. Nothing is claimed of it.
#[verifier::external_body]
pub(crate) fn rejection_text(rejection: &InvalidUri) -> (text: String) {
    rejection.to_string()
}

/// A client of the broker at one endpoint.
pub struct CentrifugoClient {
    address: String,
    endpoint: Uri,
}

impl CentrifugoClient {
    /// The address that the client was made for.
    pub closed spec fn address_view(&self) -> Seq<char> {
        self.address@
    }

    /// The endpoint that the address was read as.
    pub closed spec fn endpoint_view(&self) -> Uri {
        self.endpoint
    }

    /// A client for the broker at `address`. No connection is made: an
    /// address that no broker answers at is found out by the first dispatch.
    pub fn new(address: &str) -> (made: Result<CentrifugoClient, Error>)
        ensures
            made is Ok <==> reads_as_uri(address@),
            made matches Ok(client) ==> client.address_view() == address@,
            made matches Err(e) ==> e@ is InvalidAddress,
    {
        let parsed = parse_uri(address);
        CentrifugoClient::from_parsed(address, parsed)
    }

    /// The client for `address`, given what parsing the address came to.
    pub fn from_parsed(address: &str, parsed: Result<Uri, InvalidUri>) -> (made: Result<
        CentrifugoClient,
        Error,
    >)
        ensures
            made is Ok <==> parsed is Ok,
            made matches Ok(client) ==> client.address_view() == address@
                && client.endpoint_view() == parsed->Ok_0,
            made matches Err(e) ==> e@ is InvalidAddress,
    {
        match parsed {
            Ok(endpoint) => Ok(CentrifugoClient { address: String::from_str(address), endpoint }),
            Err(rejection) => Err(Error::InvalidAddress { reason: rejection_text(&rejection) }),
        }
    }

    /// The address that the client was made for.
    pub fn address(&self) -> (address: &str)
        ensures
            address@ == self.address_view(),
    {
        self.address.as_str()
    }

    /// The endpoint to connect to.
    pub fn endpoint(&self) -> (endpoint: &Uri)
        ensures
            *endpoint == self.endpoint_view(),
    {
        &self.endpoint
    }

    /// The request of the one remote call that carries `batch`: a command for
    /// each publication, in order, with ids that start at 1 in every batch.
    pub fn publish(&self, batch: Vec<Publication>) -> (request: BatchRequest)
        requires
            batch.len() <= MAX_BATCH,
        ensures
            request@ == commands_for(views(batch@)),
    {
        let mut commands: Vec<Command> = Vec::new();
        let mut index: u32 = 0;
        let ghost all = views(batch@);
        for msg in it: batch
            invariant
                all == views(batch@),
                batch.len() <= MAX_BATCH,
                index == it.index(),
                commands.len() == index,
                forall|i: int|
                    0 <= i < index ==> (#[trigger] commands@[i])@ == commands_for(all)[i],
        {
            index += 1;
            let command = Command {
                id: index,
                channel: msg.channel,
                data: msg.data,
                skip_history: false,
                tags: Vec::new(),
            };
            assert(command@.tags =~= Seq::empty());
            commands.push(command);
        }
        let request = BatchRequest { commands };
        assert(request@ =~= commands_for(all));
        request
    }

    /// Reads the outcome of a call. A transport failure fails the whole
    /// batch; so does the first reply that carries an error, under that
    /// reply's id. The commands that succeeded beside it are not reported.
    pub fn settle(&self, outcome: Outcome) -> (result: Result<(), Error>)
        ensures
            match verdict(outcome@) {
                Some(e) => result matches Err(got) && got@ == e,
                None => result is Ok,
            },
    {
        match outcome {
            Outcome::Failed(message) => Err(Error::Transport { message }),
            Outcome::Replied(replies) => {
                let ghost all = replies@.map_values(|r: Reply| r@);
                proof {
                    lemma_first_rejected(all);
                }
                for reply in it: replies
                    invariant
                        outcome@ == OutcomeView::Replied(all),
                        all == replies@.map_values(|r: Reply| r@),
                        forall|i: int| 0 <= i < it.index() ==> (#[trigger] all[i]).error is None,
                        0 <= first_rejected(all) <= all.len(),
                        forall|i: int|
                            0 <= i < first_rejected(all) ==> (#[trigger] all[i]).error is None,
                        first_rejected(all) < all.len() ==> all[first_rejected(all)].error is Some,
                {
                    assert(all[it.index() as int] == reply@);
                    if let Some(err) = reply.error {
                        return Err(Error::Logic { message: err.message, reply_id: reply.id });
                    }
                }
                Ok(())
            },
        }
    }
}

} // verus!
