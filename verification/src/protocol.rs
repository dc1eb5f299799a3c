//! The batched request that goes to the broker and the replies that come
//! back, as the dispatcher reads them.

use crate::error::ErrorView;
use crate::publication::PublicationView;
use vstd::prelude::*;

verus! {

/// The most publications that one request can carry: command ids are 32-bit,
/// start at 1 and are unique within a request.
pub const MAX_BATCH: usize = 0xFFFF_FFFF;

/// One "publish" command of a batched request: the id that its reply is
/// found by, the channel, the raw payload, and the two flags of the protocol.
#[derive(Clone, Debug, PartialEq, Eq)]
pub struct Command {
    pub id: u32,
    pub channel: String,
    pub data: Vec<u8>,
    pub skip_history: bool,
    pub tags: Vec<(String, String)>,
}

/// What a [`Command`] holds, as mathematical values.
pub struct CommandView {
    pub id: u32,
    pub channel: Seq<char>,
    pub data: Seq<u8>,
    pub skip_history: bool,
    pub tags: Seq<(Seq<char>, Seq<char>)>,
}

impl View for Command {
    type V = CommandView;

    open spec fn view(&self) -> CommandView {
        CommandView {
            id: self.id,
            channel: self.channel@,
            data: self.data@,
            skip_history: self.skip_history,
            tags: self.tags@.map_values(|tag: (String, String)| (tag.0@, tag.1@)),
        }
    }
}

/// The request of one remote call: the commands of one batch, in order.
#[derive(Clone, Debug, PartialEq, Eq)]
pub struct BatchRequest {
    pub commands: Vec<Command>,
}

impl View for BatchRequest {
    type V = Seq<CommandView>;

    open spec fn view(&self) -> Seq<CommandView> {
        self.commands@.map_values(|c: Command| c@)
    }
}

/// The command that carries `item` as the `place`-th of its batch, counted
/// from 0: ids count from 1, history is kept and no tags are set.
pub open spec fn command_for(place: int, item: PublicationView) -> CommandView {
    CommandView {
        id: (place + 1) as u32,
        channel: item.channel,
        data: item.data,
        skip_history: false,
        tags: Seq::empty(),
    }
}

/// The commands that carry `batch`: one for each publication, in order.
pub open spec fn commands_for(batch: Seq<PublicationView>) -> Seq<CommandView> {
    Seq::new(batch.len(), |i: int| command_for(i, batch[i]))
}

/// The error that a reply may carry.
#[derive(Clone, Debug, PartialEq, Eq)]
pub struct ReplyError {
    pub code: u32,
    pub message: String,
}

/// The broker's answer to one command, found by the command's id.
#[derive(Clone, Debug, PartialEq, Eq)]
pub struct Reply {
    pub id: u32,
    pub error: Option<ReplyError>,
}

/// What a [`Reply`] holds, as far as the dispatcher reads it.
pub struct ReplyView {
    pub id: u32,
    pub error: Option<Seq<char>>,
}

impl View for Reply {
    type V = ReplyView;

    open spec fn view(&self) -> ReplyView {
        ReplyView {
            id: self.id,
            error: match self.error {
                Some(e) => Some(e.message@),
                None => None,
            },
        }
    }
}

/// How one remote call ended.
#[derive(Clone, Debug, PartialEq, Eq)]
pub enum Outcome {
    /// The call did not complete; the transport's message.
    Failed(String),
    /// The call completed with these replies.
    Replied(Vec<Reply>),
}

/// What an [`Outcome`] holds, as mathematical values.
pub enum OutcomeView {
    Failed(Seq<char>),
    Replied(Seq<ReplyView>),
}

impl View for Outcome {
    type V = OutcomeView;

    open spec fn view(&self) -> OutcomeView {
        match self {
            Outcome::Failed(message) => OutcomeView::Failed(message@),
            Outcome::Replied(replies) => OutcomeView::Replied(
                replies@.map_values(|r: Reply| r@),
            ),
        }
    }
}

/// The place of the first reply that carries an error, or the number of
/// replies if none does.
pub open spec fn first_rejected(replies: Seq<ReplyView>) -> int
    decreases replies.len(),
{
    if replies.len() == 0 {
        0
    } else if replies[0].error is Some {
        0
    } else {
        1 + first_rejected(replies.skip(1))
    }
}

/// What a batch's dispatch comes to: nothing to report, or the one failure
/// that stands for the whole batch.
pub open spec fn verdict(outcome: OutcomeView) -> Option<ErrorView> {
    match outcome {
        OutcomeView::Failed(message) => Some(ErrorView::Transport { message }),
        OutcomeView::Replied(replies) => {
            let k = first_rejected(replies);
            if k < replies.len() {
                Some(
                    ErrorView::Logic {
                        message: replies[k].error->Some_0,
                        reply_id: replies[k].id,
                    },
                )
            } else {
                None
            }
        },
    }
}

/// `first_rejected` is the least place with an error.
pub proof fn lemma_first_rejected(replies: Seq<ReplyView>)
    ensures
        0 <= first_rejected(replies) <= replies.len(),
        forall|i: int| 0 <= i < first_rejected(replies) ==> (#[trigger] replies[i]).error is None,
        first_rejected(replies) < replies.len() ==> replies[first_rejected(replies)].error is Some,
    decreases replies.len(),
{
    if replies.len() > 0 && replies[0].error is None {
        let rest = replies.skip(1);
        lemma_first_rejected(rest);
        assert forall|i: int| 0 <= i < first_rejected(replies) implies (#[trigger] replies[i]).error is None by {
            if i > 0 {
                assert(rest[i - 1] == replies[i]);
            }
        }
    }
}

} // verus!
