//! The failures that the dispatcher reports, and their diagnostics.

use vstd::prelude::*;
use vstd::string::*;

verus! {

/// A failure of construction, of an enqueue or of a dispatch.
#[derive(Clone, Debug, PartialEq, Eq)]
pub enum Error {
    /// The broker address is no network endpoint.
    InvalidAddress { reason: String },
    /// `send` after shutdown took the producer handle.
    Closed,
    /// The queue has lost its consumer.
    Disconnected,
    /// The call to the broker did not complete.
    Transport { message: String },
    /// The call completed and the broker rejected a command of the batch.
    Logic { message: String, reply_id: u32 },
}

/// What an [`Error`] holds, as mathematical values.
pub enum ErrorView {
    InvalidAddress { reason: Seq<char> },
    Closed,
    Disconnected,
    Transport { message: Seq<char> },
    Logic { message: Seq<char>, reply_id: u32 },
}

impl View for Error {
    type V = ErrorView;

    open spec fn view(&self) -> ErrorView {
        match self {
            Error::InvalidAddress { reason } => ErrorView::InvalidAddress { reason: reason@ },
            Error::Closed => ErrorView::Closed,
            Error::Disconnected => ErrorView::Disconnected,
            Error::Transport { message } => ErrorView::Transport { message: message@ },
            Error::Logic { message, reply_id } => ErrorView::Logic {
                message: message@,
                reply_id: *reply_id,
            },
        }
    }
}

/// The character that writes the digit `d`.
pub open spec fn digit(d: nat) -> char {
    if d == 0 {
        '0'
    } else if d == 1 {
        '1'
    } else if d == 2 {
        '2'
    } else if d == 3 {
        '3'
    } else if d == 4 {
        '4'
    } else if d == 5 {
        '5'
    } else if d == 6 {
        '6'
    } else if d == 7 {
        '7'
    } else if d == 8 {
        '8'
    } else {
        '9'
    }
}

/// `n` in decimal, without leading zeros.
pub open spec fn decimal(n: nat) -> Seq<char>
    decreases n,
{
    if n < 10 {
        seq![digit(n)]
    } else {
        decimal(n / 10).push(digit(n % 10))
    }
}

/// The text of a diagnostic.
pub open spec fn diagnostic(e: ErrorView) -> Seq<char> {
    match e {
        ErrorView::InvalidAddress { reason } => reason,
        ErrorView::Closed => "dispatcher closed"@,
        ErrorView::Disconnected => "sending on a disconnected channel"@,
        ErrorView::Transport { message } => "transport error: "@ + message,
        ErrorView::Logic { message, reply_id } => "logic error: "@ + message + ", reply-id:"@
            + decimal(reply_id as nat),
    }
}

fn digit_text(d: u32) -> (text: &'static str)
    requires
        d < 10,
    ensures
        text@ == seq![digit(d as nat)],
{
    proof {
        reveal_strlit("0");
        reveal_strlit("1");
        reveal_strlit("2");
        reveal_strlit("3");
        reveal_strlit("4");
        reveal_strlit("5");
        reveal_strlit("6");
        reveal_strlit("7");
        reveal_strlit("8");
        reveal_strlit("9");
    }
    let text = if d == 0 {
        "0"
    } else if d == 1 {
        "1"
    } else if d == 2 {
        "2"
    } else if d == 3 {
        "3"
    } else if d == 4 {
        "4"
    } else if d == 5 {
        "5"
    } else if d == 6 {
        "6"
    } else if d == 7 {
        "7"
    } else if d == 8 {
        "8"
    } else {
        "9"
    };
    assert(text@ =~= seq![digit(d as nat)]);
    text
}

/// Writes `n` in decimal.
pub fn render_decimal(n: u32) -> (text: String)
    ensures
        text@ == decimal(n as nat),
    decreases n,
{
    if n < 10 {
        String::from_str(digit_text(n))
    } else {
        let mut text = render_decimal(n / 10);
        text.append(digit_text(n % 10));
        assert(text@ =~= decimal((n / 10) as nat).push(digit((n % 10) as nat)));
        text
    }
}

impl Error {
    /// The diagnostic that a log record carries for this failure.
    pub fn message(&self) -> (text: String)
        ensures
            text@ == diagnostic(self@),
    {
        match self {
            Error::InvalidAddress { reason } => reason.clone(),
            Error::Closed => String::from_str("dispatcher closed"),
            Error::Disconnected => String::from_str("sending on a disconnected channel"),
            Error::Transport { message } => {
                let mut text = String::from_str("transport error: ");
                text.append(message.as_str());
                text
            },
            Error::Logic { message, reply_id } => {
                let mut text = String::from_str("logic error: ");
                text.append(message.as_str());
                text.append(", reply-id:");
                let id = render_decimal(*reply_id);
                text.append(id.as_str());
                text
            },
        }
    }
}

} // verus!
