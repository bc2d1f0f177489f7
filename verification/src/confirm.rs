//! Publisher confirms: what the broker answered to a publish, and what that
//! means for the message.

use vstd::prelude::*;
use vstd::string::*;
use crate::text::{decimal, push_decimal};

verus! {

/// A message that the broker sent back to its publisher.
#[derive(Debug, PartialEq, Eq)]
pub struct ReturnedMessage {
    pub reply_code: u16,
    pub reply_text: String,
}

/// The broker's answer to one publish.
#[derive(Debug, PartialEq, Eq)]
pub enum BrokerReply {
    /// Acknowledged; a message that could not be routed comes back with it.
    Ack { returned: Option<ReturnedMessage> },
    /// Not acknowledged.
    Nack { returned: Option<ReturnedMessage> },
    /// Neither of the two.
    Other,
}

/// What became of one published message.
#[derive(Debug, PartialEq, Eq)]
pub enum ConfirmOutcome {
    Accepted,
    RejectedByBroker { reason: String },
    Unroutable,
    Unknown,
}

/// A returned message as plain values.
pub ghost struct ReturnedView {
    pub reply_code: u16,
    pub reply_text: Seq<char>,
}

/// A broker's answer as plain values.
pub ghost enum ReplyView {
    Ack { returned: Option<ReturnedView> },
    Nack { returned: Option<ReturnedView> },
    Other,
}

/// An outcome as plain values.
pub ghost enum OutcomeView {
    Accepted,
    RejectedByBroker { reason: Seq<char> },
    Unroutable,
    Unknown,
}

impl View for ReturnedMessage {
    type V = ReturnedView;

    open spec fn view(&self) -> ReturnedView {
        ReturnedView { reply_code: self.reply_code, reply_text: self.reply_text@ }
    }
}

/// The view of a message that may have come back.
pub open spec fn returned_view(returned: Option<ReturnedMessage>) -> Option<ReturnedView> {
    match returned {
        Some(m) => Some(m@),
        None => None,
    }
}

impl View for BrokerReply {
    type V = ReplyView;

    open spec fn view(&self) -> ReplyView {
        match *self {
            BrokerReply::Ack { returned } => ReplyView::Ack { returned: returned_view(returned) },
            BrokerReply::Nack { returned } => ReplyView::Nack { returned: returned_view(returned) },
            BrokerReply::Other => ReplyView::Other,
        }
    }
}

impl View for ConfirmOutcome {
    type V = OutcomeView;

    open spec fn view(&self) -> OutcomeView {
        match *self {
            ConfirmOutcome::Accepted => OutcomeView::Accepted,
            ConfirmOutcome::RejectedByBroker { reason } => OutcomeView::RejectedByBroker {
                reason: reason@,
            },
            ConfirmOutcome::Unroutable => OutcomeView::Unroutable,
            ConfirmOutcome::Unknown => OutcomeView::Unknown,
        }
    }
}

/// The reason given for a nack: the words `not acknowledged`.
pub open spec fn not_acknowledged() -> Seq<char> {
    seq!['n', 'o', 't', ' ', 'a', 'c', 'k', 'n', 'o', 'w', 'l', 'e', 'd', 'g', 'e', 'd']
}

/// The reason given for a returned message: the reply code in decimal, a
/// space, and the reply text.
pub open spec fn return_reason(m: ReturnedView) -> Seq<char> {
    decimal(m.reply_code as nat) + seq![' '] + m.reply_text
}

/// The outcome that an answer stands for. An ack is an acceptance only where
/// no message came back with it; a nack is a rejection; anything else is
/// unknown.
pub open spec fn classified(reply: ReplyView) -> OutcomeView {
    match reply {
        ReplyView::Ack { returned: None } => OutcomeView::Accepted,
        ReplyView::Ack { returned: Some(m) } => OutcomeView::RejectedByBroker {
            reason: return_reason(m),
        },
        ReplyView::Nack { .. } => OutcomeView::RejectedByBroker { reason: not_acknowledged() },
        ReplyView::Other => OutcomeView::Unknown,
    }
}

/// Resolves the broker's answer to one publish.
pub fn classify(reply: &BrokerReply) -> (outcome: ConfirmOutcome)
    ensures
        outcome@ == classified(reply@),
{
    match reply {
        BrokerReply::Ack { returned: None } => ConfirmOutcome::Accepted,
        BrokerReply::Ack { returned: Some(m) } => {
            let mut reason = String::new();
            push_decimal(&mut reason, m.reply_code as u32);
            proof {
                reveal_strlit(" ");
                assert(" "@ =~= seq![' ']);
            }
            reason.append(" ");
            reason.append(m.reply_text.as_str());
            assert(reason@ =~= return_reason(m@));
            ConfirmOutcome::RejectedByBroker { reason }
        },
        BrokerReply::Nack { .. } => {
            proof {
                reveal_strlit("not acknowledged");
                assert("not acknowledged"@ =~= not_acknowledged());
            }
            ConfirmOutcome::RejectedByBroker { reason: String::from_str("not acknowledged") }
        },
        BrokerReply::Other => ConfirmOutcome::Unknown,
    }
}

impl ConfirmOutcome {
    /// Whether the message was accepted. Every other outcome is reported as a
    /// failure.
    pub fn is_accepted(&self) -> (yes: bool)
        ensures
            yes == (self@ == OutcomeView::Accepted),
    {
        match self {
            ConfirmOutcome::Accepted => true,
            _ => false,
        }
    }
}

/// Every answer resolves to exactly one outcome: accepted for an ack with
/// nothing returned and for no other answer, rejected for an ack with a
/// returned message and for a nack, unknown for the rest; no answer
/// resolves to unroutable.
pub proof fn law_classification(reply: ReplyView)
    ensures
        classified(reply) is Accepted <==> reply == (ReplyView::Ack { returned: None }),
        classified(reply) is RejectedByBroker <==> (reply is Nack || (reply is Ack
            && reply->Ack_returned is Some)),
        classified(reply) is Unknown <==> reply is Other,
        !(classified(reply) is Unroutable),
{
}

} // verus!
