//! The publisher: one message in flight at a time, each resolved to an
//! outcome before the next is issued.

use vstd::prelude::*;
use vstd::string::*;
use lapin::types::FieldTable;
use crate::confirm::{classified, classify, BrokerReply, ConfirmOutcome};
use crate::session::Session;
use crate::table::{table_copy, table_entries};
use crate::text::{decimal_two_places, push_decimal};

verus! {

/// A message on its way to the broker.
#[derive(Debug, PartialEq)]
pub struct OutgoingMessage {
    pub exchange: String,
    pub routing_key: String,
    pub payload: Vec<u8>,
    /// The headers; `None` leaves the headers property off the message.
    pub headers: Option<FieldTable>,
    /// Whether the broker is to send the message back where it cannot route it.
    pub mandatory: bool,
}

/// Why no message was issued.
#[derive(Clone, Copy, PartialEq, Eq, Structural, Debug)]
pub enum PublishRefusal {
    /// The message before has no outcome yet.
    ConfirmPending,
    /// The channel is not open, or not in confirm mode.
    ChannelNotReady,
}

/// A publisher on one exchange.
#[derive(Debug, PartialEq)]
pub struct Publisher {
    pub exchange: String,
    pub routing_key: String,
    pub headers: Option<FieldTable>,
    /// How many messages were issued; it stops at the largest number.
    pub counter: u32,
    /// Whether a message awaits its outcome.
    pub pending: bool,
}

/// The text of the message with the given number.
pub open spec fn payload_label(n: nat) -> Seq<char> {
    seq!['H', 'e', 'l', 'l', 'o', ' ', 'p', 'e', 'r', 's', 'o', 'n', ' ', '#'] + decimal_two_places(
        n,
    ) + seq!['!']
}

/// The counter after one more message.
pub open spec fn next_counter(c: u32) -> u32 {
    if c < u32::MAX {
        (c + 1) as u32
    } else {
        c
    }
}

/// Why a publisher in this state would issue nothing on this session, if
/// anything stands against it.
pub open spec fn issue_refusal(pending: bool, session: Session) -> Option<PublishRefusal> {
    if pending {
        Some(PublishRefusal::ConfirmPending)
    } else if !(session.usable() && session.confirms) {
        Some(PublishRefusal::ChannelNotReady)
    } else {
        None
    }
}

/// The headers of `copy` are those of `origin`: both absent, or tables with
/// the same entries.
pub open spec fn same_headers(copy: Option<FieldTable>, origin: Option<FieldTable>) -> bool {
    match origin {
        None => copy is None,
        Some(t) => copy is Some && table_entries(copy.unwrap()) == table_entries(t),
    }
}

/// The text of the message with the given number: `Hello person #`, the
/// number in at least two digits, and `!`.
pub fn payload_text(n: u32) -> (out: String)
    ensures
        out@ == payload_label(n as nat),
{
    proof {
        reveal_strlit("Hello person #");
        reveal_strlit("0");
        assert("Hello person #"@ =~= seq![
            'H',
            'e',
            'l',
            'l',
            'o',
            ' ',
            'p',
            'e',
            'r',
            's',
            'o',
            'n',
            ' ',
            '#',
        ]);
        assert("0"@ =~= seq!['0']);
    }
    let mut out = String::from_str("Hello person #");
    if n < 10 {
        out.append("0");
    }
    push_decimal(&mut out, n);
    out.push('!');
    assert(out@ =~= payload_label(n as nat));
    out
}

impl Publisher {
    /// A publisher that has issued nothing yet.
    pub fn new(exchange: String, routing_key: String, headers: Option<FieldTable>) -> (p: Publisher)
        ensures
            p.exchange == exchange,
            p.routing_key == routing_key,
            p.headers == headers,
            p.counter == 0,
            !p.pending,
    {
        Publisher { exchange, routing_key, headers, counter: 0, pending: false }
    }

    /// Issues the next message, where the message before is resolved and the
    /// channel is open in confirm mode. The message asks to be returned where
    /// it cannot be routed, and carries the publisher's headers unchanged.
    pub fn next_message(&mut self, session: &mut Session) -> (r: Result<
        OutgoingMessage,
        PublishRefusal,
    >)
        ensures
            match issue_refusal(old(self).pending, *old(session)) {
                Some(e) => {
                    &&& r is Err
                    &&& r->Err_0 == e
                    &&& *final(self) == *old(self)
                    &&& *final(session) == *old(session)
                },
                None => {
                    &&& r is Ok
                    &&& r.unwrap().exchange@ == old(self).exchange@
                    &&& r.unwrap().routing_key@ == old(self).routing_key@
                    &&& r.unwrap().payload@ == vstd::utf8::encode_utf8(
                        payload_label(final(self).counter as nat),
                    )
                    &&& same_headers(r.unwrap().headers, old(self).headers)
                    &&& r.unwrap().mandatory
                    &&& final(self).counter == next_counter(old(self).counter)
                    &&& final(self).pending
                    &&& final(self).exchange == old(self).exchange
                    &&& final(self).routing_key == old(self).routing_key
                    &&& final(self).headers == old(self).headers
                    &&& old(session).after_publish() is Ok
                    &&& *final(session) == old(session).after_publish().unwrap()
                },
            },
    {
        if self.pending {
            return Err(PublishRefusal::ConfirmPending);
        }
        if !(session.is_usable() && session.confirms) {
            return Err(PublishRefusal::ChannelNotReady);
        }
        if self.counter < u32::MAX {
            self.counter = self.counter + 1;
        }
        let label = payload_text(self.counter);
        let payload = label.as_str().as_bytes_vec();
        let headers = match &self.headers {
            Some(t) => Some(table_copy(t)),
            None => None,
        };
        self.pending = true;
        session.published = true;
        Ok(
            OutgoingMessage {
                exchange: self.exchange.clone(),
                routing_key: self.routing_key.clone(),
                payload,
                headers,
                mandatory: true,
            },
        )
    }

    /// Resolves the message in flight from the broker's answer. Without a
    /// message in flight there is nothing to resolve.
    pub fn resolve(&mut self, reply: &BrokerReply) -> (outcome: Option<ConfirmOutcome>)
        ensures
            outcome is Some <==> old(self).pending,
            outcome is Some ==> outcome.unwrap()@ == classified(reply@),
            !final(self).pending,
            final(self).counter == old(self).counter,
            final(self).exchange == old(self).exchange,
            final(self).routing_key == old(self).routing_key,
            final(self).headers == old(self).headers,
    {
        if self.pending {
            self.pending = false;
            Some(classify(reply))
        } else {
            None
        }
    }
}

/// What a publisher is asked to do.
pub ghost enum PublisherStep {
    /// Issue the next message.
    Issue,
    /// Resolve the message in flight.
    Resolve,
}

/// How many messages were issued and how many resolved.
pub ghost struct Tally {
    pub issued: nat,
    pub resolved: nat,
    pub pending: bool,
}

/// The tally of a new publisher after the given requests on a session that
/// is ready to publish.
pub open spec fn tally(steps: Seq<PublisherStep>, session: Session) -> Tally
    decreases steps.len(),
{
    if steps.len() == 0 {
        Tally { issued: 0, resolved: 0, pending: false }
    } else {
        let t = tally(steps.drop_last(), session);
        match steps.last() {
            PublisherStep::Issue => if issue_refusal(t.pending, session) is None {
                Tally { issued: t.issued + 1, pending: true, ..t }
            } else {
                t
            },
            PublisherStep::Resolve => if t.pending {
                Tally { resolved: t.resolved + 1, pending: false, ..t }
            } else {
                t
            },
        }
    }
}

/// Publishes are sequential: whatever is asked of a publisher and in whatever
/// order, at most one message is unresolved at any time, and a message is
/// issued only when every message before it is resolved.
pub proof fn law_one_in_flight(steps: Seq<PublisherStep>, session: Session)
    requires
        session.usable(),
        session.confirms,
    ensures
        tally(steps, session).issued == tally(steps, session).resolved + (if tally(
            steps,
            session,
        ).pending {
            1nat
        } else {
            0nat
        }),
        steps.len() > 0 && tally(steps, session).issued > tally(
            steps.drop_last(),
            session,
        ).issued ==> tally(steps.drop_last(), session).issued == tally(
            steps.drop_last(),
            session,
        ).resolved,
    decreases steps.len(),
{
    if steps.len() > 0 {
        law_one_in_flight(steps.drop_last(), session);
    }
}

} // verus!
