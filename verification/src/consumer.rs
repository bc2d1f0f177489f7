//! The consumer: what to do with each event of a delivery stream.

use vstd::prelude::*;
use vstd::string::*;
use lapin::types::FieldTable;
use crate::headers::{render_headers, shows_headers};
use crate::text::utf8_text;

verus! {

/// A message that the broker delivered.
#[derive(Debug, PartialEq)]
pub struct IncomingDelivery {
    pub routing_key: String,
    /// The headers as received, where the message has any.
    pub headers: Option<FieldTable>,
    pub payload: Vec<u8>,
    /// The broker's tag, by which the delivery is acknowledged.
    pub delivery_tag: u64,
}

/// One event of a delivery stream.
#[derive(Debug, PartialEq)]
pub enum DeliveryEvent {
    Delivery(IncomingDelivery),
    /// The broker revoked the subscription: the stream ends.
    Cancelled,
    /// One delivery failed in transport: the stream goes on.
    Error(String),
}

/// Why a delivery could not be rendered.
#[derive(Clone, Copy, PartialEq, Eq, Structural, Debug)]
pub enum DecodeError {
    /// The payload is not UTF-8.
    InvalidUtf8,
}

/// What the delivery loop is to do next.
#[derive(Debug, PartialEq, Eq)]
pub enum ConsumerAction {
    /// Print the text, then acknowledge the delivery by its tag.
    Acknowledge { text: String, delivery_tag: u64 },
    /// The delivery cannot be rendered: give it up, without acknowledging it.
    Abandon { delivery_tag: u64, error: DecodeError },
    /// Log the reason and go on.
    Report { reason: String },
    /// The stream has ended.
    Finish,
}

/// A consumer on one delivery stream.
#[derive(Clone, Copy, PartialEq, Eq, Structural, Debug)]
pub struct Consumer {
    /// Whether the stream has ended.
    pub finished: bool,
}

/// Whether a delivery can be rendered: its payload is UTF-8.
pub open spec fn renderable(d: IncomingDelivery) -> bool {
    vstd::utf8::valid_utf8(d.payload@)
}

/// A rendered delivery: `Received`, the routing key, `::`, the headers, and
/// on a line of its own the payload.
pub open spec fn shown_delivery(routing_key: Seq<char>, headers: Seq<char>, payload: Seq<char>) -> Seq<
    char,
> {
    seq!['R', 'e', 'c', 'e', 'i', 'v', 'e', 'd', ' '] + routing_key + seq![' ', ':', ':', ' ']
        + headers + seq!['\n'] + payload
}

/// Whether `out` renders the delivery `d`.
pub open spec fn renders(out: Seq<char>, d: IncomingDelivery) -> bool {
    exists|headers: Seq<char>| #[trigger]
        shows_headers(headers, d.headers) && out == shown_delivery(
            d.routing_key@,
            headers,
            vstd::utf8::decode_utf8(d.payload@),
        )
}

/// The tag that the consumer acknowledges on an event, if any: that of a
/// delivery that can be rendered, while the stream has not ended.
pub open spec fn ack_of(finished: bool, event: DeliveryEvent) -> Option<u64> {
    match event {
        DeliveryEvent::Delivery(d) => if !finished && renderable(d) {
            Some(d.delivery_tag)
        } else {
            None
        },
        _ => None,
    }
}

/// The tag that an action acknowledges, if any.
pub open spec fn acknowledged(action: ConsumerAction) -> Option<u64> {
    match action {
        ConsumerAction::Acknowledge { delivery_tag, .. } => Some(delivery_tag),
        _ => None,
    }
}

/// Renders a delivery: its routing key, its headers and its payload as text.
pub fn render_delivery(d: &IncomingDelivery) -> (r: Result<String, DecodeError>)
    ensures
        r is Ok <==> renderable(*d),
        r is Ok ==> renders(r.unwrap()@, *d),
        r is Err ==> r->Err_0 == DecodeError::InvalidUtf8,
{
    match utf8_text(&d.payload) {
        None => Err(DecodeError::InvalidUtf8),
        Some(payload) => {
            let headers = render_headers(&d.headers);
            proof {
                reveal_strlit("Received ");
                reveal_strlit(" :: ");
                reveal_strlit("\n");
                assert("Received "@ =~= seq!['R', 'e', 'c', 'e', 'i', 'v', 'e', 'd', ' ']);
                assert(" :: "@ =~= seq![' ', ':', ':', ' ']);
                assert("\n"@ =~= seq!['\n']);
            }
            let mut out = String::from_str("Received ");
            out.append(d.routing_key.as_str());
            out.append(" :: ");
            out.append(headers.as_str());
            out.append("\n");
            out.append(payload.as_str());
            assert(out@ =~= shown_delivery(d.routing_key@, headers@, payload@));
            assert(shows_headers(headers@, d.headers));
            Ok(out)
        },
    }
}

impl Consumer {
    /// A consumer whose stream has just been registered.
    pub fn new() -> (c: Consumer)
        ensures
            !c.finished,
    {
        Consumer { finished: false }
    }

    /// Decides what to do with the next event of the stream. A delivery is
    /// rendered and acknowledged by its own tag, once; one that cannot be
    /// rendered is given up; an error is reported; a cancellation ends the
    /// stream, after which nothing is rendered or acknowledged.
    pub fn handle(&mut self, event: &DeliveryEvent) -> (action: ConsumerAction)
        ensures
            final(self).finished == (old(self).finished || event is Cancelled),
            acknowledged(action) == ack_of(old(self).finished, *event),
            old(self).finished ==> action is Finish,
            !old(self).finished ==> match *event {
                DeliveryEvent::Delivery(d) => if renderable(d) {
                    action is Acknowledge && renders(action->Acknowledge_text@, d)
                } else {
                    action is Abandon && action->Abandon_delivery_tag == d.delivery_tag
                        && action->Abandon_error == DecodeError::InvalidUtf8
                },
                DeliveryEvent::Cancelled => action is Finish,
                DeliveryEvent::Error(reason) => action is Report && action->Report_reason@
                    == reason@,
            },
    {
        if self.finished {
            return ConsumerAction::Finish;
        }
        match event {
            DeliveryEvent::Delivery(d) => match render_delivery(d) {
                Ok(text) => ConsumerAction::Acknowledge { text, delivery_tag: d.delivery_tag },
                Err(error) => ConsumerAction::Abandon { delivery_tag: d.delivery_tag, error },
            },
            DeliveryEvent::Cancelled => {
                self.finished = true;
                ConsumerAction::Finish
            },
            DeliveryEvent::Error(reason) => ConsumerAction::Report { reason: reason.clone() },
        }
    }
}

/// Whether the stream has ended after the given events.
pub open spec fn finished_after(events: Seq<DeliveryEvent>) -> bool
    decreases events.len(),
{
    if events.len() == 0 {
        false
    } else {
        finished_after(events.drop_last()) || events.last() is Cancelled
    }
}

/// The tags that a new consumer acknowledges on the given events, in order.
pub open spec fn acks(events: Seq<DeliveryEvent>) -> Seq<u64>
    decreases events.len(),
{
    if events.len() == 0 {
        Seq::empty()
    } else {
        let before = acks(events.drop_last());
        match ack_of(finished_after(events.drop_last()), events.last()) {
            Some(tag) => before.push(tag),
            None => before,
        }
    }
}

/// Whether no two deliveries among the events have the same tag.
pub open spec fn distinct_tags(events: Seq<DeliveryEvent>) -> bool {
    forall|i: int, j: int|
        0 <= i < j < events.len() && events[i] is Delivery && events[j] is Delivery
            ==> events[i]->Delivery_0.delivery_tag != events[j]->Delivery_0.delivery_tag
}

/// Every acknowledged tag is the tag of a delivery among the events.
pub proof fn lemma_acks_are_delivered(events: Seq<DeliveryEvent>, tag: u64)
    requires
        acks(events).contains(tag),
    ensures
        exists|i: int|
            0 <= i < events.len() && (#[trigger] events[i]) is Delivery
                && events[i]->Delivery_0.delivery_tag == tag,
    decreases events.len(),
{
    if events.len() > 0 {
        let before = acks(events.drop_last());
        let k = choose|k: int| 0 <= k < acks(events).len() && acks(events)[k] == tag;
        if k < before.len() {
            assert(before[k] == tag);
            lemma_acks_are_delivered(events.drop_last(), tag);
            let i = choose|i: int|
                0 <= i < events.drop_last().len() && (#[trigger] events.drop_last()[i]) is Delivery
                    && events.drop_last()[i]->Delivery_0.delivery_tag == tag;
            assert(events[i] == events.drop_last()[i]);
        } else {
            assert(events[events.len() - 1] is Delivery);
        }
    }
}

/// Where the broker gives each delivery a tag of its own, no tag is
/// acknowledged twice, and each delivery that is rendered before the stream
/// ends has its tag acknowledged.
pub proof fn law_acknowledged_once(events: Seq<DeliveryEvent>)
    requires
        distinct_tags(events),
    ensures
        acks(events).no_duplicates(),
        forall|i: int|
            0 <= i < events.len() && !finished_after(events.take(i)) && (
            #[trigger] events[i]) is Delivery && renderable(events[i]->Delivery_0) ==> acks(
                events,
            ).contains(events[i]->Delivery_0.delivery_tag),
    decreases events.len(),
{
    if events.len() > 0 {
        let front = events.drop_last();
        let n = events.len() - 1;
        assert(distinct_tags(front)) by {
            assert forall|i: int, j: int|
                0 <= i < j < front.len() && front[i] is Delivery && front[j] is Delivery implies front[i]->Delivery_0.delivery_tag
                != front[j]->Delivery_0.delivery_tag by {
                assert(front[i] == events[i] && front[j] == events[j]);
            }
        }
        law_acknowledged_once(front);
        let before = acks(front);
        match ack_of(finished_after(front), events.last()) {
            Some(tag) => {
                if before.contains(tag) {
                    lemma_acks_are_delivered(front, tag);
                    let i = choose|i: int|
                        0 <= i < front.len() && (#[trigger] front[i]) is Delivery
                            && front[i]->Delivery_0.delivery_tag == tag;
                    assert(front[i] == events[i]);
                    assert(events[n] is Delivery);
                    assert(false);
                }
                assert(before.push(tag).no_duplicates());
            },
            None => {},
        }
        assert forall|i: int|
            0 <= i < events.len() && !finished_after(events.take(i)) && (
            #[trigger] events[i]) is Delivery && renderable(
                events[i]->Delivery_0,
            ) implies acks(events).contains(events[i]->Delivery_0.delivery_tag) by {
            let tag = events[i]->Delivery_0.delivery_tag;
            if i < n {
                assert(front[i] == events[i]);
                assert(front.take(i) =~= events.take(i));
                assert(before.contains(tag));
                let k = choose|k: int| 0 <= k < before.len() && before[k] == tag;
                assert(acks(events)[k] == tag);
            } else {
                assert(events.take(i) =~= front);
                assert(acks(events) == before.push(tag));
                assert(acks(events)[before.len() as int] == tag);
            }
        }
    }
}

} // verus!
