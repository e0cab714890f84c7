//! The relay that hands the notifications of a peripheral to a host callback,
//! one call for each event and in the order in which they arrive.

use crate::text::{uuid_string, uuid_text};
use vstd::prelude::*;

verus! {

/// What a notification holds: the UUID of the characteristic whose value
/// changed, and the new value.
pub struct EventModel {
    pub uuid: u128,
    pub value: Seq<u8>,
}

/// The arguments of one call of the host callback.
pub struct DeliveryModel {
    pub uuid: Seq<char>,
    pub payload: Seq<u8>,
}

/// The call of the host callback that an event leads to: the UUID as text,
/// the value untouched.
pub open spec fn delivery_of(event: EventModel) -> DeliveryModel {
    DeliveryModel { uuid: uuid_text(event.uuid), payload: event.value }
}

/// One step of the relay on what the stream yields: whether the relay has
/// ended afterwards, and the call to make, if any. An event is delivered as
/// long as the stream has not ended; the end of the stream ends the relay.
pub open spec fn relay_step(ended: bool, item: Option<EventModel>) -> (
    bool,
    Option<DeliveryModel>,
) {
    if ended {
        (true, None)
    } else {
        match item {
            Some(event) => (false, Some(delivery_of(event))),
            None => (true, None),
        }
    }
}

/// The calls that a relay makes, in order, on the items that its stream
/// yields one after the other.
pub open spec fn deliveries(ended: bool, items: Seq<Option<EventModel>>) -> Seq<DeliveryModel>
    decreases items.len(),
{
    if items.len() == 0 {
        Seq::empty()
    } else {
        let (next, call) = relay_step(ended, items[0]);
        let rest = deliveries(next, items.drop_first());
        match call {
            Some(delivery) => seq![delivery] + rest,
            None => rest,
        }
    }
}

/// The events of a stream as the items that it yields before it ends.
pub open spec fn arrivals(events: Seq<EventModel>) -> Seq<Option<EventModel>> {
    events.map_values(|event: EventModel| Some(event))
}

/// A relay that has ended makes no call.
pub proof fn lemma_ended_relay_is_silent(items: Seq<Option<EventModel>>)
    ensures
        deliveries(true, items) == Seq::<DeliveryModel>::empty(),
    decreases items.len(),
{
    if items.len() > 0 {
        lemma_ended_relay_is_silent(items.drop_first());
    }
}

/// The calls that a sequence of events leads to, one for each and in order.
pub open spec fn calls_of(events: Seq<EventModel>) -> Seq<DeliveryModel> {
    events.map_values(|event: EventModel| delivery_of(event))
}

/// Every event that arrives before the stream ends leads to exactly one call,
/// and the calls are made in the order of the events, whatever the callback
/// returns; what the stream yields after its end leads to none.
pub proof fn lemma_delivered_once_in_order(
    events: Seq<EventModel>,
    after_end: Seq<Option<EventModel>>,
)
    ensures
        deliveries(false, arrivals(events)) == calls_of(events),
        deliveries(false, arrivals(events) + seq![None] + after_end) == calls_of(events),
    decreases events.len(),
{
    let ending = arrivals(events) + seq![None] + after_end;
    if events.len() == 0 {
        assert(ending.drop_first() =~= after_end);
        lemma_ended_relay_is_silent(after_end);
    } else {
        let rest = events.drop_first();
        lemma_delivered_once_in_order(rest, after_end);
        assert(arrivals(events).drop_first() =~= arrivals(rest));
        assert(ending.drop_first() =~= arrivals(rest) + seq![None] + after_end);
        assert(calls_of(events) =~= seq![delivery_of(events[0])] + calls_of(rest));
    }
}

/// A value-change event of the driver's stream.
#[derive(Debug)]
pub struct NotificationEvent {
    uuid: u128,
    value: Vec<u8>,
}

impl View for NotificationEvent {
    type V = EventModel;

    closed spec fn view(&self) -> EventModel {
        EventModel { uuid: self.uuid, value: self.value@ }
    }
}

impl NotificationEvent {
    /// The event that the characteristic `uuid` changed its value to `value`.
    pub fn new(uuid: u128, value: Vec<u8>) -> (event: Self)
        ensures
            event@ == (EventModel { uuid, value: value@ }),
    {
        NotificationEvent { uuid, value }
    }

    /// The UUID of the characteristic, as a number.
    pub fn uuid_value(&self) -> (id: u128)
        ensures
            id == self@.uuid,
    {
        self.uuid
    }

    /// The new value of the characteristic.
    pub fn value(&self) -> (value: &Vec<u8>)
        ensures
            value@ == self@.value,
    {
        &self.value
    }
}

/// The arguments of one call of the host callback: the UUID of the
/// characteristic as text, and the bytes of its new value.
#[derive(Debug)]
pub struct Delivery {
    uuid: String,
    payload: Vec<u8>,
}

impl View for Delivery {
    type V = DeliveryModel;

    closed spec fn view(&self) -> DeliveryModel {
        DeliveryModel { uuid: self.uuid@, payload: self.payload@ }
    }
}

impl Delivery {
    /// The UUID of the characteristic, as text.
    pub fn uuid(&self) -> (uuid: &String)
        ensures
            uuid@ == self@.uuid,
    {
        &self.uuid
    }

    /// The bytes of the new value.
    pub fn payload(&self) -> (payload: &Vec<u8>)
        ensures
            payload@ == self@.payload,
    {
        &self.payload
    }

    /// The two arguments, for the call.
    pub fn into_parts(self) -> (parts: (String, Vec<u8>))
        ensures
            parts.0@ == self@.uuid,
            parts.1@ == self@.payload,
    {
        (self.uuid, self.payload)
    }
}

/// What the relay does with what its stream yielded.
#[derive(Debug)]
pub enum RelayAction {
    /// Call the host callback with these arguments, then wait for the next
    /// item.
    Deliver(Delivery),
    /// The stream has ended: the relay ends with it.
    Stop,
}

/// The call that an action asks for, if any.
pub open spec fn call_of(action: RelayAction) -> Option<DeliveryModel> {
    match action {
        RelayAction::Deliver(delivery) => Some(delivery@),
        RelayAction::Stop => None,
    }
}

/// The view of what a stream yields.
pub open spec fn item_view(item: Option<NotificationEvent>) -> Option<EventModel> {
    match item {
        Some(event) => Some(event@),
        None => None,
    }
}

/// The state of one relay: whether its stream has ended.
#[derive(Debug)]
pub struct Relay {
    ended: bool,
}

impl Relay {
    /// Whether the stream has ended.
    pub closed spec fn ended(&self) -> bool {
        self.ended
    }

    /// The relay of a stream that was just opened.
    pub fn new() -> (relay: Self)
        ensures
            !relay.ended(),
    {
        Relay { ended: false }
    }

    /// Whether the stream has ended.
    pub fn is_ended(&self) -> (ended: bool)
        ensures
            ended == self.ended(),
    {
        self.ended
    }

    /// Takes what the stream yielded: an event, which is delivered to the
    /// callback, or the end of the stream, which ends the relay.
    pub fn on_item(&mut self, item: Option<NotificationEvent>) -> (action: RelayAction)
        ensures
            (final(self).ended(), call_of(action)) == relay_step(
                old(self).ended(),
                item_view(item),
            ),
            action is Stop <==> final(self).ended(),
    {
        if self.ended {
            return RelayAction::Stop;
        }
        match item {
            Some(event) => {
                let uuid = uuid_string(event.uuid);
                RelayAction::Deliver(Delivery { uuid, payload: event.value })
            },
            None => {
                self.ended = true;
                RelayAction::Stop
            },
        }
    }

    /// Takes what the callback returned. A failure of the callback stays
    /// here: the relay goes on, and the message is handed back so that it can
    /// be logged.
    pub fn on_callback(&self, outcome: Result<(), String>) -> (failure: Option<String>)
        ensures
            outcome matches Ok(_) ==> failure is None,
            outcome matches Err(message) ==> failure == Some(message),
    {
        match outcome {
            Ok(_) => None,
            Err(message) => Some(message),
        }
    }
}

} // verus!
