//! The cafeteria: workers take orders from a queue and hand lunches back.
//!
//! A worker is a rule from what happened ([`WorkerEvent`]) to what to do next
//! ([`WorkerAction`]). The threads and the clock belong to the program around this module:
//! it runs the loop and lets the time pass. [`take_order`] and [`hand_over`] talk to the
//! queues and bring back the next event.

use vstd::prelude::*;
use vstd::string::StringExecFns;
use vstd::utf8::encode_utf8;
use crossbeam::channel::{Receiver, Sender};
use crate::text::{contains, occurs_in};

verus! {

/// The sending end of a queue between threads.
#[verifier::external_type_specification]
#[verifier::external_body]
#[verifier::reject_recursive_types(T)]
pub struct ExSender<T>(Sender<T>);

/// The receiving end of a queue between threads.
#[verifier::external_type_specification]
#[verifier::external_body]
#[verifier::reject_recursive_types(T)]
pub struct ExReceiver<T>(Receiver<T>);

/// What the cafeteria serves.
#[derive(Clone, Copy, Debug, PartialEq, Eq, Structural)]
pub enum Lunch {
    Soup,
    Salad,
    Sandwich,
    HotDog,
}

/// The lunch that an order asks for: the first of `soup`, `salad` and `sandwich` that
/// stands in the order decides, and an order that names none of them gets a hot dog.
pub open spec fn lunch_of(order: Seq<char>) -> Lunch {
    if occurs_in(order, "soup"@) {
        Lunch::Soup
    } else if occurs_in(order, "salad"@) {
        Lunch::Salad
    } else if occurs_in(order, "sandwich"@) {
        Lunch::Sandwich
    } else {
        Lunch::HotDog
    }
}

/// The number of pauses, of a tenth of a second each, that preparing an order takes: one
/// for each byte of the order as it is written.
pub open spec fn pauses_of(order: Seq<char>) -> nat {
    encode_utf8(order).len()
}

/// What a worker is told.
#[derive(Clone, Debug, PartialEq, Eq)]
pub enum WorkerEvent {
    /// This order came out of the queue.
    Order(String),
    /// The queue of orders is empty and nobody can add to it any more.
    Closed,
    /// The lunch was handed over.
    Delivered,
    /// Nobody is left to take the lunch.
    Undeliverable,
}

/// What a worker does next.
#[derive(Clone, Copy, Debug, PartialEq, Eq, Structural)]
pub enum WorkerAction {
    /// Pause this many times, then hand over this lunch.
    Prepare { lunch: Lunch, pauses: usize },
    /// Take the next order from the queue.
    TakeOrder,
    /// Go home.
    Leave,
}

/// The worker's rule: an order is prepared, a delivered lunch is followed by the next
/// order, and the worker leaves when the queue is closed or the lunch cannot be delivered.
pub open spec fn next_action(event: WorkerEvent) -> WorkerAction {
    match event {
        WorkerEvent::Order(order) => WorkerAction::Prepare {
            lunch: lunch_of(order@),
            pauses: pauses_of(order@) as usize,
        },
        WorkerEvent::Delivered => WorkerAction::TakeOrder,
        WorkerEvent::Closed => WorkerAction::Leave,
        WorkerEvent::Undeliverable => WorkerAction::Leave,
    }
}

/// The lunch that an order asks for.
pub fn lunch_for(order: &str) -> (lunch: Lunch)
    ensures
        lunch == lunch_of(order@),
{
    if contains(order, "soup") {
        Lunch::Soup
    } else if contains(order, "salad") {
        Lunch::Salad
    } else if contains(order, "sandwich") {
        Lunch::Sandwich
    } else {
        Lunch::HotDog
    }
}

/// What a worker does after `event`.
pub fn cafeteria_worker(event: &WorkerEvent) -> (action: WorkerAction)
    ensures
        action == next_action(*event),
{
    match event {
        WorkerEvent::Order(order) => WorkerAction::Prepare {
            lunch: lunch_for(order.as_str()),
            pauses: order.as_str().len(),
        },
        WorkerEvent::Delivered => WorkerAction::TakeOrder,
        WorkerEvent::Closed => WorkerAction::Leave,
        WorkerEvent::Undeliverable => WorkerAction::Leave,
    }
}

/// `Receiver::recv`, taken on trust: it waits until an order is in the queue and takes it
/// out, or gives `None` once the queue is empty and every sender is gone. Which of the two
/// happens, and which order comes, depends on the other threads: nothing is claimed of
/// the result.
#[verifier::external_body]
fn receive(orders: &Receiver<&'static str>) -> (received: Option<&'static str>) {
    orders.recv().ok()
}

/// `Sender::send`, taken on trust: it puts the lunch into the queue and gives `true`,
/// waiting for room where the queue has a limit, or gives `false` where every receiver is
/// gone. Which of the two happens depends on the other threads: nothing is claimed of the
/// result.
#[verifier::external_body]
fn send(lunches: &Sender<Lunch>, lunch: Lunch) -> (sent: bool) {
    lunches.send(lunch).is_ok()
}

/// What a worker is told after handing a lunch over.
pub open spec fn event_of_delivery(sent: bool) -> WorkerEvent {
    if sent {
        WorkerEvent::Delivered
    } else {
        WorkerEvent::Undeliverable
    }
}

/// What a worker is told after waiting at the queue of orders, from what the queue gave.
pub fn order_event(received: Option<&str>) -> (event: WorkerEvent)
    ensures
        match received {
            Some(order) => event matches WorkerEvent::Order(owned) && owned@ == order@,
            None => event is Closed,
        },
{
    match received {
        Some(order) => WorkerEvent::Order(String::from_str(order)),
        None => WorkerEvent::Closed,
    }
}

/// What a worker is told after handing a lunch over, from whether the queue took it.
pub fn delivery_event(sent: bool) -> (event: WorkerEvent)
    ensures
        event == event_of_delivery(sent),
{
    if sent {
        WorkerEvent::Delivered
    } else {
        WorkerEvent::Undeliverable
    }
}

/// Waits for the next order and tells what came: an order, or the end of the queue. Which
/// of the two, and which order, is up to the other threads.
pub fn take_order(orders: &Receiver<&'static str>) -> (event: WorkerEvent)
    ensures
        event is Order || event is Closed,
{
    order_event(receive(orders))
}

/// Hands the lunch over and tells whether anybody took it, which is up to the other
/// threads.
pub fn hand_over(lunches: &Sender<Lunch>, lunch: Lunch) -> (event: WorkerEvent)
    ensures
        event is Delivered || event is Undeliverable,
{
    delivery_event(send(lunches, lunch))
}

} // verus!
