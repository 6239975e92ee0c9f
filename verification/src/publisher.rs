//! The publishing side: the operations of a publisher and what they promise.
//!
//! The state of a publisher is a finite map from ids to subscribers. The spec
//! functions of this module say what each operation answers and what it
//! leaves behind, as functions on such maps; the methods of [`Publisher`]
//! promise exactly that.

use std::rc::Rc;
use vstd::prelude::*;
use crate::error::SubscriptionError;
use crate::subscriber::{Delivery, Subscriber};

verus! {

/// What `subscribe` answers when asked to file a subscriber under `id`:
/// a refusal if the id is taken, success otherwise.
pub open spec fn subscribe_verdict<S>(subs: Map<u64, S>, id: u64) -> Result<(), SubscriptionError> {
    if subs.contains_key(id) {
        Err(SubscriptionError::AlreadySubscribed(id))
    } else {
        Ok(())
    }
}

/// The subscriptions after `subscribe` was asked to file `subscriber` under
/// `id`: a taken id keeps its earlier subscriber, a free one gets the new.
pub open spec fn after_subscribe<S>(subs: Map<u64, S>, id: u64, subscriber: S) -> Map<u64, S> {
    if subs.contains_key(id) {
        subs
    } else {
        subs.insert(id, subscriber)
    }
}

/// What `unsubscribe` answers when asked to drop `id`: a refusal if nothing
/// is filed under the id, success otherwise.
pub open spec fn unsubscribe_verdict<S>(subs: Map<u64, S>, id: u64) -> Result<
    (),
    SubscriptionError,
> {
    if subs.contains_key(id) {
        Ok(())
    } else {
        Err(SubscriptionError::NotSubscribed(id))
    }
}

/// The subscriptions after `unsubscribe` was asked to drop `id`.
pub open spec fn after_unsubscribe<S>(subs: Map<u64, S>, id: u64) -> Map<u64, S> {
    if subs.contains_key(id) {
        subs.remove(id)
    } else {
        subs
    }
}

/// `delivery` records that `msg` was handed to the subscriber filed under
/// `id`: the id is subscribed, the delivery names it, and the report is the
/// one that this subscriber makes of `msg`.
pub open spec fn is_delivery<T: Subscriber>(
    subs: Map<u64, Rc<T>>,
    id: u64,
    msg: Seq<char>,
    delivery: Delivery,
) -> bool {
    &&& subs.contains_key(id)
    &&& delivery.id == id
    &&& delivery.report@ == subs[id].report(msg)
}

/// `deliveries` records that `msg` was handed to every subscriber once: no
/// two deliveries name the same id, every subscribed id is named by one, and
/// each delivery is the hand-over of `msg` to a subscribed id. The order of
/// the deliveries is left open.
pub open spec fn is_broadcast<T: Subscriber>(
    subs: Map<u64, Rc<T>>,
    msg: Seq<char>,
    deliveries: Seq<Delivery>,
) -> bool {
    &&& deliveries.len() == subs.dom().len()
    &&& forall|i: int, j: int|
        0 <= i < j < deliveries.len() ==> #[trigger] deliveries[i].id != #[trigger] deliveries[j].id
    &&& forall|id: u64| #[trigger]
        subs.contains_key(id) ==> exists|i: int|
            0 <= i < deliveries.len() && #[trigger] deliveries[i].id == id
    &&& forall|i: int|
        0 <= i < deliveries.len() ==> is_delivery(
            subs,
            (#[trigger] deliveries[i]).id,
            msg,
            deliveries[i],
        )
}

/// A keeper of subscribers that hands messages to all of them or to one.
pub trait Publisher<T: Subscriber> {
    /// The id under which this publisher files `subscriber`.
    spec fn key_of(subscriber: T) -> u64;

    /// The subscriptions held now: each subscribed id with its subscriber.
    spec fn subscriptions(&self) -> Map<u64, Rc<T>>;

    /// Files `subscriber` under its id. Where the id is taken the request is
    /// refused with `AlreadySubscribed` and nothing changes: the earlier
    /// subscriber is not replaced.
    fn subscribe(&mut self, subscriber: Rc<T>) -> (res: Result<(), SubscriptionError>)
        ensures
            res == subscribe_verdict(old(self).subscriptions(), Self::key_of(*subscriber)),
            final(self).subscriptions() == after_subscribe(
                old(self).subscriptions(),
                Self::key_of(*subscriber),
                subscriber,
            ),
    ;

    /// Drops the subscription filed under `id`. Where there is none the
    /// request is refused with `NotSubscribed` and nothing changes.
    fn unsubscribe(&mut self, id: u64) -> (res: Result<(), SubscriptionError>)
        ensures
            res == unsubscribe_verdict(old(self).subscriptions(), id),
            final(self).subscriptions() == after_unsubscribe(old(self).subscriptions(), id),
    ;

    /// Hands `msg` to every subscriber, once each, in no particular order,
    /// and returns the deliveries made.
    fn notify(&self, msg: &str) -> (deliveries: Vec<Delivery>)
        ensures
            is_broadcast(self.subscriptions(), msg@, deliveries@),
    ;

    /// Hands `msg` to the subscriber filed under `id` and returns that one
    /// delivery. Where nothing is filed under `id` the request is refused
    /// with `InvalidId` and nothing is delivered.
    fn notify_to(&self, id: u64, msg: &str) -> (res: Result<Delivery, SubscriptionError>)
        ensures
            match res {
                Ok(delivery) => is_delivery(self.subscriptions(), id, msg@, delivery),
                Err(e) => !self.subscriptions().contains_key(id) && e
                    == SubscriptionError::InvalidId(id),
            },
    ;
}

} // verus!
