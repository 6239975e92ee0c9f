//! What follows from the promises of a publisher, whatever publisher it is.
//!
//! Each statement here is about the spec functions that the methods of
//! [`crate::publisher::Publisher`] are specified by, so it holds of every
//! sequence of calls that they describe.

use std::rc::Rc;
use vstd::prelude::*;
use crate::error::SubscriptionError;
use crate::publisher::{
    after_subscribe,
    after_unsubscribe,
    is_broadcast,
    subscribe_verdict,
    unsubscribe_verdict,
};
use crate::subscriber::{Delivery, Subscriber};

verus! {

/// The number of deliveries in `deliveries` that name `id`.
pub open spec fn times_served(deliveries: Seq<Delivery>, id: u64) -> nat
    decreases deliveries.len(),
{
    if deliveries.len() == 0 {
        0
    } else {
        let earlier = times_served(deliveries.drop_last(), id);
        if deliveries.last().id == id {
            earlier + 1
        } else {
            earlier
        }
    }
}

/// Subscribing under a free id succeeds: afterwards the id is subscribed,
/// it stands for the new subscriber, and every other subscription is as it
/// was.
pub proof fn lemma_subscribe_free_id<S>(subs: Map<u64, S>, id: u64, subscriber: S)
    requires
        !subs.contains_key(id),
    ensures
        subscribe_verdict(subs, id) == Ok::<(), SubscriptionError>(()),
        after_subscribe(subs, id, subscriber).contains_key(id),
        after_subscribe(subs, id, subscriber)[id] == subscriber,
        after_subscribe(subs, id, subscriber).remove(id) == subs,
{
    assert(subs.insert(id, subscriber).remove(id) =~= subs);
}

/// Subscribing under a taken id is refused with `AlreadySubscribed`, and the
/// subscriptions stay as they were: the id keeps its earlier subscriber.
pub proof fn lemma_subscribe_taken_id<S>(subs: Map<u64, S>, id: u64, subscriber: S)
    requires
        subs.contains_key(id),
    ensures
        subscribe_verdict(subs, id) == Err::<(), SubscriptionError>(
            SubscriptionError::AlreadySubscribed(id),
        ),
        after_subscribe(subs, id, subscriber) == subs,
{
}

/// Unsubscribing a subscribed id succeeds and frees the id without touching
/// the others; unsubscribing it once more is refused with `NotSubscribed`
/// and changes nothing.
pub proof fn lemma_unsubscribe_twice<S>(subs: Map<u64, S>, id: u64)
    requires
        subs.contains_key(id),
    ensures
        unsubscribe_verdict(subs, id) == Ok::<(), SubscriptionError>(()),
        !after_unsubscribe(subs, id).contains_key(id),
        forall|other: u64|
            other != id ==> (#[trigger] after_unsubscribe(subs, id).contains_key(other)
                <==> subs.contains_key(other)),
        forall|other: u64|
            other != id && subs.contains_key(other) ==> #[trigger] after_unsubscribe(
                subs,
                id,
            )[other] == subs[other],
        unsubscribe_verdict(after_unsubscribe(subs, id), id) == Err::<(), SubscriptionError>(
            SubscriptionError::NotSubscribed(id),
        ),
        after_unsubscribe(after_unsubscribe(subs, id), id) == after_unsubscribe(subs, id),
{
}

/// An id is free again once it was unsubscribed: after subscribing under
/// `id` and unsubscribing `id`, whatever the first request was answered,
/// a subscriber is accepted under `id` and is the one filed there.
pub proof fn lemma_resubscribe<S>(subs: Map<u64, S>, id: u64, first: S, second: S)
    ensures
        unsubscribe_verdict(after_subscribe(subs, id, first), id) == Ok::<(), SubscriptionError>(
            (),
        ),
        subscribe_verdict(after_unsubscribe(after_subscribe(subs, id, first), id), id) == Ok::<
            (),
            SubscriptionError,
        >(()),
        after_subscribe(after_unsubscribe(after_subscribe(subs, id, first), id), id, second)
            == subs.insert(id, second),
{
    let freed = after_unsubscribe(after_subscribe(subs, id, first), id);
    assert(freed =~= subs.remove(id));
    assert(freed.insert(id, second) =~= subs.insert(id, second));
}

/// Where no delivery in `deliveries` names `id`, `id` is served zero times.
proof fn lemma_not_named_not_served(deliveries: Seq<Delivery>, id: u64)
    requires
        forall|i: int| 0 <= i < deliveries.len() ==> (#[trigger] deliveries[i]).id != id,
    ensures
        times_served(deliveries, id) == 0,
    decreases deliveries.len(),
{
    if deliveries.len() > 0 {
        lemma_not_named_not_served(deliveries.drop_last(), id);
    }
}

/// Where the deliveries name pairwise different ids and one of them names
/// `id`, `id` is served once.
proof fn lemma_named_once_served_once(deliveries: Seq<Delivery>, id: u64, at: int)
    requires
        0 <= at < deliveries.len(),
        deliveries[at].id == id,
        forall|i: int, j: int|
            0 <= i < j < deliveries.len() ==> #[trigger] deliveries[i].id
                != #[trigger] deliveries[j].id,
    ensures
        times_served(deliveries, id) == 1,
    decreases deliveries.len(),
{
    let earlier = deliveries.drop_last();
    if at == deliveries.len() - 1 {
        assert forall|i: int| 0 <= i < earlier.len() implies (#[trigger] earlier[i]).id != id by {
            assert(deliveries[i].id != deliveries[at].id);
        }
        lemma_not_named_not_served(earlier, id);
    } else {
        assert(deliveries[at].id != deliveries[deliveries.len() - 1].id);
        assert forall|i: int, j: int| 0 <= i < j < earlier.len() implies #[trigger] earlier[i].id
            != #[trigger] earlier[j].id by {
            assert(deliveries[i].id != deliveries[j].id);
        }
        lemma_named_once_served_once(earlier, id, at);
    }
}

/// A broadcast serves every subscribed id exactly once and every other id
/// not at all.
pub proof fn lemma_broadcast_serves_once<T: Subscriber>(
    subs: Map<u64, Rc<T>>,
    msg: Seq<char>,
    deliveries: Seq<Delivery>,
    id: u64,
)
    requires
        is_broadcast(subs, msg, deliveries),
    ensures
        times_served(deliveries, id) == if subs.contains_key(id) {
            1nat
        } else {
            0nat
        },
{
    if subs.contains_key(id) {
        let at = choose|i: int| 0 <= i < deliveries.len() && #[trigger] deliveries[i].id == id;
        lemma_named_once_served_once(deliveries, id, at);
    } else {
        assert forall|i: int| 0 <= i < deliveries.len() implies (#[trigger] deliveries[i]).id
            != id by {
            assert(subs.contains_key(deliveries[i].id));
        }
        lemma_not_named_not_served(deliveries, id);
    }
}

} // verus!
