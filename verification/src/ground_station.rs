//! The ground station: a publisher whose subscribers are satellites.

use std::collections::HashMap;
use std::rc::Rc;
use vstd::prelude::*;
use vstd::std_specs::iter::IteratorSpec;
use crate::error::SubscriptionError;
use crate::publisher::{Publisher, is_broadcast, is_delivery};
use crate::satellite::{Sat, report_line};
use crate::subscriber::{Delivery, Subscriber};

verus! {

/// A ground station. It holds shared handles to the satellites that have
/// subscribed, each under the satellite's own id.
pub struct GroundStation {
    subscribed_sats: HashMap<u64, Rc<Sat>>,
}

impl View for GroundStation {
    type V = Map<u64, Rc<Sat>>;

    /// The satellites that are subscribed, each under the id it is filed by.
    closed spec fn view(&self) -> Map<u64, Rc<Sat>> {
        self.subscribed_sats@
    }
}

impl GroundStation {
    /// Every satellite is filed under its own id.
    #[verifier::type_invariant]
    spec fn filed_by_id(self) -> bool {
        forall|id: u64| #[trigger]
            self.subscribed_sats@.contains_key(id) ==> self.subscribed_sats@[id].id == id
    }

    /// A ground station with no subscriber.
    pub fn new() -> (station: Self)
        ensures
            station@ == Map::<u64, Rc<Sat>>::empty(),
    {
        GroundStation { subscribed_sats: HashMap::new() }
    }
}

impl Publisher<Sat> for GroundStation {
    open spec fn key_of(subscriber: Sat) -> u64 {
        subscriber.id
    }

    open spec fn subscriptions(&self) -> Map<u64, Rc<Sat>> {
        self@
    }

    fn subscribe(&mut self, subscriber: Rc<Sat>) -> (res: Result<(), SubscriptionError>) {
        proof {
            use_type_invariant(&*self);
        }
        let id: u64 = subscriber.id;
        if self.subscribed_sats.get(&id).is_some() {
            return Err(SubscriptionError::AlreadySubscribed(id));
        }
        // The map is moved out while it changes and put back afterwards.
        let mut sats = HashMap::new();
        std::mem::swap(&mut sats, &mut self.subscribed_sats);
        sats.insert(id, subscriber);
        self.subscribed_sats = sats;
        Ok(())
    }

    fn unsubscribe(&mut self, id: u64) -> (res: Result<(), SubscriptionError>) {
        proof {
            use_type_invariant(&*self);
        }
        // The map is moved out while it changes and put back afterwards.
        let mut sats = HashMap::new();
        std::mem::swap(&mut sats, &mut self.subscribed_sats);
        let removed = sats.remove(&id);
        self.subscribed_sats = sats;
        if removed.is_some() {
            Ok(())
        } else {
            Err(SubscriptionError::NotSubscribed(id))
        }
    }

    /// Each delivery carries the line of the satellite that it names. The
    /// satellites cannot reach the station from `update`, so the
    /// subscriptions do not change while a broadcast runs.
    fn notify(&self, msg: &str) -> (deliveries: Vec<Delivery>)
        ensures
            forall|i: int|
                0 <= i < deliveries.len() ==> (#[trigger] deliveries[i]).report@ == report_line(
                    deliveries[i].id,
                    msg@,
                ),
    {
        proof {
            use_type_invariant(self);
        }
        let mut deliveries: Vec<Delivery> = Vec::new();
        for (id, sat) in it: self.subscribed_sats.iter()
            invariant
                it.seq() == self.subscribed_sats.iter().remaining(),
                it.seq().no_duplicates(),
                deliveries.len() == it.index(),
                forall|i: int|
                    0 <= i < deliveries.len() ==> {
                        &&& (#[trigger] deliveries[i]).id == *it.seq()[i].0
                        &&& deliveries[i].report@ == it.seq()[i].1.report(msg@)
                    },
        {
            deliveries.push(Delivery { id: *id, report: sat.update(msg) });
        }
        proof {
            let subs = self.subscribed_sats@;
            let items = self.subscribed_sats.iter().remaining();
            // Every subscribed id was walked, so a delivery names it.
            assert forall|id: u64| #[trigger] subs.contains_key(id) implies exists|i: int|
                0 <= i < deliveries.len() && #[trigger] deliveries[i].id == id by {
                let i = items.index_of((&id, &subs[id]));
                assert(deliveries[i].id == id);
            }
            // Two items with one id would be one item, and no item is walked twice.
            assert forall|i: int, j: int|
                0 <= i < j < deliveries.len() implies #[trigger] deliveries[i].id
                != #[trigger] deliveries[j].id by {
                assert(subs.contains_key(*items[i].0) && subs.contains_key(*items[j].0));
                assert(deliveries[i].id == deliveries[j].id ==> items[i] == items[j]);
            }
            // Each item walked is a subscription, filed under the satellite's own id.
            assert forall|i: int| 0 <= i < deliveries.len() implies is_delivery(
                subs,
                (#[trigger] deliveries[i]).id,
                msg@,
                deliveries[i],
            ) && deliveries[i].report@ == report_line(deliveries[i].id, msg@) by {
                assert(subs.contains_key(*items[i].0));
            }
        }
        deliveries
    }

    /// The delivery carries the line of the satellite `id`.
    fn notify_to(&self, id: u64, msg: &str) -> (res: Result<Delivery, SubscriptionError>)
        ensures
            res matches Ok(delivery) ==> delivery.report@ == report_line(id, msg@),
    {
        proof {
            use_type_invariant(self);
        }
        if let Some(sat) = self.subscribed_sats.get(&id) {
            Ok(Delivery { id, report: sat.update(msg) })
        } else {
            Err(SubscriptionError::InvalidId(id))
        }
    }
}

} // verus!
