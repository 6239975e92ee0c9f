//! The receiving side: what a subscriber is, and the record of one hand-over.

use vstd::prelude::*;

verus! {

/// Something that can be handed a text message.
///
/// A subscriber answers each message with a report: the text that it wants
/// written out for it. Writing the report is left to the caller, so receiving
/// a message has no effect beyond the value returned.
pub trait Subscriber {
    /// The report that this subscriber makes of the message `msg`.
    spec fn report(&self, msg: Seq<char>) -> Seq<char>;

    /// Receives `msg` and returns the report of it. This cannot fail.
    fn update(&self, msg: &str) -> (report: String)
        ensures
            report@ == self.report(msg@),
    ;
}

/// One message handed to one subscriber.
#[derive(Debug, PartialEq, Eq)]
pub struct Delivery {
    /// The id under which the publisher held the subscriber.
    pub id: u64,
    /// What the subscriber reported on receiving the message.
    pub report: String,
}

} // verus!
