//! A satellite: the subscriber that a ground station talks to.

use vstd::prelude::*;
use vstd::string::StringExecFns;
use crate::decimal::{decimal, push_decimal};
use crate::subscriber::Subscriber;

verus! {

/// A satellite, known by its id.
#[derive(Debug, Clone, Copy, PartialEq, Eq)]
pub struct Sat {
    /// The id that tells this satellite from the others.
    pub id: u64,
}

/// The line that the satellite `id` reports on receiving `msg`:
/// `Satellite <id> received this message: <msg>`, the id in decimal.
pub open spec fn report_line(id: u64, msg: Seq<char>) -> Seq<char> {
    "Satellite "@ + decimal(id as nat) + " received this message: "@ + msg
}

impl Sat {
    /// A satellite with the given id.
    pub fn new(id: u64) -> (sat: Self)
        ensures
            sat.id == id,
    {
        Self { id }
    }
}

impl Subscriber for Sat {
    open spec fn report(&self, msg: Seq<char>) -> Seq<char> {
        report_line(self.id, msg)
    }

    /// Receives `msg` and returns the line that names this satellite and
    /// repeats the message.
    fn update(&self, msg: &str) -> (report: String) {
        let mut line = String::from_str("Satellite ");
        push_decimal(&mut line, self.id);
        line.append(" received this message: ");
        line.append(msg);
        line
    }
}

} // verus!
