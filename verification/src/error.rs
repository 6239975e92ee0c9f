//! Why a publisher turned a request down.

use vstd::prelude::*;

verus! {

/// The reason for which a publisher refused a request. Each variant carries
/// the id that the request named.
#[derive(Debug, Clone, Copy, PartialEq, Eq, Structural)]
pub enum SubscriptionError {
    /// `subscribe` found the id already taken; the earlier subscription stays.
    AlreadySubscribed(u64),
    /// `unsubscribe` found no subscription under the id.
    NotSubscribed(u64),
    /// `notify_to` found no subscription under the id.
    InvalidId(u64),
}

} // verus!
