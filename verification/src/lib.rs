//! The observer pattern with one publisher and many subscribers.
//!
//! A publisher keeps its subscribers under numeric ids and hands text
//! messages to all of them ([`Publisher::notify`]) or to one of them
//! ([`Publisher::notify_to`]). Every hand-over is returned to the caller as a
//! [`Delivery`], so that what was delivered, and to whom, is a value that the
//! contracts can speak about.

pub mod decimal;
pub mod error;
pub mod ground_station;
pub mod laws;
pub mod publisher;
pub mod satellite;
pub mod subscriber;

pub use error::SubscriptionError;
pub use ground_station::GroundStation;
pub use publisher::Publisher;
pub use satellite::Sat;
pub use subscriber::{Delivery, Subscriber};
