//! A subscription-billing registry: administrators register purchasable
//! modules with a per-day price, and users prepay for time-bounded access.
//! The registry allocates module IDs, records subscriptions, and answers
//! point-in-time queries about whether a subscription is currently active.

pub mod laws;
pub mod records;
pub mod registry;

pub use records::SaaSModule;
pub use records::SubscribeError;
pub use records::Subscription;
pub use registry::MicroSubscriptionContract;
