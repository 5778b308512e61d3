//! The Payme connector.
pub mod payments;
pub mod refunds;
pub mod sales;
pub mod webhooks;
