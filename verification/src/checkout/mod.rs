//! The Checkout connector.
pub mod captures;
pub mod disputes;
pub mod payments;
pub mod refunds;
pub mod tokens;
pub mod webhooks;
