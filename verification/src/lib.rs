//! Verified core of a payment switch: connector request and response mapping,
//! webhook routing, refunds, address book, fraud checks, recovery decisions and
//! the HTTP answers built from them.
pub mod consts;
pub mod text;
pub mod json;
pub mod web_url;
pub mod secret;
pub mod enums;
pub mod errors;
pub mod time_types;
pub mod payment_data;
pub mod router_data;
pub mod webhooks;
pub mod checkout;
pub mod payme;
pub mod api;
pub mod authentication;
pub mod fraud_check;
pub mod recovery;
pub mod cancel_flow;
pub mod refunds;
pub mod address;
pub mod payouts;
pub mod laws;
