//! What the operations are for, told of their arguments and results.
//!
//! A law says of a call what a caller may count on: which value stands where, which result
//! comes exactly when, and how calls relate.
pub mod server_run;
pub mod connector_step;
pub mod pages;
pub mod refunds;
pub mod authentication;
pub mod answers;
pub mod links;
pub mod fraud_check;
pub mod recovery;
pub mod requests;
pub mod checkout;
pub mod webhooks;
pub mod payme;
pub mod address;
pub mod payouts;
pub mod basics;
