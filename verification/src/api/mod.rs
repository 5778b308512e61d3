//! What the switch answers over HTTP, and how it calls connectors.
pub mod authenticate;
pub mod connector_step;
pub mod enhancement;
pub mod headers;
pub mod payment_link;
pub mod redirection;
pub mod redirection_text;
pub mod response;
pub mod server;
