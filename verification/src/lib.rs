//! A webhook core for a cloud pub/sub listener: classifies inbound
//! deliveries by their message-type header, decodes the delivery envelopes
//! (including the double-encoded alarm payload of notifications), and decides
//! the subscription-confirmation handshake.

pub mod confirm;
pub mod digits;
pub mod errors;
pub mod service;
pub mod json;
pub mod notification;
pub mod registry;
pub mod subscription;
