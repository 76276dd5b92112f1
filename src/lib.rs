//! Turns an HTTP query into a product event, frames it for a keyed
//! record stream, and composes the reply that reports the delivery.

pub mod query;
pub mod timestamp;
pub mod json;
pub mod event;
pub mod publish;
pub mod handler;
