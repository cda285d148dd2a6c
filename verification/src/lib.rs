//! A typed, capability-aware client core for a home-automation gateway's
//! local HTTP/XML control interface: the challenge/response authentication
//! handshake, the authenticated command dispatch, and the classification of
//! raw device records into typed smart-plug devices with a uniform
//! behavioral interface. HTTP transport and XML parsing live behind the
//! `api::Gateway` trait, outside the verified core.

pub mod api;
pub mod devices;
pub mod encoding;
pub mod error;
