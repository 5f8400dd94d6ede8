//! A broadcast relay for a duplex messaging channel: a registry of live
//! connections, routing of gateway events, and a fan-out engine that delivers
//! one message to every registered connection and prunes those that fail.
pub mod codec;
pub mod config;
pub mod error;
pub mod fanout;
pub mod lifecycle;
pub mod registry;
pub mod router;
pub mod schema;
