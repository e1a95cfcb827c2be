//! Ingress runtime of a replica under test: wire messages, their JSON codec,
//! bounded FIFO queues and the handlers that fill them.

pub mod client;
pub mod decimal;
pub mod handlers;
pub mod json;
pub mod listener;
pub mod params;
pub mod queue;
pub mod time;
pub mod types;
pub mod wire;
