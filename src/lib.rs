//! A sidecar's lifecycle client: registration with the host, decoding of
//! lifecycle events, the polling state machine, and the decisions of the
//! payload forwarding endpoint.
pub mod json;
pub mod client;
pub mod event_loop;
pub mod forward;
