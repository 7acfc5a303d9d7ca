//! Relaying oracle price proofs to chains, built on a failover client that
//! runs each operation against a primary endpoint and, once the primary has
//! failed, against a backup for the rest of the client's life.
//!
//! The routing decisions are a state machine ([`failover::Execution`]) that
//! the caller drives: it runs the operation against the endpoint the machine
//! names, hands the outcome back, and either returns the result or fails over.
//! [`client::FailoverClient`] holds the endpoints and the shared routing state
//! ([`routing::RoutingState`]).

pub mod client;
pub mod config;
pub mod failover;
pub mod msg;
pub mod pull;
pub mod routing;
pub mod state;
