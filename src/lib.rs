//! Bringing up a local development network: which services a backend
//! choice needs, and the order in which a run resets, starts and waits on
//! them before it reports the endpoints.
pub mod devnet;
pub mod report;
pub mod topology;
