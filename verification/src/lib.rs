//! Operator-node runtime for restaking networks: an event-driven job
//! pipeline (listen, filter, execute, submit), a runner that starts jobs
//! and background services and waits for all of them to finish, and the
//! protocol-registration gate that must pass before anything starts.

pub mod bls377;
pub mod bls381;
pub mod config;
pub mod eigenlayer;
pub mod error;
pub mod k256_ecdsa;
pub mod key_types;
pub mod keystore;
pub mod listener;
pub mod logging;
pub mod pipeline;
pub mod remote;
pub mod runner;
pub mod scripted;
pub mod symbiotic;
pub mod tangle;
