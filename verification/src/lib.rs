//! Chain specifications and service planning for a BABE/GRANDPA node template.
//!
//! The library builds the genesis configuration of the development and local
//! test networks from well-known development keys, and holds the decisions that
//! the node's service setup makes before it starts its components.
//!
//! - `keys`: development key derivation from secret URIs.
//! - `genesis`: the genesis configuration model and `testnet_genesis`.
//! - `chain_spec`: the development and local testnet chain specifications.
//! - `service`: the executor marker type and the service setup decisions.

pub mod keys;
pub mod genesis;
pub mod chain_spec;
pub mod service;
