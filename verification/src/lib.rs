//! Remote-access control layer for a distributed secret-vault node.
//!
//! The crate decides, for every inbound peer request, whether the requesting
//! peer may touch a given vault, record, or key-value store on this node:
//! a permission model with default/exception semantics, a total classifier
//! from requests to required capabilities, a firewall evaluator, and a
//! serializable request envelope with a matching result protocol.

pub mod access;
pub mod byte_map;
pub mod codec;
pub mod config;
pub mod firewall;
pub mod permissions;
pub mod request;
pub mod result;
