//! Fungible assets of a two-sided exchange: chain-native coins and
//! contract-issued tokens behind one interface, in a human-addressed and a
//! canonical form, with the checks and messages that move them.

pub mod asset;
pub mod collaborators;
pub mod error;
pub mod ibc;
pub mod laws;
pub mod message;
pub mod pair;
pub mod vault_factory;
