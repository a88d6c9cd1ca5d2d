//! Companion library for an air-gapped signing device.
//!
//! The library holds only public key material. It derives watch-only
//! account addresses from a scanned extended public key, encodes signing
//! requests into a type-tagged multi-frame transport, decodes and checks
//! the signer's reply, assembles unsigned transactions from chain state,
//! and drives a forward-only session from network selection to execution.

pub mod address;
pub mod amount;
pub mod config;
pub mod errors;
pub mod flows;
pub mod hexutil;
pub mod keys;
pub mod protocol;
pub mod registry;
pub mod session;
pub mod suggest;
pub mod transport;
pub mod txn;
