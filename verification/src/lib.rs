//! Transactions of a bridge between Ethereum and CKB, planned and checked.
//!
//! The library decides what goes into each transaction: cell deps, inputs,
//! outputs, witness, tokens to spend and fee. It keeps the light client's
//! chain of Ethereum headers. Talking to the nodes, and encoding the cell data
//! of the bridge's own contracts, is left to its callers.

pub mod bridge;
pub mod bytes;
pub mod call_laws;
pub mod chain;
pub mod chain_laws;
pub mod chain_results;
pub mod ckb;
pub mod config;
pub mod error;
pub mod generator;
pub mod hexadecimal;
pub mod light_client;
pub mod molecule;
pub mod plan;
pub mod plan_contents;
pub mod plan_laws;
pub mod terms;
pub mod tokens;
pub mod types;
