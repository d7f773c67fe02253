//! A registry of decentralized identifiers: bounded, duplicate-free sets of DIDs kept
//! under a Solana or Ethereum authority key, or under a controlling DID, with the
//! authorization rules that guard every change.

pub mod error;
pub mod eth_signing;
pub mod members;
pub mod oracle;
pub mod program;
pub mod size;
pub mod state;
