//! An owner-controlled authority registry that gates the minting of
//! one-of-one non-fungible tokens through the token-metadata protocol.
//!
//! The ledger that hosts the program performs the sub-invocations and
//! commits or discards an operation as a whole. This library holds the rules:
//! who may change the registry, which addresses a mint touches, which
//! instructions are handed to the token-metadata program and in which order,
//! and when the issuance counter moves.

pub mod address;
pub mod constants;
pub mod derive;
pub mod error;
pub mod mint;
pub mod protocol;
pub mod registry;
pub mod storage;

pub use address::Address;
pub use error::ErrorCode;
pub use mint::{minting_nft, MintSession, MintStage, MintingNFT};
pub use registry::{initialize, update_config, Configuration, Initialize, UpdateConfig};
