//! Ownership ledger for a registry of non-fungible tokens.
//!
//! A single admin, set once, may mint tokens keyed by a 64-bit id; each token
//! records an owner and an opaque metadata pointer, and the current owner may
//! hand the token on. All state lives in an explicit key-value [`Store`].

pub mod identity;
pub mod laws;
pub mod registry;
pub mod storage;

pub use identity::Identity;
pub use registry::{NFTContract, NftError};
pub use storage::{DataKey, Store};
