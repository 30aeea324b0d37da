//! Repository encryption management around the Age file format, with a
//! hierarchical key-authority model (Skull, Master, Repo, Ignition, Distro).
use vstd::prelude::*;

pub mod adapter;
pub mod audit;
pub mod authority_proof;
pub mod bridge;
pub mod bytes;
pub mod chain;
pub mod error;
pub mod external;
pub mod fingerprint;
pub mod generator;
pub mod ignition;
pub mod key;
pub mod key_type;
pub mod ordering;
pub mod repository;
pub mod security;

pub use chain::AuthorityChain;
pub use key::AuthorityKey;
pub use key_type::KeyType;

verus! {

} // verus!
