//! A generalized non-fungible-token cross-consensus transactor.
//!
//! The crate tracks foreign NFT assets that are represented on this chain by
//! *derivative* class instances.  A foreign asset is identified by a
//! hierarchical reserve locator; once registered, it is backed by a local
//! derivative class, and every foreign instance moves through an
//! `Active` / `Stashed` / nonexistent lifecycle as it is deposited into,
//! withdrawn from, or transferred within this chain.

pub mod assoc_map;
pub mod conversion;
pub mod engine;
pub mod errors;
pub mod laws;
pub mod location;
pub mod misc;
pub mod pallet;
pub mod traits;
pub mod transact_asset;
