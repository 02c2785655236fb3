//! A registry of decentralized identifiers: documents bound to Ed25519 keys,
//! the rules for creating, resolving, updating and deactivating them, and the
//! codecs and digests they are built from.

pub mod api;
pub mod did;
pub mod ledger;
pub mod registry;
pub mod store;
pub mod types;
pub mod utils;
