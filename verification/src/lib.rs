//! Trust-and-storage layer for an end-to-end messaging protocol engine.
//!
//! This crate owns the canonical representation, ordering and serialization
//! of elliptic-curve key material, the capability traits through which an
//! application supplies durable storage and trust decisions, the adapters
//! that turn those traits into the integer status-code contract the engine
//! speaks, and a store-context facade exposing CRUD over persisted protocol
//! state. Curve arithmetic and text encoding are supplied by outside crates
//! behind a small set of trusted primitives.

pub mod adapter;
pub mod address;
pub mod bytecmp;
pub mod engine;
pub mod error;
pub mod keys;
pub mod memory;
pub mod records;
pub mod store_context;
pub mod stores;

pub use address::Address;
pub use error::SignalError;
pub use keys::{KeyPair, PrivateKey, PublicKey};
pub use records::{PreKeyRecord, SessionRecord, SignedPreKeyRecord};
pub use store_context::StoreContext;
pub use stores::{IdentityKeyStore, PreKeyStore, SessionStore, SignedPreKeyStore};
