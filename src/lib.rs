//! A passwordless identity service core: a key-value storage backend chosen
//! from a storage location, an index from `(hash, public key)` pairs to user
//! identifiers, and the resolve-or-create protocol that drives a store one
//! action at a time.

/// Building strings: appending characters and decimal numbers.
pub mod text;
/// The index of composite keys and how a composite key is derived.
pub mod pub_keys;
/// Storage locations and the choice of backend.
pub mod client;
/// User records and the resolve-or-create protocol.
pub mod user;
/// Request authentication and responses.
pub mod handlers;
