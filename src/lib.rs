//! Verified core of a local dream journal: the record model and its column
//! codec, the filtered listing query, the store's write decisions and the PIN
//! hasher.

pub mod codec;
pub mod models;
pub mod query;
pub mod security;
pub mod store;
