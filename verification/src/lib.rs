//! A URL shortener core: short-identifier grammar and minting, URL
//! admission (percent-decoding and scheme policy), and the create/retrieve
//! protocol against a persistent identifier-to-URL store.

pub mod id;
pub mod routes;
pub mod store;
pub mod url;

pub use id::valid_id;
