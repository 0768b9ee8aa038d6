//! The negative cache's key: a stable fingerprint of what was searched.

pub mod signature;
