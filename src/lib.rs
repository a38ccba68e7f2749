//! Federated actor identity for blogs: canonical URLs and their one-time
//! backfill, WebFinger discovery documents, key generation and request
//! signing, over an in-memory store of actors and instances.

pub mod blogs;
pub mod keys;
pub mod store;
pub mod urls;
