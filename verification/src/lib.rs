//! Access-controlled media resource store.
//!
//! Lightweight metadata (ownership, access rights, content type) lives in a
//! document store; the bytes themselves live in a distributed blob store
//! reached over HTTP. This crate holds the resource abstraction layer: the
//! allocation protocol, the per-resource access-control policy, the volume
//! address cache of the blob backend client, the metadata-store semantics,
//! and the credential engine. The surrounding HTTP plumbing is not part of
//! this crate.

pub mod error;
pub mod resource;
pub mod seaweed;
pub mod seaweed_client;
pub mod sessions;
pub mod store;
pub mod user;
