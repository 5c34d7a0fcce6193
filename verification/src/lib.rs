//! A locally persisted catalog of AI-model metadata and the policy that
//! answers "which models are free right now" from it.
//!
//! The catalog of each provider is one JSON document. The library decides
//! whether a cached document may be served, when a refresh is owed, which
//! snapshot a refresh persists, and which models of a document are free.
//! Reading the network and the persistent store is left to the caller, who
//! hands in what was read and carries out what is decided.

pub mod cache;
pub mod clock;
pub mod defaults;
pub mod free_models;
pub mod json;
pub mod latch;
pub mod laws;
pub mod paths;
pub mod provider;
pub mod record;
pub mod store;
pub mod types;
pub mod update;
