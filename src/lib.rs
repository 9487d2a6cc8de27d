//! A per-request batching, caching data loader for a GraphQL backend,
//! together with the domain error taxonomy and the decision logic of the
//! repositories that feed it.

pub mod errors;
pub mod loader;
pub mod models;
pub mod batch;
pub mod repository;
