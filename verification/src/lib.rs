//! Runtime selection of an AI-service backend behind two narrow capability
//! surfaces.
//!
//! A [`Provider`] names one supported backend and maps to and from its
//! persisted text form. A [`Client`] holds exactly one constructed backend
//! client, tagged by the provider it was built for. From a client, callers
//! mint capability handles bound to one model name: completions are offered
//! by every backend, embeddings only by some.

pub mod backend;
pub mod capability;
pub mod client;
pub mod provider;

pub use capability::CompletionCapability;
pub use capability::EmbeddingCapability;
pub use client::Client;
pub use client::ConstructionError;
pub use provider::EmbeddingSupport;
pub use provider::ParseError;
pub use provider::Provider;
