//! A service core that builds programs from source, derives a content hash
//! from each built artifact, and keeps the package metadata under that hash.

pub mod metadata;
pub mod hashing;
pub mod output;
pub mod pipeline;
pub mod orchestrator;
pub mod service;
