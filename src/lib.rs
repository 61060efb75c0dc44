//! Self-update engine: compares a published release manifest with a local
//! installation, plans what to download and what to delete, and drives the
//! download, verification and cleanup phases through an ordered stream of
//! progress events.
pub mod text;
pub mod manifest;
pub mod digest;
pub mod scan;
pub mod plan;
pub mod progress;
pub mod engine;
pub mod view;

pub use manifest::{convert_hash_algorithm, hash_algorithm, FileInfo, HashAlgorithm, Info};
