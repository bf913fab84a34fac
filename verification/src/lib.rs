//! An NFT metadata ingestion pipeline: mint decoding, URI resolution,
//! metadata normalisation, media mirroring and idempotent persistence.

pub mod chain;
pub mod digest;
pub mod ingest;
pub mod job;
pub mod json;
pub mod machine;
pub mod media;
pub mod metadata;
pub mod store;
pub mod uri;
pub mod worker;
