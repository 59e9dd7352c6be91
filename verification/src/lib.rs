//! Verified ingestion of signed repository webhooks: authenticate a delivery,
//! decode it, normalise it and keep a bounded history of what arrived.

pub mod signature;
pub mod json;
pub mod source;
pub mod push;
pub mod event;
pub mod normalize;
pub mod decode;
pub mod history;
pub mod ingest;
