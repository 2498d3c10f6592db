//! A small control-plane library: resolves a local model cache, fetches a
//! model's `config.json` from the model hub on a cache miss, and reports
//! every outcome through a uniform success/error envelope.

pub mod envelope;
pub mod hub;
pub mod downloader;
pub mod gateway;
