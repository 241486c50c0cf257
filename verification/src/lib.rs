//! A persistent, TTL-aware key-value cache engine.
//!
//! The engine keeps two tiers: a document of entries that the host persists
//! as a whole, and an in-memory tier of recently used values. Every operation
//! is a function of the engine's state, the document and the current time;
//! reading the clock and the backing file is left to the host.
//!
//! Values are `serde_json` values. The modules `json`, `zlib` and `b64` state
//! what is taken on trust of `serde_json`, `flate2` and `base64`; everything
//! else is proved from that.

pub mod b64;
pub mod cache;
pub mod codec;
pub mod entry;
pub mod error;
pub mod json;
pub mod models;
pub mod persist;
pub mod store;
pub mod sweeper;
pub mod zlib;

pub use cache::Cache;
pub use entry::{CacheDocument, CacheEntry, HotCache, HotCacheEntry};
pub use error::Error;
pub use models::{
    BooleanResponse, CacheConfig, CacheItem, CacheStats, CompressionConfig, EmptyResponse,
    GetRequest, HasRequest, RemoveRequest, SetItemOptions, SetRequest, COMPRESSION_THRESHOLD,
};
