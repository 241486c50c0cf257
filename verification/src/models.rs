//! The plain data that callers exchange with the cache: options, requests,
//! responses and configuration.

use vstd::prelude::*;

verus! {

/// The payload size in bytes from which compression is applied by default.
pub const COMPRESSION_THRESHOLD: usize = 1024;

/// The seconds between two sweeps where the configuration names none.
pub const DEFAULT_CLEANUP_INTERVAL: u64 = 60;

/// The compression level where the configuration names none.
pub const DEFAULT_COMPRESSION_LEVEL: u32 = 6;

/// The highest compression level that the codec accepts.
pub const MAX_COMPRESSION_LEVEL: u32 = 9;

/// The name of the cache file where the configuration names none.
pub const DEFAULT_CACHE_FILE_NAME: &'static str = "tauri_cache.json";

/// Where the directory of the cache file lies.
#[derive(Debug)]
pub enum CacheDirectory {
    /// The host's own cache directory.
    HostCacheDir,
    /// The directory of this relative path below the host's cache directory.
    Below(String),
}

/// The directory that a configured one stands for. The cache never leaves
/// the host's cache directory: a relative path is taken below it, and of an
/// absolute path only the last component is, if it has one.
pub open spec fn directory_for(
    custom_dir: Option<String>,
    is_absolute: bool,
    last_component: Option<String>,
) -> CacheDirectory {
    match custom_dir {
        None => CacheDirectory::HostCacheDir,
        Some(dir) => if is_absolute {
            match last_component {
                Some(component) => CacheDirectory::Below(component),
                None => CacheDirectory::HostCacheDir,
            }
        } else {
            CacheDirectory::Below(dir)
        },
    }
}

/// Chooses the directory of the cache file from a configured directory,
/// given whether that path is absolute and what its last component is.
pub fn cache_directory(
    custom_dir: Option<String>,
    is_absolute: bool,
    last_component: Option<String>,
) -> (r: CacheDirectory)
    ensures
        r == directory_for(custom_dir, is_absolute, last_component),
{
    match custom_dir {
        None => CacheDirectory::HostCacheDir,
        Some(dir) => {
            if is_absolute {
                match last_component {
                    Some(component) => CacheDirectory::Below(component),
                    None => CacheDirectory::HostCacheDir,
                }
            } else {
                CacheDirectory::Below(dir)
            }
        },
    }
}

/// Options for setting an item in the cache.
#[derive(Debug, Clone, Copy, PartialEq, Eq)]
pub struct SetItemOptions {
    /// Time-to-live in seconds from now. Absent or zero means the item never expires.
    pub ttl: Option<u64>,
    /// Whether to compress the value, overriding the cache's default for this call.
    pub compress: Option<bool>,
}

/// A cache item with its value and expiration time.
#[derive(Debug, Clone)]
pub struct CacheItem<T> {
    /// The stored value.
    pub value: T,
    /// Unix timestamp in seconds when this item expires, if it does.
    pub expires_at: Option<u64>,
    /// Whether the value is held in its compressed form.
    pub is_compressed: Option<bool>,
}

/// Request to set an item in the cache.
#[derive(Debug)]
pub struct SetRequest<T> {
    /// The key to store the value under.
    pub key: String,
    /// The value to store.
    pub value: T,
    /// Options for this cache item.
    pub options: Option<SetItemOptions>,
}

/// Request to get an item from the cache.
#[derive(Debug)]
pub struct GetRequest {
    /// The key to retrieve.
    pub key: String,
}

/// Request to remove an item from the cache.
#[derive(Debug)]
pub struct RemoveRequest {
    /// The key to remove.
    pub key: String,
}

/// Request to check if an item exists in the cache.
#[derive(Debug)]
pub struct HasRequest {
    /// The key to check.
    pub key: String,
}

/// Counts of the entries in the persisted document.
#[derive(Debug, Clone, Copy, PartialEq, Eq)]
pub struct CacheStats {
    /// Number of entries, including expired ones that have not been swept yet.
    pub total_size: usize,
    /// Number of entries that have no expiration or expire in the future.
    pub active_size: usize,
}

impl Default for CacheStats {
    fn default() -> (r: Self)
        ensures
            r.total_size == 0,
            r.active_size == 0,
    {
        CacheStats { total_size: 0, active_size: 0 }
    }
}

/// Response containing a boolean value.
#[derive(Debug, Clone, Copy, PartialEq, Eq)]
pub struct BooleanResponse {
    /// The boolean value.
    pub value: bool,
}

impl Default for BooleanResponse {
    fn default() -> (r: Self)
        ensures
            !r.value,
    {
        BooleanResponse { value: false }
    }
}

/// Empty response for operations that return no value.
#[derive(Debug, Clone, Copy, PartialEq, Eq)]
pub struct EmptyResponse {}

impl Default for EmptyResponse {
    fn default() -> (r: Self) {
        EmptyResponse {  }
    }
}

/// The compression policy of a cache: set once, read by every operation.
#[derive(Debug, Clone, Copy, PartialEq, Eq)]
pub struct CompressionConfig {
    /// Whether values are compressed where a call does not say.
    pub enabled: bool,
    /// Compression level, from 0 (none) to 9 (smallest output).
    pub level: u32,
    /// Size in bytes below which a payload is stored raw even when compression is on.
    pub threshold: usize,
}

impl CompressionConfig {
    /// Whether the level lies on the scale that the codec accepts.
    pub open spec fn well_formed(&self) -> bool {
        self.level <= MAX_COMPRESSION_LEVEL
    }

    /// Whether a payload of `len` bytes is compressed under this policy:
    /// compression is on and the payload has reached the threshold.
    pub open spec fn compresses(&self, len: nat) -> bool {
        self.enabled && len >= self.threshold
    }

    /// The policy that the given settings stand for, with the default level
    /// and threshold where one is absent.
    pub open spec fn from_settings_spec(
        enabled: bool,
        level: Option<u32>,
        threshold: Option<usize>,
    ) -> CompressionConfig {
        CompressionConfig {
            enabled,
            level: match level {
                Some(l) => l,
                None => DEFAULT_COMPRESSION_LEVEL,
            },
            threshold: match threshold {
                Some(t) => t,
                None => COMPRESSION_THRESHOLD,
            },
        }
    }

    /// Builds a policy from optional settings, filling in the defaults.
    pub fn from_settings(enabled: bool, level: Option<u32>, threshold: Option<usize>) -> (r:
        CompressionConfig)
        ensures
            r == Self::from_settings_spec(enabled, level, threshold),
    {
        CompressionConfig {
            enabled,
            level: match level {
                Some(l) => l,
                None => DEFAULT_COMPRESSION_LEVEL,
            },
            threshold: match threshold {
                Some(t) => t,
                None => COMPRESSION_THRESHOLD,
            },
        }
    }
}

impl Default for CompressionConfig {
    fn default() -> (r: Self)
        ensures
            r == (CompressionConfig {
                enabled: false,
                level: DEFAULT_COMPRESSION_LEVEL,
                threshold: COMPRESSION_THRESHOLD,
            }),
            r.well_formed(),
    {
        CompressionConfig {
            enabled: false,
            level: DEFAULT_COMPRESSION_LEVEL,
            threshold: COMPRESSION_THRESHOLD,
        }
    }
}

/// Configuration options for the cache, as the host hands them over. Every
/// field may be absent.
#[derive(Debug, Clone)]
pub struct CacheConfig {
    /// Custom directory for the cache file, below the host's cache directory.
    pub cache_dir: Option<String>,
    /// Custom file name for the cache file.
    pub cache_file_name: Option<String>,
    /// Seconds between two sweeps.
    pub cleanup_interval: Option<u64>,
    /// Whether values are compressed where a call does not say.
    pub default_compression: Option<bool>,
    /// Compression level, from 0 (none) to 9 (smallest output).
    pub compression_level: Option<u32>,
    /// Size in bytes below which a payload is stored raw.
    pub compression_threshold: Option<usize>,
}

impl CacheConfig {
    /// The seconds between two sweeps that this configuration asks for.
    pub open spec fn cleanup_interval_spec(&self) -> u64 {
        match self.cleanup_interval {
            Some(seconds) => seconds,
            None => DEFAULT_CLEANUP_INTERVAL,
        }
    }

    /// The compression policy that this configuration asks for.
    pub open spec fn compression_spec(&self) -> CompressionConfig {
        CompressionConfig::from_settings_spec(
            match self.default_compression {
                Some(enabled) => enabled,
                None => false,
            },
            self.compression_level,
            self.compression_threshold,
        )
    }

    /// Whether the cache can be built from this configuration: the
    /// compression level, where one is given, lies between 0 and 9.
    pub open spec fn valid(&self) -> bool {
        self.compression_spec().well_formed()
    }

    /// The name of the cache file: the configured one, else the default.
    pub fn file_name(&self) -> (r: String)
        ensures
            r@ == match self.cache_file_name {
                Some(name) => name@,
                None => DEFAULT_CACHE_FILE_NAME@,
            },
    {
        match &self.cache_file_name {
            Some(name) => name.clone(),
            None => DEFAULT_CACHE_FILE_NAME.to_owned(),
        }
    }

    /// The sweep interval in seconds, 60 where none is configured.
    #[verifier::when_used_as_spec(cleanup_interval_spec)]
    pub fn effective_cleanup_interval(&self) -> (r: u64)
        ensures
            r == self.cleanup_interval_spec(),
    {
        match self.cleanup_interval {
            Some(seconds) => seconds,
            None => DEFAULT_CLEANUP_INTERVAL,
        }
    }

    /// The compression policy, with compression off, level 6 and a
    /// threshold of 1024 bytes where the configuration is silent.
    #[verifier::when_used_as_spec(compression_spec)]
    pub fn effective_compression(&self) -> (r: CompressionConfig)
        ensures
            r == self.compression_spec(),
    {
        let enabled = match self.default_compression {
            Some(enabled) => enabled,
            None => false,
        };
        CompressionConfig::from_settings(enabled, self.compression_level, self.compression_threshold)
    }
}

impl Default for CacheConfig {
    fn default() -> (r: Self)
        ensures
            r.cache_dir is None,
            r.cache_file_name is None,
            r.cleanup_interval == Some(DEFAULT_CLEANUP_INTERVAL),
            r.default_compression == Some(false),
            r.compression_level == Some(DEFAULT_COMPRESSION_LEVEL),
            r.compression_threshold == Some(COMPRESSION_THRESHOLD),
            r.valid(),
    {
        CacheConfig {
            cache_dir: None,
            cache_file_name: None,
            cleanup_interval: Some(DEFAULT_CLEANUP_INTERVAL),
            default_compression: Some(false),
            compression_level: Some(DEFAULT_COMPRESSION_LEVEL),
            compression_threshold: Some(COMPRESSION_THRESHOLD),
        }
    }
}

} // verus!
