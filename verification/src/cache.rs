//! The cache engine: the operations that callers see, each a function of
//! the memory tier, the persisted document and the current time.
//!
//! The engine owns the memory tier and the compression policy. The document
//! is handed in by the host, which loads it before a call and persists it
//! afterwards where the call says that it changed. The clock is the host's
//! too: every operation that looks at expiration takes `now`, in seconds
//! since the epoch.

use vstd::prelude::*;
use vstd::utf8::encode_utf8;
use crate::codec::{compression_fails, decode, decode_spec, encode, is_encoding_of, parsed};
use crate::entry::{
    entry_value,
    is_entry_for,
    pack,
    packing_policy,
    unpack,
    CacheDocument,
    CacheEntry,
    HotCache,
    HotCacheEntry,
};
use crate::error::Error;
use crate::json::{json_parse, json_text};
use crate::models::{
    BooleanResponse,
    CacheConfig,
    CacheStats,
    CompressionConfig,
    EmptyResponse,
    SetItemOptions,
};
use crate::store::{active_keys, expired, is_expired, without_expired, EntryMap};

verus! {

/// The memory tier as a map.
pub type Memory = Map<Seq<char>, HotCacheEntry>;

/// The persisted document as a map.
pub type Document = Map<Seq<char>, CacheEntry>;

/// What a cache is, to its contracts.
pub struct CacheState {
    /// The memory tier.
    pub memory: Memory,
    /// The compression policy.
    pub compression: CompressionConfig,
    /// The seconds between two sweeps.
    pub cleanup_interval: u64,
}

/// A compression policy whose level has been checked against the scale.
struct CheckedPolicy {
    config: CompressionConfig,
}

impl CheckedPolicy {
    #[verifier::type_invariant]
    spec fn checked(&self) -> bool {
        self.config.well_formed()
    }

    fn new(config: CompressionConfig) -> (r: Option<CheckedPolicy>)
        ensures
            match r {
                Some(policy) => config.well_formed() && policy.config == config,
                None => !config.well_formed(),
            },
    {
        if config.level <= crate::models::MAX_COMPRESSION_LEVEL {
            Some(CheckedPolicy { config })
        } else {
            None
        }
    }

    fn get(&self) -> (r: CompressionConfig)
        ensures
            r == self.config,
            r.well_formed(),
    {
        proof {
            use_type_invariant(self);
        }
        self.config
    }
}

/// The cache engine.
pub struct Cache {
    cleanup_interval: u64,
    compression: CheckedPolicy,
    value_cache: HotCache,
}

impl View for Cache {
    type V = CacheState;

    closed spec fn view(&self) -> CacheState {
        CacheState {
            memory: self.value_cache@,
            compression: self.compression.config,
            cleanup_interval: self.cleanup_interval,
        }
    }
}

/// The expiration instant of an entry set at `now` with a time-to-live.
/// No time-to-live, or one of zero, means no expiration. An instant beyond
/// the largest representable one is that largest one.
pub open spec fn expiry_for(ttl: Option<u64>, now: u64) -> Option<u64> {
    match ttl {
        Some(seconds) => if seconds == 0 {
            None
        } else if now + seconds > u64::MAX {
            Some(u64::MAX)
        } else {
            Some((now + seconds) as u64)
        },
        None => None,
    }
}

/// The time-to-live that the options of a call ask for.
pub open spec fn requested_ttl(options: Option<SetItemOptions>) -> Option<u64> {
    match options {
        Some(given) => given.ttl,
        None => None,
    }
}

/// Whether a call packs its value: what its options say, else the default
/// of the cache.
pub open spec fn wants_compression(options: Option<SetItemOptions>, default: bool) -> bool {
    match options {
        Some(given) => match given.compress {
            Some(choice) => choice,
            None => default,
        },
        None => default,
    }
}

/// Whether the memory tier holds a key with an entry that has not expired.
pub open spec fn live_in_memory(memory: Memory, key: Seq<char>, now: u64) -> bool {
    memory.contains_key(key) && !is_expired(memory[key].expires_at, now)
}

/// Whether the document holds a key with an entry that has not expired.
pub open spec fn live_in_document(document: Document, key: Seq<char>, now: u64) -> bool {
    document.contains_key(key) && !is_expired(document[key].expires_at, now)
}

/// The memory tier after a key has been looked up in it: an entry found
/// expired is evicted on the spot.
pub open spec fn memory_after_lookup(memory: Memory, key: Seq<char>, now: u64) -> Memory {
    if memory.contains_key(key) && is_expired(memory[key].expires_at, now) {
        memory.remove(key)
    } else {
        memory
    }
}

/// What the memory tier alone answers for a key.
pub open spec fn memory_hit(memory: Memory, key: Seq<char>, now: u64) -> Option<serde_json::Value> {
    if live_in_memory(memory, key, now) {
        Some(memory[key].value)
    } else {
        None
    }
}

/// What `get` returns: the value from the memory tier where it is live
/// there; else the value that the document's entry stands for, where the
/// entry is present and has not expired; else nothing. Only an entry that is
/// present, live and unreadable gives an error.
pub open spec fn get_result(memory: Memory, document: Document, key: Seq<char>, now: u64) -> Result<
    Option<serde_json::Value>,
    Error,
> {
    if live_in_memory(memory, key, now) {
        Ok(Some(memory[key].value))
    } else if live_in_document(document, key, now) {
        match entry_value(document[key]) {
            Ok(value) => Ok(Some(value)),
            Err(e) => Err(e),
        }
    } else {
        Ok(None)
    }
}

/// The memory tier after `get`: unchanged on a hit; after a miss, the value
/// read from the document has been put in, and an entry found expired is gone.
pub open spec fn memory_after_get(
    memory: Memory,
    document: Document,
    key: Seq<char>,
    now: u64,
) -> Memory {
    if live_in_memory(memory, key, now) {
        memory
    } else if live_in_document(document, key, now) && entry_value(document[key]) is Ok {
        memory_after_lookup(memory, key, now).insert(
            key,
            HotCacheEntry {
                value: entry_value(document[key])->Ok_0,
                expires_at: document[key].expires_at,
            },
        )
    } else {
        memory_after_lookup(memory, key, now)
    }
}

/// What `has` returns: whether the key is live in either tier.
pub open spec fn has_result(memory: Memory, document: Document, key: Seq<char>, now: u64) -> bool {
    live_in_memory(memory, key, now) || live_in_document(document, key, now)
}

/// The memory tier after `has`: unchanged on a hit; after a miss, a live
/// entry that the document holds unpacked has been put in, and an entry
/// found expired is gone. A packed entry is left to `get`, which decodes it.
pub open spec fn memory_after_has(
    memory: Memory,
    document: Document,
    key: Seq<char>,
    now: u64,
) -> Memory {
    if live_in_memory(memory, key, now) {
        memory
    } else if live_in_document(document, key, now) && document[key].is_compressed != Some(true) {
        memory_after_lookup(memory, key, now).insert(
            key,
            HotCacheEntry { value: document[key].value, expires_at: document[key].expires_at },
        )
    } else {
        memory_after_lookup(memory, key, now)
    }
}

/// Whether the tiers `memory_after` and `document_after` are what a
/// successful `set` leaves of `memory` and `document`: the memory tier holds
/// the value itself under the key, the document holds an entry for the
/// value, and no other key has changed in either.
pub open spec fn is_set_outcome(
    memory: Memory,
    document: Document,
    key: Seq<char>,
    value: serde_json::Value,
    options: Option<SetItemOptions>,
    now: u64,
    config: CompressionConfig,
    memory_after: Memory,
    document_after: Document,
) -> bool {
    let expires_at = expiry_for(requested_ttl(options), now);
    let packed = wants_compression(options, config.enabled);
    &&& memory_after == memory.insert(key, HotCacheEntry { value, expires_at })
    &&& document_after.contains_key(key)
    &&& is_entry_for(document_after[key], value, expires_at, packed, config)
    &&& document_after == document.insert(key, document_after[key])
}

/// Whether the memory tier mirrors the document: every key that it holds is
/// in the document with the same expiration, and it holds the value that
/// the document's entry stands for.
pub open spec fn mirrors(memory: Memory, document: Document) -> bool {
    forall|key: Seq<char>| #[trigger]
        memory.contains_key(key) ==> {
            &&& document.contains_key(key)
            &&& document[key].expires_at == memory[key].expires_at
            &&& entry_value(document[key]) == Ok::<serde_json::Value, Error>(memory[key].value)
        }
}

/// The counts of a document at `now`.
pub open spec fn stats_of(document: Document, now: u64) -> CacheStats {
    CacheStats {
        total_size: document.len() as usize,
        active_size: active_keys(document, now).len() as usize,
    }
}

/// Computes the expiration instant of an entry set at `now`.
pub fn expiration(ttl: Option<u64>, now: u64) -> (r: Option<u64>)
    ensures
        r == expiry_for(ttl, now),
{
    match ttl {
        Some(seconds) => {
            if seconds == 0 {
                None
            } else if seconds > u64::MAX - now {
                Some(u64::MAX)
            } else {
                Some(now + seconds)
            }
        },
        None => None,
    }
}

impl Cache {
    /// A cache with an empty memory tier, the default compression policy
    /// and the given seconds between sweeps.
    pub fn new(cleanup_interval: u64) -> (r: Cache)
        ensures
            r@.memory == Map::<Seq<char>, HotCacheEntry>::empty(),
            r@.compression == (CompressionConfig {
                enabled: false,
                level: crate::models::DEFAULT_COMPRESSION_LEVEL,
                threshold: crate::models::COMPRESSION_THRESHOLD,
            }),
            r@.cleanup_interval == cleanup_interval,
    {
        let config = CompressionConfig {
            enabled: false,
            level: crate::models::DEFAULT_COMPRESSION_LEVEL,
            threshold: crate::models::COMPRESSION_THRESHOLD,
        };
        Cache {
            cleanup_interval,
            compression: CheckedPolicy { config },
            value_cache: EntryMap::new(),
        }
    }

    /// A cache built from a configuration, with the defaults where it is
    /// silent. A compression level above 9 is refused.
    pub fn from_config(config: &CacheConfig) -> (r: Result<Cache, Error>)
        ensures
            match r {
                Ok(cache) => {
                    &&& config.valid()
                    &&& cache@.memory == Map::<Seq<char>, HotCacheEntry>::empty()
                    &&& cache@.compression == config.compression_spec()
                    &&& cache@.cleanup_interval == config.cleanup_interval_spec()
                },
                Err(e) => e == Error::Config && !config.valid(),
            },
    {
        match CheckedPolicy::new(config.effective_compression()) {
            Some(compression) => Ok(
                Cache {
                    cleanup_interval: config.effective_cleanup_interval(),
                    compression,
                    value_cache: EntryMap::new(),
                },
            ),
            None => Err(Error::Config),
        }
    }

    /// Replaces the compression policy, with level 6 and a threshold of
    /// 1024 bytes where none is given. A level above 9 is refused and leaves
    /// the cache as it was.
    pub fn init_with_config(
        &mut self,
        default_compression: bool,
        compression_level: Option<u32>,
        threshold: Option<usize>,
    ) -> (r: Result<(), Error>)
        ensures
            ({
                let asked = CompressionConfig::from_settings_spec(
                    default_compression,
                    compression_level,
                    threshold,
                );
                match r {
                    Ok(_) => asked.well_formed() && final(self)@ == (CacheState {
                        compression: asked,
                        ..old(self)@
                    }),
                    Err(e) => e == Error::Config && !asked.well_formed() && final(self)@ == old(
                        self,
                    )@,
                }
            }),
    {
        let asked = CompressionConfig::from_settings(
            default_compression,
            compression_level,
            threshold,
        );
        match CheckedPolicy::new(asked) {
            Some(compression) => {
                self.compression = compression;
                Ok(())
            },
            None => Err(Error::Config),
        }
    }

    /// The seconds between two sweeps.
    pub fn cleanup_interval(&self) -> (r: u64)
        ensures
            r == self@.cleanup_interval,
    {
        self.cleanup_interval
    }

    /// The compression policy, whose level is at most 9.
    pub fn compression(&self) -> (r: CompressionConfig)
        ensures
            r == self@.compression,
            r.well_formed(),
    {
        self.compression.get()
    }

    /// Encodes a value under the cache's compression policy.
    pub fn compress_value(&self, value: &serde_json::Value) -> (r: Result<Vec<u8>, Error>)
        ensures
            match r {
                Ok(frame) => is_encoding_of(frame@, *value, self@.compression) && decode_spec(
                    frame@,
                ) == parsed(json_text(*value)->0),
                Err(e) => e == Error::Serialization && (json_text(*value) matches Some(text)
                    ==> compression_fails(encode_utf8(text), self@.compression)),
            },
    {
        let config = self.compression.get();
        encode(value, &config)
    }

    /// Decodes a frame, whatever policy it was encoded under.
    pub fn decompress_value(&self, data: &[u8]) -> (r: Result<serde_json::Value, Error>)
        ensures
            r == decode_spec(data@),
    {
        decode(data)
    }

    /// Looks a key up in the memory tier alone. A live entry gives its
    /// value; an expired one is evicted.
    pub fn get_cached(&mut self, key: &str, now: u64) -> (r: Option<serde_json::Value>)
        ensures
            r == memory_hit(old(self)@.memory, key@, now),
            final(self)@ == (CacheState {
                memory: memory_after_lookup(old(self)@.memory, key@, now),
                ..old(self)@
            }),
    {
        let found: Option<Option<serde_json::Value>> = match self.value_cache.get(key) {
            Some(entry) => if expired(entry.expires_at, now) {
                Some(None)
            } else {
                Some(Some(entry.value.clone()))
            },
            None => None,
        };
        match found {
            Some(Some(value)) => Some(value),
            Some(None) => {
                self.value_cache.remove(key);
                None
            },
            None => None,
        }
    }

    /// Whether a key is live in the memory tier alone. An expired entry is
    /// evicted.
    pub fn has_cached(&mut self, key: &str, now: u64) -> (r: bool)
        ensures
            r == live_in_memory(old(self)@.memory, key@, now),
            final(self)@ == (CacheState {
                memory: memory_after_lookup(old(self)@.memory, key@, now),
                ..old(self)@
            }),
    {
        let found: Option<bool> = match self.value_cache.get(key) {
            Some(entry) => Some(expired(entry.expires_at, now)),
            None => None,
        };
        match found {
            Some(true) => {
                self.value_cache.remove(key);
                false
            },
            Some(false) => true,
            None => false,
        }
    }

    /// Sets a value under a key, in place of whatever the key had.
    ///
    /// The entry expires `ttl` seconds after `now` where the options name a
    /// time-to-live other than zero, and never otherwise. The value is
    /// packed where the options say so, else where the cache's policy has
    /// compression on. On success both tiers hold the new entry and the
    /// document is to be persisted. A failure leaves both tiers as they were.
    pub fn set(
        &mut self,
        data: &mut CacheDocument,
        key: String,
        value: serde_json::Value,
        options: Option<SetItemOptions>,
        now: u64,
    ) -> (r: Result<EmptyResponse, Error>)
        ensures
            match r {
                Ok(_) => {
                    &&& is_set_outcome(
                        old(self)@.memory,
                        old(data)@,
                        key@,
                        value,
                        options,
                        now,
                        old(self)@.compression,
                        final(self)@.memory,
                        final(data)@,
                    )
                    &&& final(self)@ == (CacheState { memory: final(self)@.memory, ..old(self)@ })
                },
                Err(e) => {
                    &&& e == Error::Serialization
                    &&& final(self)@ == old(self)@
                    &&& final(data)@ == old(data)@
                    &&& wants_compression(options, old(self)@.compression.enabled)
                    &&& json_text(value) matches Some(text) ==> compression_fails(
                        encode_utf8(text),
                        packing_policy(old(self)@.compression),
                    )
                },
            },
    {
        let config = self.compression.get();
        let ttl = match options {
            Some(given) => given.ttl,
            None => None,
        };
        let packed = match options {
            Some(given) => match given.compress {
                Some(choice) => choice,
                None => config.enabled,
            },
            None => config.enabled,
        };
        let expires_at = expiration(ttl, now);
        let entry = match pack(value.clone(), expires_at, packed, &config) {
            Ok(entry) => entry,
            Err(e) => {
                return Err(e);
            },
        };
        self.value_cache.insert(key.clone(), HotCacheEntry { value, expires_at });
        data.insert(key, entry);
        Ok(EmptyResponse {  })
    }

    /// Gets the value under a key, or nothing where the key is absent or
    /// its entry has expired. The memory tier answers where it can; else the
    /// document does, and the value it gives is kept in the memory tier.
    pub fn get(&mut self, data: &CacheDocument, key: &str, now: u64) -> (r: Result<
        Option<serde_json::Value>,
        Error,
    >)
        ensures
            r == get_result(old(self)@.memory, data@, key@, now),
            final(self)@ == (CacheState {
                memory: memory_after_get(old(self)@.memory, data@, key@, now),
                ..old(self)@
            }),
    {
        match self.get_cached(key, now) {
            Some(value) => {
                return Ok(Some(value));
            },
            None => {},
        }
        match data.get(key) {
            Some(entry) => {
                if expired(entry.expires_at, now) {
                    return Ok(None);
                }
                match unpack(entry) {
                    Ok(value) => {
                        self.value_cache.insert(
                            key.to_owned(),
                            HotCacheEntry { value: value.clone(), expires_at: entry.expires_at },
                        );
                        Ok(Some(value))
                    },
                    Err(e) => Err(e),
                }
            },
            None => Ok(None),
        }
    }

    /// Whether a key is present and has not expired.
    pub fn has(&mut self, data: &CacheDocument, key: &str, now: u64) -> (r: BooleanResponse)
        ensures
            r.value == has_result(old(self)@.memory, data@, key@, now),
            final(self)@ == (CacheState {
                memory: memory_after_has(old(self)@.memory, data@, key@, now),
                ..old(self)@
            }),
    {
        if self.has_cached(key, now) {
            return BooleanResponse { value: true };
        }
        match data.get(key) {
            Some(entry) => {
                if expired(entry.expires_at, now) {
                    return BooleanResponse { value: false };
                }
                let packed = match entry.is_compressed {
                    Some(flag) => flag,
                    None => false,
                };
                if !packed {
                    self.value_cache.insert(
                        key.to_owned(),
                        HotCacheEntry { value: entry.value.clone(), expires_at: entry.expires_at },
                    );
                }
                BooleanResponse { value: true }
            },
            None => BooleanResponse { value: false },
        }
    }

    /// Removes a key from both tiers. Says whether the document held the
    /// key, which is when it has changed and is to be persisted. Removing a
    /// key that is absent changes nothing.
    pub fn remove(&mut self, data: &mut CacheDocument, key: &str) -> (changed: bool)
        ensures
            final(self)@ == (CacheState {
                memory: old(self)@.memory.remove(key@),
                ..old(self)@
            }),
            final(data)@ == old(data)@.remove(key@),
            changed == old(data)@.contains_key(key@),
    {
        self.value_cache.remove(key);
        data.remove(key).is_some()
    }

    /// Empties both tiers. The document is to be persisted.
    pub fn clear(&mut self, data: &mut CacheDocument)
        ensures
            final(self)@ == (CacheState {
                memory: Map::<Seq<char>, HotCacheEntry>::empty(),
                ..old(self)@
            }),
            final(data)@ == Map::<Seq<char>, CacheEntry>::empty(),
    {
        self.value_cache.clear();
        data.clear();
    }

    /// The number of entries in the document, expired ones included.
    pub fn size(&self, data: &CacheDocument) -> (r: usize)
        ensures
            data@.dom().finite(),
            r == data@.len(),
    {
        data.len()
    }

    /// The number of entries in the document that have no expiration or
    /// expire after `now`.
    pub fn active_size(&self, data: &CacheDocument, now: u64) -> (r: usize)
        ensures
            active_keys(data@, now).finite(),
            r == active_keys(data@, now).len(),
    {
        data.active_count(now)
    }

    /// Both counts, taken from the one document that is handed in.
    pub fn stats(&self, data: &CacheDocument, now: u64) -> (r: CacheStats)
        ensures
            data@.dom().finite(),
            active_keys(data@, now).finite(),
            r == stats_of(data@, now),
            r.total_size == data@.len(),
            r.active_size == active_keys(data@, now).len(),
    {
        let total_size = data.len();
        let active_size = data.active_count(now);
        CacheStats { total_size, active_size }
    }

    /// Evicts from the memory tier every entry that has expired at `now`.
    pub fn evict_expired(&mut self, now: u64) -> (evicted: usize)
        ensures
            final(self)@ == (CacheState {
                memory: without_expired(old(self)@.memory, now),
                ..old(self)@
            }),
            old(self)@.memory.dom().finite(),
            evicted == old(self)@.memory.len() - final(self)@.memory.len(),
    {
        self.value_cache.remove_expired(now)
    }

    /// One sweep over both tiers: every entry that has expired at `now`
    /// leaves. Says whether the document lost an entry, which is when it is
    /// to be persisted.
    pub fn sweep(&mut self, data: &mut CacheDocument, now: u64) -> (changed: bool)
        ensures
            final(self)@ == (CacheState {
                memory: without_expired(old(self)@.memory, now),
                ..old(self)@
            }),
            final(data)@ == without_expired(old(data)@, now),
            changed == (final(data)@ != old(data)@),
    {
        self.value_cache.remove_expired(now);
        let removed = data.remove_expired(now);
        proof {
            if removed == 0 {
                lemma_same_size(old(data)@, now);
            }
        }
        removed > 0
    }
}

/// Dropping the expired entries of a finite map without making it smaller
/// leaves it as it was.
pub proof fn lemma_same_size(document: Document, now: u64)
    requires
        document.dom().finite(),
        without_expired(document, now).len() == document.len(),
    ensures
        without_expired(document, now) == document,
{
    let kept = without_expired(document, now);
    vstd::set_lib::lemma_subset_equality(kept.dom(), document.dom());
}

/// Time-to-live: after a `set` with a time-to-live other than zero, the key
/// is served with the value up to and including its expiration instant,
/// which is no earlier than the time of the `set`. At any later time `get`
/// gives nothing and `has` is false.
pub proof fn lemma_ttl_expiry(
    memory: Memory,
    document: Document,
    key: Seq<char>,
    value: serde_json::Value,
    options: Option<SetItemOptions>,
    now: u64,
    config: CompressionConfig,
    memory_after: Memory,
    document_after: Document,
    later: u64,
)
    requires
        is_set_outcome(
            memory,
            document,
            key,
            value,
            options,
            now,
            config,
            memory_after,
            document_after,
        ),
        requested_ttl(options) matches Some(ttl) && ttl != 0,
    ensures
        expiry_for(requested_ttl(options), now) matches Some(expires_at) && now <= expires_at,
        later <= expiry_for(requested_ttl(options), now)->0 ==> get_result(
            memory_after,
            document_after,
            key,
            later,
        ) == Ok::<Option<serde_json::Value>, Error>(Some(value)) && has_result(
            memory_after,
            document_after,
            key,
            later,
        ),
        later > expiry_for(requested_ttl(options), now)->0 ==> get_result(
            memory_after,
            document_after,
            key,
            later,
        ) == Ok::<Option<serde_json::Value>, Error>(None) && !has_result(
            memory_after,
            document_after,
            key,
            later,
        ),
{
}

/// No time-to-live: after a `set` without one, or with one of zero, the key
/// is served with the value at every later time, also after any sweep.
pub proof fn lemma_no_ttl_persists(
    memory: Memory,
    document: Document,
    key: Seq<char>,
    value: serde_json::Value,
    options: Option<SetItemOptions>,
    now: u64,
    config: CompressionConfig,
    memory_after: Memory,
    document_after: Document,
    swept_at: u64,
    later: u64,
)
    requires
        is_set_outcome(
            memory,
            document,
            key,
            value,
            options,
            now,
            config,
            memory_after,
            document_after,
        ),
        requested_ttl(options) is None || requested_ttl(options) == Some(0u64),
    ensures
        get_result(memory_after, document_after, key, later) == Ok::<
            Option<serde_json::Value>,
            Error,
        >(Some(value)),
        has_result(memory_after, document_after, key, later),
        get_result(
            without_expired(memory_after, swept_at),
            without_expired(document_after, swept_at),
            key,
            later,
        ) == Ok::<Option<serde_json::Value>, Error>(Some(value)),
        without_expired(document_after, swept_at).contains_key(key),
{
}

/// A value that was set is read back from the document alone, as after a
/// restart with an empty memory tier: while the entry has not expired,
/// `get` gives what `serde_json` reads from the text it printed for the
/// value, which is the value itself wherever `serde_json` reads its own
/// text back unchanged.
pub proof fn lemma_set_survives_restart(
    memory: Memory,
    document: Document,
    key: Seq<char>,
    value: serde_json::Value,
    options: Option<SetItemOptions>,
    now: u64,
    config: CompressionConfig,
    memory_after: Memory,
    document_after: Document,
    later: u64,
)
    requires
        is_set_outcome(
            memory,
            document,
            key,
            value,
            options,
            now,
            config,
            memory_after,
            document_after,
        ),
        !is_expired(expiry_for(requested_ttl(options), now), later),
    ensures
        !wants_compression(options, config.enabled) ==> get_result(
            Map::empty(),
            document_after,
            key,
            later,
        ) == Ok::<Option<serde_json::Value>, Error>(Some(value)),
        json_text(value) matches Some(text) && json_parse(text) == Some(value) ==> get_result(
            Map::empty(),
            document_after,
            key,
            later,
        ) == Ok::<Option<serde_json::Value>, Error>(Some(value)),
{
    crate::entry::lemma_unpack_pack(
        document_after[key],
        value,
        expiry_for(requested_ttl(options), now),
        wants_compression(options, config.enabled),
        config,
    );
}

/// The memory tier never takes in an entry that has already expired: what
/// `set`, `get` or `has` at `now` leaves under the key, if anything, has not
/// expired at `now`, and after a miss it is the value that the document's
/// entry stands for.
pub proof fn lemma_memory_takes_live_entries(
    memory: Memory,
    document: Document,
    key: Seq<char>,
    now: u64,
)
    ensures
        memory_after_get(memory, document, key, now).contains_key(key) ==> !is_expired(
            memory_after_get(memory, document, key, now)[key].expires_at,
            now,
        ),
        memory_after_has(memory, document, key, now).contains_key(key) ==> !is_expired(
            memory_after_has(memory, document, key, now)[key].expires_at,
            now,
        ),
        !live_in_memory(memory, key, now) && memory_after_get(
            memory,
            document,
            key,
            now,
        ).contains_key(key) ==> entry_value(document[key]) == Ok::<serde_json::Value, Error>(
            memory_after_get(memory, document, key, now)[key].value,
        ),
        forall|ttl: Option<u64>| !is_expired(#[trigger] expiry_for(ttl, now), now),
{
}

/// The memory tier is transparent: while it mirrors the document, `get` and
/// `has` answer what they would answer from the document alone.
pub proof fn lemma_memory_is_transparent(
    memory: Memory,
    document: Document,
    key: Seq<char>,
    now: u64,
)
    requires
        mirrors(memory, document),
    ensures
        get_result(memory, document, key, now) == get_result(Map::empty(), document, key, now),
        has_result(memory, document, key, now) == has_result(Map::empty(), document, key, now),
{
}

/// Reading keeps the tiers consistent: a memory tier that mirrors the
/// document still does after `get`, after `has`, and after a lookup in the
/// memory tier alone. An empty memory tier mirrors every document.
pub proof fn lemma_reads_keep_the_mirror(
    memory: Memory,
    document: Document,
    key: Seq<char>,
    now: u64,
)
    requires
        mirrors(memory, document),
    ensures
        mirrors(memory_after_get(memory, document, key, now), document),
        mirrors(memory_after_has(memory, document, key, now), document),
        mirrors(memory_after_lookup(memory, key, now), document),
        mirrors(Map::empty(), document),
{
}

/// Writing keeps the tiers consistent: a memory tier that mirrors the
/// document still does after `remove`, after `clear` and after a sweep of
/// both tiers; and after `set`, wherever the entry that was stored stands
/// for the value that was set, as an unpacked entry always does.
pub proof fn lemma_writes_keep_the_mirror(
    memory: Memory,
    document: Document,
    key: Seq<char>,
    value: serde_json::Value,
    options: Option<SetItemOptions>,
    now: u64,
    config: CompressionConfig,
    memory_after: Memory,
    document_after: Document,
)
    requires
        mirrors(memory, document),
    ensures
        mirrors(memory.remove(key), document.remove(key)),
        mirrors(Map::empty(), Map::empty()),
        mirrors(without_expired(memory, now), without_expired(document, now)),
        is_set_outcome(
            memory,
            document,
            key,
            value,
            options,
            now,
            config,
            memory_after,
            document_after,
        ) && entry_value(document_after[key]) == Ok::<serde_json::Value, Error>(value) ==> mirrors(
            memory_after,
            document_after,
        ),
        is_set_outcome(
            memory,
            document,
            key,
            value,
            options,
            now,
            config,
            memory_after,
            document_after,
        ) && (!wants_compression(options, config.enabled) || (json_text(value) matches Some(text)
            && json_parse(text) == Some(value))) ==> entry_value(document_after[key]) == Ok::<
            serde_json::Value,
            Error,
        >(value),
{
    if is_set_outcome(
        memory,
        document,
        key,
        value,
        options,
        now,
        config,
        memory_after,
        document_after,
    ) {
        crate::entry::lemma_unpack_pack(
            document_after[key],
            value,
            expiry_for(requested_ttl(options), now),
            wants_compression(options, config.enabled),
            config,
        );
    }
}

/// Removal is idempotent: removing a key that neither tier holds changes
/// nothing, and removing a key twice leaves what removing it once leaves.
pub proof fn lemma_remove_idempotent(memory: Memory, document: Document, key: Seq<char>)
    ensures
        !document.contains_key(key) ==> document.remove(key) == document,
        !memory.contains_key(key) ==> memory.remove(key) == memory,
        document.remove(key).remove(key) == document.remove(key),
        memory.remove(key).remove(key) == memory.remove(key),
        !document.remove(key).contains_key(key),
{
}

/// After `clear` both counts are zero, whatever the time.
pub proof fn lemma_clear_empties_stats(now: u64)
    ensures
        stats_of(Map::empty(), now) == (CacheStats { total_size: 0, active_size: 0 }),
{
    assert(active_keys(Map::<Seq<char>, CacheEntry>::empty(), now) =~= Set::<Seq<char>>::empty());
}

/// The counts agree with each other: every active entry is an entry, and
/// an entry that is active has not expired. Unless an entry expires at the
/// very instant `now`, when it is still served but no longer counted as
/// active, the active entries are exactly those that have not expired.
pub proof fn lemma_active_within_total(document: Document, now: u64)
    requires
        document.dom().finite(),
    ensures
        active_keys(document, now).finite(),
        active_keys(document, now).len() <= document.len(),
        active_keys(document, now).subset_of(without_expired(document, now).dom()),
        (forall|key: Seq<char>|
            document.contains_key(key) ==> (#[trigger] document[key]).expires_at != Some(now))
            ==> active_keys(document, now) == without_expired(document, now).dom(),
{
    vstd::set_lib::lemma_len_subset(active_keys(document, now), document.dom());
    if forall|key: Seq<char>|
        document.contains_key(key) ==> (#[trigger] document[key]).expires_at != Some(now) {
        assert(active_keys(document, now) =~= without_expired(document, now).dom());
    }
}

/// A sweep converges: an entry whose expiration instant lies before the
/// time of the sweep is gone afterwards and no longer counted, while every
/// entry that has not expired stays as it is.
pub proof fn lemma_sweep_converges(document: Document, key: Seq<char>, now: u64)
    requires
        document.dom().finite(),
        document.contains_key(key),
    ensures
        without_expired(document, now).dom().finite(),
        is_expired(document[key].expires_at, now) ==> !without_expired(document, now).contains_key(
            key,
        ) && without_expired(document, now).len() < document.len(),
        !is_expired(document[key].expires_at, now) ==> without_expired(document, now).contains_key(
            key,
        ) && without_expired(document, now)[key] == document[key],
        without_expired(without_expired(document, now), now) == without_expired(document, now),
{
    let kept = without_expired(document, now);
    vstd::set_lib::lemma_len_subset(kept.dom(), document.dom());
    if is_expired(document[key].expires_at, now) {
        vstd::set_lib::lemma_len_subset(kept.dom(), document.dom().remove(key));
    }
}

/// Two `set` calls on different keys, one after the other in whatever order
/// the guard admits them, both persist: the document holds both entries,
/// and at any time at which neither has expired `get` gives each value.
pub proof fn lemma_sets_on_different_keys(
    memory: Memory,
    document: Document,
    config: CompressionConfig,
    first_key: Seq<char>,
    first_value: serde_json::Value,
    first_options: Option<SetItemOptions>,
    first_now: u64,
    memory_between: Memory,
    document_between: Document,
    second_key: Seq<char>,
    second_value: serde_json::Value,
    second_options: Option<SetItemOptions>,
    second_now: u64,
    memory_after: Memory,
    document_after: Document,
    later: u64,
)
    requires
        first_key != second_key,
        is_set_outcome(
            memory,
            document,
            first_key,
            first_value,
            first_options,
            first_now,
            config,
            memory_between,
            document_between,
        ),
        is_set_outcome(
            memory_between,
            document_between,
            second_key,
            second_value,
            second_options,
            second_now,
            config,
            memory_after,
            document_after,
        ),
    ensures
        document_after.contains_key(first_key),
        document_after.contains_key(second_key),
        document_after[first_key] == document_between[first_key],
        !is_expired(expiry_for(requested_ttl(first_options), first_now), later) ==> get_result(
            memory_after,
            document_after,
            first_key,
            later,
        ) == Ok::<Option<serde_json::Value>, Error>(Some(first_value)),
        !is_expired(expiry_for(requested_ttl(second_options), second_now), later) ==> get_result(
            memory_after,
            document_after,
            second_key,
            later,
        ) == Ok::<Option<serde_json::Value>, Error>(Some(second_value)),
{
}

/// Recovery: with a document that is empty, as a missing or corrupt file
/// is taken to be, a key that the memory tier does not serve is reported
/// absent, without an error.
pub proof fn lemma_empty_document_has_nothing(memory: Memory, key: Seq<char>, now: u64)
    requires
        !live_in_memory(memory, key, now),
    ensures
        get_result(memory, Map::empty(), key, now) == Ok::<Option<serde_json::Value>, Error>(None),
        !has_result(memory, Map::empty(), key, now),
        stats_of(Map::empty(), now) == (CacheStats { total_size: 0, active_size: 0 }),
{
    lemma_clear_empties_stats(now);
}

} // verus!
