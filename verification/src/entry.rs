//! The entries of the two tiers. An entry of the persisted document holds a
//! value either as it is or packed: encoded by the codec and written as
//! base64 text into a JSON string. An entry of the memory tier always holds
//! the value itself.

use vstd::prelude::*;
use vstd::utf8::encode_utf8;
use crate::b64::{base64_bytes, decode_base64, encode_base64};
use crate::codec::{
    compression_fails,
    decode,
    decode_spec,
    encode,
    is_encoding_of,
    lemma_decode_encode,
    parsed,
};
use crate::error::Error;
use crate::json::{json_parse, json_string, json_text, string_value};
use crate::models::{CacheItem, CompressionConfig};
use crate::store::{EntryMap, Expiring};

verus! {

/// An entry of the persisted document.
pub type CacheEntry = CacheItem<serde_json::Value>;

/// The persisted document: every key with its entry.
pub type CacheDocument = EntryMap<CacheEntry>;

/// An entry of the memory tier: a value ready to be handed out.
pub struct HotCacheEntry {
    /// The value itself, never packed.
    pub value: serde_json::Value,
    /// Unix timestamp in seconds when this entry expires, if it does.
    pub expires_at: Option<u64>,
}

/// The memory tier: recently used keys with their values.
pub type HotCache = EntryMap<HotCacheEntry>;

impl<T> Expiring for CacheItem<T> {
    open spec fn expiry(&self) -> Option<u64> {
        self.expires_at
    }

    fn expires_at(&self) -> (r: Option<u64>) {
        self.expires_at
    }
}

impl Expiring for HotCacheEntry {
    open spec fn expiry(&self) -> Option<u64> {
        self.expires_at
    }

    fn expires_at(&self) -> (r: Option<u64>) {
        self.expires_at
    }
}

/// The policy under which a value is packed: the cache's level and
/// threshold, with compression switched on.
pub open spec fn packing_policy(config: CompressionConfig) -> CompressionConfig {
    CompressionConfig { enabled: true, level: config.level, threshold: config.threshold }
}

/// Whether `entry` is an entry for `value`. Unpacked, it holds the value
/// itself. Packed, it holds a JSON string whose base64 text decodes to an
/// encoding of the value under the packing policy. Either way it records the
/// expiration and whether it is packed.
pub open spec fn is_entry_for(
    entry: CacheEntry,
    value: serde_json::Value,
    expires_at: Option<u64>,
    packed: bool,
    config: CompressionConfig,
) -> bool {
    &&& entry.expires_at == expires_at
    &&& entry.is_compressed == Some(packed)
    &&& if packed {
        &&& json_string(entry.value) matches Some(text)
        &&& base64_bytes(text) matches Some(frame)
        &&& is_encoding_of(frame, value, packing_policy(config))
    } else {
        entry.value == value
    }
}

/// The value that an entry stands for. An entry that is not flagged as
/// packed stands for the value it holds. A packed one must hold a JSON
/// string of base64 text, whose bytes are decoded by the codec; anything
/// else is a corrupt payload.
pub open spec fn entry_value(entry: CacheEntry) -> Result<serde_json::Value, Error> {
    if entry.is_compressed == Some(true) {
        match json_string(entry.value) {
            Some(text) => match base64_bytes(text) {
                Some(frame) => decode_spec(frame),
                None => Err(Error::CorruptPayload),
            },
            None => Err(Error::CorruptPayload),
        }
    } else {
        Ok(entry.value)
    }
}

/// Builds the entry for a value. Where `packed` is false this always
/// succeeds. Where it is true, the value is encoded with compression on;
/// this fails with the serialization error where the value has no JSON text
/// or the compressor fails.
pub fn pack(
    value: serde_json::Value,
    expires_at: Option<u64>,
    packed: bool,
    config: &CompressionConfig,
) -> (r: Result<CacheEntry, Error>)
    requires
        config.well_formed(),
    ensures
        match r {
            Ok(entry) => is_entry_for(entry, value, expires_at, packed, *config) && (
            json_text(value) matches Some(text) && json_parse(text) == Some(value) ==> entry_value(
                entry,
            ) == Ok::<serde_json::Value, Error>(value)),
            Err(e) => e == Error::Serialization && packed && (json_text(value) matches Some(text)
                ==> compression_fails(encode_utf8(text), packing_policy(*config))),
        },
{
    if packed {
        let policy = CompressionConfig {
            enabled: true,
            level: config.level,
            threshold: config.threshold,
        };
        match encode(&value, &policy) {
            Ok(frame) => {
                let text = encode_base64(frame.as_slice());
                let entry = CacheItem {
                    value: string_value(text),
                    expires_at,
                    is_compressed: Some(true),
                };
                proof {
                    lemma_unpack_pack(entry, value, expires_at, packed, *config);
                }
                Ok(entry)
            },
            Err(e) => Err(e),
        }
    } else {
        Ok(CacheItem { value, expires_at, is_compressed: Some(false) })
    }
}

/// Reads the value that an entry stands for.
pub fn unpack(entry: &CacheEntry) -> (r: Result<serde_json::Value, Error>)
    ensures
        r == entry_value(*entry),
{
    let packed = match entry.is_compressed {
        Some(flag) => flag,
        None => false,
    };
    if packed {
        match entry.value.as_str() {
            Some(text) => match decode_base64(text) {
                Some(frame) => decode(frame.as_slice()),
                None => Err(Error::CorruptPayload),
            },
            None => Err(Error::CorruptPayload),
        }
    } else {
        Ok(entry.value.clone())
    }
}

/// An entry for a value stands for what `serde_json` reads from the text it
/// printed for the value; unpacked, for the value itself. Wherever
/// `serde_json` reads its own text back as the same value, the entry stands
/// for the value.
pub proof fn lemma_unpack_pack(
    entry: CacheEntry,
    value: serde_json::Value,
    expires_at: Option<u64>,
    packed: bool,
    config: CompressionConfig,
)
    requires
        is_entry_for(entry, value, expires_at, packed, config),
    ensures
        !packed ==> entry_value(entry) == Ok::<serde_json::Value, Error>(value),
        packed ==> json_text(value) is Some && entry_value(entry) == parsed(json_text(value)->0),
        json_text(value) matches Some(text) && json_parse(text) == Some(value) ==> entry_value(
            entry,
        ) == Ok::<serde_json::Value, Error>(value),
{
    if packed {
        let frame = base64_bytes(json_string(entry.value)->0)->0;
        lemma_decode_encode(frame, value, packing_policy(config));
    }
}

} // verus!
