//! What the persisted document is taken to be, given what the host found in
//! the backing file. The host reads and parses; the decisions are made here.
//!
//! A file that is missing, empty or not parsable stands for an empty
//! document: damaged state heals itself instead of failing every call. A
//! file that cannot be read at all is treated the same way by the reading
//! operations, is reported by the writing ones, and makes the sweeper skip
//! its cycle.

use vstd::prelude::*;
use crate::entry::{CacheDocument, CacheEntry};
use crate::error::Error;
use crate::store::{collected, EntryMap};

verus! {

/// What the host found in the backing file.
pub enum StoredFile {
    /// There is no file.
    Missing,
    /// The file is there but reading it failed.
    Unreadable,
    /// The file was read, and is empty or not a document.
    Corrupt,
    /// The file was read and parsed into these entries.
    Entries(Vec<(String, CacheEntry)>),
}

/// The document that a file stands for when it could be read: its entries,
/// the later one winning where a key repeats, and nothing where the file is
/// missing or corrupt.
pub open spec fn document_of(file: StoredFile) -> Map<Seq<char>, CacheEntry> {
    match file {
        StoredFile::Entries(entries) => collected(entries@),
        _ => Map::empty(),
    }
}

/// The document for an operation that only reads. Whatever is wrong with
/// the file, the operation goes on with an empty document.
pub fn load_for_read(file: StoredFile) -> (document: CacheDocument)
    ensures
        document@ == document_of(file),
{
    match file {
        StoredFile::Entries(entries) => EntryMap::from_entries(entries),
        _ => EntryMap::new(),
    }
}

/// The document for an operation that will write it back. A file that
/// could not be read is reported, since writing over it could lose what it
/// holds; a missing or corrupt one starts afresh.
pub fn load_for_write(file: StoredFile) -> (r: Result<CacheDocument, Error>)
    ensures
        match r {
            Ok(document) => !(file is Unreadable) && document@ == document_of(file),
            Err(e) => e == Error::Io && file is Unreadable,
        },
{
    match file {
        StoredFile::Unreadable => Err(Error::Io),
        other => Ok(load_for_read(other)),
    }
}

/// The document for a sweep, or nothing where the file could not be read
/// and the cycle is to be skipped.
pub fn load_for_sweep(file: StoredFile) -> (r: Option<CacheDocument>)
    ensures
        match r {
            Some(document) => !(file is Unreadable) && document@ == document_of(file),
            None => file is Unreadable,
        },
{
    match file {
        StoredFile::Unreadable => None,
        other => Some(load_for_read(other)),
    }
}

} // verus!
