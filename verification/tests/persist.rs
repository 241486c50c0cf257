use tauri_plugin_cache::persist::{load_for_read, load_for_sweep, load_for_write, StoredFile};
use tauri_plugin_cache::{CacheEntry, CacheItem, Error};

fn entry(n: u64) -> CacheEntry {
    CacheItem {
        value: serde_json::Value::Number(serde_json::Number::from(n)),
        expires_at: None,
        is_compressed: Some(false),
    }
}

fn entries() -> Vec<(String, CacheEntry)> {
    vec![("a".to_string(), entry(1)), ("b".to_string(), entry(2)), ("a".to_string(), entry(3))]
}

#[test]
fn missing_file_reads_as_an_empty_document() {
    assert!(load_for_read(StoredFile::Missing).is_empty());
    assert!(load_for_write(StoredFile::Missing).unwrap().is_empty());
    assert!(load_for_sweep(StoredFile::Missing).unwrap().is_empty());
}

#[test]
fn corrupt_file_reads_as_an_empty_document() {
    assert!(load_for_read(StoredFile::Corrupt).is_empty());
    assert!(load_for_write(StoredFile::Corrupt).unwrap().is_empty());
    assert!(load_for_sweep(StoredFile::Corrupt).unwrap().is_empty());
}

#[test]
fn unreadable_file_is_empty_to_readers_only() {
    assert!(load_for_read(StoredFile::Unreadable).is_empty());
    assert_eq!(load_for_write(StoredFile::Unreadable).err(), Some(Error::Io));
    assert!(load_for_sweep(StoredFile::Unreadable).is_none());
}

#[test]
fn parsed_file_gives_its_entries() {
    let document = load_for_read(StoredFile::Entries(entries()));
    assert_eq!(document.len(), 2);
    assert_eq!(document.get("a").unwrap().value, entry(3).value);
    assert_eq!(document.get("b").unwrap().value, entry(2).value);
    let document = load_for_write(StoredFile::Entries(entries())).unwrap();
    assert_eq!(document.len(), 2);
    let document = load_for_sweep(StoredFile::Entries(entries())).unwrap();
    assert_eq!(document.len(), 2);
}

#[test]
fn parsed_file_without_entries_is_empty() {
    assert!(load_for_read(StoredFile::Entries(Vec::new())).is_empty());
}
