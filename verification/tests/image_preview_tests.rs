use std::sync::Arc;

use cameraftp::image_preview::{cache_key, content_type_for, ImagePreviewCache, MAX_CACHE_BYTES, MAX_CACHE_ENTRIES};

#[test]
fn content_type_for_jpeg_extensions() {
    assert_eq!(content_type_for("photo.jpg"), "image/jpeg");
    assert_eq!(content_type_for("photo.jpeg"), "image/jpeg");
    assert_eq!(content_type_for("photo.JPG"), "image/jpeg");
}

#[test]
fn content_type_for_heif_extensions() {
    assert_eq!(content_type_for("photo.heif"), "image/heic");
    assert_eq!(content_type_for("photo.hif"), "image/heic");
    assert_eq!(content_type_for("photo.heic"), "image/heic");
}

#[test]
fn content_type_for_raw_returns_jpeg() {
    assert_eq!(content_type_for("photo.nef"), "image/jpeg");
    assert_eq!(content_type_for("photo.cr2"), "image/jpeg");
    assert_eq!(content_type_for("photo.raf"), "image/jpeg");
    assert_eq!(content_type_for("photo.RAF"), "image/jpeg");
}

#[test]
fn content_type_for_unknown_defaults_to_octet_stream() {
    assert_eq!(content_type_for("photo.png"), "application/octet-stream");
    assert_eq!(content_type_for("photo.mp4"), "application/octet-stream");
    assert_eq!(content_type_for("photo"), "application/octet-stream");
}

#[test]
fn cache_evicts_to_byte_budget() {
    let mut cache = ImagePreviewCache::new();

    let big: Arc<Vec<u8>> = Arc::new(vec![0u8; 60 * 1024 * 1024]);
    for i in 0..3 {
        let key = format!("test_{}.jpg", i);
        cache.push_entry(key, Arc::clone(&big));
    }

    cache.evict_over_budget();

    assert!(
        cache.total_bytes() <= MAX_CACHE_BYTES,
        "total bytes should be under budget, got {}",
        cache.total_bytes()
    );
    assert_eq!(cache.len(), 2, "oldest entry should be evicted");
    assert!(!cache.contains_key("test_0.jpg"), "LRU (oldest) entry should be evicted first");
    assert_eq!(cache.total_bytes(), 2 * 60 * 1024 * 1024);
}

#[test]
fn invalidate_for_unknown_path_is_noop() {
    let mut cache = ImagePreviewCache::new();
    cache.invalidate(&cache_key("/nonexistent/photo.jpg"));
    assert_eq!(cache.len(), 0);
    assert_eq!(cache.total_bytes(), 0);
}

#[test]
fn invalidate_removes_matching_key_and_updates_byte_accounting() {
    let mut cache = ImagePreviewCache::new();
    assert!(cache.insert_loaded(cache_key("dir/keep.jpg"), Arc::new(vec![0xFF, 0xD8, 1, 2])));
    assert!(cache.insert_loaded(cache_key("dir/drop.jpg"), Arc::new(vec![0xFF, 0xD8, 3, 4, 5])));
    assert_eq!(cache.total_bytes(), 4 + 5);

    cache.invalidate(&cache_key("dir\\drop.jpg"));
    assert!(!cache.contains_key(&cache_key("dir/drop.jpg")));
    assert!(cache.contains_key(&cache_key("dir/keep.jpg")));
    assert_eq!(cache.total_bytes(), 4);
    assert_eq!(cache.len(), 1);
}

#[test]
fn cache_returns_same_instance_for_same_key() {
    let mut cache = ImagePreviewCache::new();
    let bytes = Arc::new(vec![1u8, 2, 3]);
    assert!(cache.insert_loaded("a.jpg".to_string(), Arc::clone(&bytes)));
    assert!(!cache.insert_loaded("a.jpg".to_string(), Arc::new(vec![9u8])));
    let got = cache.get("a.jpg").unwrap();
    assert!(Arc::ptr_eq(got, &bytes));
    assert!(cache.get("b.jpg").is_none());
}

#[test]
fn cache_evicts_old_entries() {
    let mut cache = ImagePreviewCache::new();
    for i in 0..60 {
        cache.insert_loaded(format!("test_{}.jpg", i), Arc::new(vec![0xFF, 0xD8, 0, 0]));
    }
    assert_eq!(cache.len(), MAX_CACHE_ENTRIES);
    assert!(!cache.contains_key("test_9.jpg"));
    assert!(cache.contains_key("test_10.jpg"));
    assert_eq!(cache.total_bytes(), 4 * MAX_CACHE_ENTRIES);
}

#[test]
fn cache_key_normalises_separators() {
    assert_eq!(cache_key("C:\\photos\\a.jpg"), "C:/photos/a.jpg");
    assert_eq!(cache_key("/photos/a.jpg"), "/photos/a.jpg");
}

#[test]
fn invalidate_raw_path_removes_entry_loaded_via_same_raw_path() {
    let raw_path = "/tmp/cameraftp_test_cache_raw_key/test.jpg";
    let mut cache = ImagePreviewCache::new();
    assert!(cache.insert_loaded(cache_key(raw_path), Arc::new(vec![0xFF, 0xD8, 0x00, 0x01])));
    cache.invalidate(&cache_key(raw_path));
    assert!(!cache.contains_key(&cache_key(raw_path)), "invalidate with the raw request path must remove the entry");
    assert_eq!(cache.total_bytes(), 0);
}

#[test]
fn invalidate_still_works_after_underlying_file_is_deleted() {
    // the key does not depend on the file existing: nothing here touches the disk
    let path = "/tmp/cameraftp_test_cache_deleted_key/gone.jpg";
    let mut cache = ImagePreviewCache::new();
    assert!(cache.insert_loaded(cache_key(path), Arc::new(b"bytes".to_vec())));
    cache.invalidate(&cache_key(path));
    assert!(!cache.contains_key(&cache_key(path)), "invalidate must work even after the file is deleted from disk");
    assert_eq!(cache.total_bytes(), 0);
}

#[test]
fn invalidate_cross_producer_separator_spelling_removes_entry() {
    let backslash_path = r"C:\tmp\cameraftp_test_cache_key_norm\norm.jpg";
    let mut cache = ImagePreviewCache::new();
    assert!(cache.insert_loaded(cache_key(backslash_path), Arc::new(b"jpeg-bytes".to_vec())));
    assert_eq!(cache.total_bytes(), b"jpeg-bytes".len());
    let forward_path = backslash_path.replace('\\', "/");
    cache.invalidate(&cache_key(&forward_path));
    assert!(!cache.contains_key(&cache_key(backslash_path)), "forward-slash invalidate must remove the backslash-loaded entry");
    assert!(!cache.contains_key(&cache_key(&forward_path)), "no separator-variant residue may survive");
    assert_eq!(cache.total_bytes(), 0, "byte accounting must drop to zero");
    assert_eq!(cache.len(), 0, "LRU order must drop to zero");
}

#[test]
fn inserted_preview_is_served_with_its_bytes() {
    let mut cache = ImagePreviewCache::new();
    for i in 0..MAX_CACHE_ENTRIES {
        cache.insert_loaded(format!("old_{}.jpg", i), Arc::new(vec![1u8; 16]));
    }
    let bytes: Arc<Vec<u8>> = Arc::new(vec![7u8; 32]);
    assert!(cache.insert_loaded(cache_key("new.jpg"), Arc::clone(&bytes)));
    let served = cache.get(&cache_key("new.jpg")).expect("the fresh entry survives eviction");
    assert!(Arc::ptr_eq(served, &bytes));
    assert_eq!(cache.len(), MAX_CACHE_ENTRIES);
    assert!(cache.total_bytes() <= MAX_CACHE_BYTES);
}
