use cameraftp::watcher::{classify_notify_event, handled_concurrently, index_updates, FileSystemEvent, NotifyKind};

fn classify(kind: NotifyKind, paths: Vec<&str>) -> Vec<FileSystemEvent> {
    let paths: Vec<String> = paths.iter().map(|s| s.to_string()).collect();
    classify_notify_event(kind, &paths)
}

#[test]
fn create_events_map_supported_images_to_created() {
    let jpg = r"C:\photos\a.jpg";
    let raw = r"C:\photos\b.NEF";
    assert_eq!(classify(NotifyKind::Create, vec![jpg]), vec![FileSystemEvent::Created(jpg.to_string())]);
    assert_eq!(classify(NotifyKind::Create, vec![raw]), vec![FileSystemEvent::Created(raw.to_string())]);
}

#[test]
fn create_events_ignore_non_media_extensions() {
    for name in ["C:\\photos\\notes.txt", "C:\\photos\\clip.mp4", "C:\\photos\\README"] {
        assert!(classify(NotifyKind::Create, vec![name]).is_empty(), "{} must not be forwarded", name);
    }
}

#[test]
fn remove_events_map_to_deleted() {
    let jpg = r"C:\photos\a.jpg";
    assert_eq!(classify(NotifyKind::Remove, vec![jpg]), vec![FileSystemEvent::Deleted(jpg.to_string())]);
}

#[test]
fn rename_from_maps_to_deleted_and_rename_to_maps_to_created() {
    let from = r"C:\photos\a.jpg";
    let to = r"C:\photos\b.jpg";
    assert_eq!(classify(NotifyKind::RenameFrom, vec![from]), vec![FileSystemEvent::Deleted(from.to_string())]);
    assert_eq!(classify(NotifyKind::RenameTo, vec![to]), vec![FileSystemEvent::Created(to.to_string())]);
}

#[test]
fn rename_both_requires_two_paths_and_either_side_media() {
    let from = r"C:\photos\a.jpg";
    let to = r"C:\photos\b.jpg";
    let txt_from = r"C:\photos\a.txt";
    let txt_to = r"C:\photos\b.txt";
    assert_eq!(
        classify(NotifyKind::RenameBoth, vec![from, to]),
        vec![FileSystemEvent::Renamed { from: from.to_string(), to: to.to_string() }]
    );
    assert_eq!(
        classify(NotifyKind::RenameBoth, vec![txt_from, to]),
        vec![FileSystemEvent::Renamed { from: txt_from.to_string(), to: to.to_string() }]
    );
    assert!(classify(NotifyKind::RenameBoth, vec![txt_from, txt_to]).is_empty());
    assert!(classify(NotifyKind::RenameBoth, vec![from]).is_empty());
}

#[test]
fn content_access_and_unknown_events_are_ignored() {
    let jpg = r"C:\photos\a.jpg";
    // a content change (`Modify(Data(Any))`)
    assert!(classify(NotifyKind::ModifyOther, vec![jpg]).is_empty());
    // an unspecified modification (`Modify(Any)`)
    assert!(classify(NotifyKind::ModifyOther, vec![jpg]).is_empty());
    // an access (`Access(Any)`)
    assert!(classify(NotifyKind::Other, vec![jpg]).is_empty());
    // an unknown kind (`Other`)
    assert!(classify(NotifyKind::Other, vec![jpg]).is_empty());
}

#[test]
fn multi_path_create_keeps_only_images_in_order() {
    assert_eq!(
        classify(NotifyKind::Create, vec!["/p/b.NEF", "/p/notes.txt", "/p/a.heic"]),
        vec![FileSystemEvent::Created("/p/b.NEF".to_string()), FileSystemEvent::Created("/p/a.heic".to_string())]
    );
}

#[test]
fn events_update_the_index() {
    let c = FileSystemEvent::Created("a.jpg".to_string());
    assert_eq!(index_updates(&c), (None, Some("a.jpg".to_string())));
    assert!(handled_concurrently(&c));
    let d = FileSystemEvent::Deleted("a.jpg".to_string());
    assert_eq!(index_updates(&d), (Some("a.jpg".to_string()), None));
    assert!(!handled_concurrently(&d));
    let r = FileSystemEvent::Renamed { from: "a.jpg".to_string(), to: "b.jpg".to_string() };
    assert_eq!(index_updates(&r), (Some("a.jpg".to_string()), Some("b.jpg".to_string())));
    assert!(handled_concurrently(&r));
}
