use media_server::db::models::MediaType;
use media_server::scanner::scanner::{index_entry, FileFacts};
use media_server::scanner::watcher::{watch_action, WatchAction, WatcherEvent};

fn facts(is_file: bool, ext: Option<&str>, size: Option<u64>, modified: Option<u64>) -> FileFacts {
    FileFacts { is_file, extension: ext.map(|e| e.to_string()), size, modified_secs: modified }
}

#[test]
fn media_files_are_indexed() {
    let e = index_entry("/m/a.MP4".to_string(), &facts(true, Some("MP4"), Some(100), Some(1700000000))).unwrap();
    assert_eq!(e.path, "/m/a.MP4");
    assert_eq!(e.media_type, MediaType::Video);
    assert_eq!(e.size_bytes, 100);
    assert_eq!(e.last_modified, 1700000000);
    let p = index_entry("/m/b.png".to_string(), &facts(true, Some("png"), None, None)).unwrap();
    assert_eq!(p.media_type, MediaType::Image);
    assert_eq!((p.size_bytes, p.last_modified), (0, 0));
}

#[test]
fn other_paths_are_skipped() {
    assert!(index_entry("/m/a.txt".to_string(), &facts(true, Some("txt"), Some(1), Some(1))).is_none());
    assert!(index_entry("/m/noext".to_string(), &facts(true, None, Some(1), Some(1))).is_none());
    assert!(index_entry("/m/dir.mp4".to_string(), &facts(false, Some("mp4"), Some(1), Some(1))).is_none());
}

#[test]
fn huge_sizes_wrap_like_a_cast() {
    let e = index_entry("x.gif".to_string(), &facts(true, Some("gif"), Some(u64::MAX), Some(1))).unwrap();
    assert_eq!(e.size_bytes, -1);
}

#[test]
fn watcher_events() {
    match watch_action(WatcherEvent::Created("/m/c.webm".to_string()), &facts(true, Some("webm"), Some(5), Some(6))) {
        WatchAction::Index(m) => {
            assert_eq!(m.path, "/m/c.webm");
            assert_eq!(m.media_type, MediaType::Video);
        }
        other => panic!("unexpected {:?}", other),
    }
    assert!(matches!(
        watch_action(WatcherEvent::Created("/m/c.doc".to_string()), &facts(true, Some("doc"), None, None)),
        WatchAction::Ignore
    ));
    match watch_action(WatcherEvent::Removed("/m/c.webm".to_string()), &facts(false, None, None, None)) {
        WatchAction::Forget(p) => assert_eq!(p, "/m/c.webm"),
        other => panic!("unexpected {:?}", other),
    }
    assert!(matches!(
        watch_action(WatcherEvent::Modified(()), &facts(true, Some("mp4"), None, None)),
        WatchAction::Ignore
    ));
}
