use metawatch::classify::{classify, target_covers, watched};
use metawatch::event::{ChangeKind, RawEvent};
use metawatch::path::{descends_from, last_segment};
use metawatch::target::{TargetKind, WatchMode, WatchTarget};

fn bytes(s: &str) -> Vec<u8> {
    s.as_bytes().to_vec()
}

fn event(kind: ChangeKind, paths: &[&str]) -> RawEvent {
    RawEvent { kind, paths: paths.iter().map(|p| bytes(p)).collect() }
}

fn file(path: &str) -> WatchTarget {
    WatchTarget::new(bytes(path), false, false)
}

fn dir(path: &str, recursive: bool) -> WatchTarget {
    WatchTarget::new(bytes(path), true, recursive)
}

#[test]
fn metadata_change_on_watched_file_triggers() {
    let targets = vec![file("/tmp/a.txt")];
    let e = event(ChangeKind::ModifyMetadata, &["/tmp/a.txt"]);
    assert_eq!(classify(&e, &targets), Some(0));
}

#[test]
fn other_kinds_never_trigger() {
    let targets = vec![file("/tmp/a.txt")];
    for kind in [
        ChangeKind::Any,
        ChangeKind::Access,
        ChangeKind::Create,
        ChangeKind::ModifyData,
        ChangeKind::ModifyName,
        ChangeKind::ModifyOther,
        ChangeKind::Remove,
        ChangeKind::Other,
    ] {
        let e = event(kind, &["/tmp/a.txt"]);
        assert_eq!(classify(&e, &targets), None);
    }
}

#[test]
fn paths_outside_the_set_never_trigger() {
    let targets = vec![file("/tmp/a.txt"), dir("/tmp/d", false)];
    let e = event(ChangeKind::ModifyMetadata, &["/tmp/b.txt", "/tmp/d/child", "/tmp"]);
    assert_eq!(classify(&e, &targets), None);
}

#[test]
fn recursive_directory_covers_deep_descendants() {
    let targets = vec![dir("/srv/site", true)];
    let e = event(ChangeKind::ModifyMetadata, &["/srv/site/a/b/c/d/index.html"]);
    assert_eq!(classify(&e, &targets), Some(0));
}

#[test]
fn non_recursive_directory_ignores_descendants() {
    let targets = vec![dir("/srv/site", false)];
    let e = event(ChangeKind::ModifyMetadata, &["/srv/site/a/b/c/d/index.html"]);
    assert_eq!(classify(&e, &targets), None);
    let own = event(ChangeKind::ModifyMetadata, &["/srv/site"]);
    assert_eq!(classify(&own, &targets), Some(0));
}

#[test]
fn prefix_must_end_at_a_segment_boundary() {
    assert!(!descends_from(&bytes("/tmp"), &bytes("/tmpx/a")));
    assert!(descends_from(&bytes("/tmp"), &bytes("/tmp/a")));
    assert!(descends_from(&bytes("/tmp/"), &bytes("/tmp/a")));
    assert!(!descends_from(&bytes("/tmp"), &bytes("/tmp")));
    let targets = vec![dir("/tmp", true)];
    assert!(!watched(&targets, &bytes("/tmpx/a")));
    assert!(watched(&targets, &bytes("/tmp/x/y")));
}

#[test]
fn event_with_several_paths_names_the_first_watched() {
    let targets = vec![file("/w/one"), file("/w/two")];
    let e = event(ChangeKind::ModifyMetadata, &["/elsewhere", "/w/two", "/w/one"]);
    assert_eq!(classify(&e, &targets), Some(1));
}

#[test]
fn classifying_twice_gives_the_same_result() {
    let targets = vec![file("/tmp/a.txt"), dir("/var", true)];
    for e in [
        event(ChangeKind::ModifyMetadata, &["/tmp/a.txt"]),
        event(ChangeKind::ModifyData, &["/tmp/a.txt"]),
        event(ChangeKind::ModifyMetadata, &["/var/log/x"]),
        event(ChangeKind::ModifyMetadata, &["/nowhere"]),
    ] {
        assert_eq!(classify(&e, &targets), classify(&e, &targets));
    }
}

#[test]
fn empty_target_set_and_empty_paths_never_trigger() {
    let none: Vec<WatchTarget> = Vec::new();
    assert_eq!(classify(&event(ChangeKind::ModifyMetadata, &["/tmp/a.txt"]), &none), None);
    let targets = vec![file("/tmp/a.txt")];
    assert_eq!(classify(&event(ChangeKind::ModifyMetadata, &[]), &targets), None);
}

#[test]
fn recursion_applies_to_directories_only() {
    let f = WatchTarget::new(bytes("/tmp/a.txt"), false, true);
    assert_eq!(f.kind, TargetKind::File);
    assert!(!f.recursive);
    assert_eq!(f.mode(), WatchMode::NonRecursive);
    let d = WatchTarget::new(bytes("/tmp"), true, true);
    assert_eq!(d.kind, TargetKind::Directory);
    assert_eq!(d.mode(), WatchMode::Recursive);
    assert_eq!(dir("/tmp", false).mode(), WatchMode::NonRecursive);
    assert!(!target_covers(&f, &bytes("/tmp/a.txt/x")));
    assert!(target_covers(&d, &bytes("/tmp/a.txt")));
}

#[test]
fn last_segment_of_paths() {
    assert_eq!(last_segment(&bytes("/tmp/a.txt")), bytes("a.txt"));
    assert_eq!(last_segment(&bytes("/tmp/dir/")), bytes("dir"));
    assert_eq!(last_segment(&bytes("plain")), bytes("plain"));
    assert_eq!(last_segment(&bytes("/")), bytes("/"));
    assert_eq!(last_segment(&bytes("")), bytes(""));
}
