use nabu::event::translate;
use nabu::event::FsEvent;

#[test]
fn created_file_is_staged_with_message() {
    let e = FsEvent::Created { path: String::from("dir/a.txt"), is_dir: false };
    let req = translate(&e, "2024-01-02 03:04:05 UTC").expect("a file creation is actionable");
    assert_eq!(req.path, "dir/a.txt");
    assert_eq!(req.message, "created file dir/a.txt @ 2024-01-02 03:04:05 UTC");
    assert!(req.message.contains("created file"));
    assert!(req.message.contains("dir/a.txt"));
}

#[test]
fn created_directory_is_dropped() {
    let e = FsEvent::Created { path: String::from("dir/sub"), is_dir: true };
    assert!(translate(&e, "T0").is_none());
}

#[test]
fn written_file_message() {
    let e = FsEvent::Modified { path: String::from("a.txt") };
    let req = translate(&e, "T1").expect("a write is actionable");
    assert_eq!(req.path, "a.txt");
    assert_eq!(req.message, "written file a.txt @ T1");
}

#[test]
fn chmod_file_message() {
    let e = FsEvent::MetadataChanged { path: String::from("a.txt") };
    let req = translate(&e, "T2").expect("a metadata change is actionable");
    assert_eq!(req.path, "a.txt");
    assert_eq!(req.message, "chmod file a.txt @ T2");
}

#[test]
fn deleted_file_message() {
    let e = FsEvent::Removed { path: String::from("gone.txt") };
    let req = translate(&e, "T3").expect("a removal is actionable");
    assert_eq!(req.path, "gone.txt");
    assert_eq!(req.message, "deleted file gone.txt @ T3");
}

#[test]
fn rename_stages_the_new_path() {
    let e = FsEvent::Renamed {
        old_path: String::from("old.txt"),
        new_path: String::from("new.txt"),
    };
    let req = translate(&e, "T4").expect("a rename is actionable");
    assert_eq!(req.path, "new.txt");
    assert_ne!(req.path, "old.txt");
    assert_eq!(req.message, "renamed file old.txt to new.txt @ T4");
}

#[test]
fn notice_variants_are_dropped() {
    let w = FsEvent::NoticeWrite { path: String::from("a.txt") };
    let r = FsEvent::NoticeRemove { path: String::from("a.txt") };
    assert!(translate(&w, "T5").is_none());
    assert!(translate(&r, "T5").is_none());
}
