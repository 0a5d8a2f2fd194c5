use dirnav::input::{map_key, Command, Key};
use dirnav::listing::{collect_entries, list_dir, Entry, ListError, RawListItem};
use dirnav::metadata::{build_metadata, metadata_unavailable};
use dirnav::paths::join_path;
use dirnav::preview::{build_preview, directory_preview, FileReadOutcome, PREVIEW_MAX_LINES};

fn listed(name: &str, is_dir: bool, depth: usize) -> RawListItem {
    RawListItem::Listed {
        name: name.to_string(),
        full_path: format!("base/{}", name),
        is_dir,
        depth,
    }
}

#[test]
fn key_bindings_are_fixed() {
    assert_eq!(map_key(Key::Char('q')), Command::Quit);
    assert_eq!(map_key(Key::Char('x')), Command::Noop);
    assert_eq!(map_key(Key::Up), Command::MoveUp);
    assert_eq!(map_key(Key::Down), Command::MoveDown);
    assert_eq!(map_key(Key::Enter), Command::EnterDir);
    assert_eq!(map_key(Key::Backspace), Command::Ascend);
    assert_eq!(map_key(Key::Other), Command::Noop);
}

#[test]
fn join_path_concatenates_with_slash() {
    assert_eq!(join_path(".", "docs"), "./docs");
    assert_eq!(join_path("./docs", "guide.txt"), "./docs/guide.txt");
    assert_eq!(join_path("", "x"), "/x");
}

#[test]
fn collect_entries_keeps_children_in_order() {
    let items = vec![
        listed("base", true, 0),
        listed("docs", true, 1),
        listed("readme.txt", false, 1),
    ];
    let es = collect_entries(&items).unwrap();
    assert_eq!(es.len(), 2);
    assert_eq!(es[0].name, "docs");
    assert!(es[0].is_dir);
    assert_eq!(es[0].full_path, "base/docs");
    assert_eq!(es[1].name, "readme.txt");
    assert!(!es[1].is_dir);
}

#[test]
fn collect_entries_skips_unreadable_children() {
    let items = vec![
        listed("base", true, 0),
        listed("a", false, 1),
        RawListItem::Failed { depth: 1 },
        listed("b", true, 1),
    ];
    let es = collect_entries(&items).unwrap();
    assert_eq!(es.len(), 2);
    assert_eq!(es[0].name, "a");
    assert_eq!(es[1].name, "b");
}

#[test]
fn collect_entries_rejects_unreadable_root() {
    let items = vec![RawListItem::Failed { depth: 0 }];
    assert_eq!(collect_entries(&items), Err(ListError::CannotOpen));
    let late = vec![listed("base", true, 0), RawListItem::Failed { depth: 0 }];
    assert_eq!(collect_entries(&late), Err(ListError::CannotOpen));
    let empty: Vec<RawListItem> = vec![];
    assert_eq!(collect_entries(&empty), Err(ListError::CannotOpen));
}

#[test]
fn collect_entries_rejects_non_directory_root() {
    let items = vec![listed("base", false, 0)];
    assert_eq!(collect_entries(&items), Err(ListError::NotADirectory));
}

#[test]
fn collect_entries_accepts_empty_directory() {
    let items = vec![listed("base", true, 0)];
    assert_eq!(collect_entries(&items), Ok(vec![]));
}

#[test]
fn list_dir_reads_the_filesystem() {
    assert!(list_dir(".").is_ok());
    assert_eq!(
        list_dir("/zz_no_such_dir_for_this_test_qq"),
        Err(ListError::CannotOpen)
    );
}

#[test]
fn list_dir_rejects_a_file_path() {
    assert_eq!(list_dir("/proc/self/status"), Err(ListError::NotADirectory));
}

#[test]
fn list_dir_builds_child_paths_by_joining() {
    let es = list_dir("/tmp").unwrap();
    for e in &es {
        assert_eq!(e.full_path, format!("/tmp/{}", e.name));
    }
}

#[test]
fn preview_keeps_short_files_whole() {
    let lines: Vec<String> = (0..3).map(|i| format!("line {}", i)).collect();
    let p = build_preview(FileReadOutcome::Lines(lines.clone()));
    assert!(!p.truncated);
    assert_eq!(p.lines, lines);
}

#[test]
fn preview_truncates_long_files() {
    let lines: Vec<String> = (0..25).map(|i| format!("line {}", i)).collect();
    let p = build_preview(FileReadOutcome::Lines(lines));
    assert!(p.truncated);
    assert_eq!(p.lines.len(), PREVIEW_MAX_LINES);
    assert_eq!(p.lines[0], "line 0");
    assert_eq!(p.lines[19], "line 19");
}

#[test]
fn preview_at_exact_limit_is_not_truncated() {
    let lines: Vec<String> = (0..PREVIEW_MAX_LINES).map(|i| format!("line {}", i)).collect();
    let p = build_preview(FileReadOutcome::Lines(lines));
    assert!(!p.truncated);
    assert_eq!(p.lines.len(), PREVIEW_MAX_LINES);
}

#[test]
fn preview_placeholders_for_failures() {
    let open_failed = build_preview(FileReadOutcome::OpenFailed);
    assert_eq!(open_failed.lines, vec!["Cannot open file".to_string()]);
    assert!(!open_failed.truncated);
    let read_failed = build_preview(FileReadOutcome::ReadFailed);
    assert_eq!(read_failed.lines, vec!["Error reading file".to_string()]);
    assert!(!read_failed.truncated);
    let dir = directory_preview();
    assert_eq!(
        dir.lines,
        vec!["Directory selected - no preview available".to_string()]
    );
}

#[test]
fn metadata_renders_the_epoch() {
    let m = build_metadata("a.txt".to_string(), 5, 0);
    assert_eq!(m.display_path, "a.txt");
    assert_eq!(m.size_bytes, 5);
    assert_eq!(m.modified_text, "1970-01-01 00:00:00");
}

#[test]
fn metadata_renders_a_known_instant() {
    let m = build_metadata("b.txt".to_string(), 123, 1234567890);
    assert_eq!(m.modified_text, "2009-02-13 23:31:30");
}

#[test]
fn metadata_placeholder_when_unavailable() {
    let m = metadata_unavailable("c.txt".to_string());
    assert_eq!(m.display_path, "c.txt");
    assert_eq!(m.size_bytes, 0);
    assert_eq!(m.modified_text, "Cannot retrieve file info");
}
