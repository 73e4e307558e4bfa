use nhfs::datetime::{format_datetime, LocalDateTime};
use nhfs::icons::{extension_of, icon_of, IconMap};
use nhfs::listing::{describe, entry_meta, list_directory, relative_path, EntryMeta, RawEntry};
use nhfs::models::FileContext;
use nhfs::sort::sort_by_name;

fn time() -> LocalDateTime {
    LocalDateTime { year: 2024, month: 3, day: 7, hour: 9, minute: 5, second: 0 }
}

fn file(name: &str, len: u64) -> RawEntry {
    RawEntry {
        name: name.to_string(),
        meta: Some(EntryMeta { is_directory: false, is_file: true, len, modified: time() }),
    }
}

fn dir(name: &str) -> RawEntry {
    RawEntry {
        name: name.to_string(),
        meta: Some(EntryMeta { is_directory: true, is_file: false, len: 4096, modified: time() }),
    }
}

fn unreadable(name: &str) -> RawEntry {
    RawEntry { name: name.to_string(), meta: None }
}

fn sample_icons() -> IconMap {
    let mut m = IconMap::new();
    m.insert("txt".to_string(), "icon-txt".to_string());
    m.insert("README.md".to_string(), "icon-readme".to_string());
    m
}

fn names(files: &[FileContext]) -> Vec<String> {
    files.iter().map(|f| f.name.clone()).collect()
}

#[test]
fn unreadable_entries_are_skipped() {
    let entries = vec![file("a", 1), unreadable("b"), file("c", 2), unreadable("d"), dir("e")];
    let ctx = list_directory("/r/d", "/r", &IconMap::new(), &entries);
    assert_eq!(ctx.files.len(), 3);
    assert_eq!(names(&ctx.files), vec!["a", "c", "e"]);
}

#[test]
fn empty_directory_lists_nothing() {
    let ctx = list_directory("/r", "/r", &IconMap::new(), &Vec::new());
    assert!(ctx.files.is_empty());
}

#[test]
fn sort_is_by_code_point() {
    let entries = vec![file("b.txt", 1), file("A.txt", 2), file("a.txt", 3)];
    let ctx = list_directory("/r", "/r", &IconMap::new(), &entries);
    assert_eq!(names(&ctx.files), vec!["A.txt", "a.txt", "b.txt"]);
}

#[test]
fn sort_keeps_order_of_equal_names() {
    let mk = |name: &str, size: &str| FileContext {
        path: String::new(),
        icon: None,
        is_directory: false,
        is_file: true,
        last_modified: String::new(),
        size: size.to_string(),
        name: name.to_string(),
    };
    let v = vec![mk("b", "1"), mk("a", "2"), mk("b", "3"), mk("a", "4")];
    let r = sort_by_name(v);
    let got: Vec<(String, String)> = r.iter().map(|f| (f.name.clone(), f.size.clone())).collect();
    let want: Vec<(String, String)> = vec![("a", "2"), ("a", "4"), ("b", "1"), ("b", "3")]
        .into_iter()
        .map(|(a, b)| (a.to_string(), b.to_string()))
        .collect();
    assert_eq!(got, want);
}

#[test]
fn sort_prefix_comes_first() {
    let entries = vec![file("ab", 1), file("a", 2), file("", 3)];
    let ctx = list_directory("/r", "/r", &IconMap::new(), &entries);
    assert_eq!(names(&ctx.files), vec!["", "a", "ab"]);
}

#[test]
fn icon_precedence() {
    let icons = sample_icons();
    assert_eq!(icon_of(&icons, "notes.txt"), Some("icon-txt".to_string()));
    assert_eq!(icon_of(&icons, "README.md"), Some("icon-readme".to_string()));
    assert_eq!(icon_of(&icons, "noext"), None);
}

#[test]
fn icon_map_insert_replaces() {
    let mut icons = sample_icons();
    icons.insert("txt".to_string(), "icon-text".to_string());
    assert_eq!(icons.get("txt"), Some("icon-text".to_string()));
    assert_eq!(icons.get("md"), None);
}

#[test]
fn extension_is_after_last_dot() {
    assert_eq!(extension_of("a.tar.gz"), Some("gz".to_string()));
    assert_eq!(extension_of("noext"), None);
    assert_eq!(extension_of("trailing."), Some(String::new()));
    assert_eq!(extension_of(".bashrc"), Some("bashrc".to_string()));
}

#[test]
fn relative_path_strips_root() {
    assert_eq!(relative_path("/srv/content/docs/a.txt", "/srv/content"), "/docs/a.txt");
    assert_eq!(relative_path("/elsewhere/a.txt", "/srv/content"), "/elsewhere/a.txt");
}

#[test]
fn describe_fills_every_field() {
    let meta = EntryMeta { is_directory: false, is_file: true, len: 1234, modified: time() };
    let f = describe("/srv/content/docs", "/srv/content", &sample_icons(), "notes.txt", &meta);
    assert_eq!(f.name, "notes.txt");
    assert_eq!(f.path, "/docs/notes.txt");
    assert_eq!(f.icon, Some("icon-txt".to_string()));
    assert!(f.is_file);
    assert!(!f.is_directory);
    assert_eq!(f.size, "1234");
    assert_eq!(f.last_modified, "2024-03-07 09:05:00");
}

#[test]
fn docs_scenario_lists_file_then_subdirectory() {
    let entries = vec![dir("sub"), file("a.txt", 10)];
    let ctx = list_directory("/srv/content/docs", "/srv/content", &IconMap::new(), &entries);
    assert_eq!(names(&ctx.files), vec!["a.txt", "sub"]);
    assert_eq!(ctx.files[0].size, "10");
    assert!(ctx.files[0].is_file);
    assert!(ctx.files[1].is_directory);
    assert_eq!(ctx.files[1].path, "/docs/sub");
}

#[test]
fn other_kinds_are_listed_without_crash() {
    let entries = vec![RawEntry {
        name: "sock".to_string(),
        meta: Some(EntryMeta { is_directory: false, is_file: false, len: 0, modified: time() }),
    }];
    let ctx = list_directory("/r", "/r", &IconMap::new(), &entries);
    assert_eq!(ctx.files.len(), 1);
    assert!(!ctx.files[0].is_directory && !ctx.files[0].is_file);
}

#[test]
fn datetime_is_zero_padded() {
    assert_eq!(format_datetime(&time()), "2024-03-07 09:05:00");
    let t = LocalDateTime { year: 987, month: 12, day: 31, hour: 23, minute: 59, second: 59 };
    assert_eq!(format_datetime(&t), "0987-12-31 23:59:59");
    let t = LocalDateTime { year: 12345, month: 1, day: 1, hour: 0, minute: 0, second: 0 };
    assert_eq!(format_datetime(&t), "+12345-01-01 00:00:00");
    let t = LocalDateTime { year: -1, month: 1, day: 1, hour: 0, minute: 0, second: 0 };
    assert_eq!(format_datetime(&t), "-0001-01-01 00:00:00");
}

#[test]
fn entry_meta_converts_timestamp() {
    let m = entry_meta(false, true, 10, 1_700_000_000, 0).expect("in range");
    assert!(m.is_file && !m.is_directory);
    assert_eq!(m.len, 10);
    let text = format_datetime(&m.modified);
    assert_eq!(text.len(), 19);
    assert!(text.starts_with("2023-11-1"));
}

#[test]
fn entry_meta_out_of_range_is_none() {
    assert!(entry_meta(false, true, 10, i64::MAX, 0).is_none());
}

#[test]
fn entry_meta_in_range_is_some() {
    assert!(entry_meta(true, false, 0, -8_000_000_000_000, 999_999_999).is_some());
    assert!(entry_meta(true, false, 0, 8_000_000_000_000, 0).is_some());
}
