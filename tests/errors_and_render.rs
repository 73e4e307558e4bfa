use nhfs::config::bind_address;
use nhfs::error::{capitalize, AsHttpError, strip_errno, CliError, CliIoError, FromIo, HttpError, IoFailure, IoKind};
use nhfs::icons::IconMap;
use nhfs::listing::{list_directory, EntryMeta, RawEntry};
use nhfs::datetime::LocalDateTime;
use nhfs::render::{directory_page, directory_value, error_body, listing_value, render_binding, render_listing, TemplateValue};

fn entries() -> Vec<RawEntry> {
    let t = || LocalDateTime { year: 2024, month: 1, day: 2, hour: 3, minute: 4, second: 5 };
    vec![
        RawEntry {
            name: "sub".to_string(),
            meta: Some(EntryMeta { is_directory: true, is_file: false, len: 0, modified: t() }),
        },
        RawEntry {
            name: "a.txt".to_string(),
            meta: Some(EntryMeta { is_directory: false, is_file: true, len: 10, modified: t() }),
        },
    ]
}

#[test]
fn render_lists_rows_in_order() {
    let ctx = list_directory("/c/docs", "/c", &IconMap::new(), &entries());
    let html = render_listing(
        &ctx,
        "{{#files}}{{name}}|{{path}}|{{size}}|{{#is_directory}}d{{/is_directory}};{{/files}}",
        "dir.html",
    );
    assert_eq!(html.ok(), Some("a.txt|/docs/a.txt|10|;sub|/docs/sub|0|d;".to_string()));
}

#[test]
fn render_bad_template_is_internal() {
    let ctx = list_directory("/c/docs", "/c", &IconMap::new(), &entries());
    let r = render_listing(&ctx, "{{#files}}", "dir.html");
    assert_eq!(r.err().map(|e| e.status), Some(500));
}

#[test]
fn missing_template_is_internal_with_json_body() {
    let r = directory_page("/c/docs", "/c", &IconMap::new(), &entries(), None, "/a/templates/dir.html");
    let e = r.err().expect("missing template fails");
    assert_eq!(e.status, 500);
    let body = error_body(&e.msg);
    let v: serde_json::Value = serde_json::from_str(&body).expect("json");
    let obj = v.as_object().expect("object");
    assert_eq!(obj.len(), 1);
    assert_eq!(obj.get("msg").and_then(|m| m.as_str()), Some(e.msg.as_str()));
}

#[test]
fn error_body_escapes_quotes() {
    assert_eq!(error_body("say \"hi\""), "{\"msg\":\"say \\\"hi\\\"\"}");
}

#[test]
fn page_with_template_renders() {
    let r = directory_page(
        "/c/docs",
        "/c",
        &IconMap::new(),
        &entries(),
        Some("{{#files}}{{name}} {{/files}}".to_string()),
        "dir.html",
    );
    assert_eq!(r.ok(), Some("a.txt sub ".to_string()));
}

#[test]
fn capitalize_first_ascii_letter() {
    let mut s = "no such file".to_string();
    capitalize(&mut s);
    assert_eq!(s, "No such file");
    let mut s = "émoi".to_string();
    capitalize(&mut s);
    assert_eq!(s, "émoi");
    let mut s = String::new();
    capitalize(&mut s);
    assert_eq!(s, "");
}

#[test]
fn strip_errno_cuts_suffix() {
    assert_eq!(strip_errno("Is a directory (os error 21)"), "Is a directory");
    assert_eq!(strip_errno("plain message"), "plain message");
}

fn failure(kind: IoKind, os: Option<i32>, text: &str) -> IoFailure {
    IoFailure { kind, os_code: os, text: text.to_string() }
}

#[test]
fn os_errors_get_fixed_wording() {
    let e = CliIoError::new(Some("Failed to read".to_string()), failure(IoKind::NotFound, Some(2), "x (os error 2)"));
    assert_eq!(e.to_message(), "Failed to read: No such file or directory");
}

#[test]
fn other_os_errors_are_stripped_and_capitalized() {
    let e = CliIoError::new(None, failure(IoKind::Other, Some(21), "is a directory (os error 21)"));
    assert_eq!(e.to_message(), "Is a directory");
}

#[test]
fn custom_errors_are_capitalized() {
    let e = CliIoError::new(None, failure(IoKind::InvalidData, None, "bad yaml"));
    assert_eq!(e.to_message(), "Bad yaml");
}

#[test]
fn cli_error_takes_os_code() {
    let e = CliError::from_io(CliIoError::new(None, failure(IoKind::PermissionDenied, Some(13), "")));
    assert_eq!(e.code, 13);
    assert_eq!(e.msg, "Permission denied");
    let e = CliError::from_io(CliIoError::new(None, failure(IoKind::Other, None, "oops")));
    assert_eq!(e.code, 1);
    let e = CliError::new("bye".to_string(), 3);
    assert_eq!((e.msg.as_str(), e.code), ("bye", 3));
}

#[test]
fn set_status_keeps_message() {
    let mut e = *failure(IoKind::NotFound, Some(2), "").map_err_context("Failed to resolve path /x".to_string());
    let h: HttpError = e.set_status(404);
    assert_eq!(h.status, 404);
    assert_eq!(h.msg, "Failed to resolve path /x: No such file or directory");
    let h = e.with_status(500);
    assert_eq!(h.status, 500);
    assert_eq!(h.msg, "Failed to resolve path /x: No such file or directory");
    let k = *IoKind::Other.map_err_context("ctx".to_string());
    assert_eq!(k.to_message(), "ctx: ");
}

#[test]
fn bind_address_strips_scheme() {
    assert_eq!(bind_address("http://127.0.0.1:8080").ok(), Some("127.0.0.1:8080".to_string()));
    assert_eq!(bind_address("http://http://h:1").ok(), Some("h:1".to_string()));
    let e = bind_address("https://h:1").err().expect("refused");
    assert_eq!(e.code, 2);
    assert_eq!(e.msg, "Invalid host url: https://h:1");
}

#[test]
fn http_error_constructors() {
    assert_eq!(HttpError::not_found("m".to_string()).status, 404);
    assert_eq!(HttpError::internal("m".to_string()).status, 500);
}

#[test]
fn error_body_escapes_controls() {
    assert_eq!(error_body("a\u{1}\n\\"), "{\"msg\":\"a\\u0001\\n\\\\\"}");
    assert_eq!(error_body("\u{1f}\t\u{8}\u{c}\r/"), "{\"msg\":\"\\u001f\\t\\b\\f\\r/\"}");
}

#[test]
fn missing_template_message_names_the_path() {
    let r = directory_page("/c/docs", "/c", &IconMap::new(), &entries(), None, "/a/templates/dir.html");
    let e = r.err().expect("missing template fails");
    assert_eq!(e.msg, "Failed to read template file /a/templates/dir.html");
}

#[test]
fn bad_template_message_names_compile() {
    let r = directory_page(
        "/c/docs",
        "/c",
        &IconMap::new(),
        &entries(),
        Some("{{#files}}".to_string()),
        "dir.html",
    );
    assert_eq!(r.err().map(|e| e.msg), Some("Failed to compile template file dir.html".to_string()));
}

#[test]
fn listing_binding_has_rows_with_seven_fields() {
    let ctx = list_directory("/c/docs", "/c", &IconMap::new(), &entries());
    let v = listing_value(&ctx);
    let TemplateValue::Record(fields) = v else { panic!("record") };
    assert_eq!(fields.len(), 1);
    assert_eq!(fields[0].0, "files");
    let TemplateValue::List(rows) = &fields[0].1 else { panic!("list") };
    assert_eq!(rows.len(), 2);
    let TemplateValue::Record(row) = &rows[0] else { panic!("row") };
    let names: Vec<&str> = row.iter().map(|(k, _)| k.as_str()).collect();
    assert_eq!(names, vec!["path", "icon", "is_directory", "is_file", "last_modified", "size", "name"]);
    assert!(matches!(&row[1].1, TemplateValue::Null));
    assert!(matches!(&row[2].1, TemplateValue::Flag(false)));
    assert!(matches!(&row[6].1, TemplateValue::Text(t) if t == "a.txt"));
    assert!(matches!(&row[4].1, TemplateValue::Text(t) if t == "2024-01-02 03:04:05"));
}

#[test]
fn directory_binding_renders_like_listing() {
    let v = directory_value("/c/docs", "/c", &IconMap::new(), &entries());
    let html = render_binding(&v, "{{#files}}{{name}}:{{size}} {{/files}}", "dir.html");
    assert_eq!(html.ok(), Some("a.txt:10 sub:0 ".to_string()));
}

#[test]
fn set_status_leaves_failure_unchanged() {
    let mut e = CliIoError::new(Some("ctx".to_string()), failure(IoKind::BrokenPipe, Some(32), "x"));
    let h = e.set_status(500);
    assert_eq!(h.msg, "ctx: Broken pipe");
    assert_eq!(e.context, Some("ctx".to_string()));
    assert_eq!(e.inner.os_code, Some(32));
    assert_eq!(e.inner.text, "x");
}

#[test]
fn map_err_context_keeps_failure() {
    let b = failure(IoKind::Other, None, "yaml: bad").map_err_context("Failed to parse".to_string());
    assert_eq!(b.context, Some("Failed to parse".to_string()));
    assert_eq!(b.inner.os_code, None);
    assert_eq!(b.inner.text, "yaml: bad");
    assert!(b.inner.kind == IoKind::Other);
    let k = IoKind::TimedOut.map_err_context("c".to_string());
    assert!(k.inner.kind == IoKind::TimedOut);
    assert_eq!(k.inner.os_code, None);
    assert_eq!(k.inner.text, "");
}
