use warpnet_assets::path::{normalize, trim_leading_slashes};
use warpnet_assets::{locate, resolve, AssetTable, Resolution, DEFAULT_DOCUMENT};

fn table_of(entries: &[(&str, &[u8])]) -> AssetTable {
    let mut table = AssetTable::new();
    for (path, bytes) in entries {
        table.insert(path.to_string(), bytes.to_vec());
    }
    table
}

fn example_table() -> AssetTable {
    table_of(&[("index.html", b"<html>"), ("assets/app.js", b"console.log(1)")])
}

fn found_parts(r: &Resolution) -> (&str, &[u8], &str) {
    match r {
        Resolution::Found { serve_path, bytes, content_type } => {
            (serve_path.as_str(), bytes.as_slice(), content_type.as_str())
        }
        Resolution::NotFound => panic!("expected an asset to be found"),
    }
}

#[test]
fn empty_path_serves_default_document() {
    let table = example_table();
    let r = resolve("", &table);
    assert_eq!(found_parts(&r), ("index.html", &b"<html>"[..], "text/html"));
}

#[test]
fn exact_match_with_leading_slash() {
    let table = example_table();
    let r = resolve("/assets/app.js", &table);
    let (serve_path, bytes, content_type) = found_parts(&r);
    assert_eq!(serve_path, "assets/app.js");
    assert_eq!(bytes, b"console.log(1)");
    assert!(content_type.ends_with("javascript"));
}

#[test]
fn unknown_path_falls_back_to_default_document() {
    let table = example_table();
    let r = resolve("/missing/page", &table);
    assert_eq!(found_parts(&r), ("index.html", &b"<html>"[..], "text/html"));
}

#[test]
fn empty_table_finds_nothing() {
    let table = AssetTable::new();
    let r = resolve("/missing/page", &table);
    assert!(matches!(r, Resolution::NotFound));
    assert!(!r.is_found());
}

#[test]
fn exact_match_serves_stored_bytes() {
    let table = example_table();
    let r = resolve("assets/app.js", &table);
    let (serve_path, bytes, _) = found_parts(&r);
    assert_eq!(serve_path, "assets/app.js");
    assert_eq!(bytes, b"console.log(1)");
}

#[test]
fn empty_path_same_as_default_document() {
    let table = example_table();
    assert_eq!(
        found_parts(&resolve("", &table)),
        found_parts(&resolve("index.html", &table))
    );
}

#[test]
fn leading_slashes_are_ignored() {
    let table = example_table();
    let plain = resolve("assets/app.js", &table);
    for request in ["/assets/app.js", "//assets/app.js", "////assets/app.js"] {
        assert_eq!(found_parts(&resolve(request, &table)), found_parts(&plain));
    }
}

#[test]
fn fallback_names_default_document() {
    let table = example_table();
    let r = resolve("assets/missing.js", &table);
    let (serve_path, bytes, content_type) = found_parts(&r);
    assert_eq!(serve_path, DEFAULT_DOCUMENT);
    assert_eq!(bytes, b"<html>");
    assert_eq!(content_type, "text/html");
}

#[test]
fn no_default_document_means_not_found() {
    let table = table_of(&[("assets/app.js", b"console.log(1)")]);
    assert!(matches!(resolve("missing", &table), Resolution::NotFound));
    assert!(matches!(resolve("", &table), Resolution::NotFound));
    assert!(resolve("assets/app.js", &table).is_found());
}

#[test]
fn content_type_follows_extension() {
    let table = table_of(&[
        ("style.css", b"body{}"),
        ("app.js", b"1"),
        ("logo.png", b"\x89PNG"),
        ("data.bin", b"\x00\x01"),
        ("notes.zzzz", b"?"),
    ]);
    assert_eq!(found_parts(&resolve("style.css", &table)).2, "text/css");
    assert!(found_parts(&resolve("/app.js", &table)).2.ends_with("javascript"));
    assert_eq!(found_parts(&resolve("logo.png", &table)).2, "image/png");
    assert_eq!(found_parts(&resolve("data.bin", &table)).2, "application/octet-stream");
    assert_eq!(found_parts(&resolve("notes.zzzz", &table)).2, "application/octet-stream");
}

#[test]
fn content_type_comes_from_served_path() {
    let table = example_table();
    let r = resolve("/styles/missing.css", &table);
    assert_eq!(found_parts(&r).2, "text/html");
}

#[test]
fn repeated_calls_agree() {
    let table = example_table();
    for request in ["", "/assets/app.js", "/missing/page"] {
        let first = resolve(request, &table);
        let second = resolve(request, &table);
        assert_eq!(found_parts(&first), found_parts(&second));
    }
}

#[test]
fn adversarial_paths_do_not_panic() {
    let table = example_table();
    let long = "a/".repeat(10_000);
    let with_nul = "assets/\0app.js";
    for request in ["", "/", "////", "..", "/../index.html", with_nul, long.as_str(), "/é/ü"] {
        let r = resolve(request, &table);
        assert_eq!(found_parts(&r).0, "index.html");
    }
    let empty = AssetTable::new();
    for request in ["", "/", "////", with_nul, long.as_str()] {
        assert!(matches!(resolve(request, &empty), Resolution::NotFound));
    }
}

#[test]
fn locate_reports_key_and_bytes() {
    let table = example_table();
    let (key, bytes) = locate("///assets/app.js", &table).unwrap();
    assert_eq!(key, "assets/app.js");
    assert_eq!(bytes.as_slice(), b"console.log(1)");
    let (key, bytes) = locate("nothing/here", &table).unwrap();
    assert_eq!(key, "index.html");
    assert_eq!(bytes.as_slice(), b"<html>");
    assert!(locate("x", &AssetTable::new()).is_none());
}

#[test]
fn found_keeps_its_arguments() {
    let r = Resolution::found("a.txt", &vec![1, 2, 3], "text/plain".to_string());
    assert_eq!(found_parts(&r), ("a.txt", &[1u8, 2, 3][..], "text/plain"));
}

#[test]
fn later_insert_shadows_earlier() {
    let mut table = AssetTable::new();
    table.insert("index.html".to_string(), b"old".to_vec());
    table.insert("index.html".to_string(), b"new".to_vec());
    assert_eq!(table.get("index.html").unwrap().as_slice(), b"new");
    assert!(table.contains("index.html"));
    assert!(!table.contains("/index.html"));
    assert!(table.get("other").is_none());
}

#[test]
fn normalization() {
    assert_eq!(trim_leading_slashes("///a/b"), "a/b");
    assert_eq!(trim_leading_slashes("a//"), "a//");
    assert_eq!(trim_leading_slashes("//ü/"), "ü/");
    assert_eq!(trim_leading_slashes("///"), "");
    assert_eq!(normalize(""), "index.html");
    assert_eq!(normalize("////"), "index.html");
    assert_eq!(normalize("/x.css"), "x.css");
}

#[test]
fn key_with_leading_slash_is_unreachable() {
    let table = table_of(&[("/a", b"slash"), ("index.html", b"<html>")]);
    assert_eq!(found_parts(&resolve("/a", &table)).0, "index.html");
}
