//! Text, paths and messages.

use std::path::Path;

use source_update::failure::Failure;
use source_update::io::DirEntry;
use source_update::os_text::{is_bytes_le, OsText};
use source_update::path::{file_name, join_text, parent, same_path};
use source_update::retention::releases_to_prune;
use source_update::text::{
    decimal_string, find_after_prefix, parse_i32, str_contains, str_starts_with, trim,
};

fn os(text: &str) -> OsText {
    OsText::from_text(text)
}

const PATHS: [&str; 22] = [
    "", "/", "//", ".", "..", "a", "a/", "a/.", "a/..", "/a", "/a/b", "/a//b/", "/a/./b", "./a",
    "a/b/.", "/.", "/..", "a/.hidden", "a/...", "/a/b/./", ".//a", "a/./",
];

#[test]
fn paths_are_taken_apart_as_the_standard_library_does() {
    for path in PATHS {
        let std_path = Path::new(path);
        let name = file_name(&os(path)).map(|name| String::from_utf8(name.bytes).unwrap());
        assert_eq!(name.as_deref(), std_path.file_name().and_then(|n| n.to_str()), "{path:?}");
        let dir = parent(&os(path)).map(|dir| String::from_utf8(dir.bytes).unwrap());
        assert_eq!(dir.as_deref(), std_path.parent().and_then(|p| p.to_str()), "{path:?}");
    }
}

#[test]
fn paths_are_compared_as_the_standard_library_does() {
    for a in PATHS {
        for b in PATHS {
            assert_eq!(same_path(&os(a), &os(b)), Path::new(a) == Path::new(b), "{a:?} {b:?}");
        }
    }
}

#[test]
fn paths_are_joined_as_the_standard_library_does() {
    for base in PATHS {
        for rel in ["x", "x/y", "/x", ""] {
            let joined = String::from_utf8(join_text(&os(base), rel).bytes).unwrap();
            assert_eq!(joined, Path::new(base).join(rel).to_str().unwrap(), "{base:?} {rel:?}");
        }
    }
}

#[test]
fn bytes_that_are_not_utf8_are_shown_with_replacements() {
    let mut path = os("/a/");
    path.push(&[0xff, b'b']);
    assert_eq!(path.display(), "/a/\u{fffd}b");
    assert_eq!(path.to_text(), None);
    assert_eq!(os("/ä").display(), "/ä");
    assert_eq!(os("/ä").to_text().as_deref(), Some("/ä"));
}

#[test]
fn names_are_ordered_by_their_bytes() {
    assert!(is_bytes_le(b"source-03", b"source-bootstrap-01"));
    assert!(is_bytes_le(b"a", b"a"));
    assert!(is_bytes_le(b"a", b"ab"));
    assert!(!is_bytes_le(b"b", b"ab"));
}

#[test]
fn only_directories_count_as_releases() {
    let entry = |name: &str, is_dir: bool| DirEntry { name: os(name), is_dir };
    let entries = vec![
        entry("c", true),
        entry("file", false),
        entry("a", true),
        entry("d", true),
        entry("b", true),
    ];
    assert_eq!(
        releases_to_prune(&entries, &os("/r"), &os("/r/a")),
        [os("/r/b"), os("/r/c")]
    );
    assert_eq!(
        releases_to_prune(&entries, &os("/r"), &os("/r/d")),
        [os("/r/a"), os("/r/b")]
    );
    assert_eq!(releases_to_prune(&entries[..2].iter().map(|e| entry(
        std::str::from_utf8(&e.name.bytes).unwrap(),
        e.is_dir,
    )).collect(), &os("/r"), &os("/r/z")), []);
}

#[test]
fn text_is_trimmed_and_searched() {
    let chars: Vec<char> = "\u{a0} \t x y \u{3000}\n".chars().collect();
    assert_eq!(trim(&chars).iter().collect::<String>(), "x y");
    assert!(trim(&[' ', '\u{2028}']).is_empty());
    assert!(str_contains("x86_64-unknown-linux-gnu", "linux"));
    assert!(!str_contains("linu", "linux"));
    assert!(str_contains("abc", ""));
    assert!(str_starts_with("HTTP/1.1 200 OK", "HTTP/1.1 200"));
    assert!(!str_starts_with("HTTP/1.1 20", "HTTP/1.1 200"));
}

#[test]
fn lines_are_found_by_their_beginning() {
    assert_eq!(find_after_prefix("a: 1\r\nb: 2\nb: 3", "b: ").as_deref(), Some("2"));
    assert_eq!(find_after_prefix("a: 1\r\n", "a: ").as_deref(), Some("1"));
    assert_eq!(find_after_prefix("a: 1\r", "a: ").as_deref(), Some("1\r"));
    assert_eq!(find_after_prefix("", "a"), None);
    assert_eq!(find_after_prefix("\n\n", "").as_deref(), Some(""));
}

#[test]
fn numbers_are_read_and_written() {
    for (text, value) in [
        ("0", Some(0)),
        ("-0", Some(0)),
        ("2147483647", Some(i32::MAX)),
        ("2147483648", None),
        ("-2147483648", Some(i32::MIN)),
        ("-2147483649", None),
        ("99999999999999999999999", None),
        ("", None),
        ("-", None),
        ("+7", Some(7)),
        ("7x", None),
        ("--7", None),
    ] {
        let chars: Vec<char> = text.chars().collect();
        assert_eq!(parse_i32(&chars), value, "{text:?}");
        assert_eq!(parse_i32(&chars), text.parse::<i32>().ok(), "{text:?}");
    }
    assert_eq!(decimal_string(0), "0");
    assert_eq!(decimal_string(u128::MAX), u128::MAX.to_string());
}

#[test]
fn failures_tell_their_story_from_the_outside_in() {
    let failure = Failure::of("no space").context("write file".to_owned());
    assert_eq!(failure.message(), "write file");
    assert_eq!(failure.detail(), "write file: no space");
    assert_eq!(failure.duplicate(), failure);
}
