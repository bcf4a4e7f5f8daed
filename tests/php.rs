use ansi_term::Colour;
use php_segment::project::is_php_file;
use php_segment::project::is_php_project;
use php_segment::segment::segment;
use php_segment::version::format_php_version;
use php_segment::version::is_white_space;
use std::cell::Cell;

fn names(list: &[&str]) -> Vec<String> {
    list.iter().map(|s| s.to_string()).collect()
}

#[test]
fn test_format_php_version() {
    let input_with_dash =
        String::from("PHP 7.2.17-0ubuntu0.18.04.1 (cli) (built: Apr 18 2019 14:12:38) ( NTS )");
    assert_eq!(
        format_php_version(input_with_dash),
        Some("v7.2.17".to_string())
    );

    let input_without_dash =
        String::from("PHP 7.2.17 (cli) (built: Apr 18 2019 14:12:38) ( NTS )");
    assert_eq!(
        format_php_version(input_without_dash),
        Some("v7.2.17".to_string())
    );
}

#[test]
fn empty_output_has_no_version() {
    assert_eq!(format_php_version(String::new()), None);
}

#[test]
fn output_without_marker_has_no_version() {
    assert_eq!(format_php_version("Warning: command not found".to_string()), None);
    assert_eq!(format_php_version("php 7.2.17 (cli)".to_string()), None);
    assert_eq!(format_php_version("PH P 7.2.17".to_string()), None);
}

#[test]
fn marker_followed_by_whitespace_only_has_no_version() {
    assert_eq!(format_php_version("PHP".to_string()), None);
    assert_eq!(format_php_version("Zend PHP  \t\n ".to_string()), None);
}

#[test]
fn token_after_other_whitespace() {
    assert_eq!(
        format_php_version("Zend PHP\t\n 8.1.2-1ubuntu2.14 (cli)".to_string()),
        Some("v8.1.2".to_string())
    );
    assert_eq!(
        format_php_version("PHP\u{3000}8.0.30\u{a0}(cli)".to_string()),
        Some("v8.0.30".to_string())
    );
}

#[test]
fn token_glued_to_marker_or_end() {
    assert_eq!(format_php_version("PHP8.3.0".to_string()), Some("v8.3.0".to_string()));
    assert_eq!(format_php_version("PHP 5.6".to_string()), Some("v5.6".to_string()));
}

#[test]
fn only_first_marker_counts() {
    assert_eq!(format_php_version("PHP PHP 7.4.0".to_string()), Some("vPHP".to_string()));
    assert_eq!(format_php_version("PHPHP 7".to_string()), Some("vHP".to_string()));
}

#[test]
fn only_first_dash_counts() {
    assert_eq!(format_php_version("PHP 7.4.0-1-2 (cli)".to_string()), Some("v7.4.0".to_string()));
    assert_eq!(format_php_version("PHP -dev".to_string()), Some("v".to_string()));
}

#[test]
fn non_ascii_version_text() {
    assert_eq!(format_php_version("ÄPHP é-ü".to_string()), Some("vé".to_string()));
}

#[test]
fn whitespace_agrees_with_std() {
    for u in 0u32..=0x10FFFF {
        if let Some(c) = char::from_u32(u) {
            assert_eq!(is_white_space(c), c.is_whitespace(), "{:#x}", u);
        }
    }
}

#[test]
fn composer_manifest_marks_project() {
    assert!(is_php_project(&names(&["composer.json"])));
    assert!(is_php_project(&names(&["README.md", "composer.json"])));
}

#[test]
fn php_file_marks_project() {
    assert!(is_php_project(&names(&["index.php"])));
    assert!(is_php_project(&names(&["notes.txt", "lib.test.php"])));
}

#[test]
fn other_files_do_not_mark_project() {
    assert!(!is_php_project(&names(&[])));
    assert!(!is_php_project(&names(&["main.rs", "Cargo.toml", "composer.lock"])));
    assert!(!is_php_project(&names(&[".php", "index.PHP", "index.phps", "Composer.json"])));
}

#[test]
fn php_file_names() {
    assert!(is_php_file("a.php"));
    assert!(is_php_file("..php"));
    assert!(!is_php_file(".php"));
    assert!(!is_php_file("php"));
    assert!(!is_php_file("a.php.bak"));
}

#[test]
fn no_query_outside_php_project() {
    let called = Cell::new(false);
    let r = segment(&names(&["main.rs"]), || {
        called.set(true);
        Some("PHP 7.2.17 (cli)".to_string())
    });
    assert!(r.is_none());
    assert!(!called.get());
}

#[test]
fn module_shows_formatted_version() {
    let called = Cell::new(false);
    let r = segment(&names(&["composer.json"]), || {
        called.set(true);
        Some("PHP 7.2.17-0ubuntu0.18.04.1 (cli) (built: Apr 18 2019 14:12:38) ( NTS )".to_string())
    });
    assert!(called.get());
    let m = r.expect("a module");
    assert_eq!(m.name, "php");
    assert!(m.style == Colour::Blue.bold());
    assert!(m.style.is_bold);
    assert!(m.style.foreground == Some(Colour::Blue));
    assert!(!m.style.is_italic);
    assert_eq!(m.segments.len(), 2);
    assert_eq!(m.segments[0].name, "symbot");
    assert_eq!(m.segments[0].value, "🐘 ");
    assert_eq!(m.segments[1].name, "version");
    assert_eq!(m.segments[1].value, "v7.2.17");
}

#[test]
fn no_module_when_query_fails() {
    assert!(segment(&names(&["index.php"]), || None).is_none());
}

#[test]
fn no_module_when_output_has_no_version() {
    let r = segment(&names(&["index.php"]), || Some("Warning: command not found".to_string()));
    assert!(r.is_none());
}
