use zanshin_launcher::paths::first_run_file_exists;
use zanshin_launcher::paths::first_run_marker_path;
use zanshin_launcher::paths::get_real_home_directory;
use zanshin_launcher::paths::get_zanshin_application_support_path;
use zanshin_launcher::paths::interpreter_path;
use zanshin_launcher::paths::join_path;
use zanshin_launcher::paths::media_db_path;
use zanshin_launcher::paths::pathbuf_to_string;
use zanshin_launcher::paths::script_path;
use zanshin_launcher::paths::update_dir;
use zanshin_launcher::paths::update_script_path;
use zanshin_launcher::paths::uv_path;

#[test]
fn join_puts_a_separator_between() {
    assert_eq!(join_path("/Users/a", "Library"), "/Users/a/Library");
}

#[test]
fn join_keeps_a_trailing_separator() {
    assert_eq!(join_path("/Users/a/", "Library"), "/Users/a/Library");
}

#[test]
fn join_on_empty_base_is_the_component() {
    assert_eq!(join_path("", "Library"), "Library");
}

#[test]
fn join_with_absolute_component_replaces() {
    assert_eq!(join_path("/Users/a", "/etc"), "/etc");
}

#[test]
fn join_with_empty_component_ends_in_separator() {
    assert_eq!(join_path("/Users/a", ""), "/Users/a/");
}

#[test]
fn join_agrees_with_std_paths() {
    let cases: Vec<(&str, &str)> = vec![
        ("/Users/a", "Library"),
        ("/Users/a/", "Library"),
        ("", "Library"),
        ("/Users/a", "/etc"),
        ("/Users/a", ""),
        ("/", "x"),
        ("rel", "zanshin/src/app.py"),
        ("/h\u{e9}", "Application Support"),
    ];
    for (base, component) in cases {
        let expected = std::path::Path::new(base).join(component);
        assert_eq!(join_path(base, component), expected.to_str().unwrap());
    }
}

#[test]
fn home_prefers_the_password_database() {
    let home = get_real_home_directory(Some("/Users/a".to_string()), Some("/env".to_string()));
    assert_eq!(home, "/Users/a");
}

#[test]
fn home_falls_back_to_the_home_variable() {
    assert_eq!(get_real_home_directory(None, Some("/env".to_string())), "/env");
}

#[test]
fn home_is_empty_without_both() {
    assert_eq!(get_real_home_directory(None, None), "");
}

#[test]
fn support_path_under_home() {
    assert_eq!(
        get_zanshin_application_support_path("/Users/a"),
        "/Users/a/Library/Application Support/Zanshin"
    );
}

#[test]
fn support_path_under_empty_home() {
    assert_eq!(
        get_zanshin_application_support_path(""),
        "Library/Application Support/Zanshin"
    );
}

#[test]
fn path_text_of_valid_bytes() {
    let bytes: Vec<u8> = "/Users/a/Zanshin".as_bytes().to_vec();
    assert_eq!(pathbuf_to_string(&bytes), Ok("/Users/a/Zanshin".to_string()));
}

#[test]
fn path_text_of_non_ascii_bytes() {
    let bytes: Vec<u8> = vec![0x2f, 0xc3, 0xa9];
    assert_eq!(pathbuf_to_string(&bytes), Ok("/\u{e9}".to_string()));
}

#[test]
fn path_text_of_invalid_bytes_is_refused() {
    let bytes: Vec<u8> = vec![0x2f, 0xff, 0xfe];
    assert_eq!(pathbuf_to_string(&bytes), Err("Invalid path".to_string()));
}

#[test]
fn path_text_of_empty_bytes() {
    let bytes: Vec<u8> = Vec::new();
    assert_eq!(pathbuf_to_string(&bytes), Ok(String::new()));
}

#[test]
fn marker_path_is_under_the_support_dir() {
    assert_eq!(first_run_marker_path("/s/Zanshin"), "/s/Zanshin/first_run");
}

#[test]
fn marker_is_missing_on_a_first_run() {
    let existing: Vec<String> = vec!["/s/Zanshin/zanshin".to_string()];
    assert!(!first_run_file_exists("/s/Zanshin", &existing));
    assert!(!first_run_file_exists("/s/Zanshin", &Vec::new()));
}

#[test]
fn marker_is_found_once_created() {
    let mut existing: Vec<String> = vec!["/s/Zanshin/zanshin".to_string()];
    existing.push(first_run_marker_path("/s/Zanshin"));
    assert!(first_run_file_exists("/s/Zanshin", &existing));
    existing.push(first_run_marker_path("/s/Zanshin"));
    assert!(first_run_file_exists("/s/Zanshin", &existing));
}

#[test]
fn marker_of_another_directory_does_not_count() {
    let existing: Vec<String> = vec!["/t/Zanshin/first_run".to_string()];
    assert!(!first_run_file_exists("/s/Zanshin", &existing));
}

#[test]
fn worker_files_under_the_support_dir() {
    assert_eq!(
        interpreter_path("/s"),
        "/s/zanshin/python_interpreter/cpython-3.11.13-macos-aarch64-none/bin/python"
    );
    assert_eq!(script_path("/s"), "/s/zanshin/src/app.py");
    assert_eq!(uv_path("/s"), "/s/zanshin/third_party/uv/uv");
    assert_eq!(media_db_path("/s"), "/s/zanshin/media.db");
    assert_eq!(update_dir("/s"), "/s/update");
    assert_eq!(update_script_path("/s"), "/s/update/update.py");
}
