use quick_launch::arg_parser::parse_path;
use quick_launch::locations::{
    default_quick_launch_dir, default_quick_launch_settings_dir, get_default_script_dir, under,
    APP_ID, HOME_DIR_NAME,
};
use quick_launch::paths::{display_name, entry_label, or_unknown, UNKNOWN_NAME};
use std::path::Path;

#[test]
fn label_is_the_file_name() {
    assert_eq!(entry_label("/tmp/a.sh"), "a.sh");
    assert_eq!(entry_label("a.sh"), "a.sh");
    assert_eq!(entry_label("/tmp/My Script.sh"), "My Script.sh");
    assert_eq!(entry_label("/tmp/dir/"), "dir");
}

#[test]
fn label_of_a_path_without_a_name_is_unknown() {
    assert_eq!(entry_label("/"), "Unknown");
    assert_eq!(entry_label(".."), "Unknown");
    assert_eq!(entry_label("/tmp/.."), "Unknown");
    assert_eq!(entry_label(""), "Unknown");
}

#[test]
fn display_name_drops_the_extension() {
    assert_eq!(display_name("/tmp/a.sh"), "a");
    assert_eq!(display_name("/usr/bin/tool"), "tool");
    assert_eq!(display_name("/tmp/archive.tar.gz"), "archive.tar");
    assert_eq!(display_name("/home/me/.bashrc"), ".bashrc");
}

#[test]
fn display_name_of_a_path_without_a_name_is_unknown() {
    assert_eq!(display_name("/"), "Unknown");
    assert_eq!(display_name("/tmp/.."), "Unknown");
    assert_eq!(display_name(""), "Unknown");
}

#[test]
fn names_agree_with_the_standard_library() {
    for path in ["/tmp/a.sh", "rel/b", "/x/.hidden", "/x/y.z.w", "/", "..", "a/..", "dir/"] {
        let name = Path::new(path).file_name().map(|n| n.to_str().unwrap().to_string());
        let stem = Path::new(path).file_stem().map(|n| n.to_str().unwrap().to_string());
        assert_eq!(entry_label(path), name.unwrap_or("Unknown".to_string()));
        assert_eq!(display_name(path), stem.unwrap_or("Unknown".to_string()));
    }
}

#[test]
fn or_unknown_keeps_a_name_and_replaces_none() {
    assert_eq!(or_unknown(Some("x".to_string())), "x");
    assert_eq!(or_unknown(Some(String::new())), "");
    assert_eq!(or_unknown(None), "Unknown");
    assert_eq!(UNKNOWN_NAME, "Unknown");
}

#[test]
fn under_adjoins_the_name_to_a_base() {
    let found = under(Some("/home/me/.local/bin".to_string()), "quick_launch");
    let expected = Path::new("/home/me/.local/bin").join("quick_launch");
    assert_eq!(found, Some(expected.to_str().unwrap().to_string()));
    assert_ne!(found, Some("/home/me/.local/bin".to_string()));
}

#[test]
fn under_without_a_base_is_none() {
    assert_eq!(under(None, "quick_launch"), None);
}

#[test]
fn application_names() {
    assert_eq!(APP_ID, "quick_launch");
    assert_eq!(HOME_DIR_NAME, ".quick_launch");
}

#[test]
fn default_script_dir_ends_in_the_application_name() {
    if let Some(dir) = get_default_script_dir() {
        assert_eq!(Path::new(&dir).file_name().unwrap(), "quick_launch");
        assert!(Path::new(&dir).parent().is_some());
    }
}

#[test]
fn default_settings_dir_ends_in_the_application_name() {
    if let Some(dir) = default_quick_launch_settings_dir() {
        assert_eq!(Path::new(&dir).file_name().unwrap(), "quick_launch");
    }
}

#[test]
fn default_scan_dir_is_the_dot_directory() {
    if let Some(dir) = default_quick_launch_dir() {
        assert_eq!(Path::new(&dir).file_name().unwrap(), ".quick_launch");
    }
}

#[test]
fn an_existing_directory_is_accepted() {
    assert_eq!(parse_path("/tmp", true, true), Ok("/tmp".to_string()));
    assert_eq!(parse_path("./", true, true), Ok("./".to_string()));
}

#[test]
fn a_path_that_is_no_directory_is_refused() {
    assert_eq!(
        parse_path("/etc/passwd", true, false),
        Err("Path is not a directory: /etc/passwd".to_string())
    );
    assert_eq!(
        parse_path("/nowhere", false, false),
        Err("Path is not a directory: /nowhere".to_string())
    );
}

#[test]
fn a_directory_that_is_gone_is_refused() {
    assert_eq!(
        parse_path("/gone", false, true),
        Err("Directory does not exist: /gone".to_string())
    );
}
