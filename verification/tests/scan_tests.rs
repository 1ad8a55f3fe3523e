use quick_launch::scan::{
    child_is_launchable, has_execute_permission, scan, select_executables, DirChild, Listing,
    EXECUTE_BITS,
};

fn file(path: &str, mode: u32) -> DirChild {
    DirChild { path: path.to_string(), is_file: true, mode: Some(mode) }
}

fn dir(path: &str) -> DirChild {
    DirChild { path: path.to_string(), is_file: false, mode: Some(0o755) }
}

fn sorted(mut paths: Vec<String>) -> Vec<String> {
    paths.sort();
    paths
}

#[test]
fn scan_keeps_the_executable_and_drops_the_rest() {
    let listing = Listing::Children(vec![
        file("d/a.sh", 0o755),
        file("d/b.txt", 0o644),
        dir("d/c"),
    ]);
    assert_eq!(scan(&listing), vec!["d/a.sh".to_string()]);
}

#[test]
fn scan_of_a_missing_directory_is_empty() {
    assert_eq!(scan(&Listing::Unavailable), Vec::<String>::new());
}

#[test]
fn scan_of_an_empty_directory_is_empty() {
    assert_eq!(scan(&Listing::Children(vec![])), Vec::<String>::new());
}

#[test]
fn scan_skips_a_child_whose_permissions_cannot_be_read() {
    let listing = Listing::Children(vec![
        DirChild { path: "d/locked".to_string(), is_file: true, mode: None },
        file("d/run", 0o700),
    ]);
    assert_eq!(scan(&listing), vec!["d/run".to_string()]);
}

#[test]
fn scan_drops_a_directory_even_with_execute_bits() {
    let listing = Listing::Children(vec![dir("d/bin"), dir("d/lib")]);
    assert_eq!(scan(&listing), Vec::<String>::new());
}

#[test]
fn scan_includes_hidden_files() {
    let listing = Listing::Children(vec![file("d/.hidden", 0o755)]);
    assert_eq!(scan(&listing), vec!["d/.hidden".to_string()]);
}

#[test]
fn scan_keeps_the_order_of_the_listing() {
    let listing = Listing::Children(vec![
        file("d/z", 0o755),
        file("d/skip", 0o600),
        file("d/a", 0o755),
        file("d/m", 0o755),
    ]);
    assert_eq!(
        scan(&listing),
        vec!["d/z".to_string(), "d/a".to_string(), "d/m".to_string()]
    );
}

#[test]
fn scan_is_not_recursive_by_construction() {
    // A subdirectory is one child; what it holds is never listed.
    let listing = Listing::Children(vec![dir("d/sub"), file("d/top.sh", 0o755)]);
    assert_eq!(scan(&listing), vec!["d/top.sh".to_string()]);
}

#[test]
fn any_single_execute_bit_is_enough() {
    assert!(has_execute_permission(0o100));
    assert!(has_execute_permission(0o010));
    assert!(has_execute_permission(0o001));
    assert!(has_execute_permission(0o755));
    assert!(has_execute_permission(0o111));
    assert!(has_execute_permission(0o100644 | 0o001));
}

#[test]
fn no_execute_bit_means_not_executable() {
    assert!(!has_execute_permission(0));
    assert!(!has_execute_permission(0o644));
    assert!(!has_execute_permission(0o666));
    assert!(!has_execute_permission(0o100644));
    assert!(!has_execute_permission(0o4000));
    assert!(!has_execute_permission(!EXECUTE_BITS));
}

#[test]
fn execute_bits_are_owner_group_other() {
    assert_eq!(EXECUTE_BITS, 0o100 | 0o010 | 0o001);
    assert_eq!(EXECUTE_BITS, 73);
}

#[test]
fn launchable_needs_file_and_mode_and_bit() {
    assert!(child_is_launchable(&file("x", 0o755)));
    assert!(!child_is_launchable(&file("x", 0o644)));
    assert!(!child_is_launchable(&dir("x")));
    assert!(!child_is_launchable(&DirChild {
        path: "x".to_string(),
        is_file: true,
        mode: None
    }));
    assert!(!child_is_launchable(&DirChild {
        path: "x".to_string(),
        is_file: false,
        mode: None
    }));
}

#[test]
fn select_executables_matches_scan_on_children() {
    let children = vec![file("a", 0o755), file("b", 0o644), file("c", 0o010)];
    assert_eq!(select_executables(&children), vec!["a".to_string(), "c".to_string()]);
    assert_eq!(scan(&Listing::Children(children.clone())), select_executables(&children));
}

#[test]
fn rescan_of_an_unchanged_directory_is_equal() {
    let listing = Listing::Children(vec![
        file("d/a.sh", 0o755),
        file("d/b.txt", 0o644),
        dir("d/c"),
        file("d/e", 0o711),
    ]);
    assert_eq!(scan(&listing), scan(&listing));
}

#[test]
fn rescan_in_another_order_finds_the_same_set() {
    let first = Listing::Children(vec![
        file("d/a.sh", 0o755),
        file("d/b.txt", 0o644),
        dir("d/c"),
        file("d/e", 0o711),
    ]);
    let second = Listing::Children(vec![
        file("d/e", 0o711),
        dir("d/c"),
        file("d/a.sh", 0o755),
        file("d/b.txt", 0o644),
    ]);
    assert_ne!(scan(&first), scan(&second));
    assert_eq!(sorted(scan(&first)), sorted(scan(&second)));
}

#[test]
fn scan_does_not_change_the_listing() {
    let listing = Listing::Children(vec![file("d/a.sh", 0o755), file("d/b", 0o600)]);
    let before = listing.clone();
    let _ = scan(&listing);
    assert_eq!(listing, before);
}
