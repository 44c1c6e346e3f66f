use czkawka_gui::defaults::{defaults, Platform};
use czkawka_gui::settings::SettingsSnapshot;

fn strings(items: &[&str]) -> Vec<String> {
    items.iter().map(|s| s.to_string()).collect()
}

#[test]
fn unix_defaults() {
    let s = defaults(Platform::Unix, Some("/home/alice/work".to_string()));
    assert_eq!(s.included_directories, strings(&["/home/alice/work"]));
    assert_eq!(s.excluded_directories, strings(&["/proc", "/dev", "/sys", "/run", "/snap"]));
    assert_eq!(
        s.excluded_items,
        strings(&["*/.git/*", "*/node_modules/*", "*/lost+found/*", "*/Trash/*", "*/.Trash-*/*"])
    );
    assert!(s.allowed_extensions.is_empty());
    assert!(s.save_at_exit && s.load_at_start && s.confirm_deletion);
}

#[test]
fn windows_defaults() {
    let s = defaults(Platform::Windows, Some("D:\\work".to_string()));
    assert_eq!(s.included_directories, strings(&["D:\\work"]));
    assert!(s.excluded_directories.is_empty());
    assert_eq!(
        s.excluded_items,
        strings(&[
            "*/.git/*",
            "*/node_modules/*",
            "*/lost+found/*",
            "*/Trash/*",
            "*/.Trash-*/*",
            "*:/windows/*"
        ])
    );
    assert!(s.allowed_extensions.is_empty());
    assert!(s.save_at_exit && s.load_at_start && s.confirm_deletion);
}

#[test]
fn other_platform_defaults() {
    let s = defaults(Platform::Other, None);
    assert_eq!(s.included_directories, strings(&[""]));
    assert!(s.excluded_directories.is_empty());
    assert!(s.excluded_items.is_empty());
    assert!(s.allowed_extensions.is_empty());
    assert!(s.save_at_exit && s.load_at_start && s.confirm_deletion);
}

#[test]
fn fallback_root_stands_in_for_an_unknown_working_directory() {
    assert_eq!(defaults(Platform::Unix, None).included_directories, strings(&["/home"]));
    assert_eq!(defaults(Platform::Windows, None).included_directories, strings(&["C:\\"]));
    assert_eq!(defaults(Platform::Other, None).included_directories, strings(&[""]));
}

#[test]
fn proc_is_excluded_on_unix_only() {
    let proc = "/proc".to_string();
    assert!(defaults(Platform::Unix, None).excluded_directories.contains(&proc));
    assert!(!defaults(Platform::Windows, None).excluded_directories.contains(&proc));
    assert!(!defaults(Platform::Other, None).excluded_directories.contains(&proc));
}

#[test]
fn new_and_default_agree() {
    let a = SettingsSnapshot::new();
    let b = SettingsSnapshot::default();
    assert!(a.included_directories.is_empty() && b.included_directories.is_empty());
    assert!(a.excluded_directories.is_empty() && b.excluded_directories.is_empty());
    assert!(a.excluded_items.is_empty() && b.excluded_items.is_empty());
    assert!(a.allowed_extensions.is_empty() && b.allowed_extensions.is_empty());
    assert!(a.save_at_exit && a.load_at_start && a.confirm_deletion);
    assert!(b.save_at_exit && b.load_at_start && b.confirm_deletion);
}
