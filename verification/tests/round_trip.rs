use czkawka_gui::defaults::{defaults, Platform};
use czkawka_gui::reader::{parse, Diagnostic};
use czkawka_gui::settings::SettingsSnapshot;
use czkawka_gui::writer;

fn strings(items: &[&str]) -> Vec<String> {
    items.iter().map(|s| s.to_string()).collect()
}

#[test]
fn written_settings_read_back_unchanged() {
    let mut s = SettingsSnapshot::new();
    s.included_directories = strings(&["/home/alice", "/mnt/data set", "C:\\Users\\a,b"]);
    s.excluded_directories = strings(&["/proc", "/dev", "-single-dash", "a\rb"]);
    s.excluded_items = strings(&["*/.git/*", "*/node_modules/*", "*.tmp"]);
    s.allowed_extensions = strings(&[".jpg", ".png"]);
    s.save_at_exit = false;
    s.load_at_start = true;
    s.confirm_deletion = false;
    let text = writer::write(&s);
    let (back, diagnostics) = parse(&text);
    assert!(diagnostics.is_empty());
    assert_eq!(back, s);
}

#[test]
fn every_combination_of_switches_reads_back() {
    for bits in 0..8 {
        let mut s = SettingsSnapshot::new();
        s.save_at_exit = bits & 1 != 0;
        s.load_at_start = bits & 2 != 0;
        s.confirm_deletion = bits & 4 != 0;
        let (back, diagnostics) = parse(&writer::write(&s));
        assert!(diagnostics.is_empty());
        assert_eq!(back, s);
    }
}

#[test]
fn default_settings_read_back_unchanged() {
    for (platform, dir) in [
        (Platform::Unix, Some("/home/alice".to_string())),
        (Platform::Unix, None),
        (Platform::Windows, Some("D:\\work".to_string())),
        (Platform::Windows, None),
        (Platform::Other, Some("/".to_string())),
    ] {
        let s = defaults(platform, dir);
        let (back, diagnostics) = parse(&writer::write(&s));
        assert!(diagnostics.is_empty());
        assert_eq!(back, s);
    }
}

#[test]
fn an_empty_entry_does_not_come_back() {
    let s = defaults(Platform::Other, None);
    assert_eq!(s.included_directories, strings(&[""]));
    let (back, diagnostics) = parse(&writer::write(&s));
    assert!(diagnostics.is_empty());
    assert!(back.included_directories.is_empty());
}

#[test]
fn an_entry_with_white_space_around_it_comes_back_trimmed() {
    let mut s = SettingsSnapshot::new();
    s.included_directories = strings(&[" /home/alice\t"]);
    let (back, diagnostics) = parse(&writer::write(&s));
    assert!(diagnostics.is_empty());
    assert_eq!(back.included_directories, strings(&["/home/alice"]));
}

#[test]
fn an_entry_with_a_line_end_comes_back_as_two() {
    let mut s = SettingsSnapshot::new();
    s.excluded_directories = strings(&["/a\n/b"]);
    let (back, diagnostics) = parse(&writer::write(&s));
    assert!(diagnostics.is_empty());
    assert_eq!(back.excluded_directories, strings(&["/a", "/b"]));
}

#[test]
fn an_entry_that_begins_like_a_header_does_not_come_back() {
    let mut s = SettingsSnapshot::new();
    s.included_directories = strings(&["--odd", "/kept"]);
    s.excluded_directories = strings(&["--included_directories", "/moved"]);
    let (back, diagnostics) = parse(&writer::write(&s));
    assert_eq!(back.included_directories, strings(&["/kept", "/moved"]));
    assert!(back.excluded_directories.is_empty());
    assert_eq!(diagnostics.len(), 1);
    assert!(matches!(
        &diagnostics[0],
        Diagnostic::UnrecognizedHeader { line_number: 1, line } if line == "--odd"
    ));
}

#[test]
fn what_a_read_gathers_reads_back_unchanged() {
    let messy = "\r\n  --excluded_items: \r\n  *.tmp \r\n\r\n--bogus\r\n*.bak\n\
                 --included_directories\n\t/home/alice \n--save_at_exit:\nperhaps\nFALSE\n\
                 --allowed_extensions:\n";
    let (first, diagnostics) = parse(messy);
    assert_eq!(diagnostics.len(), 2);
    assert_eq!(first.excluded_items, strings(&["*.tmp", "*.bak"]));
    assert_eq!(first.included_directories, strings(&["/home/alice"]));
    assert!(!first.save_at_exit);
    let (second, diagnostics) = parse(&writer::write(&first));
    assert!(diagnostics.is_empty());
    assert_eq!(second, first);
}
