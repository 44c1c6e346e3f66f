use czkawka_gui::reader::{
    find_header, parse, parse_flag, parse_from, Diagnostic, Reader, Section,
};
use czkawka_gui::settings::SettingsSnapshot;

fn chars(s: &str) -> Vec<char> {
    s.chars().collect()
}

fn strings(items: &[&str]) -> Vec<String> {
    items.iter().map(|s| s.to_string()).collect()
}

fn is_default(s: &SettingsSnapshot) -> bool {
    s.included_directories.is_empty()
        && s.excluded_directories.is_empty()
        && s.excluded_items.is_empty()
        && s.allowed_extensions.is_empty()
        && s.save_at_exit
        && s.load_at_start
        && s.confirm_deletion
}

#[test]
fn reads_the_documented_example() {
    let text = "--included_directories:\n/home/a\n/home/b\n--excluded_directories:\n/proc\n\
                --excluded_items:\n*/.git/*\n--allowed_extensions:\n.jpg\n--load_at_start:\ntrue\n\
                --save_at_exit:\nfalse\n--confirm_deletion:\n0\n";
    let (s, diagnostics) = parse(text);
    assert!(diagnostics.is_empty());
    assert_eq!(s.included_directories, strings(&["/home/a", "/home/b"]));
    assert_eq!(s.excluded_directories, strings(&["/proc"]));
    assert_eq!(s.excluded_items, strings(&["*/.git/*"]));
    assert_eq!(s.allowed_extensions, strings(&[".jpg"]));
    assert!(s.load_at_start);
    assert!(!s.save_at_exit);
    assert!(!s.confirm_deletion);
}

#[test]
fn empty_text_gives_the_initial_settings() {
    let (s, diagnostics) = parse("");
    assert!(diagnostics.is_empty());
    assert!(is_default(&s));
    let (s, diagnostics) = parse("\n\n   \n\t\n");
    assert!(diagnostics.is_empty());
    assert!(is_default(&s));
}

#[test]
fn headers_come_in_any_order_and_any_subset() {
    let (s, diagnostics) = parse("--save_at_exit:\n0\n--included_directories:\n/a\n");
    assert!(diagnostics.is_empty());
    assert_eq!(s.included_directories, strings(&["/a"]));
    assert!(!s.save_at_exit);
    assert!(s.load_at_start);
    assert!(s.confirm_deletion);
    assert!(s.excluded_directories.is_empty());
}

#[test]
fn a_section_that_comes_twice_goes_on_where_it_ended() {
    let (s, _) = parse("--included_directories:\n/a\n--excluded_directories:\n/x\n--included_directories\n/b\n");
    assert_eq!(s.included_directories, strings(&["/a", "/b"]));
    assert_eq!(s.excluded_directories, strings(&["/x"]));
}

#[test]
fn crlf_and_lf_line_ends_read_alike() {
    let unix = "--included_directories:\n/a\n  /b c \n--load_at_start:\nfalse\n";
    let dos = "--included_directories:\r\n/a\r\n  /b c \r\n--load_at_start:\r\nfalse\r\n";
    let (a, da) = parse(unix);
    let (b, db) = parse(dos);
    assert!(da.is_empty() && db.is_empty());
    assert_eq!(a.included_directories, strings(&["/a", "/b c"]));
    assert_eq!(a.included_directories, b.included_directories);
    assert_eq!(a.load_at_start, false);
    assert_eq!(b.load_at_start, false);
}

#[test]
fn lines_are_trimmed_and_blank_lines_skipped() {
    let (s, diagnostics) = parse("\n  --excluded_items:  \n\n   *.tmp \t\n\u{3000}\n*.bak\n");
    assert!(diagnostics.is_empty());
    assert_eq!(s.excluded_items, strings(&["*.tmp", "*.bak"]));
}

#[test]
fn a_header_is_known_by_its_beginning() {
    let (s, diagnostics) = parse("--included_directories and more\n/a\n--save_at_exitNOW\n0\n");
    assert!(diagnostics.is_empty());
    assert_eq!(s.included_directories, strings(&["/a"]));
    assert!(!s.save_at_exit);
}

#[test]
fn switch_values_are_read_without_regard_to_case() {
    for (word, value) in [
        ("1", true),
        ("true", true),
        ("TRUE", true),
        ("True", true),
        ("tRuE", true),
        ("0", false),
        ("false", false),
        ("FALSE", false),
        ("False", false),
    ] {
        assert_eq!(parse_flag(&chars(word)), Some(value), "{}", word);
        let (s, diagnostics) = parse(&format!("--confirm_deletion:\n{}\n", word));
        assert!(diagnostics.is_empty());
        assert_eq!(s.confirm_deletion, value);
    }
    for word in ["", "yes", "no", "2", "10", "01", "tru", "truee", "t", "true false", "maybe"] {
        assert_eq!(parse_flag(&chars(word)), None, "{}", word);
    }
}

#[test]
fn the_last_value_of_a_switch_wins() {
    let (s, diagnostics) = parse("--load_at_start:\n0\n1\nfalse\n");
    assert!(diagnostics.is_empty());
    assert!(!s.load_at_start);
}

#[test]
fn malformed_boolean_keeps_the_value_and_is_reported_once() {
    let mut initial = SettingsSnapshot::new();
    initial.save_at_exit = false;
    let (s, diagnostics) = parse_from("--save_at_exit:\nmaybe\n", initial);
    assert_eq!(s.save_at_exit, false);
    assert_eq!(diagnostics.len(), 1);
    assert!(matches!(
        &diagnostics[0],
        Diagnostic::InvalidBoolean { line_number: 1, line } if line == "maybe"
    ));

    let (s, diagnostics) = parse("--included_directories:\n/a\n\n--save_at_exit:\n  Maybe \n--load_at_start:\n0\n");
    assert_eq!(s.save_at_exit, true);
    assert_eq!(s.load_at_start, false);
    assert_eq!(s.included_directories, strings(&["/a"]));
    assert_eq!(diagnostics.len(), 1);
    assert!(matches!(
        &diagnostics[0],
        Diagnostic::InvalidBoolean { line_number: 4, line } if line == "  Maybe "
    ));
    assert!(!diagnostics[0].is_fatal());
}

#[test]
fn orphan_data_ends_the_read_with_nothing_gathered() {
    let (s, diagnostics) = parse("\n  \n /home/alice\t\n--included_directories:\n/home/bob\n");
    assert!(is_default(&s));
    assert_eq!(diagnostics.len(), 1);
    assert!(matches!(
        &diagnostics[0],
        Diagnostic::OrphanData { line_number: 2, line } if line == " /home/alice\t"
    ));
    assert!(diagnostics[0].is_fatal());
    assert_eq!(diagnostics[0].line_number(), 2);
    assert_eq!(diagnostics[0].line(), " /home/alice\t");
}

#[test]
fn unknown_header_is_reported_and_its_lines_go_to_no_field() {
    let (s, diagnostics) = parse("--unknown_section:\nfirst\nsecond\n");
    assert!(is_default(&s));
    assert_eq!(diagnostics.len(), 2);
    assert!(matches!(
        &diagnostics[0],
        Diagnostic::UnrecognizedHeader { line_number: 0, line } if line == "--unknown_section:"
    ));
    assert!(matches!(
        &diagnostics[1],
        Diagnostic::OrphanData { line_number: 1, line } if line == "first"
    ));
    let unrecognized = diagnostics
        .iter()
        .filter(|d| matches!(d, Diagnostic::UnrecognizedHeader { .. }))
        .count();
    assert_eq!(unrecognized, 1);
}

#[test]
fn unknown_header_leaves_the_current_section_open() {
    let (s, diagnostics) = parse("--excluded_directories:\n/a\n--unknown_section:\n/b\n");
    assert_eq!(s.excluded_directories, strings(&["/a", "/b"]));
    assert_eq!(diagnostics.len(), 1);
    assert!(matches!(
        &diagnostics[0],
        Diagnostic::UnrecognizedHeader { line_number: 2, line } if line == "--unknown_section:"
    ));
}

#[test]
fn reading_goes_on_after_a_diagnostic() {
    let text = "--bogus\n--load_at_start:\nperhaps\n--weird:\n0\n--included_directories:\n/a\n";
    let (s, diagnostics) = parse(text);
    assert_eq!(s.included_directories, strings(&["/a"]));
    assert!(!s.load_at_start);
    assert_eq!(diagnostics.len(), 3);
    assert_eq!(diagnostics[0].line_number(), 0);
    assert_eq!(diagnostics[1].line_number(), 2);
    assert_eq!(diagnostics[2].line_number(), 3);
}

#[test]
fn parse_from_appends_to_the_lists_it_is_given() {
    let mut initial = SettingsSnapshot::new();
    initial.included_directories = strings(&["/first"]);
    initial.confirm_deletion = false;
    let (s, diagnostics) = parse_from("--included_directories:\n/second\n", initial);
    assert!(diagnostics.is_empty());
    assert_eq!(s.included_directories, strings(&["/first", "/second"]));
    assert!(!s.confirm_deletion);
    assert!(s.save_at_exit);
}

#[test]
fn find_header_knows_the_seven_keywords() {
    assert_eq!(find_header(&chars("--included_directories:")), Some(Section::IncludedDirectories));
    assert_eq!(find_header(&chars("--excluded_directories:")), Some(Section::ExcludedDirectories));
    assert_eq!(find_header(&chars("--excluded_items:")), Some(Section::ExcludedItems));
    assert_eq!(find_header(&chars("--allowed_extensions:")), Some(Section::AllowedExtensions));
    assert_eq!(find_header(&chars("--load_at_start:")), Some(Section::LoadAtStart));
    assert_eq!(find_header(&chars("--save_at_exit:")), Some(Section::SaveAtExit));
    assert_eq!(find_header(&chars("--confirm_deletion:")), Some(Section::ConfirmDeletion));
    assert_eq!(find_header(&chars("--confirm_deletio")), None);
    assert_eq!(find_header(&chars("--Included_directories:")), None);
    assert_eq!(find_header(&chars(" --included_directories:")), None);
    assert_eq!(find_header(&chars("included_directories")), None);
    assert_eq!(find_header(&chars("")), None);
}

#[test]
fn reader_takes_lines_one_by_one() {
    let mut reader = Reader::new(SettingsSnapshot::new());
    reader.feed(0, &chars("--allowed_extensions:"));
    reader.feed(1, &chars(" .png "));
    assert!(!reader.is_halted());
    let (s, diagnostics) = reader.finish();
    assert!(diagnostics.is_empty());
    assert_eq!(s.allowed_extensions, strings(&[".png"]));

    let mut reader = Reader::new(SettingsSnapshot::new());
    reader.feed(7, &chars("stray"));
    assert!(reader.is_halted());
    reader.feed(8, &chars("--allowed_extensions:"));
    reader.feed(9, &chars(".png"));
    let (s, diagnostics) = reader.finish();
    assert!(s.allowed_extensions.is_empty());
    assert_eq!(diagnostics.len(), 1);
    assert_eq!(diagnostics[0].line_number(), 7);
}

#[test]
fn diagnostics_name_the_line_and_its_content() {
    let (_, diagnostics) = parse("--nope:\n--save_at_exit:\nperhaps\n");
    assert_eq!(
        diagnostics[0].message("\"/tmp/config.txt\""),
        "Found invalid header in line 0 \"\"\"--nope:\"\"\" when loading file \"/tmp/config.txt\""
    );
    assert_eq!(
        diagnostics[1].message("cfg"),
        "Found invalid data in line 2 \"\"\"perhaps\"\"\" isn't proper value(0/1/true/false) when loading file cfg"
    );
    let (_, diagnostics) = parse("\n\n\n\n\n\n\n\n\n\n\n\nlost\n");
    assert_eq!(
        diagnostics[0].message("cfg"),
        "Found orphan data in line 12 \"\"\"lost\"\"\" when loading file cfg"
    );
}
