//! The canonical writer of the settings file.

use crate::items::{items_of, items_text, join_items, split_items};
use crate::reader::Section;
use crate::settings::{SettingsModel, SettingsSnapshot};
use crate::text::{append_lines, push_str, terminate_all, terminated};
use vstd::prelude::*;

verus! {

/// How a switch is written.
pub open spec fn flag_word(b: bool) -> Seq<char> {
    if b {
        "true"@
    } else {
        "false"@
    }
}

/// The line that opens `section` in a written file.
pub open spec fn header_line(section: Section) -> Seq<char> {
    match section {
        Section::IncludedDirectories => "--included_directories:"@,
        Section::ExcludedDirectories => "--excluded_directories:"@,
        Section::ExcludedItems => "--excluded_items:"@,
        Section::AllowedExtensions => "--allowed_extensions:"@,
        Section::LoadAtStart => "--load_at_start:"@,
        Section::SaveAtExit => "--save_at_exit:"@,
        Section::ConfirmDeletion => "--confirm_deletion:"@,
    }
}

/// The lines of the settings file for `s`, in the one order in which they
/// are written: the four lists, then the three switches. Directories are
/// written as they stand. Excluded items and allowed extensions pass
/// through their comma-separated text: an entry with commas in it is
/// written as its parts, and a blank entry or part is not written.
pub open spec fn serialized(s: SettingsModel) -> Seq<Seq<char>> {
    seq![header_line(Section::IncludedDirectories)] + s.included_directories
        + seq![header_line(Section::ExcludedDirectories)] + s.excluded_directories
        + seq![header_line(Section::ExcludedItems)] + items_of(items_text(s.excluded_items))
        + seq![header_line(Section::AllowedExtensions)] + items_of(items_text(s.allowed_extensions))
        + seq![
        header_line(Section::SaveAtExit),
        flag_word(s.save_at_exit),
        header_line(Section::LoadAtStart),
        flag_word(s.load_at_start),
        header_line(Section::ConfirmDeletion),
        flag_word(s.confirm_deletion),
    ]
}

/// The content of the settings file for `s`: every line ends with a line
/// feed.
pub open spec fn file_text(s: SettingsModel) -> Seq<char> {
    terminated(serialized(s), '\n')
}

/// The line that opens `section` in a written file: the keyword of the
/// section and a colon.
pub fn header_text(section: Section) -> (line: &'static str)
    ensures
        line@ == header_line(section),
{
    match section {
        Section::IncludedDirectories => "--included_directories:",
        Section::ExcludedDirectories => "--excluded_directories:",
        Section::ExcludedItems => "--excluded_items:",
        Section::AllowedExtensions => "--allowed_extensions:",
        Section::LoadAtStart => "--load_at_start:",
        Section::SaveAtExit => "--save_at_exit:",
        Section::ConfirmDeletion => "--confirm_deletion:",
    }
}

fn push_flag(list: &mut Vec<String>, b: bool)
    ensures
        final(list).deep_view() == old(list).deep_view().push(flag_word(b)),
{
    if b {
        push_str(list, "true");
    } else {
        push_str(list, "false");
    }
}

/// The lines of the settings file for `settings`.
pub fn serialize(settings: &SettingsSnapshot) -> (lines: Vec<String>)
    ensures
        lines.deep_view() == serialized(settings@),
{
    let mut lines: Vec<String> = Vec::new();
    proof {
        assert(lines.deep_view() =~= Seq::empty());
    }
    push_str(&mut lines, header_text(Section::IncludedDirectories));
    append_lines(&mut lines, &settings.included_directories);
    push_str(&mut lines, header_text(Section::ExcludedDirectories));
    append_lines(&mut lines, &settings.excluded_directories);
    push_str(&mut lines, header_text(Section::ExcludedItems));
    let excluded_items = split_items(join_items(&settings.excluded_items).as_str());
    append_lines(&mut lines, &excluded_items);
    push_str(&mut lines, header_text(Section::AllowedExtensions));
    let allowed_extensions = split_items(join_items(&settings.allowed_extensions).as_str());
    append_lines(&mut lines, &allowed_extensions);
    push_str(&mut lines, header_text(Section::SaveAtExit));
    push_flag(&mut lines, settings.save_at_exit);
    push_str(&mut lines, header_text(Section::LoadAtStart));
    push_flag(&mut lines, settings.load_at_start);
    push_str(&mut lines, header_text(Section::ConfirmDeletion));
    push_flag(&mut lines, settings.confirm_deletion);
    proof {
        assert(lines.deep_view() =~= serialized(settings@));
    }
    lines
}

/// The content of the settings file for `settings`.
pub fn write(settings: &SettingsSnapshot) -> (text: String)
    ensures
        text@ == file_text(settings@),
{
    terminate_all(&serialize(settings), '\n')
}

} // verus!
