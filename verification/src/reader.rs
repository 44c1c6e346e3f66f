//! The tolerant reader of the settings file.
//!
//! A file is a sequence of lines. A line that begins with a known keyword
//! opens a section; the lines that follow are the data of that section. The
//! reader never gives up on a malformed line. It records a diagnostic and
//! goes on, except for data that no section precedes, which ends the read
//! with what was gathered up to there.

use crate::settings::{SettingsModel, SettingsSnapshot};
use crate::text::{
    chars_of, decimal, equals, lowered, normalize_newlines, pieces, push_decimal, push_line,
    split, starts_with, string_of, to_lower, trim, trimmed, unix_newlines, views_of,
};
use vstd::prelude::*;
use vstd::string::StringExecFns;

verus! {

/// The seven sections of a settings file, one for each field of a snapshot.
#[derive(Clone, Copy, PartialEq, Eq, Debug, Structural)]
pub enum Section {
    IncludedDirectories,
    ExcludedDirectories,
    ExcludedItems,
    AllowedExtensions,
    LoadAtStart,
    SaveAtExit,
    ConfirmDeletion,
}

impl Section {
    /// Whether the section holds a list of lines; the others hold a switch.
    pub open spec fn is_list(self) -> bool {
        self == Section::IncludedDirectories || self == Section::ExcludedDirectories || self
            == Section::ExcludedItems || self == Section::AllowedExtensions
    }
}

/// A formatting problem met while reading, with the number of the line,
/// counted from zero, and the line as it stands in the file, white space
/// included.
#[derive(Clone, PartialEq, Eq, Debug)]
pub enum Diagnostic {
    /// The line begins with `--` and names no known section. Reading goes on
    /// in the section that was current.
    UnrecognizedHeader { line_number: usize, line: String },
    /// The line stands in the section of a switch and is none of `0`, `1`,
    /// `true`, `false`. The switch keeps its value.
    InvalidBoolean { line_number: usize, line: String },
    /// The line is data and no section has been opened. Reading stops here.
    OrphanData { line_number: usize, line: String },
}

/// The mathematical content of a [`Diagnostic`].
pub enum DiagnosticModel {
    UnrecognizedHeader { line_number: nat, line: Seq<char> },
    InvalidBoolean { line_number: nat, line: Seq<char> },
    OrphanData { line_number: nat, line: Seq<char> },
}

impl View for Diagnostic {
    type V = DiagnosticModel;

    open spec fn view(&self) -> DiagnosticModel {
        match self {
            Diagnostic::UnrecognizedHeader { line_number, line } => {
                DiagnosticModel::UnrecognizedHeader { line_number: *line_number as nat, line: line@ }
            },
            Diagnostic::InvalidBoolean { line_number, line } => {
                DiagnosticModel::InvalidBoolean { line_number: *line_number as nat, line: line@ }
            },
            Diagnostic::OrphanData { line_number, line } => {
                DiagnosticModel::OrphanData { line_number: *line_number as nat, line: line@ }
            },
        }
    }
}

impl DeepView for Diagnostic {
    type V = DiagnosticModel;

    open spec fn deep_view(&self) -> DiagnosticModel {
        self@
    }
}

impl DiagnosticModel {
    /// The number of the line, counted from zero.
    pub open spec fn line_number(self) -> nat {
        match self {
            DiagnosticModel::UnrecognizedHeader { line_number, .. } => line_number,
            DiagnosticModel::InvalidBoolean { line_number, .. } => line_number,
            DiagnosticModel::OrphanData { line_number, .. } => line_number,
        }
    }

    /// The line as it stands in the file.
    pub open spec fn line(self) -> Seq<char> {
        match self {
            DiagnosticModel::UnrecognizedHeader { line, .. } => line,
            DiagnosticModel::InvalidBoolean { line, .. } => line,
            DiagnosticModel::OrphanData { line, .. } => line,
        }
    }

    /// What is wrong with the line, in words.
    pub open spec fn complaint(self) -> (Seq<char>, Seq<char>) {
        match self {
            DiagnosticModel::UnrecognizedHeader { .. } => ("Found invalid header in line "@, ""@),
            DiagnosticModel::InvalidBoolean { .. } => (
                "Found invalid data in line "@,
                " isn't proper value(0/1/true/false)"@,
            ),
            DiagnosticModel::OrphanData { .. } => ("Found orphan data in line "@, ""@),
        }
    }

    /// The text shown to the user: the complaint, the number of the line,
    /// the line between triple quotes, and the file as `path` shows it.
    pub open spec fn message(self, path: Seq<char>) -> Seq<char> {
        self.complaint().0 + decimal(self.line_number()) + " \"\"\""@ + self.line() + "\"\"\""@
            + self.complaint().1 + " when loading file "@ + path
    }
}

impl Diagnostic {
    /// The number of the line, counted from zero.
    pub fn line_number(&self) -> (n: usize)
        ensures
            n == self@.line_number(),
    {
        match self {
            Diagnostic::UnrecognizedHeader { line_number, .. } => *line_number,
            Diagnostic::InvalidBoolean { line_number, .. } => *line_number,
            Diagnostic::OrphanData { line_number, .. } => *line_number,
        }
    }

    /// The line as it stands in the file.
    pub fn line(&self) -> (line: &String)
        ensures
            line@ == self@.line(),
    {
        match self {
            Diagnostic::UnrecognizedHeader { line, .. } => line,
            Diagnostic::InvalidBoolean { line, .. } => line,
            Diagnostic::OrphanData { line, .. } => line,
        }
    }

    /// Whether the read ended at this line.
    pub fn is_fatal(&self) -> (b: bool)
        ensures
            b == (self@ is OrphanData),
    {
        match self {
            Diagnostic::OrphanData { .. } => true,
            _ => false,
        }
    }

    /// The text shown to the user for this diagnostic of a read of the file
    /// that `path` names.
    pub fn message(&self, path: &str) -> (text: String)
        ensures
            text@ == self@.message(path@),
    {
        let (before, after) = match self {
            Diagnostic::UnrecognizedHeader { .. } => ("Found invalid header in line ", ""),
            Diagnostic::InvalidBoolean { .. } => (
                "Found invalid data in line ",
                " isn't proper value(0/1/true/false)",
            ),
            Diagnostic::OrphanData { .. } => ("Found orphan data in line ", ""),
        };
        let mut text = String::from_str(before);
        push_decimal(&mut text, self.line_number());
        text.append(" \"\"\"");
        text.append(self.line().as_str());
        text.append("\"\"\"");
        text.append(after);
        text.append(" when loading file ");
        text.append(path);
        text
    }
}

/// The section that a line opens, if it begins with one of the seven
/// keywords. What follows the keyword on the line is not looked at.
pub open spec fn header_of(line: Seq<char>) -> Option<Section> {
    if "--included_directories"@.is_prefix_of(line) {
        Some(Section::IncludedDirectories)
    } else if "--excluded_directories"@.is_prefix_of(line) {
        Some(Section::ExcludedDirectories)
    } else if "--excluded_items"@.is_prefix_of(line) {
        Some(Section::ExcludedItems)
    } else if "--allowed_extensions"@.is_prefix_of(line) {
        Some(Section::AllowedExtensions)
    } else if "--load_at_start"@.is_prefix_of(line) {
        Some(Section::LoadAtStart)
    } else if "--save_at_exit"@.is_prefix_of(line) {
        Some(Section::SaveAtExit)
    } else if "--confirm_deletion"@.is_prefix_of(line) {
        Some(Section::ConfirmDeletion)
    } else {
        None
    }
}

/// The value that a line gives to a switch: lower-cased, `1` and `true` mean
/// on, `0` and `false` mean off, and anything else means nothing.
pub open spec fn flag_of(line: Seq<char>) -> Option<bool> {
    let word = lowered(line);
    if word == "1"@ || word == "true"@ {
        Some(true)
    } else if word == "0"@ || word == "false"@ {
        Some(false)
    } else {
        None
    }
}

/// A line that is neither blank nor a header, known or unknown: the reader
/// takes it as data of the current section.
pub open spec fn is_data_line(line: Seq<char>) -> bool {
    line.len() > 0 && !"--"@.is_prefix_of(line)
}

/// The state of a read between two lines.
pub struct ReadModel {
    /// What has been gathered so far.
    pub settings: SettingsModel,
    /// The problems met so far, in the order of their lines.
    pub diagnostics: Seq<DiagnosticModel>,
    /// The section that data lines now belong to.
    pub section: Option<Section>,
    /// Whether orphan data has ended the read.
    pub halted: bool,
}

impl ReadModel {
    /// The state before the first line: nothing met, no section open.
    pub open spec fn start(initial: SettingsModel) -> ReadModel {
        ReadModel { settings: initial, diagnostics: Seq::empty(), section: None, halted: false }
    }

    /// The state with one more diagnostic.
    pub open spec fn report(self, d: DiagnosticModel) -> ReadModel {
        ReadModel { diagnostics: self.diagnostics.push(d), ..self }
    }

    /// The state after a data line of section `section`, which stands in
    /// the file as `raw`: a list takes the line without the white space
    /// around it, a switch takes its value.
    pub open spec fn with_data(self, section: Section, number: nat, raw: Seq<char>) -> ReadModel {
        let s = self.settings;
        let line = trimmed(raw);
        match section {
            Section::IncludedDirectories => ReadModel {
                settings: SettingsModel {
                    included_directories: s.included_directories.push(line),
                    ..s
                },
                ..self
            },
            Section::ExcludedDirectories => ReadModel {
                settings: SettingsModel {
                    excluded_directories: s.excluded_directories.push(line),
                    ..s
                },
                ..self
            },
            Section::ExcludedItems => ReadModel {
                settings: SettingsModel { excluded_items: s.excluded_items.push(line), ..s },
                ..self
            },
            Section::AllowedExtensions => ReadModel {
                settings: SettingsModel { allowed_extensions: s.allowed_extensions.push(line), ..s },
                ..self
            },
            Section::LoadAtStart => match flag_of(line) {
                Some(b) => ReadModel { settings: SettingsModel { load_at_start: b, ..s }, ..self },
                None => self.report(DiagnosticModel::InvalidBoolean { line_number: number, line: raw }),
            },
            Section::SaveAtExit => match flag_of(line) {
                Some(b) => ReadModel { settings: SettingsModel { save_at_exit: b, ..s }, ..self },
                None => self.report(DiagnosticModel::InvalidBoolean { line_number: number, line: raw }),
            },
            Section::ConfirmDeletion => match flag_of(line) {
                Some(b) => ReadModel { settings: SettingsModel { confirm_deletion: b, ..s }, ..self },
                None => self.report(DiagnosticModel::InvalidBoolean { line_number: number, line: raw }),
            },
        }
    }

    /// The state after the line `raw`, which is line `number` of the file.
    pub open spec fn step(self, number: nat, raw: Seq<char>) -> ReadModel {
        let line = trimmed(raw);
        if self.halted || line.len() == 0 {
            self
        } else if header_of(line) is Some {
            ReadModel { section: header_of(line), ..self }
        } else if "--"@.is_prefix_of(line) {
            self.report(DiagnosticModel::UnrecognizedHeader { line_number: number, line: raw })
        } else {
            match self.section {
                None => ReadModel {
                    halted: true,
                    ..self.report(DiagnosticModel::OrphanData { line_number: number, line: raw })
                },
                Some(section) => self.with_data(section, number, raw),
            }
        }
    }

    /// The state after all of `lines`, numbered from zero.
    pub open spec fn run(self, lines: Seq<Seq<char>>) -> ReadModel
        decreases lines.len(),
    {
        if lines.len() == 0 {
            self
        } else {
            self.run(lines.drop_last()).step((lines.len() - 1) as nat, lines.last())
        }
    }
}

/// The lines of a text: line ends are LF or CRLF, and a text that ends with
/// a line end has an empty last line.
pub open spec fn lines_of(text: Seq<char>) -> Seq<Seq<char>> {
    pieces(unix_newlines(text), '\n')
}

/// What reading `text` gives when the fields start out as `initial`.
pub open spec fn parsed(text: Seq<char>, initial: SettingsModel) -> ReadModel {
    ReadModel::start(initial).run(lines_of(text))
}

/// Finds the section that `line` opens.
pub fn find_header(line: &Vec<char>) -> (r: Option<Section>)
    ensures
        r == header_of(line@),
{
    if starts_with(line, "--included_directories") {
        Some(Section::IncludedDirectories)
    } else if starts_with(line, "--excluded_directories") {
        Some(Section::ExcludedDirectories)
    } else if starts_with(line, "--excluded_items") {
        Some(Section::ExcludedItems)
    } else if starts_with(line, "--allowed_extensions") {
        Some(Section::AllowedExtensions)
    } else if starts_with(line, "--load_at_start") {
        Some(Section::LoadAtStart)
    } else if starts_with(line, "--save_at_exit") {
        Some(Section::SaveAtExit)
    } else if starts_with(line, "--confirm_deletion") {
        Some(Section::ConfirmDeletion)
    } else {
        None
    }
}

/// Reads the value of a switch.
pub fn parse_flag(line: &Vec<char>) -> (r: Option<bool>)
    ensures
        r == flag_of(line@),
{
    let word = to_lower(line);
    if equals(&word, "1") || equals(&word, "true") {
        Some(true)
    } else if equals(&word, "0") || equals(&word, "false") {
        Some(false)
    } else {
        None
    }
}

/// A read in progress: feed it the lines of a file one by one.
pub struct Reader {
    settings: SettingsSnapshot,
    diagnostics: Vec<Diagnostic>,
    section: Option<Section>,
    halted: bool,
}

impl View for Reader {
    type V = ReadModel;

    closed spec fn view(&self) -> ReadModel {
        ReadModel {
            settings: self.settings@,
            diagnostics: self.diagnostics.deep_view(),
            section: self.section,
            halted: self.halted,
        }
    }
}

impl Reader {
    /// A read that has seen no line yet and whose fields start as `initial`.
    pub fn new(initial: SettingsSnapshot) -> (r: Reader)
        ensures
            r@ == ReadModel::start(initial@),
    {
        let r = Reader { settings: initial, diagnostics: Vec::new(), section: None, halted: false };
        proof {
            assert(r.diagnostics.deep_view() =~= Seq::empty());
        }
        r
    }

    /// Whether orphan data has ended the read; further lines change nothing.
    pub fn is_halted(&self) -> (b: bool)
        ensures
            b == self@.halted,
    {
        self.halted
    }

    fn report(&mut self, d: Diagnostic)
        ensures
            final(self)@ == old(self)@.report(d@),
    {
        self.diagnostics.push(d);
        proof {
            assert(self.diagnostics.deep_view() =~= old(self).diagnostics.deep_view().push(d@));
        }
    }

    fn set_flag(&mut self, section: Section, line_number: usize, raw: &Vec<char>, line: &Vec<char>)
        requires
            !section.is_list(),
            line@ == trimmed(raw@),
        ensures
            final(self)@ == old(self)@.with_data(section, line_number as nat, raw@),
    {
        match parse_flag(line) {
            Some(b) => {
                match section {
                    Section::LoadAtStart => {
                        self.settings.load_at_start = b;
                    },
                    Section::SaveAtExit => {
                        self.settings.save_at_exit = b;
                    },
                    _ => {
                        self.settings.confirm_deletion = b;
                    },
                }
            },
            None => {
                self.report(Diagnostic::InvalidBoolean { line_number, line: string_of(raw) });
            },
        }
    }

    fn take_data(&mut self, section: Section, line_number: usize, raw: &Vec<char>, line: &Vec<char>)
        requires
            line@ == trimmed(raw@),
        ensures
            final(self)@ == old(self)@.with_data(section, line_number as nat, raw@),
    {
        match section {
            Section::IncludedDirectories => {
                push_line(&mut self.settings.included_directories, line);
            },
            Section::ExcludedDirectories => {
                push_line(&mut self.settings.excluded_directories, line);
            },
            Section::ExcludedItems => {
                push_line(&mut self.settings.excluded_items, line);
            },
            Section::AllowedExtensions => {
                push_line(&mut self.settings.allowed_extensions, line);
            },
            _ => {
                self.set_flag(section, line_number, raw, line);
            },
        }
    }

    /// Takes in the line `raw`, which is line `line_number` of the file.
    pub fn feed(&mut self, line_number: usize, raw: &Vec<char>)
        ensures
            final(self)@ == old(self)@.step(line_number as nat, raw@),
    {
        if self.halted {
            return ;
        }
        let line = trim(raw);
        if line.len() == 0 {
            return ;
        }
        let header = find_header(&line);
        if header.is_some() {
            self.section = header;
        } else if starts_with(&line, "--") {
            self.report(Diagnostic::UnrecognizedHeader { line_number, line: string_of(raw) });
        } else {
            match self.section {
                None => {
                    self.report(Diagnostic::OrphanData { line_number, line: string_of(raw) });
                    self.halted = true;
                },
                Some(section) => {
                    self.take_data(section, line_number, raw, &line);
                },
            }
        }
    }

    /// Ends the read and hands out what was gathered and what was reported.
    pub fn finish(self) -> (r: (SettingsSnapshot, Vec<Diagnostic>))
        ensures
            r.0@ == self@.settings,
            r.1.deep_view() == self@.diagnostics,
    {
        (self.settings, self.diagnostics)
    }
}

/// Reads the settings file whose content is `text`. The fields start out as
/// `initial`: data lines are appended to the lists it holds, and a switch
/// keeps the value it has there unless the file sets it.
pub fn parse_from(text: &str, initial: SettingsSnapshot) -> (r: (SettingsSnapshot, Vec<Diagnostic>))
    ensures
        r.0@ == parsed(text@, initial@).settings,
        r.1.deep_view() == parsed(text@, initial@).diagnostics,
{
    let chars = normalize_newlines(&chars_of(text));
    let lines = split(&chars, '\n');
    let mut reader = Reader::new(initial);
    let mut i: usize = 0;
    while i < lines.len()
        invariant
            i <= lines.len(),
            reader@ == ReadModel::start(initial@).run(views_of(lines@).take(i as int)),
        decreases lines.len() - i,
    {
        proof {
            assert(views_of(lines@).take(i + 1).drop_last() =~= views_of(lines@).take(i as int));
        }
        reader.feed(i, &lines[i]);
        i += 1;
    }
    proof {
        assert(views_of(lines@).take(lines.len() as int) =~= views_of(lines@));
    }
    reader.finish()
}

/// Reads the settings file whose content is `text`, starting from no entries
/// and every switch on.
pub fn parse(text: &str) -> (r: (SettingsSnapshot, Vec<Diagnostic>))
    ensures
        r.0@ == parsed(text@, SettingsModel::initial()).settings,
        r.1.deep_view() == parsed(text@, SettingsModel::initial()).diagnostics,
{
    parse_from(text, SettingsSnapshot::new())
}

} // verus!
