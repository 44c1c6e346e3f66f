//! Saving, loading and resetting the settings, as the host application asks
//! for them. The host touches the disk and the widgets; what is decided and
//! computed in between is here.

use crate::defaults::{default_settings, defaults, optional_text, Platform};
use crate::reader::{parse, parsed, Diagnostic};
use crate::settings::{SettingsModel, SettingsSnapshot};
use crate::writer::{serialize, serialized};
use vstd::prelude::*;
use vstd::string::StringExecFns;

verus! {

/// Why the settings could not be written.
#[derive(Clone, Copy, PartialEq, Eq, Debug, Structural)]
pub enum WriteError {
    /// The directory of the file is missing and cannot be made, or something
    /// that is no directory stands in its place.
    CannotCreateDir,
    /// The file cannot be created or emptied.
    CannotCreateFile,
    /// A line could not be written; the lines before it are in the file.
    WriteFailed,
}

/// Why the settings could not be read.
#[derive(Clone, Copy, PartialEq, Eq, Debug, Structural)]
pub enum ReadError {
    /// Nothing is at the path, or what is there is no regular file.
    NotFound,
    /// The file is there and cannot be read as text.
    Unreadable,
}

/// What the host found at the path of the settings file.
#[derive(Clone, PartialEq, Eq, Debug)]
pub enum SourceFile {
    /// Nothing.
    Missing,
    /// Something that is no regular file, such as a directory.
    NotAFile,
    /// A file that cannot be read as text.
    Unreadable,
    /// A file with this content.
    Text(String),
}

/// The lines to write when the settings are saved, or `None` when nothing is
/// to be written: saving at exit is switched off and the user did not ask.
pub fn save_configuration(settings: &SettingsSnapshot, manual_execution: bool) -> (r: Option<
    Vec<String>,
>)
    ensures
        r is Some <==> manual_execution || settings.save_at_exit,
        r matches Some(lines) ==> lines.deep_view() == serialized(settings@),
{
    if !manual_execution && !settings.save_at_exit {
        None
    } else {
        Some(serialize(settings))
    }
}

/// The settings the host holds after a load. What was read replaces them
/// when the user asked for the load, or when the file itself says that it
/// is to be loaded at start. Otherwise the host keeps what it has, with
/// loading at start switched off.
pub open spec fn settings_after_load(
    read: SettingsModel,
    current: SettingsModel,
    manual_execution: bool,
) -> SettingsModel {
    if manual_execution || read.load_at_start {
        read
    } else {
        SettingsModel { load_at_start: false, ..current }
    }
}

/// Reads the settings from what was found at the path of the file. Each
/// list starts empty and each switch on.
pub fn read(source: SourceFile) -> (r: Result<(SettingsSnapshot, Vec<Diagnostic>), ReadError>)
    ensures
        source is Missing || source is NotAFile ==> r == Err::<
            (SettingsSnapshot, Vec<Diagnostic>),
            ReadError,
        >(ReadError::NotFound),
        source is Unreadable ==> r == Err::<(SettingsSnapshot, Vec<Diagnostic>), ReadError>(
            ReadError::Unreadable,
        ),
        source matches SourceFile::Text(text) ==> r is Ok && r->Ok_0.0@ == parsed(
            text@,
            SettingsModel::initial(),
        ).settings && r->Ok_0.1.deep_view() == parsed(text@, SettingsModel::initial()).diagnostics,
{
    match source {
        SourceFile::Missing => Err(ReadError::NotFound),
        SourceFile::NotAFile => Err(ReadError::NotFound),
        SourceFile::Unreadable => Err(ReadError::Unreadable),
        SourceFile::Text(text) => Ok(parse(text.as_str())),
    }
}

/// Loads the settings: reads them from what was found at the path of the
/// file, and gives the settings that the host holds from now on, with the
/// diagnostics of the read.
pub fn load_configuration(source: SourceFile, current: SettingsSnapshot, manual_execution: bool) -> (r:
    Result<(SettingsSnapshot, Vec<Diagnostic>), ReadError>)
    ensures
        source is Missing || source is NotAFile ==> r == Err::<
            (SettingsSnapshot, Vec<Diagnostic>),
            ReadError,
        >(ReadError::NotFound),
        source is Unreadable ==> r == Err::<(SettingsSnapshot, Vec<Diagnostic>), ReadError>(
            ReadError::Unreadable,
        ),
        source matches SourceFile::Text(text) ==> r is Ok && r->Ok_0.0@ == settings_after_load(
            parsed(text@, SettingsModel::initial()).settings,
            current@,
            manual_execution,
        ) && r->Ok_0.1.deep_view() == parsed(text@, SettingsModel::initial()).diagnostics,
{
    match read(source) {
        Err(e) => Err(e),
        Ok((settings, diagnostics)) => {
            if manual_execution || settings.load_at_start {
                Ok((settings, diagnostics))
            } else {
                let mut kept = current;
                kept.load_at_start = false;
                Ok((kept, diagnostics))
            }
        },
    }
}

/// The settings after a reset: the defaults of the platform.
pub fn reset_configuration(platform: Platform, current_dir: Option<String>) -> (r: SettingsSnapshot)
    ensures
        r@ == default_settings(platform, optional_text(current_dir)),
{
    defaults(platform, current_dir)
}

/// The step at which a save failed.
#[derive(Clone, Copy, PartialEq, Eq, Debug, Structural)]
pub enum SaveFailure {
    /// Something that is no directory stands where the directory belongs.
    DirectoryOccupied,
    /// The directory is missing and could not be made.
    DirectoryNotCreated,
    /// The file could not be created or emptied.
    FileNotCreated,
    /// A line could not be written; the lines before it are in the file.
    LineNotWritten,
}

/// The error that a failed step amounts to.
pub open spec fn error_of(failure: SaveFailure) -> WriteError {
    match failure {
        SaveFailure::DirectoryOccupied => WriteError::CannotCreateDir,
        SaveFailure::DirectoryNotCreated => WriteError::CannotCreateDir,
        SaveFailure::FileNotCreated => WriteError::CannotCreateFile,
        SaveFailure::LineNotWritten => WriteError::WriteFailed,
    }
}

impl SaveFailure {
    /// The error that this failure amounts to.
    pub fn error(self) -> (e: WriteError)
        ensures
            e == error_of(self),
    {
        match self {
            SaveFailure::DirectoryOccupied => WriteError::CannotCreateDir,
            SaveFailure::DirectoryNotCreated => WriteError::CannotCreateDir,
            SaveFailure::FileNotCreated => WriteError::CannotCreateFile,
            SaveFailure::LineNotWritten => WriteError::WriteFailed,
        }
    }
}

/// One thing the host does on disk while the settings are saved, or the
/// end of the save.
#[derive(Clone, Copy, PartialEq, Eq, Debug, Structural)]
pub enum SaveAction {
    /// Look at the path of the directory of the file.
    ProbeDirectory,
    /// Make that directory.
    CreateDirectory,
    /// Create the file, or empty it.
    CreateFile,
    /// Write the line with this index, and a line end after it.
    WriteLine { index: usize },
    /// Nothing more: every line is in the file.
    Saved,
    /// Nothing more: the save has failed at this step.
    Failed { failure: SaveFailure },
}

/// What came of one thing the host did on disk.
#[derive(Clone, Copy, PartialEq, Eq, Debug, Structural)]
pub enum SaveEvent {
    /// The probe found a directory.
    FoundDirectory,
    /// The probe found something that is no directory.
    FoundOther,
    /// The probe found nothing.
    FoundNothing,
    /// The directory was made, the file created, or the line written.
    Done,
    /// It could not be done.
    Refused,
}

/// The action with which a save of `line_count` lines begins or goes on at
/// line `index`.
pub open spec fn write_from(index: nat, line_count: nat) -> SaveAction {
    if index < line_count {
        SaveAction::WriteLine { index: index as usize }
    } else {
        SaveAction::Saved
    }
}

/// What follows `action` when `event` came of it, in a save of `line_count`
/// lines. A directory that is there is used, one that is missing is made,
/// then the file is created and the lines are written in their order. The
/// first step that cannot be done ends the save, and an event that cannot
/// come of the action counts as such. Nothing follows the end of a save but
/// that end.
pub open spec fn next_action(action: SaveAction, event: SaveEvent, line_count: nat) -> SaveAction {
    match action {
        SaveAction::ProbeDirectory => match event {
            SaveEvent::FoundDirectory => SaveAction::CreateFile,
            SaveEvent::FoundNothing => SaveAction::CreateDirectory,
            _ => SaveAction::Failed { failure: SaveFailure::DirectoryOccupied },
        },
        SaveAction::CreateDirectory => match event {
            SaveEvent::Done => SaveAction::CreateFile,
            _ => SaveAction::Failed { failure: SaveFailure::DirectoryNotCreated },
        },
        SaveAction::CreateFile => match event {
            SaveEvent::Done => write_from(0, line_count),
            _ => SaveAction::Failed { failure: SaveFailure::FileNotCreated },
        },
        SaveAction::WriteLine { index } => match event {
            SaveEvent::Done => write_from((index + 1) as nat, line_count),
            _ => SaveAction::Failed { failure: SaveFailure::LineNotWritten },
        },
        SaveAction::Saved => SaveAction::Saved,
        SaveAction::Failed { failure } => SaveAction::Failed { failure },
    }
}

fn write_line_or_end(index: usize, line_count: usize) -> (r: SaveAction)
    ensures
        r == write_from(index as nat, line_count as nat),
{
    if index < line_count {
        SaveAction::WriteLine { index }
    } else {
        SaveAction::Saved
    }
}

/// Decides what the host does next while it saves `line_count` lines. A
/// save begins with [`SaveAction::ProbeDirectory`].
pub fn after_save_event(action: SaveAction, event: SaveEvent, line_count: usize) -> (r: SaveAction)
    ensures
        r == next_action(action, event, line_count as nat),
{
    match action {
        SaveAction::ProbeDirectory => match event {
            SaveEvent::FoundDirectory => SaveAction::CreateFile,
            SaveEvent::FoundNothing => SaveAction::CreateDirectory,
            _ => SaveAction::Failed { failure: SaveFailure::DirectoryOccupied },
        },
        SaveAction::CreateDirectory => match event {
            SaveEvent::Done => SaveAction::CreateFile,
            _ => SaveAction::Failed { failure: SaveFailure::DirectoryNotCreated },
        },
        SaveAction::CreateFile => match event {
            SaveEvent::Done => write_line_or_end(0, line_count),
            _ => SaveAction::Failed { failure: SaveFailure::FileNotCreated },
        },
        SaveAction::WriteLine { index } => match event {
            SaveEvent::Done => {
                if index < line_count {
                    write_line_or_end(index + 1, line_count)
                } else {
                    SaveAction::Saved
                }
            },
            _ => SaveAction::Failed { failure: SaveFailure::LineNotWritten },
        },
        SaveAction::Saved => SaveAction::Saved,
        SaveAction::Failed { failure } => SaveAction::Failed { failure },
    }
}

/// The status shown after a save. A failure at the directory names the
/// directory as `path`, every other outcome names the file.
pub open spec fn save_status_text(failure: Option<SaveFailure>, path: Seq<char>) -> Seq<char> {
    match failure {
        None => "Saved configuration to file "@ + path,
        Some(SaveFailure::DirectoryOccupied) => "Cannot create save file inside "@ + path
            + " because this isn't a folder."@,
        Some(SaveFailure::DirectoryNotCreated) => "Failed configuration to create configuration folder "@
            + path,
        Some(SaveFailure::FileNotCreated) => "Failed to create config file "@ + path,
        Some(SaveFailure::LineNotWritten) => "Failed to save configuration data to file "@ + path,
    }
}

/// The status shown after a save: `None` for a save that went through, else
/// the step at which it failed.
pub fn save_status(failure: Option<SaveFailure>, path: &str) -> (text: String)
    ensures
        text@ == save_status_text(failure, path@),
{
    match failure {
        None => {
            let mut text = String::from_str("Saved configuration to file ");
            text.append(path);
            text
        },
        Some(SaveFailure::DirectoryOccupied) => {
            let mut text = String::from_str("Cannot create save file inside ");
            text.append(path);
            text.append(" because this isn't a folder.");
            text
        },
        Some(SaveFailure::DirectoryNotCreated) => {
            let mut text = String::from_str(
                "Failed configuration to create configuration folder ",
            );
            text.append(path);
            text
        },
        Some(SaveFailure::FileNotCreated) => {
            let mut text = String::from_str("Failed to create config file ");
            text.append(path);
            text
        },
        Some(SaveFailure::LineNotWritten) => {
            let mut text = String::from_str("Failed to save configuration data to file ");
            text.append(path);
            text
        },
    }
}

/// The status shown after a load of the file that `path` names, if any is
/// shown: a load at start says nothing of a missing file nor of a success.
pub open spec fn load_status_text(
    error: Option<ReadError>,
    manual_execution: bool,
    path: Seq<char>,
) -> Option<Seq<char>> {
    match error {
        Some(ReadError::NotFound) => if manual_execution {
            Some("Cannot load configuration from file "@ + path + "."@)
        } else {
            None
        },
        Some(ReadError::Unreadable) => Some("Failed to read data from file "@ + path + "."@),
        None => if manual_execution {
            Some("Properly loaded configuration from file "@ + path)
        } else {
            None
        },
    }
}

/// The status shown after a load, if any is shown.
pub fn load_status(error: Option<ReadError>, manual_execution: bool, path: &str) -> (text: Option<
    String,
>)
    ensures
        optional_text(text) == load_status_text(error, manual_execution, path@),
{
    match error {
        Some(ReadError::NotFound) => {
            if manual_execution {
                let mut text = String::from_str("Cannot load configuration from file ");
                text.append(path);
                text.append(".");
                Some(text)
            } else {
                None
            }
        },
        Some(ReadError::Unreadable) => {
            let mut text = String::from_str("Failed to read data from file ");
            text.append(path);
            text.append(".");
            Some(text)
        },
        None => {
            if manual_execution {
                let mut text = String::from_str("Properly loaded configuration from file ");
                text.append(path);
                Some(text)
            } else {
                None
            }
        },
    }
}

/// The status shown after a reset: one that the user asked for is
/// confirmed.
pub fn reset_status(manual_clearing: bool) -> (text: Option<String>)
    ensures
        optional_text(text) == if manual_clearing {
            Some("Current configuration was cleared."@)
        } else {
            None
        },
{
    if manual_clearing {
        Some(String::from_str("Current configuration was cleared."))
    } else {
        None
    }
}

} // verus!
