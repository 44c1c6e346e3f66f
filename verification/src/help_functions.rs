//! What the result views compute from plain values: texts for the message
//! pane, the comma-separated form of a directory list, which rows can be
//! selected and which buttons are shown; and the columns of the views.

use crate::text::{chars_of, equals, joined, terminate_all, terminated};
use vstd::prelude::*;
use vstd::string::StringExecFns;

verus! {

/// The columns of the duplicates view.
#[derive(Clone, Copy, PartialEq, Eq, Debug)]
pub enum ColumnsDuplicates {
    Name,
    Path,
    Modification,
    ModificationAsSecs,
    Color,
    TextColor,
}

/// The columns of the empty folders view.
#[derive(Clone, Copy, PartialEq, Eq, Debug)]
pub enum ColumnsEmptyFolders {
    Name,
    Path,
    Modification,
}

/// The one column of the lists of included and of excluded directories.
#[derive(Clone, Copy, PartialEq, Eq, Debug)]
pub enum ColumnsDirectory {
    Path,
}

/// The columns of the big files view.
#[derive(Clone, Copy, PartialEq, Eq, Debug)]
pub enum ColumnsBigFiles {
    Size,
    Name,
    Path,
    Modification,
}

/// The columns of the empty files view.
#[derive(Clone, Copy, PartialEq, Eq, Debug)]
pub enum ColumnsEmptyFiles {
    Name,
    Path,
    Modification,
}

/// The columns of the temporary files view.
#[derive(Clone, Copy, PartialEq, Eq, Debug)]
pub enum ColumnsTemporaryFiles {
    Name,
    Path,
    Modification,
}

/// The columns of the similar images view.
#[derive(Clone, Copy, PartialEq, Eq, Debug)]
pub enum ColumnsSimilarImages {
    Similarity,
    Size,
    Dimensions,
    Name,
    Path,
    Modification,
    ModificationAsSecs,
    Color,
    TextColor,
}

/// The columns of the zeroed files view.
#[derive(Clone, Copy, PartialEq, Eq, Debug)]
pub enum ColumnsZeroedFiles {
    Size,
    Name,
    Path,
    Modification,
}

/// The columns of the music view.
#[derive(Clone, Copy, PartialEq, Eq, Debug)]
pub enum ColumnsSameMusic {
    Size,
    Name,
    Path,
    Title,
    Artist,
    AlbumTitle,
    AlbumArtist,
    Year,
    Modification,
    ModificationAsSecs,
    Color,
    TextColor,
}

/// The colour of the text of every row.
pub const TEXT_COLOR: &'static str = "#ffffff";

/// The background of a row that stands for a file.
pub const MAIN_ROW_COLOR: &'static str = "#343434";

/// The background of a row that heads a group of files.
pub const HEADER_ROW_COLOR: &'static str = "#272727";

/// What a scan has to tell the user, by weight.
#[derive(Clone, PartialEq, Eq, Debug, Default)]
pub struct Messages {
    pub messages: Vec<String>,
    pub warnings: Vec<String>,
    pub errors: Vec<String>,
}

/// How much two images are alike, from an exact copy upwards in distance.
#[derive(Clone, Copy, PartialEq, Eq, Debug, Structural)]
pub enum Similarity {
    Original,
    Minimal,
    VerySmall,
    Small,
    Medium,
    High,
    VeryHigh,
}

/// The rows of a directory list as one text, with a comma between each two.
pub fn get_string_from_list_store(rows: &Vec<String>) -> (text: String)
    ensures
        text@ == joined(rows.deep_view(), ','),
{
    let mut text = String::new();
    let mut i: usize = 0;
    while i < rows.len()
        invariant
            i <= rows.len(),
            text@ == joined(rows.deep_view().take(i as int), ','),
        decreases rows.len() - i,
    {
        proof {
            assert(rows.deep_view().take(i + 1).drop_last() =~= rows.deep_view().take(i as int));
        }
        if i > 0 {
            text.push(',');
        }
        text.append(rows[i].as_str());
        proof {
            if i == 0 {
                assert(text@ =~= rows.deep_view().take(1)[0]);
            }
        }
        i += 1;
    }
    proof {
        assert(rows.deep_view().take(rows.len() as int) =~= rows.deep_view());
    }
    text
}

/// The directory and the file name to show for a path, from its parent and
/// its last component as far as the path has them.
pub open spec fn path_columns(parent: Option<Seq<char>>, file_name: Option<Seq<char>>) -> (
    Seq<char>,
    Seq<char>,
) {
    match (parent, file_name) {
        (Some(dir), Some(file)) => (dir, file),
        (Some(dir), None) => (dir, Seq::empty()),
        (None, _) => (Seq::empty(), Seq::empty()),
    }
}

/// Splits a path into the directory and the file name to show. A path
/// without a parent shows as two empty texts, whatever its last component.
pub fn split_path(parent: Option<String>, file_name: Option<String>) -> (r: (String, String))
    ensures
        (r.0@, r.1@) == path_columns(
            crate::defaults::optional_text(parent),
            crate::defaults::optional_text(file_name),
        ),
{
    match (parent, file_name) {
        (Some(dir), Some(file)) => (dir, file),
        (Some(dir), None) => (dir, String::new()),
        (None, _) => (String::new(), String::new()),
    }
}

/// One block of the message pane: nothing for no lines, else the title,
/// the lines, and an empty line.
pub open spec fn message_block(title: Seq<char>, lines: Seq<Seq<char>>) -> Seq<char> {
    if lines.len() == 0 {
        Seq::empty()
    } else {
        (title + terminated(lines, '\n')).push('\n')
    }
}

/// The text of the message pane: messages, warnings and errors, each kind
/// under its title, and no title for a kind that has nothing to say.
pub open spec fn message_text(
    messages: Seq<Seq<char>>,
    warnings: Seq<Seq<char>>,
    errors: Seq<Seq<char>>,
) -> Seq<char> {
    message_block("############### MESSAGES ###############\n"@, messages) + message_block(
        "############### WARNINGS ###############\n"@,
        warnings,
    ) + message_block("############### ERRORS ###############\n"@, errors)
}

fn push_block(text: &mut String, title: &str, lines: &Vec<String>)
    ensures
        final(text)@ == old(text)@ + message_block(title@, lines.deep_view()),
{
    if lines.len() > 0 {
        text.append(title);
        let body = terminate_all(lines, '\n');
        text.append(body.as_str());
        text.push('\n');
        proof {
            assert(text@ =~= old(text)@ + message_block(title@, lines.deep_view()));
        }
    } else {
        proof {
            assert(text@ =~= old(text)@ + message_block(title@, lines.deep_view()));
        }
    }
}

/// The text to put into the message pane for what a scan reported.
pub fn print_text_messages_to_text_view(text_messages: &Messages) -> (text: String)
    ensures
        text@ == message_text(
            text_messages.messages.deep_view(),
            text_messages.warnings.deep_view(),
            text_messages.errors.deep_view(),
        ),
{
    let mut text = String::new();
    push_block(&mut text, "############### MESSAGES ###############\n", &text_messages.messages);
    push_block(&mut text, "############### WARNINGS ###############\n", &text_messages.warnings);
    push_block(&mut text, "############### ERRORS ###############\n", &text_messages.errors);
    proof {
        assert(text@ =~= message_text(
            text_messages.messages.deep_view(),
            text_messages.warnings.deep_view(),
            text_messages.errors.deep_view(),
        ));
    }
    text
}

fn is_selectable(color: &str) -> (b: bool)
    ensures
        b == (color@ != HEADER_ROW_COLOR@),
{
    !equals(&chars_of(color), HEADER_ROW_COLOR)
}

/// Whether a row of the duplicates view with this background can be
/// selected: every row but a header.
pub fn select_function_duplicates(color: &str) -> (b: bool)
    ensures
        b == (color@ != HEADER_ROW_COLOR@),
{
    is_selectable(color)
}

/// Whether a row of the music view with this background can be selected:
/// every row but a header.
pub fn select_function_same_music(color: &str) -> (b: bool)
    ensures
        b == (color@ != HEADER_ROW_COLOR@),
{
    is_selectable(color)
}

/// Whether a row of the similar images view with this background can be
/// selected: every row but a header.
pub fn select_function_similar_images(color: &str) -> (b: bool)
    ensures
        b == (color@ != HEADER_ROW_COLOR@),
{
    is_selectable(color)
}

/// The names and switches of a table of buttons.
pub open spec fn table_view(table: Seq<(String, bool)>) -> Seq<(Seq<char>, bool)> {
    Seq::new(table.len(), |i: int| (table[i].0@, table[i].1))
}

/// The switch of the first entry of `table` for `name`.
pub open spec fn switch_of(table: Seq<(Seq<char>, bool)>, name: Seq<char>) -> Option<bool>
    decreases table.len(),
{
    if table.len() == 0 {
        None
    } else if table.first().0 == name {
        Some(table.first().1)
    } else {
        switch_of(table.drop_first(), name)
    }
}

/// Looks up the switch of a button by its name.
pub fn find_switch(table: &Vec<(String, bool)>, name: &String) -> (r: Option<bool>)
    ensures
        r == switch_of(table_view(table@), name@),
{
    let mut i: usize = 0;
    proof {
        assert(table_view(table@).skip(0) =~= table_view(table@));
    }
    while i < table.len()
        invariant
            i <= table.len(),
            switch_of(table_view(table@), name@) == switch_of(
                table_view(table@).skip(i as int),
                name@,
            ),
        decreases table.len() - i,
    {
        proof {
            assert(table_view(table@).skip(i as int).drop_first() =~= table_view(table@).skip(
                i + 1,
            ));
        }
        if table[i].0 == *name {
            return Some(table[i].1);
        }
        i += 1;
    }
    None
}

/// Which of the first `button_count` buttons are shown: each one as the
/// table says for its name. The rest is hidden by the caller.
pub fn set_buttons(table: &Vec<(String, bool)>, button_names: &Vec<String>, button_count: usize) -> (shown:
    Vec<bool>)
    requires
        button_count <= button_names.len(),
        forall|i: int|
            0 <= i < button_count ==> switch_of(table_view(table@), #[trigger] button_names[i]@)
                is Some,
    ensures
        shown.len() == button_count,
        forall|i: int|
            0 <= i < button_count ==> Some(#[trigger] shown[i]) == switch_of(
                table_view(table@),
                button_names[i]@,
            ),
{
    let mut shown: Vec<bool> = Vec::new();
    let mut i: usize = 0;
    while i < button_count
        invariant
            i <= button_count <= button_names.len(),
            shown.len() == i,
            forall|j: int|
                0 <= j < button_count ==> switch_of(table_view(table@), #[trigger] button_names[j]@)
                    is Some,
            forall|j: int|
                0 <= j < i ==> Some(#[trigger] shown[j]) == switch_of(
                    table_view(table@),
                    button_names[j]@,
                ),
        decreases button_count - i,
    {
        match find_switch(table, &button_names[i]) {
            Some(b) => {
                shown.push(b);
            },
            None => {
                proof {
                    assert(switch_of(table_view(table@), button_names[i as int]@) is Some);
                }
                shown.push(false);
            },
        }
        i += 1;
    }
    shown
}

/// The name of a degree of similarity as the user reads it.
pub open spec fn similarity_text(similarity: Similarity) -> Seq<char> {
    match similarity {
        Similarity::Original => "Original"@,
        Similarity::Minimal => "Minimal"@,
        Similarity::VerySmall => "Very Small"@,
        Similarity::Small => "Small"@,
        Similarity::Medium => "Medium"@,
        Similarity::High => "High"@,
        Similarity::VeryHigh => "Very High"@,
    }
}

/// The name of a degree of similarity as the user reads it.
pub fn get_text_from_similarity(similarity: &Similarity) -> (text: &'static str)
    ensures
        text@ == similarity_text(*similarity),
{
    match similarity {
        Similarity::Original => "Original",
        Similarity::Minimal => "Minimal",
        Similarity::VerySmall => "Very Small",
        Similarity::Small => "Small",
        Similarity::Medium => "Medium",
        Similarity::High => "High",
        Similarity::VeryHigh => "Very High",
    }
}

} // verus!
