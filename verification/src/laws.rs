//! What holds of the reader and the writer together.

use crate::reader::{
    flag_of, header_of, is_data_line, lines_of, parsed, DiagnosticModel, ReadModel, Section,
};
use crate::settings::{SettingsModel, SettingsSnapshot};
use crate::text::{is_blank, is_whitespace, lowered, terminated, trimmed, unix_newlines};
use crate::text_laws::{
    lemma_join_pieces, lemma_pieces_of_terminated, lemma_trimmed_chars, lemma_trimmed_fixed,
    lemma_trimmed_is_trimmed, lemma_unix_newlines_of_crlf, lemma_unix_newlines_of_terminated,
    with_carriage_returns,
};
use crate::defaults::{
    default_excluded_directories, default_excluded_items, default_settings, fallback_root,
    Platform,
};
use crate::items::{is_item_list, lemma_items_of_items_text};
use crate::writer::{file_text, flag_word, header_line, serialized};
use vstd::prelude::*;
use vstd::string::StringSliceAdditionalSpecFns;

verus! {

/// A line that can stand in a file as it is: no line end in it, no white
/// space around it.
pub open spec fn is_clean_line(line: Seq<char>) -> bool {
    &&& line.len() > 0
    &&& trimmed(line) == line
    &&& !line.contains('\n')
}

proof fn lemma_header_lines(section: Section)
    ensures
        is_clean_line(header_line(section)),
        header_of(header_line(section)) == Some(section),
{
    reveal_strlit("--included_directories:");
    reveal_strlit("--excluded_directories:");
    reveal_strlit("--excluded_items:");
    reveal_strlit("--allowed_extensions:");
    reveal_strlit("--load_at_start:");
    reveal_strlit("--save_at_exit:");
    reveal_strlit("--confirm_deletion:");
    reveal_strlit("--included_directories");
    reveal_strlit("--excluded_directories");
    reveal_strlit("--excluded_items");
    reveal_strlit("--allowed_extensions");
    reveal_strlit("--load_at_start");
    reveal_strlit("--save_at_exit");
    reveal_strlit("--confirm_deletion");
    let h = header_line(section);
    lemma_trimmed_fixed(h);
    assert(!h.contains('\n'));
    let k1 = "--included_directories"@;
    let k2 = "--excluded_directories"@;
    let k3 = "--excluded_items"@;
    let k4 = "--allowed_extensions"@;
    let k5 = "--load_at_start"@;
    let k6 = "--save_at_exit"@;
    let k7 = "--confirm_deletion"@;
    if k1.len() <= h.len() {
        assert(h.subrange(0, k1.len() as int)[2] == h[2]);
    }
    if k2.len() <= h.len() {
        assert(h.subrange(0, k2.len() as int)[2] == h[2]);
        assert(h.subrange(0, k2.len() as int)[11] == h[11]);
    }
    if k3.len() <= h.len() {
        assert(h.subrange(0, k3.len() as int)[2] == h[2]);
        assert(h.subrange(0, k3.len() as int)[11] == h[11]);
    }
    if k4.len() <= h.len() {
        assert(h.subrange(0, k4.len() as int)[2] == h[2]);
    }
    if k5.len() <= h.len() {
        assert(h.subrange(0, k5.len() as int)[2] == h[2]);
    }
    if k6.len() <= h.len() {
        assert(h.subrange(0, k6.len() as int)[2] == h[2]);
    }
    match section {
        Section::IncludedDirectories => {
            assert(k1 =~= h.subrange(0, k1.len() as int));
        },
        Section::ExcludedDirectories => {
            assert(k2 =~= h.subrange(0, k2.len() as int));
        },
        Section::ExcludedItems => {
            assert(k3 =~= h.subrange(0, k3.len() as int));
        },
        Section::AllowedExtensions => {
            assert(k4 =~= h.subrange(0, k4.len() as int));
        },
        Section::LoadAtStart => {
            assert(k5 =~= h.subrange(0, k5.len() as int));
        },
        Section::SaveAtExit => {
            assert(k6 =~= h.subrange(0, k6.len() as int));
        },
        Section::ConfirmDeletion => {
            assert(k7 =~= h.subrange(0, k7.len() as int));
        },
    }
}

proof fn lemma_no_dashes_no_header(line: Seq<char>)
    requires
        !"--"@.is_prefix_of(line),
    ensures
        header_of(line) is None,
{
    reveal_strlit("--");
    reveal_strlit("--included_directories");
    reveal_strlit("--excluded_directories");
    reveal_strlit("--excluded_items");
    reveal_strlit("--allowed_extensions");
    reveal_strlit("--load_at_start");
    reveal_strlit("--save_at_exit");
    reveal_strlit("--confirm_deletion");
    if header_of(line) is Some {
        let n: int = if "--included_directories"@.is_prefix_of(line) {
            22
        } else if "--excluded_directories"@.is_prefix_of(line) {
            22
        } else if "--excluded_items"@.is_prefix_of(line) {
            16
        } else if "--allowed_extensions"@.is_prefix_of(line) {
            20
        } else if "--load_at_start"@.is_prefix_of(line) {
            15
        } else if "--save_at_exit"@.is_prefix_of(line) {
            14
        } else {
            18
        };
        assert(line.subrange(0, n)[0] == line[0]);
        assert(line.subrange(0, n)[1] == line[1]);
        assert("--"@ =~= line.subrange(0, 2));
    }
}

proof fn lemma_flag_words(b: bool)
    ensures
        is_clean_line(flag_word(b)),
        !"--"@.is_prefix_of(flag_word(b)),
        flag_of(flag_word(b)) == Some(b),
{
    reveal_strlit("--");
    reveal_strlit("true");
    reveal_strlit("false");
    reveal_strlit("0");
    reveal_strlit("1");
    let w = flag_word(b);
    lemma_trimmed_fixed(w);
    assert(w.subrange(0, 2)[0] == w[0]);
    assert(lowered(w) =~= w);
}

proof fn lemma_step_header(st: ReadModel, n: nat, section: Section)
    requires
        !st.halted,
    ensures
        st.step(n, header_line(section)) == (ReadModel { section: Some(section), ..st }),
{
    lemma_header_lines(section);
}

proof fn lemma_step_data(st: ReadModel, n: nat, section: Section, line: Seq<char>)
    requires
        !st.halted,
        st.section == Some(section),
        is_clean_line(line),
        !"--"@.is_prefix_of(line),
    ensures
        st.step(n, line) == st.with_data(section, n, line),
{
    lemma_no_dashes_no_header(line);
}

/// The state after `lines`, of which the first is line `offset` of the file.
spec fn run_at(st: ReadModel, lines: Seq<Seq<char>>, offset: nat) -> ReadModel
    decreases lines.len(),
{
    if lines.len() == 0 {
        st
    } else {
        run_at(st, lines.drop_last(), offset).step(
            offset + (lines.len() - 1) as nat,
            lines.last(),
        )
    }
}

proof fn lemma_run_at_zero(st: ReadModel, lines: Seq<Seq<char>>)
    ensures
        st.run(lines) == run_at(st, lines, 0),
    decreases lines.len(),
{
    if lines.len() > 0 {
        lemma_run_at_zero(st, lines.drop_last());
    }
}

proof fn lemma_run_at_one(st: ReadModel, line: Seq<char>, offset: nat)
    ensures
        run_at(st, seq![line], offset) == st.step(offset, line),
{
    let one = seq![line];
    assert(one.drop_last().len() == 0);
    assert(run_at(st, one.drop_last(), offset) == st);
}

proof fn lemma_run_at_concat(st: ReadModel, a: Seq<Seq<char>>, b: Seq<Seq<char>>, offset: nat)
    ensures
        run_at(st, a + b, offset) == run_at(run_at(st, a, offset), b, offset + a.len()),
    decreases b.len(),
{
    if b.len() == 0 {
        assert(a + b =~= a);
    } else {
        lemma_run_at_concat(st, a, b.drop_last(), offset);
        assert((a + b).drop_last() =~= a + b.drop_last());
    }
}

/// A line that comes back from a file as the entry it was written from: it
/// is not empty, has no white space around it, holds no line end and does
/// not begin like a header.
pub open spec fn is_plain_line(line: Seq<char>) -> bool {
    is_clean_line(line) && !"--"@.is_prefix_of(line)
}

/// Whether every entry of the four lists is a plain line.
pub open spec fn holds_plain_lines(s: SettingsModel) -> bool {
    &&& forall|i: int|
        0 <= i < s.included_directories.len() ==> is_plain_line(#[trigger] s.included_directories[i])
    &&& forall|i: int|
        0 <= i < s.excluded_directories.len() ==> is_plain_line(#[trigger] s.excluded_directories[i])
    &&& forall|i: int| 0 <= i < s.excluded_items.len() ==> is_plain_line(#[trigger] s.excluded_items[i])
    &&& forall|i: int|
        0 <= i < s.allowed_extensions.len() ==> is_plain_line(#[trigger] s.allowed_extensions[i])
}

/// Whether no entry of the list holds a comma.
pub open spec fn free_of_commas(list: Seq<Seq<char>>) -> bool {
    forall|i: int| 0 <= i < list.len() ==> !(#[trigger] list[i]).contains(',')
}

/// The snapshots that a file holds without loss: every entry is a plain
/// line, and no excluded item and no allowed extension holds a comma.
pub open spec fn keeps_in_file(s: SettingsModel) -> bool {
    &&& holds_plain_lines(s)
    &&& free_of_commas(s.excluded_items)
    &&& free_of_commas(s.allowed_extensions)
}

/// `st` with `entries` appended to the list of `section`.
spec fn with_list(st: ReadModel, section: Section, entries: Seq<Seq<char>>) -> ReadModel {
    let s = st.settings;
    match section {
        Section::IncludedDirectories => ReadModel {
            settings: SettingsModel { included_directories: s.included_directories + entries, ..s },
            ..st
        },
        Section::ExcludedDirectories => ReadModel {
            settings: SettingsModel { excluded_directories: s.excluded_directories + entries, ..s },
            ..st
        },
        Section::ExcludedItems => ReadModel {
            settings: SettingsModel { excluded_items: s.excluded_items + entries, ..s },
            ..st
        },
        Section::AllowedExtensions => ReadModel {
            settings: SettingsModel { allowed_extensions: s.allowed_extensions + entries, ..s },
            ..st
        },
        _ => st,
    }
}

/// `st` with the switch of `section` set to `b`.
spec fn with_flag(st: ReadModel, section: Section, b: bool) -> ReadModel {
    let s = st.settings;
    match section {
        Section::LoadAtStart => ReadModel { settings: SettingsModel { load_at_start: b, ..s }, ..st },
        Section::SaveAtExit => ReadModel { settings: SettingsModel { save_at_exit: b, ..s }, ..st },
        Section::ConfirmDeletion => ReadModel {
            settings: SettingsModel { confirm_deletion: b, ..s },
            ..st
        },
        _ => st,
    }
}

proof fn lemma_run_entries(st: ReadModel, section: Section, entries: Seq<Seq<char>>, offset: nat)
    requires
        !st.halted,
        st.section == Some(section),
        section.is_list(),
        forall|i: int| 0 <= i < entries.len() ==> is_plain_line(#[trigger] entries[i]),
    ensures
        run_at(st, entries, offset) == with_list(st, section, entries),
    decreases entries.len(),
{
    let s = st.settings;
    if entries.len() == 0 {
        assert(s.included_directories + entries =~= s.included_directories);
        assert(s.excluded_directories + entries =~= s.excluded_directories);
        assert(s.excluded_items + entries =~= s.excluded_items);
        assert(s.allowed_extensions + entries =~= s.allowed_extensions);
    } else {
        let front = entries.drop_last();
        let last = entries.last();
        lemma_run_entries(st, section, front, offset);
        let mid = with_list(st, section, front);
        let n = offset + (entries.len() - 1) as nat;
        assert(is_plain_line(entries[entries.len() - 1]));
        lemma_step_data(mid, n, section, last);
        assert((s.included_directories + front).push(last) =~= s.included_directories + entries);
        assert((s.excluded_directories + front).push(last) =~= s.excluded_directories + entries);
        assert((s.excluded_items + front).push(last) =~= s.excluded_items + entries);
        assert((s.allowed_extensions + front).push(last) =~= s.allowed_extensions + entries);
    }
}

proof fn lemma_run_section(st: ReadModel, section: Section, entries: Seq<Seq<char>>, offset: nat)
    requires
        !st.halted,
        section.is_list(),
        forall|i: int| 0 <= i < entries.len() ==> is_plain_line(#[trigger] entries[i]),
    ensures
        run_at(st, seq![header_line(section)] + entries, offset) == with_list(
            ReadModel { section: Some(section), ..st },
            section,
            entries,
        ),
{
    let head = seq![header_line(section)];
    lemma_run_at_concat(st, head, entries, offset);
    lemma_run_at_one(st, header_line(section), offset);
    lemma_step_header(st, offset, section);
    lemma_run_entries(ReadModel { section: Some(section), ..st }, section, entries, offset + 1);
}

proof fn lemma_run_flag(st: ReadModel, section: Section, b: bool, offset: nat)
    requires
        !st.halted,
        !section.is_list(),
    ensures
        run_at(st, seq![header_line(section), flag_word(b)], offset) == with_flag(
            ReadModel { section: Some(section), ..st },
            section,
            b,
        ),
{
    let both = seq![header_line(section), flag_word(b)];
    assert(both.drop_last() =~= seq![header_line(section)]);
    lemma_run_at_one(st, header_line(section), offset);
    lemma_step_header(st, offset, section);
    let opened = ReadModel { section: Some(section), ..st };
    lemma_flag_words(b);
    lemma_step_data(opened, offset + 1, section, flag_word(b));
}

spec fn all_clean(lines: Seq<Seq<char>>) -> bool {
    forall|i: int| 0 <= i < lines.len() ==> is_clean_line(#[trigger] lines[i])
}

proof fn lemma_all_clean_concat(a: Seq<Seq<char>>, b: Seq<Seq<char>>)
    requires
        all_clean(a),
        all_clean(b),
    ensures
        all_clean(a + b),
{
    assert forall|i: int| 0 <= i < (a + b).len() implies is_clean_line(#[trigger] (a + b)[i]) by {
        if i < a.len() {
            assert((a + b)[i] == a[i]);
        } else {
            assert((a + b)[i] == b[i - a.len()]);
        }
    }
}

proof fn lemma_section_clean(section: Section, entries: Seq<Seq<char>>)
    requires
        forall|i: int| 0 <= i < entries.len() ==> is_plain_line(#[trigger] entries[i]),
    ensures
        all_clean(seq![header_line(section)] + entries),
{
    lemma_header_lines(section);
    lemma_all_clean_concat(seq![header_line(section)], entries);
}

proof fn lemma_flag_clean(section: Section, b: bool)
    ensures
        all_clean(seq![header_line(section), flag_word(b)]),
{
    lemma_header_lines(section);
    lemma_flag_words(b);
}

/// A text in which every line ends with LF is read as those lines, and an
/// empty line after the last line end. The lines hold no line feed and do
/// not end with a carriage return.
pub proof fn lemma_lines_of_lf_text(lines: Seq<Seq<char>>)
    requires
        forall|i: int| 0 <= i < lines.len() ==> !(#[trigger] lines[i]).contains('\n'),
        forall|i: int|
            0 <= i < lines.len() && (#[trigger] lines[i]).len() > 0 ==> lines[i].last() != '\r',
    ensures
        lines_of(terminated(lines, '\n')) == lines.push(Seq::<char>::empty()),
{
    lemma_unix_newlines_of_terminated(lines);
    lemma_pieces_of_terminated(lines, '\n');
}

/// A text in which every line ends with CRLF is read as the same lines as
/// the text in which every line ends with LF.
pub proof fn lemma_lines_of_crlf_text(lines: Seq<Seq<char>>)
    requires
        forall|i: int| 0 <= i < lines.len() ==> !(#[trigger] lines[i]).contains('\n'),
    ensures
        lines_of(terminated(with_carriage_returns(lines), '\n')) == lines.push(
            Seq::<char>::empty(),
        ),
{
    lemma_unix_newlines_of_crlf(lines);
    lemma_pieces_of_terminated(lines, '\n');
}

proof fn lemma_clean_text(lines: Seq<Seq<char>>)
    requires
        all_clean(lines),
    ensures
        lines_of(terminated(lines, '\n')) == lines.push(Seq::<char>::empty()),
{
    assert forall|i: int| 0 <= i < lines.len() && (#[trigger] lines[i]).len() > 0 implies lines[i].last()
        != '\r' by {
        assert(is_clean_line(lines[i]));
        lemma_trimmed_fixed(lines[i]);
    }
    assert forall|i: int| 0 <= i < lines.len() implies !(#[trigger] lines[i]).contains('\n') by {
        assert(is_clean_line(lines[i]));
    }
    lemma_lines_of_lf_text(lines);
}

/// Reading what was written gives the snapshot back: every list in its
/// order, every switch with its value, and no diagnostic. This holds of the
/// snapshots that a file keeps without loss.
pub proof fn lemma_round_trip(s: SettingsModel)
    requires
        keeps_in_file(s),
    ensures
        parsed(file_text(s), SettingsModel::initial()).settings == s,
        parsed(file_text(s), SettingsModel::initial()).diagnostics == Seq::<DiagnosticModel>::empty(),
        !parsed(file_text(s), SettingsModel::initial()).halted,
{
    let inc = Section::IncludedDirectories;
    let exc = Section::ExcludedDirectories;
    let items = Section::ExcludedItems;
    let exts = Section::AllowedExtensions;
    let save = Section::SaveAtExit;
    let load = Section::LoadAtStart;
    let confirm = Section::ConfirmDeletion;
    assert(is_item_list(s.excluded_items)) by {
        assert forall|i: int| 0 <= i < s.excluded_items.len() implies !is_blank(
            #[trigger] s.excluded_items[i],
        ) && !s.excluded_items[i].contains(',') by {
            assert(is_plain_line(s.excluded_items[i]));
        }
    }
    assert(is_item_list(s.allowed_extensions)) by {
        assert forall|i: int| 0 <= i < s.allowed_extensions.len() implies !is_blank(
            #[trigger] s.allowed_extensions[i],
        ) && !s.allowed_extensions[i].contains(',') by {
            assert(is_plain_line(s.allowed_extensions[i]));
        }
    }
    lemma_items_of_items_text(s.excluded_items);
    lemma_items_of_items_text(s.allowed_extensions);

    let a1 = seq![header_line(inc)] + s.included_directories;
    let a2 = seq![header_line(exc)] + s.excluded_directories;
    let a3 = seq![header_line(items)] + s.excluded_items;
    let a4 = seq![header_line(exts)] + s.allowed_extensions;
    let t1 = seq![header_line(save), flag_word(s.save_at_exit)];
    let t2 = seq![header_line(load), flag_word(s.load_at_start)];
    let t3 = seq![header_line(confirm), flag_word(s.confirm_deletion)];
    let b1 = a1;
    let b2 = b1 + a2;
    let b3 = b2 + a3;
    let b4 = b3 + a4;
    let b5 = b4 + t1;
    let b6 = b5 + t2;
    let lines = b6 + t3;
    assert(serialized(s) =~= lines);

    lemma_section_clean(inc, s.included_directories);
    lemma_section_clean(exc, s.excluded_directories);
    lemma_section_clean(items, s.excluded_items);
    lemma_section_clean(exts, s.allowed_extensions);
    lemma_flag_clean(save, s.save_at_exit);
    lemma_flag_clean(load, s.load_at_start);
    lemma_flag_clean(confirm, s.confirm_deletion);
    lemma_all_clean_concat(b1, a2);
    lemma_all_clean_concat(b2, a3);
    lemma_all_clean_concat(b3, a4);
    lemma_all_clean_concat(b4, t1);
    lemma_all_clean_concat(b5, t2);
    lemma_all_clean_concat(b6, t3);
    lemma_clean_text(lines);

    let st0 = ReadModel::start(SettingsModel::initial());
    let all = lines.push(Seq::<char>::empty());
    assert(all.drop_last() =~= lines);
    assert(st0.run(all) == st0.run(lines));
    lemma_run_at_zero(st0, lines);

    lemma_run_section(st0, inc, s.included_directories, 0);
    let st1 = run_at(st0, b1, 0);
    lemma_run_at_concat(st0, b1, a2, 0);
    lemma_run_section(st1, exc, s.excluded_directories, b1.len());
    let st2 = run_at(st0, b2, 0);
    lemma_run_at_concat(st0, b2, a3, 0);
    lemma_run_section(st2, items, s.excluded_items, b2.len());
    let st3 = run_at(st0, b3, 0);
    lemma_run_at_concat(st0, b3, a4, 0);
    lemma_run_section(st3, exts, s.allowed_extensions, b3.len());
    let st4 = run_at(st0, b4, 0);
    lemma_run_at_concat(st0, b4, t1, 0);
    lemma_run_flag(st4, save, s.save_at_exit, b4.len());
    let st5 = run_at(st0, b5, 0);
    lemma_run_at_concat(st0, b5, t2, 0);
    lemma_run_flag(st5, load, s.load_at_start, b5.len());
    let st6 = run_at(st0, b6, 0);
    lemma_run_at_concat(st0, b6, t3, 0);
    lemma_run_flag(st6, confirm, s.confirm_deletion, b6.len());
    let end = run_at(st0, lines, 0);
    assert(end.settings.included_directories =~= s.included_directories);
    assert(end.settings.excluded_directories =~= s.excluded_directories);
    assert(end.settings.excluded_items =~= s.excluded_items);
    assert(end.settings.allowed_extensions =~= s.allowed_extensions);
}

/// A line that begins with `--` and names no section is reported, and
/// changes neither the current section nor anything gathered so far.
pub proof fn lemma_unknown_header_is_reported(st: ReadModel, number: nat, raw: Seq<char>)
    requires
        !st.halted,
        "--"@.is_prefix_of(trimmed(raw)),
        header_of(trimmed(raw)) is None,
    ensures
        st.step(number, raw) == st.report(
            DiagnosticModel::UnrecognizedHeader { line_number: number, line: raw },
        ),
        st.step(number, raw).settings == st.settings,
        st.step(number, raw).section == st.section,
{
    reveal_strlit("--");
}

/// A data line in the section of a switch that is no value of a switch is
/// reported once, with its number, and the switch keeps its value.
pub proof fn lemma_invalid_flag_is_reported(st: ReadModel, number: nat, raw: Seq<char>)
    requires
        !st.halted,
        st.section is Some,
        !st.section->0.is_list(),
        is_data_line(trimmed(raw)),
        flag_of(trimmed(raw)) is None,
    ensures
        st.step(number, raw) == st.report(
            DiagnosticModel::InvalidBoolean { line_number: number, line: raw },
        ),
        st.step(number, raw).settings == st.settings,
{
    lemma_no_dashes_no_header(trimmed(raw));
}

/// The state in which a read ends when line `k` is orphan data.
pub open spec fn ended_by_orphan(initial: SettingsModel, k: nat, line: Seq<char>) -> ReadModel {
    ReadModel {
        settings: initial,
        diagnostics: seq![DiagnosticModel::OrphanData { line_number: k, line }],
        section: None,
        halted: true,
    }
}

proof fn lemma_orphan_prefix(lines: Seq<Seq<char>>, k: int, initial: SettingsModel, m: int)
    requires
        0 <= k < lines.len(),
        0 <= m <= lines.len(),
        forall|i: int| 0 <= i < k ==> is_blank(#[trigger] lines[i]),
        is_data_line(trimmed(lines[k])),
    ensures
        ReadModel::start(initial).run(lines.take(m)) == if m <= k {
            ReadModel::start(initial)
        } else {
            ended_by_orphan(initial, k as nat, lines[k])
        },
    decreases m,
{
    if m > 0 {
        lemma_orphan_prefix(lines, k, initial, m - 1);
        assert(lines.take(m).drop_last() =~= lines.take(m - 1));
        assert(lines.take(m).last() == lines[m - 1]);
        if m - 1 == k {
            lemma_no_dashes_no_header(trimmed(lines[k]));
            assert(Seq::<DiagnosticModel>::empty().push(
                DiagnosticModel::OrphanData { line_number: k as nat, line: lines[k] },
            ) =~= seq![
                DiagnosticModel::OrphanData { line_number: k as nat, line: lines[k] },
            ]);
        } else if m - 1 < k {
            assert(is_blank(lines[m - 1]));
        }
    }
}

/// When the first line of a file that is not blank is data, the read ends
/// there: the fields are as they were before the read, the one diagnostic
/// is the orphan data with the number of that line, and nothing after that
/// line is looked at.
pub proof fn lemma_orphan_data_ends_read(text: Seq<char>, k: int, initial: SettingsModel)
    requires
        0 <= k < lines_of(text).len(),
        forall|i: int| 0 <= i < k ==> is_blank(#[trigger] lines_of(text)[i]),
        is_data_line(trimmed(lines_of(text)[k])),
    ensures
        parsed(text, initial) == ended_by_orphan(initial, k as nat, lines_of(text)[k]),
{
    let lines = lines_of(text);
    lemma_orphan_prefix(lines, k, initial, lines.len() as int);
    assert(lines.take(lines.len() as int) =~= lines);
}

proof fn lemma_step_keeps_plain(st: ReadModel, number: nat, raw: Seq<char>)
    requires
        holds_plain_lines(st.settings),
        !raw.contains('\n'),
    ensures
        holds_plain_lines(st.step(number, raw).settings),
{
    let line = trimmed(raw);
    if !st.halted && line.len() > 0 && header_of(line) is None && !"--"@.is_prefix_of(line)
        && st.section is Some {
        lemma_trimmed_is_trimmed(raw);
        if line.contains('\n') {
            lemma_trimmed_chars(raw, '\n');
        }
        assert(is_plain_line(line));
    }
}

proof fn lemma_run_keeps_plain(st: ReadModel, lines: Seq<Seq<char>>)
    requires
        holds_plain_lines(st.settings),
        forall|i: int| 0 <= i < lines.len() ==> !(#[trigger] lines[i]).contains('\n'),
    ensures
        holds_plain_lines(st.run(lines).settings),
    decreases lines.len(),
{
    if lines.len() > 0 {
        lemma_run_keeps_plain(st, lines.drop_last());
        assert(!lines[lines.len() - 1].contains('\n'));
        lemma_step_keeps_plain(
            st.run(lines.drop_last()),
            (lines.len() - 1) as nat,
            lines.last(),
        );
    }
}

/// Whatever the text, every entry that a read gathers is a plain line: not
/// empty, without white space around it, without a line end in it, and not
/// beginning like a header.
pub proof fn lemma_read_gathers_plain_lines(text: Seq<char>)
    ensures
        holds_plain_lines(parsed(text, SettingsModel::initial()).settings),
{
    lemma_join_pieces(unix_newlines(text), '\n');
    lemma_run_keeps_plain(ReadModel::start(SettingsModel::initial()), lines_of(text));
}

/// What a read has gathered from any text, a write and a second read give
/// back unchanged, as long as no excluded item and no allowed extension
/// that was gathered holds a comma.
pub proof fn lemma_read_settles(text: Seq<char>)
    requires
        free_of_commas(parsed(text, SettingsModel::initial()).settings.excluded_items),
        free_of_commas(parsed(text, SettingsModel::initial()).settings.allowed_extensions),
    ensures
        parsed(
            file_text(parsed(text, SettingsModel::initial()).settings),
            SettingsModel::initial(),
        ).settings == parsed(text, SettingsModel::initial()).settings,
{
    lemma_read_gathers_plain_lines(text);
    lemma_round_trip(parsed(text, SettingsModel::initial()).settings);
}

/// Two snapshots with the same content are written as the same bytes.
pub proof fn lemma_same_settings_same_bytes(
    a: SettingsSnapshot,
    b: SettingsSnapshot,
    text_a: &str,
    text_b: &str,
)
    requires
        a@ == b@,
        text_a@ == file_text(a@),
        text_b@ == file_text(b@),
    ensures
        text_a.spec_bytes() == text_b.spec_bytes(),
{
}

proof fn lemma_plain_by_its_ends(line: Seq<char>)
    requires
        line.len() > 0,
        !is_whitespace(line.first()),
        !is_whitespace(line.last()),
        line.first() != '-',
        !line.contains('\n'),
    ensures
        is_plain_line(line),
{
    reveal_strlit("--");
    lemma_trimmed_fixed(line);
    if "--"@.is_prefix_of(line) {
        assert(line.subrange(0, 2)[0] == line[0]);
    }
}

proof fn lemma_default_entries_are_plain(platform: Platform)
    ensures
        forall|i: int|
            0 <= i < default_excluded_directories(platform).len() ==> is_plain_line(
                #[trigger] default_excluded_directories(platform)[i],
            ),
        forall|i: int|
            0 <= i < default_excluded_items(platform).len() ==> is_plain_line(
                #[trigger] default_excluded_items(platform)[i],
            ) && !default_excluded_items(platform)[i].contains(','),
        platform != Platform::Other ==> is_plain_line(fallback_root(platform)),
{
    reveal_strlit("/proc");
    reveal_strlit("/dev");
    reveal_strlit("/sys");
    reveal_strlit("/run");
    reveal_strlit("/snap");
    reveal_strlit("*/.git/*");
    reveal_strlit("*/node_modules/*");
    reveal_strlit("*/lost+found/*");
    reveal_strlit("*/Trash/*");
    reveal_strlit("*/.Trash-*/*");
    reveal_strlit("*:/windows/*");
    reveal_strlit("/home");
    reveal_strlit("C:\\");
    lemma_plain_by_its_ends("/proc"@);
    lemma_plain_by_its_ends("/dev"@);
    lemma_plain_by_its_ends("/sys"@);
    lemma_plain_by_its_ends("/run"@);
    lemma_plain_by_its_ends("/snap"@);
    lemma_plain_by_its_ends("*/.git/*"@);
    lemma_plain_by_its_ends("*/node_modules/*"@);
    lemma_plain_by_its_ends("*/lost+found/*"@);
    lemma_plain_by_its_ends("*/Trash/*"@);
    lemma_plain_by_its_ends("*/.Trash-*/*"@);
    lemma_plain_by_its_ends("*:/windows/*"@);
    lemma_plain_by_its_ends("/home"@);
    lemma_plain_by_its_ends("C:\\"@);
}

/// The default settings are kept in a file without loss, as long as the
/// working directory is a plain line, or the fallback root of a Unix or a
/// Windows system stands in for it.
pub proof fn lemma_defaults_keep_in_file(platform: Platform, current_dir: Option<Seq<char>>)
    requires
        match current_dir {
            Some(dir) => is_plain_line(dir),
            None => platform != Platform::Other,
        },
    ensures
        keeps_in_file(default_settings(platform, current_dir)),
        is_item_list(default_settings(platform, current_dir).excluded_items),
        is_item_list(default_settings(platform, current_dir).allowed_extensions),
{
    lemma_default_entries_are_plain(platform);
    let s = default_settings(platform, current_dir);
    assert forall|i: int| 0 <= i < s.excluded_items.len() implies !is_blank(
        #[trigger] s.excluded_items[i],
    ) by {
        assert(is_plain_line(s.excluded_items[i]));
    }
}

} // verus!
