//! Facts about trimming, splitting, joining and line endings.

use crate::text::{
    is_whitespace, joined, pieces, terminated, trimmed, trimmed_end, trimmed_start, unix_newlines,
};
use vstd::prelude::*;

verus! {

/// Trimming at the start never makes a string longer.
pub proof fn lemma_trimmed_start_len(s: Seq<char>)
    ensures
        trimmed_start(s).len() <= s.len(),
    decreases s.len(),
{
    if s.len() > 0 && is_whitespace(s.first()) {
        lemma_trimmed_start_len(s.drop_first());
    }
}

/// Trimming at the end never makes a string longer.
pub proof fn lemma_trimmed_end_len(s: Seq<char>)
    ensures
        trimmed_end(s).len() <= s.len(),
    decreases s.len(),
{
    if s.len() > 0 && is_whitespace(s.last()) {
        lemma_trimmed_end_len(s.drop_last());
    }
}

/// Trimming leaves a string as it is exactly when the string is empty or
/// neither begins nor ends with white space.
pub proof fn lemma_trimmed_fixed(s: Seq<char>)
    ensures
        trimmed(s) == s <==> (s.len() == 0 || (!is_whitespace(s.first()) && !is_whitespace(
            s.last(),
        ))),
{
    if s.len() > 0 {
        if is_whitespace(s.first()) {
            lemma_trimmed_start_len(s.drop_first());
            lemma_trimmed_end_len(trimmed_start(s));
        } else if is_whitespace(s.last()) {
            lemma_trimmed_end_len(s.drop_last());
        }
    }
}

/// Trimming twice is trimming once.
pub proof fn lemma_trimmed_is_trimmed(s: Seq<char>)
    ensures
        trimmed(trimmed(s)) == trimmed(s),
{
    lemma_trimmed_start_clean(s);
    lemma_trimmed_end_clean(trimmed_start(s));
    let t = trimmed(s);
    if t.len() > 0 {
        lemma_trimmed_end_keeps_first(trimmed_start(s));
    }
    lemma_trimmed_fixed(t);
}

proof fn lemma_trimmed_start_clean(s: Seq<char>)
    ensures
        trimmed_start(s).len() > 0 ==> !is_whitespace(trimmed_start(s).first()),
    decreases s.len(),
{
    if s.len() > 0 && is_whitespace(s.first()) {
        lemma_trimmed_start_clean(s.drop_first());
    }
}

proof fn lemma_trimmed_end_clean(s: Seq<char>)
    ensures
        trimmed_end(s).len() > 0 ==> !is_whitespace(trimmed_end(s).last()),
    decreases s.len(),
{
    if s.len() > 0 && is_whitespace(s.last()) {
        lemma_trimmed_end_clean(s.drop_last());
    }
}

proof fn lemma_trimmed_end_keeps_first(s: Seq<char>)
    ensures
        trimmed_end(s).len() > 0 ==> s.len() > 0 && trimmed_end(s).first() == s.first(),
    decreases s.len(),
{
    if s.len() > 0 && is_whitespace(s.last()) {
        lemma_trimmed_end_keeps_first(s.drop_last());
    }
}

/// A string always has at least one piece.
pub proof fn lemma_pieces_len(s: Seq<char>, sep: char)
    ensures
        pieces(s, sep).len() >= 1,
    decreases s.len(),
{
    if s.len() > 0 {
        lemma_pieces_len(s.drop_last(), sep);
    }
}

/// Splitting and joining are inverse to each other: no piece holds the
/// separator, and the pieces joined by the separator give the string back.
pub proof fn lemma_join_pieces(s: Seq<char>, sep: char)
    ensures
        joined(pieces(s, sep), sep) == s,
        forall|i: int| 0 <= i < pieces(s, sep).len() ==> !(#[trigger] pieces(s, sep)[i]).contains(sep),
    decreases s.len(),
{
    let p = pieces(s, sep);
    if s.len() == 0 {
        assert(joined(p, sep) =~= s);
    } else {
        let before = pieces(s.drop_last(), sep);
        lemma_join_pieces(s.drop_last(), sep);
        lemma_pieces_len(s.drop_last(), sep);
        if s.last() == sep {
            assert(p.drop_last() =~= before);
            assert(joined(p, sep) =~= s);
        } else {
            let front = s.drop_last();
            assert(s =~= front.push(s.last()));
            if p.len() > 1 {
                assert(p.drop_last() =~= before.drop_last());
                let head = joined(before.drop_last(), sep).push(sep);
                assert(front == head + before.last());
                assert(head + before.last().push(s.last()) =~= (head + before.last()).push(
                    s.last(),
                ));
            } else {
                assert(front == before[0]);
            }
            assert forall|i: int| 0 <= i < p.len() implies !(#[trigger] p[i]).contains(sep) by {
                if i == p.len() - 1 {
                    let last = before.last();
                    assert(!before[before.len() - 1].contains(sep));
                    if p[i].contains(sep) {
                        let j = choose|j: int| 0 <= j < p[i].len() && p[i][j] == sep;
                        if j < last.len() {
                            assert(last[j] == sep);
                        }
                    }
                } else {
                    assert(p[i] == before[i]);
                }
            }
        }
    }
}

/// A separator at the end opens a new, empty piece.
pub proof fn lemma_pieces_push_sep(s: Seq<char>, sep: char)
    ensures
        pieces(s.push(sep), sep) == pieces(s, sep).push(Seq::<char>::empty()),
{
    assert(s.push(sep).drop_last() =~= s);
}

/// Text without a separator, put at the end, extends the last piece.
pub proof fn lemma_pieces_append(s: Seq<char>, more: Seq<char>, sep: char)
    requires
        !more.contains(sep),
    ensures
        pieces(s + more, sep) == pieces(s, sep).update(
            pieces(s, sep).len() - 1,
            pieces(s, sep).last() + more,
        ),
    decreases more.len(),
{
    let p = pieces(s, sep);
    lemma_pieces_len(s, sep);
    if more.len() == 0 {
        assert(s + more =~= s);
        assert(p.last() + more =~= p.last());
        assert(p.update(p.len() - 1, p.last()) =~= p);
    } else {
        let shorter = more.drop_last();
        assert(!shorter.contains(sep)) by {
            if shorter.contains(sep) {
                let j = choose|j: int| 0 <= j < shorter.len() && shorter[j] == sep;
                assert(more[j] == sep);
            }
        }
        assert(more.last() != sep) by {
            assert(more[more.len() - 1] == more.last());
        }
        lemma_pieces_append(s, shorter, sep);
        assert((s + more).drop_last() =~= s + shorter);
        assert((p.last() + shorter).push(more.last()) =~= p.last() + more);
        assert(pieces(s + more, sep) =~= p.update(p.len() - 1, p.last() + more));
    }
}

/// Parts that do not hold the separator come back when the text in which
/// each is followed by the separator is split: the parts, then one empty
/// piece after the last separator.
pub proof fn lemma_pieces_of_terminated(parts: Seq<Seq<char>>, sep: char)
    requires
        forall|i: int| 0 <= i < parts.len() ==> !(#[trigger] parts[i]).contains(sep),
    ensures
        pieces(terminated(parts, sep), sep) == parts.push(Seq::<char>::empty()),
    decreases parts.len(),
{
    if parts.len() == 0 {
        assert(pieces(terminated(parts, sep), sep) =~= parts.push(Seq::<char>::empty()));
    } else {
        let before = parts.drop_last();
        lemma_pieces_of_terminated(before, sep);
        assert(!parts[parts.len() - 1].contains(sep));
        lemma_pieces_append(terminated(before, sep), parts.last(), sep);
        lemma_pieces_push_sep(terminated(before, sep) + parts.last(), sep);
        assert(Seq::<char>::empty() + parts.last() =~= parts.last());
        assert(pieces(terminated(parts, sep), sep) =~= parts.push(Seq::<char>::empty()));
    }
}

/// Text without a line feed, put at the end, is not touched when line ends
/// are normalised.
pub proof fn lemma_unix_newlines_append(s: Seq<char>, more: Seq<char>)
    requires
        !more.contains('\n'),
    ensures
        unix_newlines(s + more) == unix_newlines(s) + more,
    decreases more.len(),
{
    if more.len() == 0 {
        assert(s + more =~= s);
        assert(unix_newlines(s) + more =~= unix_newlines(s));
    } else {
        let shorter = more.drop_last();
        assert(!shorter.contains('\n')) by {
            if shorter.contains('\n') {
                let j = choose|j: int| 0 <= j < shorter.len() && shorter[j] == '\n';
                assert(more[j] == '\n');
            }
        }
        assert(more.last() != '\n') by {
            assert(more[more.len() - 1] == more.last());
        }
        lemma_unix_newlines_append(s, shorter);
        assert((s + more).drop_last() =~= s + shorter);
        assert(unix_newlines(s + more) =~= unix_newlines(s) + more);
    }
}

/// Lines that hold no line feed and do not end with a carriage return make
/// a text that is already in normal form.
pub proof fn lemma_unix_newlines_of_terminated(lines: Seq<Seq<char>>)
    requires
        forall|i: int| 0 <= i < lines.len() ==> !(#[trigger] lines[i]).contains('\n'),
        forall|i: int|
            0 <= i < lines.len() && (#[trigger] lines[i]).len() > 0 ==> lines[i].last() != '\r',
    ensures
        unix_newlines(terminated(lines, '\n')) == terminated(lines, '\n'),
    decreases lines.len(),
{
    if lines.len() > 0 {
        let before = lines.drop_last();
        let head = terminated(before, '\n');
        let line = lines.last();
        lemma_unix_newlines_of_terminated(before);
        assert(!lines[lines.len() - 1].contains('\n'));
        lemma_unix_newlines_append(head, line);
        let body = head + line;
        assert(body.push('\n').drop_last() =~= body);
        if body.len() > 0 {
            if line.len() > 0 {
                assert(lines[lines.len() - 1].last() != '\r');
                assert(body.last() == line.last());
            } else {
                assert(body =~= head);
                assert(before.len() > 0);
                assert(head.last() == '\n');
            }
            assert(body.push('\n')[body.push('\n').len() - 2] == body.last());
        }
    }
}

proof fn lemma_trimmed_start_chars(s: Seq<char>, c: char)
    requires
        trimmed_start(s).contains(c),
    ensures
        s.contains(c),
    decreases s.len(),
{
    if s.len() > 0 && is_whitespace(s.first()) {
        lemma_trimmed_start_chars(s.drop_first(), c);
        let j = choose|j: int| 0 <= j < s.drop_first().len() && s.drop_first()[j] == c;
        assert(s[j + 1] == c);
    }
}

proof fn lemma_trimmed_end_chars(s: Seq<char>, c: char)
    requires
        trimmed_end(s).contains(c),
    ensures
        s.contains(c),
    decreases s.len(),
{
    if s.len() > 0 && is_whitespace(s.last()) {
        lemma_trimmed_end_chars(s.drop_last(), c);
        let j = choose|j: int| 0 <= j < s.drop_last().len() && s.drop_last()[j] == c;
        assert(s[j] == c);
    }
}

/// Trimming brings in no character: what is in the trimmed string was in
/// the string.
pub proof fn lemma_trimmed_chars(s: Seq<char>, c: char)
    requires
        trimmed(s).contains(c),
    ensures
        s.contains(c),
{
    lemma_trimmed_end_chars(trimmed_start(s), c);
    lemma_trimmed_start_chars(s, c);
}

/// The lines, each with a carriage return at its end.
pub open spec fn with_carriage_returns(lines: Seq<Seq<char>>) -> Seq<Seq<char>> {
    Seq::new(lines.len(), |i: int| lines[i].push('\r'))
}

/// A text whose lines end with CRLF becomes, in normal form, the text
/// whose lines end with LF.
pub proof fn lemma_unix_newlines_of_crlf(lines: Seq<Seq<char>>)
    requires
        forall|i: int| 0 <= i < lines.len() ==> !(#[trigger] lines[i]).contains('\n'),
    ensures
        unix_newlines(terminated(with_carriage_returns(lines), '\n')) == terminated(lines, '\n'),
    decreases lines.len(),
{
    if lines.len() > 0 {
        let before = lines.drop_last();
        let line = lines.last();
        lemma_unix_newlines_of_crlf(before);
        assert(with_carriage_returns(lines).drop_last() =~= with_carriage_returns(before));
        let head = terminated(with_carriage_returns(before), '\n');
        let whole = (head + line.push('\r')).push('\n');
        assert(terminated(with_carriage_returns(lines), '\n') == whole);
        assert(whole.take(whole.len() - 2) =~= head + line);
        assert(!lines[lines.len() - 1].contains('\n'));
        lemma_unix_newlines_append(head, line);
    }
}

} // verus!
