//! Lists of patterns and the comma-separated text in which the user edits
//! them.

use crate::text::{
    chars_of, is_blank, pieces, push_line, split, terminate_all, terminated, trim, views_of,
};
use crate::text_laws::{lemma_join_pieces, lemma_pieces_of_terminated};
use vstd::prelude::*;

verus! {

/// The parts that are not blank, in their order.
pub open spec fn non_blank(parts: Seq<Seq<char>>) -> Seq<Seq<char>>
    decreases parts.len(),
{
    if parts.len() == 0 {
        parts
    } else if is_blank(parts.last()) {
        non_blank(parts.drop_last())
    } else {
        non_blank(parts.drop_last()).push(parts.last())
    }
}

/// The patterns in a comma-separated text: the pieces between commas, as
/// they stand, without those that are empty or all white space.
pub open spec fn items_of(text: Seq<char>) -> Seq<Seq<char>> {
    non_blank(pieces(text, ','))
}

/// The comma-separated text of a list of patterns: each pattern is followed
/// by a comma.
pub open spec fn items_text(items: Seq<Seq<char>>) -> Seq<char> {
    terminated(items, ',')
}

/// What holds of every list of patterns that is kept: no entry is blank,
/// and none holds a comma.
pub open spec fn is_item_list(items: Seq<Seq<char>>) -> bool {
    forall|i: int|
        0 <= i < items.len() ==> !is_blank(#[trigger] items[i]) && !items[i].contains(',')
}

/// Splits a comma-separated text into its patterns.
pub fn split_items(text: &str) -> (items: Vec<String>)
    ensures
        items.deep_view() == items_of(text@),
        is_item_list(items.deep_view()),
{
    proof {
        lemma_items_are_patterns(text@);
    }
    let parts = split(&chars_of(text), ',');
    let mut items: Vec<String> = Vec::new();
    let mut i: usize = 0;
    proof {
        assert(items.deep_view() =~= Seq::empty());
    }
    while i < parts.len()
        invariant
            i <= parts.len(),
            items.deep_view() == non_blank(views_of(parts@).take(i as int)),
        decreases parts.len() - i,
    {
        proof {
            assert(views_of(parts@).take(i + 1).drop_last() =~= views_of(parts@).take(i as int));
        }
        if trim(&parts[i]).len() > 0 {
            push_line(&mut items, &parts[i]);
        }
        i += 1;
    }
    proof {
        assert(views_of(parts@).take(parts.len() as int) =~= views_of(parts@));
    }
    items
}

/// Joins patterns into the comma-separated text in which they are edited.
pub fn join_items(items: &Vec<String>) -> (text: String)
    ensures
        text@ == items_text(items.deep_view()),
{
    terminate_all(items, ',')
}

/// Patterns joined into a comma-separated text come back when the text is
/// split.
pub proof fn lemma_items_of_items_text(items: Seq<Seq<char>>)
    requires
        is_item_list(items),
    ensures
        items_of(items_text(items)) == items,
{
    lemma_pieces_of_terminated(items, ',');
    let all = items.push(Seq::<char>::empty());
    assert(all.drop_last() =~= items);
    lemma_non_blank_all(items);
}

proof fn lemma_non_blank_all(items: Seq<Seq<char>>)
    requires
        forall|i: int| 0 <= i < items.len() ==> !is_blank(#[trigger] items[i]),
    ensures
        non_blank(items) == items,
    decreases items.len(),
{
    if items.len() > 0 {
        lemma_non_blank_all(items.drop_last());
        assert(!is_blank(items[items.len() - 1]));
        assert(items.drop_last().push(items.last()) =~= items);
    }
}

proof fn lemma_non_blank_members(parts: Seq<Seq<char>>, i: int)
    requires
        0 <= i < non_blank(parts).len(),
    ensures
        !is_blank(non_blank(parts)[i]),
        exists|j: int| 0 <= j < parts.len() && parts[j] == non_blank(parts)[i],
    decreases parts.len(),
{
    if parts.len() > 0 {
        let front = parts.drop_last();
        if i < non_blank(front).len() {
            lemma_non_blank_members(front, i);
            let j = choose|j: int| 0 <= j < front.len() && front[j] == non_blank(front)[i];
            assert(parts[j] == non_blank(parts)[i]);
        } else {
            assert(parts[parts.len() - 1] == non_blank(parts)[i]);
        }
    }
}

/// No pattern taken from a comma-separated text is blank, and none holds a
/// comma.
pub proof fn lemma_items_are_patterns(text: Seq<char>)
    ensures
        is_item_list(items_of(text)),
{
    let parts = pieces(text, ',');
    assert forall|i: int| 0 <= i < items_of(text).len() implies !is_blank(
        #[trigger] items_of(text)[i],
    ) && !items_of(text)[i].contains(',') by {
        lemma_non_blank_members(parts, i);
        lemma_join_pieces(text, ',');
        let j = choose|j: int| 0 <= j < parts.len() && parts[j] == non_blank(parts)[i];
        assert(!parts[j].contains(','));
    }
}

} // verus!
