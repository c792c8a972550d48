//! Splitting a text on single spaces, as a matter of character sequences.
//!
//! Splitting is literal. Every space ends one piece and begins the next, so
//! two spaces in a row enclose an empty piece, a leading or trailing space
//! yields an empty first or last piece, and a text with `n` spaces always
//! falls into `n + 1` pieces.

use vstd::prelude::*;

verus! {

/// Position of the first space in `text`, or the length of `text` where it has none.
pub open spec fn first_space(text: Seq<char>) -> int
    decreases text.len(),
{
    if text.len() == 0 || text.first() == ' ' {
        0
    } else {
        1 + first_space(text.drop_first())
    }
}

/// The pieces into which the spaces of `text` cut it, in order.
pub open spec fn space_separated(text: Seq<char>) -> Seq<Seq<char>>
    decreases text.len(),
{
    let cut = first_space(text);
    if 0 <= cut < text.len() {
        seq![text.take(cut)] + space_separated(text.skip(cut + 1))
    } else {
        seq![text]
    }
}

/// `pieces` written out one after another with a single space between neighbours.
pub open spec fn joined_by_spaces(pieces: Seq<Seq<char>>) -> Seq<char>
    decreases pieces.len(),
{
    if pieces.len() == 0 {
        Seq::empty()
    } else if pieces.len() == 1 {
        pieces[0]
    } else {
        pieces[0] + seq![' '] + joined_by_spaces(pieces.drop_first())
    }
}

/// No character of `piece` is a space.
pub open spec fn has_no_space(piece: Seq<char>) -> bool {
    forall|k: int| 0 <= k < piece.len() ==> #[trigger] piece[k] != ' '
}

/// Splitting loses nothing: there is always at least one piece, and the
/// pieces put together again with single spaces are the text.
pub proof fn law_pieces_rejoin(text: Seq<char>)
    ensures
        space_separated(text).len() >= 1,
        joined_by_spaces(space_separated(text)) == text,
    decreases text.len(),
{
    let cut = first_space(text);
    lemma_first_space(text);
    if cut < text.len() {
        let rest = text.skip(cut + 1);
        law_pieces_rejoin(rest);
        let pieces = space_separated(text);
        assert(pieces.drop_first() =~= space_separated(rest));
    }
}

/// Splitting cuts at every space: no piece holds one.
pub proof fn law_pieces_hold_no_space(text: Seq<char>)
    ensures
        forall|i: int|
            0 <= i < space_separated(text).len() ==> has_no_space(
                #[trigger] space_separated(text)[i],
            ),
    decreases text.len(),
{
    let cut = first_space(text);
    lemma_first_space(text);
    if cut < text.len() {
        let rest = text.skip(cut + 1);
        law_pieces_hold_no_space(rest);
        let pieces = space_separated(text);
        assert forall|i: int| 0 <= i < pieces.len() implies has_no_space(#[trigger] pieces[i]) by {
            if i > 0 {
                assert(pieces[i] == space_separated(rest)[i - 1]);
            }
        }
    }
}

/// The two laws above leave no choice. A non-empty list of pieces without
/// spaces that gives `text` when joined by single spaces is the list into
/// which `text` is split.
pub proof fn law_split_is_unique(text: Seq<char>, pieces: Seq<Seq<char>>)
    requires
        pieces.len() >= 1,
        forall|i: int| 0 <= i < pieces.len() ==> has_no_space(#[trigger] pieces[i]),
        joined_by_spaces(pieces) == text,
    ensures
        space_separated(text) == pieces,
    decreases pieces.len(),
{
    let head = pieces[0];
    if pieces.len() == 1 {
        lemma_first_space_is(text, text.len() as int);
    } else {
        // The text is the first piece, a space, and the other pieces joined:
        // the first space stands right behind the first piece.
        let others = pieces.drop_first();
        let rest = joined_by_spaces(others);
        let cut = head.len() as int;
        lemma_first_space_is(text, cut);
        assert(text.take(cut) =~= head);
        assert(text.skip(cut + 1) =~= rest);
        law_split_is_unique(rest, others);
    }
}

/// A text with `n` spaces falls into `n + 1` pieces.
pub proof fn law_piece_count(text: Seq<char>)
    ensures
        space_separated(text).len() == text.filter(|c: char| c == ' ').len() + 1,
    decreases text.len(),
{
    reveal_with_fuel(Seq::filter, 1);
    if text.len() > 0 {
        let front = text.drop_last();
        law_piece_count(front);
        assert(front.push(text.last()) =~= text);
        lemma_space_separated_push(front, text.last());
        front.lemma_filter_push(text.last(), |c: char| c == ' ');
    }
}

/// `first_space` is what its name says: nothing before it is a space, and it
/// points at a space unless the text has none.
pub proof fn lemma_first_space(text: Seq<char>)
    ensures
        0 <= first_space(text) <= text.len(),
        forall|k: int| 0 <= k < first_space(text) ==> #[trigger] text[k] != ' ',
        first_space(text) < text.len() ==> text[first_space(text)] == ' ',
    decreases text.len(),
{
    if text.len() > 0 && text.first() != ' ' {
        let rest = text.drop_first();
        lemma_first_space(rest);
        assert forall|k: int| 0 <= k < first_space(text) implies #[trigger] text[k] != ' ' by {
            if k > 0 {
                assert(text[k] == rest[k - 1]);
            }
        }
    }
}

/// Any position that has no space before it and is the end of the text or a
/// space is the first space.
pub proof fn lemma_first_space_is(text: Seq<char>, cut: int)
    requires
        0 <= cut <= text.len(),
        forall|k: int| 0 <= k < cut ==> #[trigger] text[k] != ' ',
        cut < text.len() ==> text[cut] == ' ',
    ensures
        first_space(text) == cut,
{
    lemma_first_space(text);
}

/// One more character at the end of a text either opens a new, empty piece
/// (a space) or lengthens the last piece (anything else).
pub proof fn lemma_space_separated_push(text: Seq<char>, c: char)
    ensures
        space_separated(text).len() >= 1,
        space_separated(text.push(c)) == if c == ' ' {
            space_separated(text).push(Seq::empty())
        } else {
            space_separated(text).drop_last().push(space_separated(text).last().push(c))
        },
    decreases text.len(),
{
    let longer = text.push(c);
    let cut = first_space(text);
    lemma_first_space(text);
    if cut < text.len() {
        let rest = text.skip(cut + 1);
        lemma_first_space_is(longer, cut);
        assert(longer.take(cut) =~= text.take(cut));
        assert(longer.skip(cut + 1) =~= rest.push(c));
        lemma_space_separated_push(rest, c);
    } else if c == ' ' {
        lemma_first_space_is(longer, cut);
        assert(longer.take(cut) =~= text);
        assert(longer.skip(cut + 1) =~= Seq::<char>::empty());
        assert(space_separated(Seq::<char>::empty()) =~= seq![Seq::<char>::empty()]);
    } else {
        lemma_first_space_is(longer, cut + 1);
    }
}

} // verus!
