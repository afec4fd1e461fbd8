//! Move notation: writing a native move, and the form in which two ways of
//! writing one play are the same text.

use vstd::prelude::*;

use crate::order::{sort, sorted};
use crate::text::{
    ascii_lower, decimal, decimal_text, join, joined, lower_char, split_words, views, words,
};

verus! {

/// The starting point of a checker that enters from the bar.
pub const BAR_TOKEN: &'static str = "bar";

/// The end point of a checker that is borne off.
pub const OFF_TOKEN: &'static str = "off";

/// Native moves number points from 0, with the bar at 24; a negative end point
/// is off the board, and a negative starting point ends the move.
pub const AN_MOVE_BAR: i32 = 24;

/// How the point that a checker leaves is written.
pub open spec fn from_text(from: i32) -> Seq<char> {
    if from == AN_MOVE_BAR {
        BAR_TOKEN@
    } else {
        decimal((from + 1) as nat)
    }
}

/// How the point that a checker reaches is written.
pub open spec fn to_text(to: i32) -> Seq<char> {
    if to < 0 {
        OFF_TOKEN@
    } else {
        decimal((to + 1) as nat)
    }
}

/// How one hop is written.
pub open spec fn hop_text(from: i32, to: i32) -> Seq<char> {
    from_text(from).push('/') + to_text(to)
}

/// The hops of a native move, pair by pair up to the first that starts at a
/// negative point, as they are written.
pub open spec fn hop_texts(an_move: Seq<i32>) -> Seq<Seq<char>>
    decreases an_move.len(),
{
    if an_move.len() < 2 || an_move[0] < 0 {
        Seq::empty()
    } else {
        seq![hop_text(an_move[0], an_move[1])] + hop_texts(an_move.skip(2))
    }
}

/// Whether every point of the move's hops has a successor among the `i32`s, so
/// that it can be numbered from 1.
pub open spec fn numbered(an_move: Seq<i32>) -> bool {
    forall|i: int|
        0 <= i < 2 * hop_texts(an_move).len() ==> #[trigger] an_move[i] < i32::MAX
}

/// A native move in notation: its hops with one space between neighbours.
pub open spec fn notation(an_move: Seq<i32>) -> Seq<char> {
    joined(hop_texts(an_move))
}

/// Decides [`numbered`].
pub fn is_numbered(an_move: &[i32]) -> (writable: bool)
    ensures
        writable == numbered(an_move@),
{
    let mut i: usize = 0;
    assert(an_move@.skip(0) =~= an_move@);
    while an_move.len() - i >= 2 && an_move[i] >= 0
        invariant
            i <= an_move@.len(),
            i + 2 * hop_texts(an_move@.skip(i as int)).len() == 2 * hop_texts(an_move@).len(),
            forall|k: int| 0 <= k < i ==> an_move@[k] < i32::MAX,
        decreases an_move@.len() - i,
    {
        assert(an_move@.skip(i as int).skip(2) =~= an_move@.skip(i + 2));
        if an_move[i] == i32::MAX || an_move[i + 1] == i32::MAX {
            assert(an_move@[i as int] == i32::MAX || an_move@[i + 1] == i32::MAX);
            return false;
        }
        i = i + 2;
    }
    true
}

/// Writes a native move in [`notation`]: plain `from/to` hops with points
/// numbered from 1, and `bar` and `off` in lower case.
pub fn notation_from_an_move(an_move: &[i32]) -> (text: String)
    requires
        numbered(an_move@),
    ensures
        text@ == notation(an_move@),
{
    let mut parts: Vec<String> = Vec::new();
    let mut i: usize = 0;
    assert(an_move@.skip(0) =~= an_move@);
    assert(views(parts@) + hop_texts(an_move@) =~= hop_texts(an_move@));
    while an_move.len() - i >= 2 && an_move[i] >= 0
        invariant
            i <= an_move@.len(),
            numbered(an_move@),
            i == 2 * parts@.len(),
            views(parts@) + hop_texts(an_move@.skip(i as int)) == hop_texts(an_move@),
        decreases an_move@.len() - i,
    {
        let from = an_move[i];
        let to = an_move[i + 1];
        let ghost here = an_move@.skip(i as int);
        let ghost done = views(parts@);
        assert(here.skip(2) =~= an_move@.skip(i + 2));
        assert(hop_texts(an_move@).len() == done.len() + 1 + hop_texts(here.skip(2)).len());
        assert(an_move@[i as int] < i32::MAX);
        assert(an_move@[i + 1] < i32::MAX);
        let mut part = if from == AN_MOVE_BAR {
            BAR_TOKEN.to_owned()
        } else {
            decimal_text((from + 1) as u64)
        };
        part.push('/');
        let end = if to < 0 {
            OFF_TOKEN.to_owned()
        } else {
            decimal_text((to + 1) as u64)
        };
        part.append(end.as_str());
        parts.push(part);
        assert(views(parts@) =~= done.push(hop_text(from, to)));
        assert(done.push(hop_text(from, to)) + hop_texts(here.skip(2)) =~= done + (seq![
            hop_text(from, to),
        ] + hop_texts(here.skip(2))));
        i = i + 2;
    }
    assert(hop_texts(an_move@.skip(i as int)) =~= Seq::<Seq<char>>::empty());
    assert(views(parts@) =~= hop_texts(an_move@));
    join(&parts)
}

/// A word without its hit stars, in lower case.
pub open spec fn plain_word(word: Seq<char>) -> Seq<char> {
    word.filter(|c: char| c != '*').map_values(|c: char| ascii_lower(c))
}

/// The words of a text, each made plain.
pub open spec fn plain_words(text: Seq<char>) -> Seq<Seq<char>> {
    words(text).map_values(|word: Seq<char>| plain_word(word))
}

/// The form in which moves are matched: the plain words in ascending order,
/// with one space between neighbours.
pub open spec fn normalized(text: Seq<char>) -> Seq<char> {
    joined(sorted(plain_words(text)))
}

/// Makes one word plain.
fn make_plain(word: &Vec<char>) -> (text: String)
    ensures
        text@ == plain_word(word@),
{
    let mut text = String::new();
    let mut i: usize = 0;
    let ghost keep = |c: char| c != '*';
    let ghost lower = |c: char| ascii_lower(c);
    assert(word@.take(0).filter(keep).map_values(lower) =~= Seq::<char>::empty()) by {
        reveal(Seq::filter);
    }
    while i < word.len()
        invariant
            i <= word@.len(),
            keep == (|c: char| c != '*'),
            lower == (|c: char| ascii_lower(c)),
            text@ == word@.take(i as int).filter(keep).map_values(lower),
        decreases word@.len() - i,
    {
        let c = word[i];
        proof {
            reveal(Seq::filter);
            assert(word@.take(i + 1).drop_last() =~= word@.take(i as int));
            if c != '*' {
                let kept = word@.take(i as int).filter(keep);
                assert(kept.push(c).map_values(lower) =~= kept.map_values(lower).push(lower(c)));
            }
        }
        if c != '*' {
            text.push(lower_char(c));
        }
        i = i + 1;
    }
    assert(word@.take(i as int) =~= word@);
    text
}

/// Brings a move's notation into its [`normalized`] form: lower case, without
/// hit stars, hops in ascending order. The order of the hops, the letters' case
/// and the stars do not tell plays apart.
pub fn normalize_notation(notation: &str) -> (text: String)
    ensures
        text@ == normalized(notation@),
{
    let raw = split_words(notation);
    let mut tokens: Vec<String> = Vec::new();
    let mut i: usize = 0;
    let ghost found = raw@.map_values(|part: Vec<char>| part@);
    while i < raw.len()
        invariant
            i <= raw@.len(),
            found == raw@.map_values(|part: Vec<char>| part@),
            views(tokens@) == found.take(i as int).map_values(|word: Seq<char>| plain_word(word)),
        decreases raw@.len() - i,
    {
        let ghost before = views(tokens@);
        tokens.push(make_plain(&raw[i]));
        assert(views(tokens@) =~= before.push(plain_word(found[i as int])));
        assert(found.take(i + 1) =~= found.take(i as int).push(found[i as int]));
        assert(found.take(i + 1).map_values(|word: Seq<char>| plain_word(word)) =~= before.push(
            plain_word(found[i as int]),
        ));
        i = i + 1;
    }
    assert(found.take(i as int) =~= found);
    assert(views(tokens@) =~= plain_words(notation@));
    let ordered = sort(tokens);
    join(&ordered)
}

} // verus!
