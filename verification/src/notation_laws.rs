//! What holds of move notation as a whole: the written form of a move is
//! already plain, and matching by the normalized form is matching of the hops,
//! each as often, whatever their order, their letters' case and their stars.

use vstd::prelude::*;

use crate::notation::{
    from_text, hop_text, hop_texts, normalized, notation, numbered, plain_word, plain_words,
    to_text, AN_MOVE_BAR, BAR_TOKEN, OFF_TOKEN,
};
use crate::order::{
    ascending, lemma_ascending_unique, lemma_sorted, lemma_sorted_order_free, sorted, text_le,
};
use crate::text::{
    ascii_lower, decimal, digit, joined, lemma_word_len, lower_case, signed_decimal, white_space, word_len, words,
};

verus! {

/// Whether a text is a word: not empty, and without white space.
pub open spec fn is_word(text: Seq<char>) -> bool {
    &&& text.len() > 0
    &&& forall|i: int| 0 <= i < text.len() ==> !white_space(#[trigger] text[i])
}

/// Whether no word of the text consists of stars alone.
pub open spec fn no_bare_stars(text: Seq<char>) -> bool {
    forall|i: int| 0 <= i < words(text).len() ==> plain_word(#[trigger] words(text)[i]).len() > 0
}

proof fn lemma_word_len_exact(text: Seq<char>, n: int)
    requires
        0 <= n <= text.len(),
        forall|i: int| 0 <= i < n ==> !white_space(#[trigger] text[i]),
        n == text.len() || white_space(text[n]),
    ensures
        word_len(text) == n,
    decreases text.len(),
{
    if n > 0 {
        let rest = text.drop_first();
        assert forall|i: int| 0 <= i < n - 1 implies !white_space(#[trigger] rest[i]) by {
            assert(rest[i] == text[i + 1]);
        }
        lemma_word_len_exact(rest, n - 1);
    }
}

/// A word in front of nothing or of white space is the first word.
proof fn lemma_words_front(word: Seq<char>, rest: Seq<char>)
    requires
        is_word(word),
        rest.len() == 0 || white_space(rest[0]),
    ensures
        words(word + rest) == seq![word] + words(rest),
{
    let text = word + rest;
    assert forall|i: int| 0 <= i < word.len() implies !white_space(#[trigger] text[i]) by {
        assert(text[i] == word[i]);
    }
    if rest.len() > 0 {
        assert(text[word.len() as int] == rest[0]);
    }
    lemma_word_len_exact(text, word.len() as int);
    assert(!white_space(text[0]));
    assert(text.take(word.len() as int) =~= word);
    assert(text.skip(word.len() as int) =~= rest);
}

proof fn lemma_joined_front(parts: Seq<Seq<char>>)
    requires
        parts.len() >= 2,
    ensures
        joined(parts) == parts[0].push(' ') + joined(parts.drop_first()),
    decreases parts.len(),
{
    let tail = parts.drop_first();
    if parts.len() == 2 {
        assert(joined(parts.drop_last()) == parts[0]);
        assert(joined(tail) == parts[1]);
    } else {
        let init = parts.drop_last();
        lemma_joined_front(init);
        assert(init.drop_first() =~= tail.drop_last());
        assert(joined(tail) == joined(tail.drop_last()).push(' ') + tail.last());
        assert(joined(parts) =~= parts[0].push(' ') + joined(tail));
    }
}

/// Splitting undoes joining, for parts that are words.
pub proof fn lemma_words_joined(parts: Seq<Seq<char>>)
    requires
        forall|i: int| 0 <= i < parts.len() ==> is_word(#[trigger] parts[i]),
    ensures
        words(joined(parts)) == parts,
    decreases parts.len(),
{
    if parts.len() == 0 {
        assert(words(joined(parts)) =~= parts);
    } else if parts.len() == 1 {
        lemma_words_front(parts[0], Seq::empty());
        assert(parts[0] + Seq::<char>::empty() =~= parts[0]);
        assert(words(Seq::<char>::empty()) =~= Seq::<Seq<char>>::empty());
        assert(words(joined(parts)) =~= parts);
    } else {
        let tail = parts.drop_first();
        lemma_joined_front(parts);
        assert forall|i: int| 0 <= i < tail.len() implies is_word(#[trigger] tail[i]) by {
            assert(tail[i] == parts[i + 1]);
        }
        lemma_words_joined(tail);
        let rest = seq![' '] + joined(tail);
        assert(parts[0].push(' ') + joined(tail) =~= parts[0] + rest);
        lemma_words_front(parts[0], rest);
        assert(rest.drop_first() =~= joined(tail));
        assert(words(joined(parts)) =~= parts);
    }
}

/// Every word of a text is a word.
proof fn lemma_words_are_words(text: Seq<char>)
    ensures
        forall|i: int| 0 <= i < words(text).len() ==> is_word(#[trigger] words(text)[i]),
    decreases text.len(),
{
    if text.len() != 0 {
        if white_space(text[0]) {
            lemma_words_are_words(text.drop_first());
            assert(words(text) == words(text.drop_first()));
        } else {
            lemma_word_len(text);
            let n = word_len(text) as int;
            lemma_words_are_words(text.skip(n));
            let first = text.take(n);
            assert(first.len() > 0);
            assert forall|i: int| 0 <= i < first.len() implies !white_space(#[trigger] first[i]) by {
                assert(first[i] == text[i]);
            }
            assert forall|i: int| 0 <= i < words(text).len() implies is_word(
                #[trigger] words(text)[i],
            ) by {
                if i > 0 {
                    assert(words(text)[i] == words(text.skip(n))[i - 1]);
                } else {
                    assert(words(text)[0] == first);
                }
            }
        }
    }
}

/// Whether a character is left as it is when a word is made plain.
pub open spec fn is_plain(c: char) -> bool {
    c != '*' && !('A' <= c && c <= 'Z')
}

proof fn lemma_plain_word_fixed(word: Seq<char>)
    requires
        forall|i: int| 0 <= i < word.len() ==> is_plain(#[trigger] word[i]),
    ensures
        plain_word(word) == word,
{
    let keep = |c: char| c != '*';
    lemma_filter_all(word, keep);
    assert(word.map_values(|c: char| ascii_lower(c)) =~= word);
}

proof fn lemma_filter_all(text: Seq<char>, keep: spec_fn(char) -> bool)
    requires
        forall|i: int| 0 <= i < text.len() ==> keep(#[trigger] text[i]),
    ensures
        text.filter(keep) == text,
    decreases text.len(),
{
    reveal(Seq::filter);
    if text.len() > 0 {
        let init = text.drop_last();
        assert forall|i: int| 0 <= i < init.len() implies keep(#[trigger] init[i]) by {
            assert(init[i] == text[i]);
        }
        lemma_filter_all(init, keep);
        assert(text =~= init.push(text.last()));
    } else {
        assert(text.filter(keep) =~= text);
    }
}

/// What is left of a filtered text satisfies the filter and stood in the text.
proof fn lemma_filter_kept(text: Seq<char>, keep: spec_fn(char) -> bool)
    ensures
        forall|i: int|
            0 <= i < text.filter(keep).len() ==> keep(#[trigger] text.filter(keep)[i])
                && text.contains(text.filter(keep)[i]),
    decreases text.len(),
{
    reveal(Seq::filter);
    if text.len() > 0 {
        let init = text.drop_last();
        lemma_filter_kept(init, keep);
        assert forall|i: int| 0 <= i < text.filter(keep).len() implies keep(
            #[trigger] text.filter(keep)[i],
        ) && text.contains(text.filter(keep)[i]) by {
            if i < init.filter(keep).len() {
                assert(text.filter(keep)[i] == init.filter(keep)[i]);
                let j = choose|j: int| 0 <= j < init.len() && init[j] == init.filter(keep)[i];
                assert(text[j] == init.filter(keep)[i]);
            } else {
                assert(text.filter(keep)[i] == text[text.len() - 1]);
            }
        }
    }
}

/// A plain word holds no star, no capital and no white space of its own.
proof fn lemma_plain_word(word: Seq<char>)
    ensures
        forall|i: int| 0 <= i < plain_word(word).len() ==> is_plain(#[trigger] plain_word(word)[i]),
        is_word(word) && plain_word(word).len() > 0 ==> is_word(plain_word(word)),
        plain_word(plain_word(word)) == plain_word(word),
{
    let keep = |c: char| c != '*';
    let kept = word.filter(keep);
    lemma_filter_kept(word, keep);
    let out = plain_word(word);
    assert forall|i: int| 0 <= i < out.len() implies is_plain(#[trigger] out[i]) by {
        assert(keep(kept[i]));
        assert(out[i] == ascii_lower(kept[i]));
    }
    if is_word(word) && out.len() > 0 {
        assert forall|i: int| 0 <= i < out.len() implies !white_space(#[trigger] out[i]) by {
            assert(word.contains(kept[i]));
            assert(out[i] == ascii_lower(kept[i]));
        }
    }
    lemma_plain_word_fixed(out);
}

proof fn lemma_decimal(n: nat)
    ensures
        decimal(n).len() > 0,
        forall|i: int| 0 <= i < decimal(n).len() ==> '0' <= #[trigger] decimal(n)[i] <= '9',
    decreases n,
{
    if n >= 10 {
        lemma_decimal(n / 10);
    }
}

/// Different numbers have different numerals.
pub proof fn lemma_decimal_injective(a: nat, b: nat)
    requires
        decimal(a) == decimal(b),
    ensures
        a == b,
    decreases a,
{
    lemma_decimal(a / 10);
    lemma_decimal(b / 10);
    assert(decimal(a).last() == digit((a % 10) as int));
    assert(decimal(b).last() == digit((b % 10) as int));
    if a >= 10 && b >= 10 {
        assert(decimal(a).drop_last() =~= decimal(a / 10));
        assert(decimal(b).drop_last() =~= decimal(b / 10));
        lemma_decimal_injective(a / 10, b / 10);
    } else if a >= 10 {
        assert(decimal(a).len() > 1);
    } else if b >= 10 {
        assert(decimal(b).len() > 1);
    }
}

/// The hops of a native move as pairs of points, with -1 for every end point
/// that is off the board.
pub open spec fn hops(an_move: Seq<i32>) -> Seq<(i32, i32)>
    decreases an_move.len(),
{
    if an_move.len() < 2 || an_move[0] < 0 {
        Seq::empty()
    } else {
        seq![(an_move[0], if an_move[1] < 0 { -1i32 } else { an_move[1] })] + hops(an_move.skip(2))
    }
}

proof fn lemma_hops(an_move: Seq<i32>)
    ensures
        hop_texts(an_move) == hops(an_move).map_values(|hop: (i32, i32)| hop_text(hop.0, hop.1)),
        forall|i: int|
            0 <= i < hops(an_move).len() ==> (#[trigger] hops(an_move)[i]).0 >= 0
                && hops(an_move)[i].1 >= -1,
    decreases an_move.len(),
{
    let write = |hop: (i32, i32)| hop_text(hop.0, hop.1);
    if an_move.len() < 2 || an_move[0] < 0 {
        assert(hop_texts(an_move) =~= hops(an_move).map_values(write));
    } else {
        lemma_hops(an_move.skip(2));
        assert(hop_texts(an_move) =~= hops(an_move).map_values(write));
    }
}

proof fn lemma_from_text(from: i32)
    requires
        from >= 0,
    ensures
        from_text(from).len() > 0,
        forall|i: int|
            0 <= i < from_text(from).len() ==> is_plain(#[trigger] from_text(from)[i])
                && !white_space(from_text(from)[i]) && from_text(from)[i] != '/',
{
    reveal_strlit("bar");
    lemma_decimal((from + 1) as nat);
}

proof fn lemma_to_text(to: i32)
    ensures
        to_text(to).len() > 0,
        forall|i: int|
            0 <= i < to_text(to).len() ==> is_plain(#[trigger] to_text(to)[i]) && !white_space(
                to_text(to)[i],
            ),
{
    reveal_strlit("off");
    if to >= 0 {
        lemma_decimal((to + 1) as nat);
    }
}

/// A written hop is a word that is already plain.
proof fn lemma_hop_text(from: i32, to: i32)
    requires
        from >= 0,
    ensures
        is_word(hop_text(from, to)),
        plain_word(hop_text(from, to)) == hop_text(from, to),
{
    lemma_from_text(from);
    lemma_to_text(to);
    let text = hop_text(from, to);
    let n = from_text(from).len() as int;
    assert forall|i: int| 0 <= i < text.len() implies is_plain(#[trigger] text[i]) && !white_space(
        text[i],
    ) by {
        if i < n {
            assert(text[i] == from_text(from)[i]);
        } else if i > n {
            assert(text[i] == to_text(to)[i - n - 1]);
        }
    }
    lemma_plain_word_fixed(text);
}

/// A written hop names its points.
proof fn lemma_hop_text_injective(a: (i32, i32), b: (i32, i32))
    requires
        a.0 >= 0,
        b.0 >= 0,
        a.1 >= -1,
        b.1 >= -1,
        hop_text(a.0, a.1) == hop_text(b.0, b.1),
    ensures
        a == b,
{
    lemma_from_text(a.0);
    lemma_from_text(b.0);
    let fa = from_text(a.0);
    let fb = from_text(b.0);
    let ta = to_text(a.1);
    let tb = to_text(b.1);
    let text = hop_text(a.0, a.1);
    assert(text[fa.len() as int] == '/');
    assert(text[fb.len() as int] == '/');
    if fa.len() < fb.len() {
        assert(text[fa.len() as int] == fb[fa.len() as int]);
    } else if fb.len() < fa.len() {
        assert(text[fb.len() as int] == fa[fb.len() as int]);
    }
    assert(fa =~= fb) by {
        assert forall|i: int| 0 <= i < fa.len() implies fa[i] == fb[i] by {
            assert(text[i] == fa[i]);
            assert(text[i] == fb[i]);
        }
    }
    assert(ta =~= tb) by {
        assert(ta.len() == text.len() - fa.len() - 1);
        assert forall|i: int| 0 <= i < ta.len() implies ta[i] == tb[i] by {
            assert(text[fa.len() + 1 + i] == ta[i]);
            assert(text[fb.len() + 1 + i] == tb[i]);
        }
    }
    reveal_strlit("bar");
    reveal_strlit("off");
    let bar = BAR_TOKEN@;
    let off = OFF_TOKEN@;
    assert(bar[0] == 'b');
    assert(off[0] == 'o');
    lemma_decimal((a.0 + 1) as nat);
    lemma_decimal((b.0 + 1) as nat);
    if a.0 != AN_MOVE_BAR && b.0 != AN_MOVE_BAR {
        lemma_decimal_injective((a.0 + 1) as nat, (b.0 + 1) as nat);
    } else {
        assert(fa[0] == fb[0]);
    }
    if a.1 >= 0 {
        lemma_decimal((a.1 + 1) as nat);
    }
    if b.1 >= 0 {
        lemma_decimal((b.1 + 1) as nat);
    }
    if a.1 >= 0 && b.1 >= 0 {
        lemma_decimal_injective((a.1 + 1) as nat, (b.1 + 1) as nat);
    } else {
        assert(ta[0] == tb[0]);
    }
}

/// Mapping keeps equal what is equal up to order.
proof fn lemma_map_multiset<A, B>(a: Seq<A>, b: Seq<A>, f: spec_fn(A) -> B)
    requires
        a.to_multiset() == b.to_multiset(),
    ensures
        a.map_values(f).to_multiset() == b.map_values(f).to_multiset(),
    decreases a.len(),
{
    vstd::seq_lib::to_multiset_len(a);
    vstd::seq_lib::to_multiset_len(b);
    if a.len() == 0 {
        assert(a.map_values(f) =~= b.map_values(f));
    } else {
        let x = a[0];
        assert(a.contains(x));
        vstd::seq_lib::to_multiset_contains(a, x);
        vstd::seq_lib::to_multiset_contains(b, x);
        let j = choose|j: int| 0 <= j < b.len() && b[j] == x;
        vstd::seq_lib::to_multiset_remove(a, 0);
        vstd::seq_lib::to_multiset_remove(b, j);
        lemma_map_multiset(a.remove(0), b.remove(j), f);
        assert(a.map_values(f) =~= a.remove(0).map_values(f).insert(0, f(x)));
        assert(b.map_values(f) =~= b.remove(j).map_values(f).insert(j, f(x)));
        vstd::seq_lib::to_multiset_insert(a.remove(0).map_values(f), 0, f(x));
        vstd::seq_lib::to_multiset_insert(b.remove(j).map_values(f), j, f(x));
    }
}

/// Mapping by an injective function tells apart what is not equal up to order.
proof fn lemma_map_multiset_back<A, B>(a: Seq<A>, b: Seq<A>, f: spec_fn(A) -> B)
    requires
        a.map_values(f).to_multiset() == b.map_values(f).to_multiset(),
        forall|i: int, j: int|
            0 <= i < a.len() && 0 <= j < b.len() && f(#[trigger] a[i]) == f(#[trigger] b[j])
                ==> a[i] == b[j],
    ensures
        a.to_multiset() == b.to_multiset(),
    decreases a.len(),
{
    let fa = a.map_values(f);
    let fb = b.map_values(f);
    vstd::seq_lib::to_multiset_len(fa);
    vstd::seq_lib::to_multiset_len(fb);
    if a.len() == 0 {
        assert(a =~= b);
    } else {
        let x = a[0];
        assert(fa[0] == f(x));
        assert(fa.contains(f(x)));
        vstd::seq_lib::to_multiset_contains(fa, f(x));
        vstd::seq_lib::to_multiset_contains(fb, f(x));
        let j = choose|j: int| 0 <= j < fb.len() && fb[j] == f(x);
        assert(b[j] == x);
        vstd::seq_lib::to_multiset_remove(fa, 0);
        vstd::seq_lib::to_multiset_remove(fb, j);
        assert(a.remove(0).map_values(f) =~= fa.remove(0));
        assert(b.remove(j).map_values(f) =~= fb.remove(j));
        let ra = a.remove(0);
        let rb = b.remove(j);
        assert forall|i: int, k: int|
            0 <= i < ra.len() && 0 <= k < rb.len() && f(#[trigger] ra[i]) == f(#[trigger] rb[k])
                implies ra[i] == rb[k] by {
            let bk = if k < j { k } else { k + 1 };
            assert(ra[i] == a[i + 1]);
            assert(rb[k] == b[bk]);
        }
        lemma_map_multiset_back(ra, rb, f);
        assert(a =~= ra.insert(0, x));
        assert(b =~= rb.insert(j, x));
        vstd::seq_lib::to_multiset_insert(ra, 0, x);
        vstd::seq_lib::to_multiset_insert(rb, j, x);
    }
}

/// The notation of a move is already in plain words: splitting it gives the
/// hops back, and making them plain changes none of them.
pub proof fn law_notation_is_plain(an_move: Seq<i32>)
    ensures
        words(notation(an_move)) == hop_texts(an_move),
        plain_words(notation(an_move)) == hop_texts(an_move),
        no_bare_stars(notation(an_move)),
{
    let texts = hop_texts(an_move);
    lemma_hops(an_move);
    assert forall|i: int| 0 <= i < texts.len() implies is_word(#[trigger] texts[i]) && plain_word(
        texts[i],
    ) == texts[i] by {
        let hop = hops(an_move)[i];
        lemma_hop_text(hop.0, hop.1);
    }
    lemma_words_joined(texts);
    assert(plain_words(notation(an_move)) =~= texts);
}

/// The order of the words does not matter: texts with the same words, each as
/// often, have the same normalized form.
pub proof fn law_word_order(a: Seq<char>, b: Seq<char>)
    requires
        words(a).to_multiset() == words(b).to_multiset(),
    ensures
        normalized(a) == normalized(b),
{
    lemma_map_multiset(words(a), words(b), |word: Seq<char>| plain_word(word));
    lemma_sorted_order_free(plain_words(a), plain_words(b));
}

proof fn lemma_sorted_plain_words(text: Seq<char>)
    requires
        no_bare_stars(text),
    ensures
        words(normalized(text)) == sorted(plain_words(text)),
        plain_words(normalized(text)) == sorted(plain_words(text)),
{
    let plain = plain_words(text);
    let out = sorted(plain);
    lemma_words_are_words(text);
    lemma_sorted(plain);
    assert forall|i: int| 0 <= i < out.len() implies is_word(#[trigger] out[i]) && plain_word(
        out[i],
    ) == out[i] by {
        assert(out.contains(out[i]));
        vstd::seq_lib::to_multiset_contains(out, out[i]);
        vstd::seq_lib::to_multiset_contains(plain, out[i]);
        let j = choose|j: int| 0 <= j < plain.len() && plain[j] == out[i];
        assert(plain[j] == plain_word(words(text)[j]));
        lemma_plain_word(words(text)[j]);
    }
    lemma_words_joined(out);
    assert(plain_words(normalized(text)) =~= out);
}

/// Two texts without words of stars alone have the same normalized form exactly
/// when they have the same plain words, each as often.
pub proof fn law_same_form_same_words(a: Seq<char>, b: Seq<char>)
    requires
        no_bare_stars(a),
        no_bare_stars(b),
    ensures
        normalized(a) == normalized(b) <==> plain_words(a).to_multiset() == plain_words(
            b,
        ).to_multiset(),
{
    if normalized(a) == normalized(b) {
        lemma_sorted_plain_words(a);
        lemma_sorted_plain_words(b);
        lemma_sorted(plain_words(a));
        lemma_sorted(plain_words(b));
    }
    if plain_words(a).to_multiset() == plain_words(b).to_multiset() {
        lemma_sorted_order_free(plain_words(a), plain_words(b));
    }
}

/// Normalizing twice is normalizing once, for texts without words of stars
/// alone.
pub proof fn law_normalize_idempotent(text: Seq<char>)
    requires
        no_bare_stars(text),
    ensures
        normalized(normalized(text)) == normalized(text),
{
    lemma_sorted_plain_words(text);
    lemma_sorted(plain_words(text));
    lemma_sorted_order_free(sorted(plain_words(text)), plain_words(text));
}

/// A text without its stars.
pub open spec fn without_stars(text: Seq<char>) -> Seq<char> {
    text.filter(|c: char| c != '*')
}

proof fn lemma_words_lower_case(text: Seq<char>)
    ensures
        words(lower_case(text)) == words(text).map_values(|word: Seq<char>| lower_case(word)),
    decreases text.len(),
{
    let low = lower_case(text);
    let each = |word: Seq<char>| lower_case(word);
    if text.len() == 0 {
        assert(words(low) =~= words(text).map_values(each));
    } else if white_space(text[0]) {
        assert(low[0] == ascii_lower(text[0]));
        assert(low.drop_first() =~= lower_case(text.drop_first()));
        lemma_words_lower_case(text.drop_first());
    } else {
        lemma_word_len(text);
        let n = word_len(text) as int;
        assert forall|i: int| 0 <= i < n implies !white_space(#[trigger] low[i]) by {
            assert(!white_space(text[i]));
        }
        if n < text.len() {
            assert(low[n] == ascii_lower(text[n]));
        }
        lemma_word_len_exact(low, n);
        assert(low.take(n) =~= lower_case(text.take(n)));
        assert(low.skip(n) =~= lower_case(text.skip(n)));
        assert(n > 0);
        lemma_words_lower_case(text.skip(n));
        assert(!white_space(low[0]));
        assert(words(low) =~= words(text).map_values(each));
    }
}

proof fn lemma_plain_word_lower_case(word: Seq<char>)
    ensures
        plain_word(lower_case(word)) == plain_word(word),
    decreases word.len(),
{
    reveal(Seq::filter);
    let low = lower_case(word);
    if word.len() == 0 {
        assert(low =~= word);
    } else {
        let init = word.drop_last();
        let c = word.last();
        lemma_plain_word_lower_case(init);
        assert(low.drop_last() =~= lower_case(init));
        assert(low.last() == ascii_lower(c));
        if c == '*' {
            assert(plain_word(low) == plain_word(lower_case(init)));
        } else {
            assert(plain_word(low) =~= plain_word(lower_case(init)).push(ascii_lower(c)));
            assert(plain_word(word) =~= plain_word(init).push(ascii_lower(c)));
        }
    }
}

/// The letters' case does not matter.
pub proof fn law_case(text: Seq<char>)
    ensures
        normalized(lower_case(text)) == normalized(text),
{
    lemma_words_lower_case(text);
    assert(plain_words(lower_case(text)) =~= plain_words(text)) by {
        assert forall|i: int| 0 <= i < words(text).len() implies plain_words(lower_case(text))[i]
            == plain_words(text)[i] by {
            lemma_plain_word_lower_case(words(text)[i]);
        }
    }
}

proof fn lemma_words_without_stars(text: Seq<char>)
    requires
        no_bare_stars(text),
    ensures
        words(without_stars(text)) == words(text).map_values(|word: Seq<char>| without_stars(word)),
    decreases text.len(),
{
    let keep = |c: char| c != '*';
    let each = |word: Seq<char>| without_stars(word);
    reveal(Seq::filter);
    if text.len() == 0 {
        assert(words(without_stars(text)) =~= words(text).map_values(each));
    } else if white_space(text[0]) {
        let rest = text.drop_first();
        assert(words(text) == words(rest));
        lemma_words_without_stars(rest);
        let head = seq![text[0]];
        Seq::filter_distributes_over_add(head, rest, keep);
        assert(text =~= head + rest);
        lemma_filter_all(head, keep);
        let out = without_stars(text);
        assert(out[0] == text[0]);
        assert(out.drop_first() =~= without_stars(rest));
    } else {
        lemma_word_len(text);
        lemma_words_are_words(text);
        let n = word_len(text) as int;
        let word = text.take(n);
        let rest = text.skip(n);
        assert(words(text)[0] == word);
        assert forall|i: int| 0 <= i < words(rest).len() implies plain_word(
            #[trigger] words(rest)[i],
        ).len() > 0 by {
            assert(words(rest)[i] == words(text)[i + 1]);
        }
        assert(n > 0);
        lemma_words_without_stars(rest);
        assert(text =~= word + rest);
        Seq::filter_distributes_over_add(word, rest, keep);
        let kept = without_stars(word);
        assert(plain_word(word).len() == kept.len());
        lemma_filter_kept(word, keep);
        assert forall|i: int| 0 <= i < kept.len() implies !white_space(#[trigger] kept[i]) by {
            assert(word.contains(kept[i]));
        }
        let tail = without_stars(rest);
        if rest.len() > 0 {
            let head = seq![rest[0]];
            Seq::filter_distributes_over_add(head, rest.drop_first(), keep);
            assert(rest =~= head + rest.drop_first());
            assert(head[0] == text[n]);
            lemma_filter_all(head, keep);
            assert(tail[0] == rest[0]);
        }
        lemma_words_front(kept, tail);
        assert(words(without_stars(text)) =~= words(text).map_values(each));
    }
}

/// Hit stars do not matter, in texts without words of stars alone.
pub proof fn law_stars(text: Seq<char>)
    requires
        no_bare_stars(text),
    ensures
        normalized(without_stars(text)) == normalized(text),
{
    let keep = |c: char| c != '*';
    lemma_words_without_stars(text);
    assert(plain_words(without_stars(text)) =~= plain_words(text)) by {
        assert forall|i: int| 0 <= i < words(text).len() implies plain_words(
            without_stars(text),
        )[i] == plain_words(text)[i] by {
            let word = words(text)[i];
            lemma_filter_kept(word, keep);
            lemma_filter_all(word.filter(keep), keep);
        }
    }
}

/// Two moves have the same normalized notation exactly when they make the same
/// hops, each as often.
pub proof fn law_same_notation_same_play(a: Seq<i32>, b: Seq<i32>)
    ensures
        normalized(notation(a)) == normalized(notation(b)) <==> hops(a).to_multiset() == hops(
            b,
        ).to_multiset(),
{
    let write = |hop: (i32, i32)| hop_text(hop.0, hop.1);
    law_notation_is_plain(a);
    law_notation_is_plain(b);
    law_same_form_same_words(notation(a), notation(b));
    lemma_hops(a);
    lemma_hops(b);
    if hops(a).to_multiset() == hops(b).to_multiset() {
        lemma_map_multiset(hops(a), hops(b), write);
    }
    if hop_texts(a).to_multiset() == hop_texts(b).to_multiset() {
        assert forall|i: int, j: int|
            0 <= i < hops(a).len() && 0 <= j < hops(b).len() && write(#[trigger] hops(a)[i])
                == write(#[trigger] hops(b)[j]) implies hops(a)[i] == hops(b)[j] by {
            lemma_hop_text_injective(hops(a)[i], hops(b)[j]);
        }
        lemma_map_multiset_back(hops(a), hops(b), write);
    }
}

proof fn lemma_joined_add(a: Seq<Seq<char>>, b: Seq<Seq<char>>)
    requires
        a.len() > 0,
        b.len() > 0,
    ensures
        joined(a + b) == joined(a).push(' ') + joined(b),
    decreases b.len(),
{
    let all = a + b;
    assert(all.last() == b.last());
    if b.len() == 1 {
        assert(all.drop_last() =~= a);
    } else {
        let init = b.drop_last();
        lemma_joined_add(a, init);
        assert(all.drop_last() =~= a + init);
        assert(joined(all) =~= joined(a).push(' ') + joined(b));
    }
}

/// Whether a native move is made of hops from its first point to its last: its
/// points pair up, and every pair starts on the board or on the bar.
pub open spec fn is_whole(an_move: Seq<i32>) -> bool {
    &&& an_move.len() % 2 == 0
    &&& forall|i: int| 0 <= i < an_move.len() && i % 2 == 0 ==> #[trigger] an_move[i] >= 0
}

proof fn lemma_hop_texts_add(a: Seq<i32>, b: Seq<i32>)
    requires
        is_whole(a),
    ensures
        hop_texts(a + b) == hop_texts(a) + hop_texts(b),
        2 * hop_texts(a).len() == a.len(),
    decreases a.len(),
{
    if a.len() == 0 {
        assert(a + b =~= b);
        assert(hop_texts(a) + hop_texts(b) =~= hop_texts(b));
    } else {
        let rest = a.skip(2);
        assert forall|i: int| 0 <= i < rest.len() && i % 2 == 0 implies #[trigger] rest[i] >= 0 by {
            assert(rest[i] == a[i + 2]);
        }
        lemma_hop_texts_add(rest, b);
        assert(a[0] >= 0);
        assert((a + b).skip(2) =~= rest + b);
        assert(hop_texts(a + b) =~= hop_texts(a) + hop_texts(b));
    }
}

/// The notation of one move behind another is their notations with one space
/// between, and that of the other alone where one makes no hop.
pub proof fn law_notation_of_consecutive_moves(a: Seq<i32>, b: Seq<i32>)
    requires
        is_whole(a),
    ensures
        notation(a + b) == if a.len() == 0 {
            notation(b)
        } else if hops(b).len() == 0 {
            notation(a)
        } else {
            notation(a).push(' ') + notation(b)
        },
{
    lemma_hop_texts_add(a, b);
    lemma_hops(b);
    if a.len() == 0 {
        assert(a + b =~= b);
    } else if hops(b).len() == 0 {
        assert(hop_texts(a) + hop_texts(b) =~= hop_texts(a));
    } else {
        lemma_joined_add(hop_texts(a), hop_texts(b));
    }
}

/// A pair that starts at a negative point ends a move, and so does a last point
/// without a partner: what stands from there on is not written.
pub proof fn law_move_ends(an_move: Seq<i32>, rest: Seq<i32>)
    requires
        is_whole(an_move),
        rest.len() == 1 || rest.len() > 0 && rest[0] < 0,
    ensures
        notation(an_move + rest) == notation(an_move),
        hops(an_move + rest) == hops(an_move),
{
    lemma_hop_texts_add(an_move, rest);
    assert(hop_texts(an_move) + hop_texts(rest) =~= hop_texts(an_move));
    lemma_hops_end(an_move, rest);
}

proof fn lemma_hops_end(an_move: Seq<i32>, rest: Seq<i32>)
    requires
        is_whole(an_move),
        rest.len() == 1 || rest.len() > 0 && rest[0] < 0,
    ensures
        hops(an_move + rest) == hops(an_move),
    decreases an_move.len(),
{
    if an_move.len() == 0 {
        assert(an_move + rest =~= rest);
    } else {
        let behind = an_move.skip(2);
        assert forall|i: int| 0 <= i < behind.len() && i % 2 == 0 implies #[trigger] behind[i]
            >= 0 by {
            assert(behind[i] == an_move[i + 2]);
        }
        lemma_hops_end(behind, rest);
        assert(an_move[0] >= 0);
        assert((an_move + rest).skip(2) =~= behind + rest);
    }
}

/// The number that a numeral stands for.
pub open spec fn numeral_value(text: Seq<char>) -> int
    decreases text.len(),
{
    if text.len() == 0 {
        0
    } else {
        10 * numeral_value(text.drop_last()) + (text.last() as int - 48)
    }
}

/// A numeral is made of digits, stands for its number, and has no zero in front
/// unless it is the zero.
pub proof fn law_decimal(n: nat)
    ensures
        decimal(n).len() > 0,
        forall|i: int| 0 <= i < decimal(n).len() ==> '0' <= #[trigger] decimal(n)[i] <= '9',
        numeral_value(decimal(n)) == n,
        n > 0 ==> decimal(n)[0] != '0',
        n == 0 ==> decimal(n) == seq!['0'],
    decreases n,
{
    lemma_decimal(n);
    reveal_with_fuel(numeral_value, 2);
    if n >= 10 {
        law_decimal(n / 10);
        lemma_decimal(n / 10);
        assert(decimal(n).drop_last() =~= decimal(n / 10));
        assert(decimal(n).last() as int == 48 + n % 10);
        assert(decimal(n)[0] == decimal(n / 10)[0]);
    } else {
        assert(decimal(n).drop_last() =~= Seq::<char>::empty());
        assert(decimal(n).last() as int == 48 + n);
    }
}

/// A negative number is written as a sign and the numeral of its magnitude, any
/// other as its numeral.
pub proof fn law_signed_decimal(n: int)
    ensures
        n >= 0 ==> signed_decimal(n) == decimal(n as nat),
        n < 0 ==> signed_decimal(n) == seq!['-'] + decimal((-n) as nat),
{
}

/// One hop is written as its two points with a slash between: the bar, which is
/// 24, as `bar`, a point off the board as `off`, and every other by its number
/// from 1.
pub proof fn law_one_hop(from: i32, to: i32)
    requires
        from >= 0,
    ensures
        ({
            let left = if from == 24 {
                "bar"@
            } else {
                decimal((from + 1) as nat)
            };
            let right = if to < 0 {
                "off"@
            } else {
                decimal((to + 1) as nat)
            };
            notation(seq![from, to]) == left + seq!['/'] + right
        }),
{
    let an_move = seq![from, to];
    assert(an_move.skip(2).len() == 0);
    assert(hop_texts(an_move.skip(2)) =~= Seq::<Seq<char>>::empty());
    assert(hop_texts(an_move) =~= seq![hop_text(from, to)]);
    assert(hop_text(from, to) =~= from_text(from) + seq!['/'] + to_text(to));
}

/// Making a word plain works character by character: a star goes, `A` to `Z`
/// become `a` to `z`, and every other character stays.
pub proof fn law_plain_characters(front: Seq<char>, c: char)
    ensures
        plain_word(Seq::empty()) == Seq::<char>::empty(),
        c == '*' ==> plain_word(front.push(c)) == plain_word(front),
        'A' <= c <= 'Z' ==> plain_word(front.push(c)) == plain_word(front).push(
            (c as int + 32) as char,
        ),
        c != '*' && !('A' <= c <= 'Z') ==> plain_word(front.push(c)) == plain_word(front).push(c),
{
    reveal(Seq::filter);
    assert(plain_word(Seq::empty()) =~= Seq::<char>::empty());
    assert(front.push(c).drop_last() =~= front);
    if c != '*' {
        assert(plain_word(front.push(c)) =~= plain_word(front).push(ascii_lower(c)));
    }
}

/// A text is split into words at white space: white space in front does not
/// matter, and what stands before the next white space is the first word.
pub proof fn law_words(space: char, word: Seq<char>, rest: Seq<char>)
    requires
        white_space(space),
        word.len() > 0,
        forall|i: int| 0 <= i < word.len() ==> !white_space(#[trigger] word[i]),
    ensures
        words(Seq::empty()) == Seq::<Seq<char>>::empty(),
        words(seq![space] + rest) == words(rest),
        words(word) == seq![word],
        words(word + seq![space] + rest) == seq![word] + words(rest),
{
    let behind = seq![space] + rest;
    assert(behind.drop_first() =~= rest);
    lemma_words_front(word, behind);
    assert(word + seq![space] + rest =~= word + behind);
    lemma_words_front(word, Seq::empty());
    assert(word + Seq::<char>::empty() =~= word);
    assert(words(Seq::<char>::empty()) =~= Seq::<Seq<char>>::empty());
    assert(words(word) =~= seq![word]);
}

/// Parts are joined with one space between neighbours.
pub proof fn law_joined(a: Seq<Seq<char>>, b: Seq<Seq<char>>, part: Seq<char>)
    ensures
        joined(Seq::empty()) == Seq::<char>::empty(),
        joined(seq![part]) == part,
        a.len() > 0 && b.len() > 0 ==> joined(a + b) == joined(a) + seq![' '] + joined(b),
{
    if a.len() > 0 && b.len() > 0 {
        lemma_joined_add(a, b);
        assert(joined(a).push(' ') =~= joined(a) + seq![' ']);
    }
}

/// The order of words is that of a dictionary by code points: a word comes
/// before every longer one that it begins, and otherwise the first character in
/// which two words differ decides.
pub proof fn law_dictionary_order(
    front: Seq<char>,
    x: char,
    y: char,
    behind_x: Seq<char>,
    behind_y: Seq<char>,
)
    ensures
        text_le(front, front + behind_x),
        behind_x.len() > 0 ==> !text_le(front + behind_x, front),
        x < y ==> text_le(front.push(x) + behind_x, front.push(y) + behind_y),
        x < y ==> !text_le(front.push(y) + behind_y, front.push(x) + behind_x),
    decreases front.len(),
{
    let a = front.push(x) + behind_x;
    let b = front.push(y) + behind_y;
    if front.len() == 0 {
        assert(front + behind_x =~= behind_x);
        assert(a[0] == x);
        assert(b[0] == y);
    } else {
        let rest = front.drop_first();
        law_dictionary_order(rest, x, y, behind_x, behind_y);
        assert((front + behind_x).drop_first() =~= rest + behind_x);
        assert(a.drop_first() =~= rest.push(x) + behind_x);
        assert(b.drop_first() =~= rest.push(y) + behind_y);
        assert(a[0] == front[0] && b[0] == front[0] && (front + behind_x)[0] == front[0]);
    }
}

/// The normalized form of a text is its words made plain, each as often as it
/// occurs, in ascending order and joined.
pub proof fn law_normalized_form(text: Seq<char>, parts: Seq<Seq<char>>)
    requires
        parts.to_multiset() == words(text).map_values(
            |word: Seq<char>| plain_word(word),
        ).to_multiset(),
        forall|i: int, j: int|
            0 <= i < j < parts.len() ==> text_le(#[trigger] parts[i], #[trigger] parts[j]),
    ensures
        normalized(text) == joined(parts),
{
    lemma_sorted(plain_words(text));
    assert(ascending(parts));
    lemma_ascending_unique(parts, sorted(plain_words(text)));
}

/// A character's lower case is another only for `A` to `Z`.
pub proof fn law_lower_case(text: Seq<char>, i: int)
    requires
        0 <= i < text.len(),
    ensures
        lower_case(text).len() == text.len(),
        'A' <= text[i] <= 'Z' ==> lower_case(text)[i] as int == text[i] as int + 32,
        !('A' <= text[i] <= 'Z') ==> lower_case(text)[i] == text[i],
{
}

/// A move can be written exactly when every point of its hops has a successor;
/// what stands behind its end does not matter.
pub proof fn law_writable_moves(an_move: Seq<i32>, rest: Seq<i32>)
    requires
        is_whole(an_move),
        rest.len() < 2 || rest[0] < 0,
    ensures
        numbered(an_move + rest) <==> forall|i: int|
            0 <= i < an_move.len() ==> #[trigger] an_move[i] < 0x7fff_ffff,
{
    lemma_hop_texts_add(an_move, rest);
    let all = an_move + rest;
    assert(hop_texts(rest).len() == 0);
    assert forall|i: int| 0 <= i < an_move.len() implies #[trigger] an_move[i] == all[i] by {}
    if numbered(all) {
        assert forall|i: int| 0 <= i < an_move.len() implies #[trigger] an_move[i]
            < 0x7fff_ffff by {
            assert(all[i] < i32::MAX);
        }
    }
    if forall|i: int| 0 <= i < an_move.len() ==> #[trigger] an_move[i] < 0x7fff_ffff {
        assert forall|i: int| 0 <= i < 2 * hop_texts(all).len() implies #[trigger] all[i]
            < i32::MAX by {
            assert(all[i] == an_move[i]);
        }
    }
}

} // verus!
