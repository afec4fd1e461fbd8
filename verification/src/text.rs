//! Text: words, decimal numerals, joining, and the quoted form of a string.

use vstd::prelude::*;

verus! {

/// `String::push`: appends one character at the end.
pub assume_specification[ String::push ](text: &mut String, ch: char)
    ensures
        final(text)@ == old(text)@.push(ch),
;

/// The characters of a sequence of strings.
pub open spec fn views(parts: Seq<String>) -> Seq<Seq<char>> {
    parts.map_values(|part: String| part@)
}

/// The characters of `text`, one by one.
pub fn chars_of(text: &str) -> (chars: Vec<char>)
    ensures
        chars@ == text@,
{
    let mut chars: Vec<char> = Vec::new();
    for c in it: text.chars()
        invariant
            chars@ == text@.take(it.index()),
            it.seq() == text@,
    {
        chars.push(c);
    }
    chars
}

/// Whether two strings hold the same characters.
pub fn same_text(a: &str, b: &str) -> (same: bool)
    ensures
        same == (a@ == b@),
{
    let left = chars_of(a);
    let right = chars_of(b);
    if left.len() != right.len() {
        return false;
    }
    let mut i: usize = 0;
    while i < left.len()
        invariant
            left@.len() == right@.len(),
            i <= left@.len(),
            forall|j: int| 0 <= j < i ==> left@[j] == right@[j],
            left@ == a@,
            right@ == b@,
        decreases left@.len() - i,
    {
        if left[i] != right[i] {
            return false;
        }
        i = i + 1;
    }
    assert(left@ =~= right@);
    true
}

/// The characters with the Unicode property `White_Space`.
pub open spec fn white_space(c: char) -> bool {
    let n = c as int;
    ||| 0x09 <= n <= 0x0d
    ||| n == 0x20
    ||| n == 0x85
    ||| n == 0xa0
    ||| n == 0x1680
    ||| 0x2000 <= n <= 0x200a
    ||| n == 0x2028
    ||| n == 0x2029
    ||| n == 0x202f
    ||| n == 0x205f
    ||| n == 0x3000
}

/// Decides [`white_space`].
pub fn is_white_space(c: char) -> (white: bool)
    ensures
        white == white_space(c),
{
    let n: u32 = c as u32;
    (0x09 <= n && n <= 0x0d) || n == 0x20 || n == 0x85 || n == 0xa0 || n == 0x1680 || (0x2000 <= n
        && n <= 0x200a) || n == 0x2028 || n == 0x2029 || n == 0x202f || n == 0x205f || n == 0x3000
}

/// How many characters the word at the front of `text` has: those before the
/// first white space.
pub open spec fn word_len(text: Seq<char>) -> nat
    decreases text.len(),
{
    if text.len() == 0 || white_space(text[0]) {
        0
    } else {
        1 + word_len(text.drop_first())
    }
}

/// A word at the front is no longer than the text, holds no white space, and
/// ends at the end of the text or before a white space.
pub proof fn lemma_word_len(text: Seq<char>)
    ensures
        word_len(text) <= text.len(),
        forall|i: int| 0 <= i < word_len(text) ==> !white_space(#[trigger] text[i]),
        word_len(text) < text.len() ==> white_space(text[word_len(text) as int]),
    decreases text.len(),
{
    if text.len() != 0 && !white_space(text[0]) {
        let rest = text.drop_first();
        lemma_word_len(rest);
        assert forall|i: int| 0 <= i < word_len(text) implies !white_space(#[trigger] text[i]) by {
            if i > 0 {
                assert(rest[i - 1] == text[i]);
            }
        }
        if word_len(text) < text.len() {
            assert(rest[word_len(rest) as int] == text[word_len(text) as int]);
        }
    }
}

/// The words of a text: its maximal runs of characters that are no white
/// space, in their order.
pub open spec fn words(text: Seq<char>) -> Seq<Seq<char>>
    decreases text.len(),
    via words_decreases
{
    if text.len() == 0 {
        Seq::empty()
    } else if white_space(text[0]) {
        words(text.drop_first())
    } else {
        seq![text.take(word_len(text) as int)] + words(text.skip(word_len(text) as int))
    }
}

#[via_fn]
proof fn words_decreases(text: Seq<char>) {
    lemma_word_len(text);
}

/// Splits a text into its [`words`].
pub fn split_words(text: &str) -> (parts: Vec<Vec<char>>)
    ensures
        parts@.map_values(|part: Vec<char>| part@) == words(text@),
{
    let chars = chars_of(text);
    let mut parts: Vec<Vec<char>> = Vec::new();
    let mut i: usize = 0;
    assert(chars@.skip(0) =~= chars@);
    assert(parts@.map_values(|part: Vec<char>| part@) + words(chars@) =~= words(chars@));
    while i < chars.len()
        invariant
            i <= chars@.len(),
            parts@.map_values(|part: Vec<char>| part@) + words(chars@.skip(i as int)) == words(
                chars@,
            ),
        decreases chars@.len() - i,
    {
        let ghost here = chars@.skip(i as int);
        if is_white_space(chars[i]) {
            assert(here.drop_first() =~= chars@.skip(i + 1));
            i = i + 1;
        } else {
            let mut word: Vec<char> = Vec::new();
            let ghost start = i as int;
            let ghost found = parts@.map_values(|part: Vec<char>| part@);
            proof {
                lemma_word_len(here);
            }
            assert(here.skip(0) =~= here);
            while i < chars.len() && !is_white_space(chars[i])
                invariant
                    0 <= start <= i <= chars@.len(),
                    here == chars@.skip(start),
                    word@ == here.take(i - start),
                    i - start <= word_len(here) <= here.len(),
                    forall|k: int|
                        0 <= k < word_len(here) ==> !white_space(#[trigger] here[k]),
                    word_len(here) < here.len() ==> white_space(here[word_len(here) as int]),
                decreases chars@.len() - i,
            {
                assert(here[i - start] == chars@[i as int]);
                word.push(chars[i]);
                i = i + 1;
                assert(word@ =~= here.take(i - start));
            }
            assert(i - start == word_len(here)) by {
                if i < chars.len() {
                    assert(here[i - start] == chars@[i as int]);
                }
            }
            assert(here.skip(word_len(here) as int) =~= chars@.skip(i as int));
            parts.push(word);
            assert(parts@.map_values(|part: Vec<char>| part@) =~= found.push(word@));
            assert(found.push(word@) + words(chars@.skip(i as int)) =~= found + (seq![word@]
                + words(chars@.skip(i as int))));
        }
    }
    assert(words(chars@.skip(i as int)) =~= Seq::<Seq<char>>::empty());
    assert(parts@.map_values(|part: Vec<char>| part@) =~= words(text@));
    parts
}

/// A character with `A` to `Z` in lower case.
pub open spec fn ascii_lower(c: char) -> char {
    if 'A' <= c && c <= 'Z' {
        (c as int + 32) as char
    } else {
        c
    }
}

/// A character with `A` to `Z` in lower case: [`ascii_lower`].
pub fn lower_char(c: char) -> (lower: char)
    ensures
        lower == ascii_lower(c),
{
    if 'A' <= c && c <= 'Z' {
        let upper: u8 = c as u8;
        (upper + 32) as char
    } else {
        c
    }
}

/// A text with `A` to `Z` in lower case.
pub open spec fn lower_case(text: Seq<char>) -> Seq<char> {
    text.map_values(|c: char| ascii_lower(c))
}

/// One decimal digit.
pub open spec fn digit(n: int) -> char {
    ('0' as int + n) as char
}

/// The decimal numeral of a natural number, without leading zeros.
pub open spec fn decimal(n: nat) -> Seq<char>
    decreases n,
{
    if n < 10 {
        seq![digit(n as int)]
    } else {
        decimal(n / 10).push(digit((n % 10) as int))
    }
}

/// The decimal numeral of an integer, with a sign where it is negative.
pub open spec fn signed_decimal(n: int) -> Seq<char> {
    if n < 0 {
        seq!['-'] + decimal((-n) as nat)
    } else {
        decimal(n as nat)
    }
}

/// Writes a [`decimal`] numeral.
pub fn decimal_text(n: u64) -> (text: String)
    ensures
        text@ == decimal(n as nat),
    decreases n,
{
    let last: u8 = (n % 10) as u8;
    let mut text = if n < 10 {
        String::new()
    } else {
        decimal_text(n / 10)
    };
    text.push((48u8 + last) as char);
    text
}

/// Writes a [`signed_decimal`] numeral.
pub fn signed_decimal_text(n: i32) -> (text: String)
    ensures
        text@ == signed_decimal(n as int),
{
    if n < 0 {
        let mut text = "-".to_owned();
        let magnitude: u64 = (-(n as i64)) as u64;
        text.append(decimal_text(magnitude).as_str());
        proof {
            reveal_strlit("-");
        }
        assert("-"@ =~= seq!['-']);
        text
    } else {
        decimal_text(n as u64)
    }
}

/// Parts with one space between neighbours.
pub open spec fn joined(parts: Seq<Seq<char>>) -> Seq<char>
    decreases parts.len(),
{
    if parts.len() == 0 {
        Seq::empty()
    } else if parts.len() == 1 {
        parts[0]
    } else {
        joined(parts.drop_last()).push(' ') + parts.last()
    }
}

/// Joins parts with one space between neighbours.
pub fn join(parts: &Vec<String>) -> (text: String)
    ensures
        text@ == joined(views(parts@)),
{
    let mut text = String::new();
    let mut i: usize = 0;
    while i < parts.len()
        invariant
            i <= parts@.len(),
            text@ == joined(views(parts@).take(i as int)),
        decreases parts@.len() - i,
    {
        if i > 0 {
            text.push(' ');
        }
        text.append(parts[i].as_str());
        assert(views(parts@).take(i + 1).drop_last() =~= views(parts@).take(i as int));
        i = i + 1;
    }
    assert(views(parts@).take(i as int) =~= views(parts@));
    text
}

/// What Rust's `Debug` format prints of a string: the text between double
/// quotes, with the characters escaped that the format escapes.
pub uninterp spec fn quoted_text(text: Seq<char>) -> Seq<char>;

/// `format!` with the `Debug` placeholder on a `str`: the printed text is
/// [`quoted_text`] of the string. Which characters are escaped, and how, is
/// left to the format.
#[verifier::external_body]
pub(crate) fn quoted(text: &str) -> (shown: String)
    ensures
        shown@ == quoted_text(text@),
{
    format!("{:?}", text)
}

} // verus!
