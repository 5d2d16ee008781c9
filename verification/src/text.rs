use vstd::prelude::*;
use vstd::string::*;
use vstd::utf8::is_ascii_chars;

verus! {

/// The lowercase form of a text as Unicode defines it, which is what `str::to_lowercase`
/// of the standard library returns. It is not spelt out here: the mapping fills tables.
pub uninterp spec fn lowercase_of(text: Seq<char>) -> Seq<char>;

/// The small letter of a capital letter `A` to `Z`; any other character is left as it is.
pub open spec fn ascii_lower(c: char) -> char {
    if 'A' <= c && c <= 'Z' {
        ((c as u8) + 32) as char
    } else {
        c
    }
}

/// The text with each of the letters `A` to `Z` replaced by its small letter.
pub open spec fn ascii_lowercase(text: Seq<char>) -> Seq<char> {
    text.map_values(|c: char| ascii_lower(c))
}

/// The two texts are equal but for the case of the letters `A` to `Z`.
pub open spec fn same_letters(left: Seq<char>, right: Seq<char>) -> bool {
    &&& left.len() == right.len()
    &&& forall|i: int| 0 <= i < left.len() ==> ascii_lower(#[trigger] left[i]) == ascii_lower(right[i])
}

/// A text equals a word written in small letters, but for letter case, exactly when the
/// text put into small letters is the word.
pub proof fn lemma_same_letters_as_lowercase_word(text: Seq<char>, word: Seq<char>)
    requires
        ascii_lowercase(word) == word,
    ensures
        same_letters(text, word) <==> ascii_lowercase(text) == word,
{
    if same_letters(text, word) {
        assert forall|i: int| 0 <= i < text.len() implies ascii_lowercase(text)[i] == word[i] by {
            assert(ascii_lower(text[i]) == ascii_lower(word[i]));
            assert(ascii_lowercase(word)[i] == ascii_lower(word[i]));
        }
        assert(ascii_lowercase(text) =~= word);
    }
    if ascii_lowercase(text) == word {
        assert forall|i: int| 0 <= i < text.len() implies ascii_lower(#[trigger] text[i])
            == ascii_lower(word[i]) by {
            assert(ascii_lowercase(text)[i] == ascii_lower(text[i]));
            assert(ascii_lowercase(word)[i] == ascii_lower(word[i]));
        }
    }
}

/// The text in small letters, by `str::to_lowercase` of the standard library.
///
/// Taken on trust, not proved: the result is the Unicode lowercase of the text, known
/// here by the name [`lowercase_of`] alone; and for a text of ASCII characters only it is
/// the text with `A` to `Z` replaced by `a` to `z`, which is all that the Unicode mapping
/// does to ASCII.
#[verifier::external_body]
pub(crate) fn to_lowercase(text: &str) -> (lowered: String)
    ensures
        lowered@ == lowercase_of(text@),
        is_ascii_chars(text@) ==> lowered@ == ascii_lowercase(text@),
{
    text.to_lowercase()
}

/// Whether two texts are the same, character by character.
pub fn same_text(left: &str, right: &str) -> (same: bool)
    ensures
        same == (left@ == right@),
{
    let left = left.to_owned();
    let right = right.to_owned();
    left == right
}

/// The word stands in the text at the given offset.
pub open spec fn occurs_at(text: Seq<char>, word: Seq<char>, at: int) -> bool {
    &&& 0 <= at
    &&& at + word.len() <= text.len()
    &&& text.subrange(at, at + word.len()) == word
}

/// The pieces of `text` between its separators, in order. Reading from the left, each
/// separator ends a piece and begins the next one; every other character is added to the
/// piece that is being read. A text without a separator is its own single piece.
pub open spec fn split_spec(text: Seq<char>, separator: char) -> Seq<Seq<char>>
    decreases text.len(),
{
    if text.len() == 0 {
        seq![Seq::<char>::empty()]
    } else {
        let before = split_spec(text.drop_last(), separator);
        if text.last() == separator {
            before.push(Seq::<char>::empty())
        } else {
            before.drop_last().push(before.last().push(text.last()))
        }
    }
}

/// The pieces put together again, with a separator between each two neighbours.
pub open spec fn join_spec(pieces: Seq<Seq<char>>, separator: char) -> Seq<char>
    decreases pieces.len(),
{
    if pieces.len() == 0 {
        Seq::<char>::empty()
    } else if pieces.len() == 1 {
        pieces[0]
    } else {
        join_spec(pieces.drop_last(), separator).push(separator) + pieces.last()
    }
}

/// Splitting loses nothing and invents nothing: there is always at least one piece, no
/// piece holds a separator, and the pieces joined by the separator are the text again.
pub proof fn lemma_split_then_join(text: Seq<char>, separator: char)
    ensures
        split_spec(text, separator).len() >= 1,
        forall|i: int|
            0 <= i < split_spec(text, separator).len() ==> !(#[trigger] split_spec(
                text,
                separator,
            )[i]).contains(separator),
        join_spec(split_spec(text, separator), separator) == text,
    decreases text.len(),
{
    let pieces = split_spec(text, separator);
    if text.len() == 0 {
        assert(pieces[0] =~= Seq::<char>::empty());
        assert(join_spec(pieces, separator) =~= text);
    } else {
        let before = split_spec(text.drop_last(), separator);
        lemma_split_then_join(text.drop_last(), separator);
        if text.last() == separator {
            assert(pieces.drop_last() =~= before);
            assert(join_spec(pieces, separator) =~= text.drop_last().push(separator));
            assert(text.drop_last().push(separator) =~= text);
        } else {
            let grown = before.last().push(text.last());
            assert(pieces.last() == grown);
            assert forall|i: int| 0 <= i < pieces.len() implies !(#[trigger] pieces[i]).contains(
                separator,
            ) by {
                if i < pieces.len() - 1 {
                    assert(pieces[i] == before[i]);
                } else {
                    assert(!before.last().contains(separator));
                    if grown.contains(separator) {
                        let j = choose|j: int| 0 <= j < grown.len() && grown[j] == separator;
                        assert(before.last()[j] == separator);
                    }
                }
            }
            if before.len() == 1 {
                assert(join_spec(before, separator) == before[0]);
                assert(join_spec(pieces, separator) =~= before[0].push(text.last()));
            } else {
                assert(pieces.drop_last() =~= before.drop_last());
                assert(join_spec(pieces, separator) =~= join_spec(before, separator).push(
                    text.last(),
                ));
            }
            assert(text.drop_last().push(text.last()) =~= text);
        }
    }
}

/// Splits `text` at every `separator`. Nothing is trimmed, and empty pieces are kept.
pub fn split(text: &str, separator: char) -> (pieces: Vec<String>)
    ensures
        pieces.deep_view() == split_spec(text@, separator),
{
    let length = text.unicode_len();
    let mut pieces: Vec<String> = Vec::new();
    let mut start: usize = 0;
    let mut at: usize = 0;
    proof {
        assert(text@.subrange(0, 0) =~= Seq::<char>::empty());
        assert(pieces.deep_view().push(text@.subrange(0, 0)) =~= seq![Seq::<char>::empty()]);
    }
    for c in it: text.chars()
        invariant
            at == it.index(),
            start <= at <= length,
            length == text@.len(),
            it.seq() == text@,
            pieces.deep_view().push(text@.subrange(start as int, at as int)) == split_spec(
                text@.subrange(0, at as int),
                separator,
            ),
    {
        let ghost read = text@.subrange(0, at as int);
        let ghost current = text@.subrange(start as int, at as int);
        let ghost before = pieces.deep_view();
        proof {
            let next = text@.subrange(0, at + 1);
            assert(next.drop_last() =~= read);
            assert(next.last() == c);
        }
        if c == separator {
            pieces.push(text.substring_char(start, at).to_owned());
            start = at + 1;
            proof {
                assert(pieces.deep_view() =~= before.push(current));
                assert(text@.subrange(start as int, at + 1) =~= Seq::<char>::empty());
            }
        } else {
            proof {
                assert(text@.subrange(start as int, at + 1) =~= current.push(c));
                assert(before.push(current).drop_last() =~= before);
            }
        }
        at = at + 1;
    }
    proof {
        assert(text@.subrange(0, at as int) =~= text@);
    }
    let ghost before = pieces.deep_view();
    pieces.push(text.substring_char(start, at).to_owned());
    proof {
        assert(pieces.deep_view() =~= before.push(text@.subrange(start as int, at as int)));
    }
    pieces
}

} // verus!
