use vstd::prelude::*;
use vstd::string::{StrSliceExecFns, StringSliceAdditionalSpecFns};
use vstd::utf8::*;

use super::Span;
use crate::text::slice;

verus! {

/// Whether a character is white space, as `char::is_whitespace` tells.
pub uninterp spec fn char_is_whitespace(c: char) -> bool;

/// `char::is_whitespace` tells whether a character has the Unicode property
/// `White_Space`. Which characters have it is left to std: the result is
/// named.
pub assume_specification[ char::is_whitespace ](c: char) -> (white: bool)
    ensures
        white == char_is_whitespace(c),
;

/// The first character boundary of `bytes` at or after `index`.
pub open spec fn next_boundary(bytes: Seq<u8>, index: int) -> int
    decreases bytes.len() - index,
{
    if index >= bytes.len() || is_char_boundary(bytes, index) {
        index
    } else {
        next_boundary(bytes, index + 1)
    }
}

/// The character whose encoding starts at the boundary `index`.
pub open spec fn char_at(bytes: Seq<u8>, index: int) -> char {
    decode_utf8(bytes.subrange(index, next_boundary(bytes, index + 1)))[0]
}

/// Whether a white space character starts at `index`.
pub open spec fn space_at(bytes: Seq<u8>, index: int) -> bool {
    is_char_boundary(bytes, index) && char_is_whitespace(char_at(bytes, index))
}

/// Whether a character that is not white space starts at `index`.
pub open spec fn letter_at(bytes: Seq<u8>, index: int) -> bool {
    is_char_boundary(bytes, index) && !char_is_whitespace(char_at(bytes, index))
}

/// Where the first character at or after `index` that is not white space
/// starts; the length of the text if there is none.
pub open spec fn word_start(bytes: Seq<u8>, index: int) -> int
    decreases bytes.len() - index,
{
    if index >= bytes.len() {
        bytes.len() as int
    } else if letter_at(bytes, index) {
        index
    } else {
        word_start(bytes, index + 1)
    }
}

/// Where the first white space character at or after `index` starts; the
/// length of the text if there is none.
pub open spec fn word_end(bytes: Seq<u8>, index: int) -> int
    decreases bytes.len() - index,
{
    if index >= bytes.len() {
        bytes.len() as int
    } else if space_at(bytes, index) {
        index
    } else {
        word_end(bytes, index + 1)
    }
}

/// A word begins where `word_start` says and ends after that.
pub proof fn lemma_word_bounds(bytes: Seq<u8>, index: int)
    requires
        0 <= index,
    ensures
        index <= bytes.len() ==> index <= word_start(bytes, index) <= bytes.len(),
        index <= bytes.len() ==> index <= word_end(bytes, index) <= bytes.len(),
        word_start(bytes, index) < bytes.len() ==> letter_at(bytes, word_start(bytes, index)),
        word_end(bytes, index) < bytes.len() ==> space_at(bytes, word_end(bytes, index)),
        letter_at(bytes, index) && index < bytes.len() ==> index < word_end(bytes, index),
    decreases bytes.len() - index,
{
    if index < bytes.len() {
        lemma_word_bounds(bytes, index + 1);
    }
}

/// The words of a text from `index` on: the maximal runs of characters that
/// are not white space, each as the span of its bytes, in order.
pub open spec fn words_from(bytes: Seq<u8>, index: int) -> Seq<Span>
    decreases bytes.len() - index,
{
    let start = word_start(bytes, index);
    let end = word_end(bytes, start);
    if 0 <= index <= start < end <= bytes.len() {
        seq![Span { start: start as usize, end: end as usize }] + words_from(bytes, end)
    } else {
        Seq::empty()
    }
}

/// No white space stands between a place and the end of the word that is
/// looked for from it, and no character that is not white space between a
/// place and the start of the word that is looked for from it.
pub proof fn lemma_word_is_whole(bytes: Seq<u8>, index: int, place: int)
    requires
        0 <= index <= place,
    ensures
        place < word_end(bytes, index) ==> !space_at(bytes, place),
        place < word_start(bytes, index) ==> !letter_at(bytes, place),
    decreases bytes.len() - index,
{
    if index < bytes.len() && index < place {
        lemma_word_is_whole(bytes, index + 1, place);
    }
}

/// What a word is: a run of characters without white space that cannot be
/// made longer. White space, or nothing, stands at its end; between the place
/// where the search for it began and its start stands nothing but white space;
/// and it holds none.
pub proof fn lemma_first_word(bytes: Seq<u8>, index: int, place: int)
    requires
        0 <= index,
        bytes.len() <= usize::MAX,
        words_from(bytes, index).len() > 0,
    ensures
        ({
            let word = words_from(bytes, index)[0];
            &&& index <= place < word.start ==> !letter_at(bytes, place)
            &&& word.start <= place < word.end ==> !space_at(bytes, place)
            &&& word.end < bytes.len() ==> space_at(bytes, word.end as int)
            &&& words_from(bytes, index).drop_first() == words_from(bytes, word.end as int)
        }),
{
    let start = word_start(bytes, index);
    let end = word_end(bytes, start);
    lemma_word_bounds(bytes, index);
    lemma_word_bounds(bytes, start);
    if index <= place {
        lemma_word_is_whole(bytes, index, place);
    }
    if start <= place {
        lemma_word_is_whole(bytes, start, place);
    }
    let first = Span { start: start as usize, end: end as usize };
    let rest = words_from(bytes, end);
    assert((seq![first] + rest).drop_first() =~= rest);
}

/// Every word is a span of at least one byte within the text, starts where
/// the search for it began or later, and starts and ends between characters.
pub proof fn lemma_words_within(bytes: Seq<u8>, index: int, k: int)
    requires
        bytes.len() <= usize::MAX,
        0 <= k < words_from(bytes, index).len(),
    ensures
        index <= words_from(bytes, index)[k].start < words_from(bytes, index)[k].end <= bytes.len(),
        is_char_boundary(bytes, words_from(bytes, index)[k].start as int),
        is_char_boundary(bytes, words_from(bytes, index)[k].end as int) || words_from(
            bytes,
            index,
        )[k].end == bytes.len(),
    decreases bytes.len() - index,
{
    let start = word_start(bytes, index);
    let end = word_end(bytes, start);
    let first = Span { start: start as usize, end: end as usize };
    let rest = words_from(bytes, end);
    assert(words_from(bytes, index) == seq![first] + rest);
    lemma_word_bounds(bytes, index);
    lemma_word_bounds(bytes, start);
    if k > 0 {
        assert((seq![first] + rest)[k] == rest[k - 1]);
        lemma_words_within(bytes, end, k - 1);
    }
}


/// Splits a text at white space into the spans of its words.
///
/// Any Unicode white space separates words, and white space next to white
/// space separates nothing: no span is empty.
pub struct SpanIterator<'a> {
    text: &'a str,
    cursor: usize,
}

/// Whether a white space character starts at the boundary `index` of `text`.
fn is_space_at(text: &str, index: usize) -> (white: bool)
    requires
        index < text.spec_bytes().len(),
        is_char_boundary(text.spec_bytes(), index as int),
    ensures
        white == space_at(text.spec_bytes(), index as int),
{
    let len = text.as_bytes().len();
    let ghost bytes = text.spec_bytes();
    proof {
        encode_utf8_valid_utf8(text@);
        is_char_boundary_start_end_of_seq(bytes);
    }
    let mut end: usize = index + 1;
    while end < len && !text.is_char_boundary(end)
        invariant
            bytes == text.spec_bytes(),
            len == bytes.len(),
            index < end <= len,
            next_boundary(bytes, index + 1) == next_boundary(bytes, end as int),
        decreases len - end,
    {
        end += 1;
    }
    match slice(text, Span { start: index, end }) {
        Some(piece) => {
            proof {
                encode_utf8_decode_utf8(piece@);
                if piece@.len() == 0 {
                    assert(encode_utf8(piece@).len() == 0);
                }
            }
            piece.get_char(0).is_whitespace()
        },
        None => false,
    }
}

impl<'a> SpanIterator<'a> {
    /// The spans that the iterator has yet to give.
    pub closed spec fn remaining(&self) -> Seq<Span> {
        words_from(self.text.spec_bytes(), self.cursor as int)
    }

    #[verifier::type_invariant]
    spec fn inv(&self) -> bool {
        self.cursor <= self.text.spec_bytes().len()
    }

    /// An iterator over the words of `text`.
    pub fn new(text: &'a str) -> (iter: SpanIterator<'a>)
        ensures
            iter.remaining() == words_from(text.spec_bytes(), 0),
    {
        SpanIterator { text, cursor: 0 }
    }

    /// The span of the next word, or `None` when no word is left.
    pub fn next(&mut self) -> (span: Option<Span>)
        ensures
            old(self).remaining().len() == 0 ==> span is None && final(self).remaining().len() == 0,
            old(self).remaining().len() > 0 ==> span == Some(old(self).remaining()[0])
                && final(self).remaining() == old(self).remaining().drop_first(),
    {
        proof {
            use_type_invariant(&*self);
        }
        let text = self.text;
        let len = text.as_bytes().len();
        let ghost bytes = text.spec_bytes();
        let ghost from = self.cursor as int;
        let mut start = self.cursor;
        while start < len && !(text.is_char_boundary(start) && !is_space_at(text, start))
            invariant
                bytes == text.spec_bytes(),
                len == bytes.len(),
                from <= start <= len,
                word_start(bytes, from) == word_start(bytes, start as int),
            decreases len - start,
        {
            start += 1;
        }
        if start >= len {
            self.cursor = len;
            proof {
                lemma_word_bounds(bytes, len as int);
            }
            return None;
        }
        let mut end = start + 1;
        while end < len && !(text.is_char_boundary(end) && is_space_at(text, end))
            invariant
                bytes == text.spec_bytes(),
                len == bytes.len(),
                start < end <= len,
                word_end(bytes, start as int) == word_end(bytes, end as int),
            decreases len - end,
        {
            end += 1;
        }
        self.cursor = end;
        proof {
            lemma_word_bounds(bytes, start as int);
            let rest = words_from(bytes, end as int);
            assert(words_from(bytes, from) == seq![Span { start, end }] + rest);
            assert((seq![Span { start, end }] + rest).drop_first() =~= rest);
        }
        Some(Span { start, end })
    }

    /// The spans of all words that are left, in order.
    pub fn collect(self) -> (spans: Vec<Span>)
        ensures
            spans@ == self.remaining(),
    {
        let mut iter = self;
        let mut spans: Vec<Span> = Vec::new();
        let ghost all = iter.remaining();
        loop
            invariant
                all == spans@ + iter.remaining(),
                all == self.remaining(),
            decreases iter.remaining().len(),
        {
            match iter.next() {
                Some(span) => {
                    spans.push(span);
                },
                None => {
                    assert(spans@ + iter.remaining() =~= spans@);
                    return spans;
                },
            }
            assert(all =~= spans@ + iter.remaining());
        }
    }
}

} // verus!
