//! Byte-level access to source text.
//!
//! Spans count bytes, while a `str` is a sequence of characters. The functions
//! here cut a `str` at byte offsets and compare texts, and say what they return
//! in terms of the UTF-8 encoding of the text.
use vstd::prelude::*;
use vstd::string::StringSliceAdditionalSpecFns;
use vstd::utf8::*;

use crate::span::Span;

verus! {

/// Whether `span` can be cut out of a text whose encoding is `bytes`: it lies
/// within the text and both of its ends fall between characters.
pub open spec fn sliceable(bytes: Seq<u8>, span: Span) -> bool {
    &&& span.start <= span.end <= bytes.len()
    &&& is_char_boundary(bytes, span.start as int)
    &&& is_char_boundary(bytes, span.end as int)
}

/// A character boundary of a text is also one of each prefix that reaches it.
pub proof fn lemma_boundary_in_prefix(bytes: Seq<u8>, index: int, end: int)
    requires
        valid_utf8(bytes),
        0 <= index <= end <= bytes.len(),
        is_char_boundary(bytes, index),
        is_char_boundary(bytes, end),
    ensures
        valid_utf8(bytes.subrange(0, end)),
        is_char_boundary(bytes.subrange(0, end), index),
{
    valid_utf8_split(bytes, end);
    let head = bytes.subrange(0, end);
    if index < end {
        is_char_boundary_iff_not_is_continuation_byte(bytes, index);
        is_char_boundary_iff_not_is_continuation_byte(head, index);
    } else {
        is_char_boundary_start_end_of_seq(head);
    }
}

/// The text that `span` covers in `s`, or `None` where the span does not lie
/// within `s` or would split a character.
pub fn slice<'a>(s: &'a str, span: Span) -> (part: Option<&'a str>)
    ensures
        part is Some <==> sliceable(s.spec_bytes(), span),
        part matches Some(t) ==> t.spec_bytes() == span.of(s.spec_bytes()),
{
    if span.start <= span.end && span.end <= s.as_bytes().len() && s.is_char_boundary(span.start)
        && s.is_char_boundary(span.end) {
        proof {
            encode_utf8_valid_utf8(s@);
            lemma_boundary_in_prefix(s.spec_bytes(), span.start as int, span.end as int);
        }
        let (head, _) = s.split_at(span.end);
        let (_, part) = head.split_at(span.start);
        assert(part.spec_bytes() =~= span.of(s.spec_bytes()));
        Some(part)
    } else {
        None
    }
}

/// Two texts with the same encoding are the same text.
pub proof fn lemma_same_bytes_same_text(a: Seq<char>, b: Seq<char>)
    requires
        encode_utf8(a) == encode_utf8(b),
    ensures
        a == b,
{
    encode_utf8_decode_utf8(a);
    encode_utf8_decode_utf8(b);
}

/// Whether two texts are equal, character for character.
pub fn str_eq(a: &str, b: &str) -> (same: bool)
    ensures
        same == (a@ == b@),
{
    let x = a.as_bytes();
    let y = b.as_bytes();
    if x.len() != y.len() {
        return false;
    }
    let mut i: usize = 0;
    while i < x.len()
        invariant
            x@ == a.spec_bytes(),
            y@ == b.spec_bytes(),
            x@.len() == y@.len(),
            i <= x@.len(),
            forall|k: int| 0 <= k < i ==> x@[k] == y@[k],
        decreases x@.len() - i,
    {
        if x[i] != y[i] {
            return false;
        }
        i += 1;
    }
    proof {
        assert(x@ =~= y@);
        lemma_same_bytes_same_text(a@, b@);
    }
    true
}

} // verus!
