//! Texts that arrive in pieces or are searched: the body of a JSON response and
//! the media types of a content type.
use std::string::FromUtf8Error;
use vstd::prelude::*;
use vstd::utf8::*;

verus! {

/// `std::string::FromUtf8Error`, carried as an opaque value.
#[verifier::external_type_specification]
#[verifier::external_body]
pub struct ExFromUtf8Error(std::string::FromUtf8Error);

/// The reason for which `String::from_utf8` refuses bytes that are not UTF-8.
pub uninterp spec fn utf8_refusal(bytes: Seq<u8>) -> FromUtf8Error;

/// `String::from_utf8`: takes bytes that are UTF-8, and gives the text that
/// they encode. The reason for refusing others rests on the bytes alone, and goes
/// by the name [`utf8_refusal`].
pub assume_specification[ String::from_utf8 ](bytes: Vec<u8>) -> (text: Result<
    String,
    FromUtf8Error,
>)
    ensures
        text is Ok <==> valid_utf8(bytes@),
        text matches Ok(decoded) ==> decoded@ == decode_utf8(bytes@),
        text matches Err(reason) ==> reason == utf8_refusal(bytes@),
;

/// Whether `part` stands somewhere in `whole`.
pub open spec fn is_part_of(part: Seq<char>, whole: Seq<char>) -> bool {
    exists|start: int|
        0 <= start <= whole.len() - part.len() && #[trigger] whole.subrange(
            start,
            start + part.len(),
        ) == part
}

/// Calls `str::contains`, with a text as the pattern.
///
/// It tells whether some slice of `whole` is `part`.
#[verifier::external_body]
pub(crate) fn contains(whole: &str, part: &str) -> (found: bool)
    ensures
        found <==> is_part_of(part@, whole@),
{
    whole.contains(part)
}

/// The chunks of a body as byte sequences.
pub open spec fn chunk_bytes(chunks: Seq<Vec<u8>>) -> Seq<Seq<u8>> {
    chunks.map_values(|chunk: Vec<u8>| chunk@)
}

/// Joins the chunks of a body, in order.
pub fn join_chunks(chunks: Vec<Vec<u8>>) -> (body: Vec<u8>)
    ensures
        body@ == chunk_bytes(chunks@).flatten(),
{
    let ghost pieces = chunk_bytes(chunks@);
    let mut body: Vec<u8> = Vec::new();
    let mut next: usize = 0;
    while next < chunks.len()
        invariant
            next <= chunks.len(),
            pieces == chunk_bytes(chunks@),
            body@ == pieces.take(next as int).flatten_alt(),
        decreases chunks.len() - next,
    {
        body.extend_from_slice(chunks[next].as_slice());
        proof {
            assert(pieces.take(next + 1).drop_last() == pieces.take(next as int));
            assert(pieces.take(next + 1).last() == chunks[next as int]@);
        }
        next = next + 1;
    }
    proof {
        assert(pieces.take(chunks.len() as int) == pieces);
        pieces.lemma_flatten_and_flatten_alt_are_equivalent();
    }
    body
}

/// The text of a body that came in chunks: it is refused when the chunks
/// together are not UTF-8. A character may be split over two chunks.
pub fn decode_body(chunks: Vec<Vec<u8>>) -> (text: Result<String, FromUtf8Error>)
    ensures
        text is Ok <==> valid_utf8(chunk_bytes(chunks@).flatten()),
        text matches Ok(decoded) ==> decoded@ == decode_utf8(chunk_bytes(chunks@).flatten()),
        text matches Err(reason) ==> reason == utf8_refusal(chunk_bytes(chunks@).flatten()),
{
    String::from_utf8(join_chunks(chunks))
}

} // verus!
