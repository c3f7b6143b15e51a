//! What travels between the stages, and turning bytes into text.
use vstd::prelude::*;
use vstd::utf8::{decode_utf8, valid_utf8};

verus! {

/// One item on a text channel: a piece of a reply, or the explicit marker
/// that the reply is complete.
#[derive(Clone, Debug)]
pub enum Chunk {
    Fragment(Vec<u8>),
    EndOfMessage,
}

/// Bytes that are not valid UTF-8 where text was expected.
#[derive(Debug)]
pub struct InvalidText;

/// Relies on `String::from_utf8`: it succeeds exactly on valid UTF-8 and then
/// holds the characters that the bytes encode.
#[verifier::external_body]
pub(crate) fn utf8_text(bytes: Vec<u8>) -> (r: Option<String>)
    ensures
        r is Some <==> valid_utf8(bytes@),
        r matches Some(s) ==> s@ == decode_utf8(bytes@),
{
    match String::from_utf8(bytes) {
        Ok(s) => Some(s),
        Err(_) => None,
    }
}

/// Decodes each of `payloads` as text; fails if any of them is not UTF-8.
pub fn decode_all(payloads: &Vec<Vec<u8>>) -> (r: Result<Vec<String>, InvalidText>)
    ensures
        r is Ok <==> forall|i: int| 0 <= i < payloads@.len() ==> valid_utf8(#[trigger] payloads@[i]@),
        r matches Ok(texts) ==> texts@.len() == payloads@.len() && forall|i: int|
            0 <= i < payloads@.len() ==> #[trigger] texts@[i]@ == decode_utf8(payloads@[i]@),
{
    let mut texts: Vec<String> = Vec::new();
    let mut i: usize = 0;
    while i < payloads.len()
        invariant
            i <= payloads@.len(),
            texts@.len() == i,
            forall|j: int| 0 <= j < i ==> valid_utf8(#[trigger] payloads@[j]@),
            forall|j: int| 0 <= j < i ==> #[trigger] texts@[j]@ == decode_utf8(payloads@[j]@),
        decreases payloads@.len() - i,
    {
        match utf8_text(payloads[i].clone()) {
            Some(t) => texts.push(t),
            None => return Err(InvalidText),
        }
        i = i + 1;
    }
    Ok(texts)
}

} // verus!
