//! The decoder: base64 text to bytes.

use vstd::prelude::*;

verus! {

/// The text is not standard padded base64.
#[derive(Debug, Clone, Copy, PartialEq, Eq, Structural)]
pub struct DecodeError;

/// Whether `c` is one of the 64 symbols of the standard base64 alphabet.
pub open spec fn is_base64_symbol(c: char) -> bool {
    ||| 'A' <= c <= 'Z'
    ||| 'a' <= c <= 'z'
    ||| '0' <= c <= '9'
    ||| c == '+'
    ||| c == '/'
}

/// Whether `text` has the shape of padded base64: its length is a
/// multiple of four, and every character is a symbol of the alphabet,
/// but that the last one, or the last two, may be padding signs.
pub open spec fn has_base64_shape(text: Seq<char>) -> bool {
    &&& text.len() % 4 == 0
    &&& forall|i: int|
        0 <= i < text.len() ==> {
            ||| is_base64_symbol(#[trigger] text[i])
            ||| text[i] == '=' && i == text.len() - 1
            ||| text[i] == '=' && i == text.len() - 2 && text[text.len() - 1] == '='
        }
}

/// The bytes that standard padded base64 `text` stands for; `None` where
/// the text is malformed.
pub uninterp spec fn base64_decoded(text: Seq<char>) -> Option<Seq<u8>>;

/// `base64::Engine::decode` on the `STANDARD` engine, with the error
/// dropped. The contract names the outcome and adds one fact: the engine
/// decodes no text that lacks the shape of padded base64, because it
/// looks every byte up in the alphabet, lets the padding sign stand only
/// at the end of the last group of four, and asks for a full last group.
#[verifier::external_body]
fn decode_standard(text: &str) -> (r: Option<Vec<u8>>)
    ensures
        match r {
            Some(bytes) => base64_decoded(text@) == Some(bytes@),
            None => base64_decoded(text@) is None,
        },
        r is Some ==> has_base64_shape(text@),
{
    base64::Engine::decode(&base64::engine::general_purpose::STANDARD, text).ok()
}

/// Decodes standard padded base64.
///
/// The result is the byte sequence that the text stands for, or
/// `DecodeError` where the text is malformed. Text that lacks the shape
/// of padded base64 is always malformed: one with a character outside the
/// alphabet, with a padding sign anywhere but at the end, or of a length
/// that is no multiple of four.
pub fn decode(text: &str) -> (r: Result<Vec<u8>, DecodeError>)
    ensures
        match r {
            Ok(bytes) => base64_decoded(text@) == Some(bytes@),
            Err(_) => base64_decoded(text@) is None,
        },
        !has_base64_shape(text@) ==> r is Err,
{
    match decode_standard(text) {
        Some(bytes) => Ok(bytes),
        None => Err(DecodeError),
    }
}

} // verus!
