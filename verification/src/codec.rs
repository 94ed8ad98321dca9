//! Base64 text, as the `base64` crate reads and writes it.
//!
//! The two conversions are made by that crate. What they yield is given a
//! name here, and the contracts of this library speak of those names.

use vstd::prelude::*;

verus! {

/// The error of `base64::decode`, carried but never looked into.
#[verifier::external_type_specification]
#[verifier::external_body]
pub struct ExDecodeError(base64::DecodeError);

/// What `base64::decode` makes of a text: the bytes it stands for, or `None`
/// where the text is rejected.
pub uninterp spec fn base64_decoded(text: Seq<char>) -> Option<Seq<u8>>;

/// The text that `base64::encode` writes for a sequence of bytes.
pub uninterp spec fn base64_encoded(bytes: Seq<u8>) -> Seq<char>;

/// Length of the padded base64 text for `len` bytes: four characters for
/// every three bytes begun.
pub open spec fn encoded_len(len: nat) -> nat {
    4 * ((len + 2) / 3)
}

/// The bytes are few enough for their base64 text to be allocated.
pub open spec fn encodable(bytes: Seq<u8>) -> bool {
    encoded_len(bytes.len()) <= isize::MAX
}

/// Calls `base64::decode`, which reads the text by the standard alphabet.
/// Assumed: the outcome is a function of the text alone, named
/// [`base64_decoded`]. The call panics only where a length calculation
/// overflows, which the size of a `String` rules out.
#[verifier::external_body]
pub(crate) fn decode_text(text: &String) -> (decoded: Result<Vec<u8>, base64::DecodeError>)
    ensures
        decoded is Ok <==> base64_decoded(text@) is Some,
        decoded matches Ok(bytes) ==> base64_decoded(text@) == Some(bytes@),
{
    base64::decode(text)
}

/// Calls `base64::encode`, which writes the bytes by the standard alphabet,
/// with padding. Assumed: the text is a function of the bytes alone, named
/// [`base64_encoded`], and `base64::decode` reads it back to the same bytes.
/// The call panics where the length of the text overflows or is more than
/// can be allocated, which the precondition leaves out.
#[verifier::external_body]
pub(crate) fn encode_bytes(bytes: &Vec<u8>) -> (text: String)
    requires
        encodable(bytes@),
    ensures
        text@ == base64_encoded(bytes@),
        base64_decoded(text@) == Some(bytes@),
{
    base64::encode(bytes)
}

/// Tells whether the base64 text of the bytes can be allocated.
pub fn can_encode(bytes: &Vec<u8>) -> (ok: bool)
    ensures
        ok == encodable(bytes@),
{
    let limit: usize = (isize::MAX as usize) / 4 * 3;
    bytes.len() <= limit
}

} // verus!
