//! Captured bytes as text.

use crate::error::{result_view, IoError, IoErrorView, YabsError, YabsErrorView};
use vstd::prelude::*;
use vstd::utf8::{decode_utf8, decode_utf8_encode_utf8, encode_utf8, encode_utf8_decode_utf8, valid_utf8};

verus! {

/// The error that `String::from_utf8` hands back; nothing is read from it.
#[verifier::external_type_specification]
#[verifier::external_body]
pub struct ExFromUtf8Error(std::string::FromUtf8Error);

/// `String::from_utf8` succeeds exactly on well-formed UTF-8, and the string
/// it then gives is made of the very bytes it was handed.
pub assume_specification[ String::from_utf8 ](vec: Vec<u8>) -> (decoded: Result<
    String,
    std::string::FromUtf8Error,
>)
    ensures
        decoded is Ok <==> valid_utf8(vec@),
        decoded matches Ok(text) ==> encode_utf8(text@) == vec@,
;

/// The text that `bytes` encode: defined where they are well-formed UTF-8,
/// an [`IoError::InvalidUtf8`] elsewhere.
pub open spec fn text_of(bytes: Seq<u8>) -> Result<Seq<char>, YabsErrorView> {
    if valid_utf8(bytes) {
        Ok(decode_utf8(bytes))
    } else {
        Err(YabsErrorView::Io(IoErrorView::InvalidUtf8))
    }
}

/// Reads captured bytes as text.
///
/// Succeeds exactly when the bytes are well-formed UTF-8, with the text they
/// encode; anything else is an [`IoError::InvalidUtf8`].
pub fn decode_text(bytes: Vec<u8>) -> (text: Result<String, YabsError>)
    ensures
        result_view(text) == text_of(bytes@),
{
    match String::from_utf8(bytes) {
        Ok(decoded) => {
            proof {
                encode_utf8_decode_utf8(decoded@);
            }
            Ok(decoded)
        },
        Err(_) => Err(YabsError::Io(IoError::InvalidUtf8)),
    }
}

/// Decoding loses nothing: the text of well-formed bytes encodes back to
/// exactly those bytes.
pub proof fn lemma_text_keeps_bytes(bytes: Seq<u8>)
    requires
        valid_utf8(bytes),
    ensures
        text_of(bytes) == Ok::<Seq<char>, YabsErrorView>(decode_utf8(bytes)),
        encode_utf8(decode_utf8(bytes)) == bytes,
{
    decode_utf8_encode_utf8(bytes);
}

} // verus!
