//! The resolving of a text encoding: the verdict on a guess at the encoding
//! of raw bytes, and the decoding of the bytes under it. The guess itself is
//! made where the file is read, and handed in.

use crate::error::ReaderError;
use charset_normalizer_rs::utils::decode;
use encoding::types::DecoderTrap;
use vstd::prelude::*;

verus! {

/// What a decoder does with bytes that are no text in its encoding.
#[derive(Clone, Copy, Debug, PartialEq, Eq, Structural)]
pub enum DecodePolicy {
    /// The decoding fails.
    Strict,
    /// Each such run of bytes becomes one replacement character.
    Replace,
    /// Such bytes are left out.
    Ignore,
}

/// The text that `charset_normalizer_rs::utils::decode` makes of `input`
/// under the encoding that `label` names and the given policy, taking the
/// input whole; `None` where it reports an error.
pub uninterp spec fn decoded(
    input: Seq<u8>,
    label: Seq<char>,
    policy: DecodePolicy,
) -> Option<Seq<char>>;

/// Calls `charset_normalizer_rs::utils::decode` on the whole input, not as a
/// chunk and not as a test. The result is that function's, with its error
/// message dropped.
#[verifier::external_body]
fn decode_bytes(input: &Vec<u8>, label: &str, policy: DecodePolicy) -> (text: Option<String>)
    ensures
        match text {
            Some(found) => decoded(input@, label@, policy) == Some(found@),
            None => decoded(input@, label@, policy) is None,
        },
{
    let trap = match policy {
        DecodePolicy::Strict => DecoderTrap::Strict,
        DecodePolicy::Replace => DecoderTrap::Replace,
        DecodePolicy::Ignore => DecoderTrap::Ignore,
    };
    decode(input, label, trap, false, false).ok()
}

/// Validation, done once when a file is taken in, on the guess at its
/// encoding: the file is accepted where an encoding was found for it, and
/// refused as of unsupported encoding where none was.
pub fn validate_encoding(best: &Option<String>) -> (result: Result<(), ReaderError>)
    ensures
        result == if best is Some {
            Ok::<(), ReaderError>(())
        } else {
            Err::<(), ReaderError>(ReaderError::UnsupportedEncoding)
        },
{
    match best {
        Some(_) => Ok(()),
        None => Err(ReaderError::UnsupportedEncoding),
    }
}

/// The text of `data` under the guessed encoding `best`, with a replacement
/// character for each run of bytes that the encoding does not decode. With
/// no guess, or one that the decoder does not know, there is no text.
pub open spec fn decode_outcome(
    data: Seq<u8>,
    best: Option<Seq<char>>,
) -> Result<Seq<char>, ReaderError> {
    match best {
        None => Err(ReaderError::UnsupportedEncoding),
        Some(label) => match decoded(data, label, DecodePolicy::Replace) {
            Some(text) => Ok(text),
            None => Err(ReaderError::UnsupportedEncoding),
        },
    }
}

/// The value of a guess at an encoding.
pub open spec fn guess_view(best: Option<String>) -> Option<Seq<char>> {
    match best {
        Some(label) => Some(label@),
        None => None,
    }
}

/// Whether `result` is the value `outcome`.
pub open spec fn text_result_is(
    result: Result<String, ReaderError>,
    outcome: Result<Seq<char>, ReaderError>,
) -> bool {
    match outcome {
        Ok(text) => result matches Ok(found) && found@ == text,
        Err(error) => result == Err::<String, ReaderError>(error),
    }
}

/// Decodes `data` under the guessed encoding `best`, replacing what does not
/// decode. With no guess, or a guess that the decoder does not know, the
/// file counts as of unsupported encoding.
pub fn decode_as(data: &Vec<u8>, best: &Option<String>) -> (result: Result<String, ReaderError>)
    ensures
        text_result_is(result, decode_outcome(data@, guess_view(*best))),
{
    match best {
        None => Err(ReaderError::UnsupportedEncoding),
        Some(label) => match decode_bytes(data, label.as_str(), DecodePolicy::Replace) {
            Some(text) => Ok(text),
            None => Err(ReaderError::UnsupportedEncoding),
        },
    }
}

} // verus!
