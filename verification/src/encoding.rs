//! From the bytes of a record file to its text: UTF-8 first, then Shift_JIS,
//! then EUC-JP.

use vstd::prelude::*;
use vstd::utf8::{decode_utf8, valid_utf8};

verus! {

/// The error with which the standard library refuses bytes that are not
/// UTF-8.
#[verifier::external_type_specification]
#[verifier::external_body]
pub struct ExFromUtf8Error(std::string::FromUtf8Error);

/// `String::from_utf8` of the standard library: it succeeds exactly on
/// well-formed UTF-8, and the text then holds the characters that the bytes
/// encode.
pub assume_specification[ String::from_utf8 ](vec: Vec<u8>) -> (r: Result<
    String,
    std::string::FromUtf8Error,
>)
    ensures
        r is Ok <==> valid_utf8(vec@),
        r matches Ok(s) ==> s@ == decode_utf8(vec@),
;

/// What decoding `bytes` as Shift_JIS yields, a byte order mark at their
/// start taken into account: the text, with a replacement character for
/// each malformed sequence, and whether there was one.
pub uninterp spec fn shift_jis_text(bytes: Seq<u8>) -> (Seq<char>, bool);

/// What decoding `bytes` as EUC-JP yields, a byte order mark at their start
/// taken into account: the text, with a replacement character for each
/// malformed sequence, and whether there was one.
pub uninterp spec fn euc_jp_text(bytes: Seq<u8>) -> (Seq<char>, bool);

/// The longest input that is handed to a decoder: the decoder reserves up
/// to three bytes of text for each byte of input, and some more.
pub open spec fn fits_decoder(len: nat) -> bool {
    len <= usize::MAX / 8
}

/// `encoding_rs::SHIFT_JIS.decode`, an `Encoding::decode`: the text and the
/// flag that it returns depend on the bytes alone. The encoding that it
/// names as used is dropped. The call panics where the size of its buffer
/// overflows, which the bound on the length rules out.
#[verifier::external_body]
fn decode_shift_jis(bytes: &Vec<u8>) -> (r: (String, bool))
    requires
        fits_decoder(bytes@.len()),
    ensures
        (r.0@, r.1) == shift_jis_text(bytes@),
{
    let (text, _, had_errors) = encoding_rs::SHIFT_JIS.decode(bytes);
    (text.into_owned(), had_errors)
}

/// `encoding_rs::EUC_JP.decode`, an `Encoding::decode`: the text and the
/// flag that it returns depend on the bytes alone. The encoding that it
/// names as used is dropped. The call panics where the size of its buffer
/// overflows, which the bound on the length rules out.
#[verifier::external_body]
fn decode_euc_jp(bytes: &Vec<u8>) -> (r: (String, bool))
    requires
        fits_decoder(bytes@.len()),
    ensures
        (r.0@, r.1) == euc_jp_text(bytes@),
{
    let (text, _, had_errors) = encoding_rs::EUC_JP.decode(bytes);
    (text.into_owned(), had_errors)
}

/// Why the bytes of a file gave no text.
#[derive(Clone, Copy, Debug, PartialEq, Eq, Structural)]
pub enum DecodeError {
    /// The bytes are well formed in none of the encodings that are tried.
    UnknownEncoding,
}

impl DecodeError {
    /// The error as a line of text.
    pub fn message(&self) -> (r: String)
        ensures
            r@ == "文字コードの自動判別に失敗しました"@,
    {
        "文字コードの自動判別に失敗しました".to_owned()
    }
}

/// The text to go by, given what each encoding made of the bytes: the UTF-8
/// text if there is one, else the Shift_JIS text if it is free of errors,
/// else the EUC-JP text if it is free of errors.
pub open spec fn chosen_text(
    utf8: Option<Seq<char>>,
    shift_jis: (Seq<char>, bool),
    euc_jp: (Seq<char>, bool),
) -> Result<Seq<char>, DecodeError> {
    match utf8 {
        Some(text) => Ok(text),
        None => if !shift_jis.1 {
            Ok(shift_jis.0)
        } else if !euc_jp.1 {
            Ok(euc_jp.0)
        } else {
            Err(DecodeError::UnknownEncoding)
        },
    }
}

/// The bytes as UTF-8 text, if they are well formed.
pub open spec fn utf8_text(bytes: Seq<u8>) -> Option<Seq<char>> {
    if valid_utf8(bytes) {
        Some(decode_utf8(bytes))
    } else {
        None
    }
}

/// A decoding result as plain values.
pub open spec fn text_view(r: Result<String, DecodeError>) -> Result<Seq<char>, DecodeError> {
    match r {
        Ok(s) => Ok(s@),
        Err(e) => Err(e),
    }
}

/// Picks the text to go by from what each encoding made of the bytes. Each
/// decoder's result is its text and whether it met malformed input.
pub fn choose_text(utf8: Option<String>, shift_jis: (String, bool), euc_jp: (String, bool)) -> (r:
    Result<String, DecodeError>)
    ensures
        text_view(r) == chosen_text(
            match utf8 {
                Some(s) => Some(s@),
                None => None,
            },
            (shift_jis.0@, shift_jis.1),
            (euc_jp.0@, euc_jp.1),
        ),
{
    match utf8 {
        Some(text) => Ok(text),
        None => {
            if !shift_jis.1 {
                Ok(shift_jis.0)
            } else if !euc_jp.1 {
                Ok(euc_jp.0)
            } else {
                Err(DecodeError::UnknownEncoding)
            }
        },
    }
}

/// The text of a record file, from its bytes.
pub fn decode_kif_bytes(bytes: Vec<u8>) -> (r: Result<String, DecodeError>)
    requires
        fits_decoder(bytes@.len()),
    ensures
        text_view(r) == chosen_text(
            utf8_text(bytes@),
            shift_jis_text(bytes@),
            euc_jp_text(bytes@),
        ),
{
    match String::from_utf8(bytes.clone()) {
        Ok(text) => Ok(text),
        Err(_) => {
            let (text, had_errors) = decode_shift_jis(&bytes);
            if !had_errors {
                return Ok(text);
            }
            let (text, had_errors) = decode_euc_jp(&bytes);
            if !had_errors {
                return Ok(text);
            }
            Err(DecodeError::UnknownEncoding)
        },
    }
}

} // verus!
