//! The calls that the library makes into the decoders and the URL encoder.

use std::io::Read;
use vstd::prelude::*;
use vstd::utf8::{decode_utf8, encode_utf8, valid_utf8};

verus! {

/// What decoding `input` as one gzip member gives: the decoded bytes, or
/// the text of the decoder's error.
pub uninterp spec fn gz_decoded(input: Seq<u8>) -> Result<Seq<u8>, Seq<char>>;

/// What decoding `input` as one xz stream gives: the decoded bytes, or the
/// text of the decoder's error.
pub uninterp spec fn xz_decoded(input: Seq<u8>) -> Result<Seq<u8>, Seq<char>>;

/// What decoding `input` as one bzip2 stream gives: the decoded bytes, or
/// the text of the decoder's error.
pub uninterp spec fn bz2_decoded(input: Seq<u8>) -> Result<Seq<u8>, Seq<char>>;

/// Whether the two results hold the same bytes, or the same error text.
pub open spec fn same_outcome(got: Result<Vec<u8>, String>, model: Result<Seq<u8>, Seq<char>>) -> bool {
    match got {
        Ok(bytes) => model == Ok::<Seq<u8>, Seq<char>>(bytes@),
        Err(text) => model == Err::<Seq<u8>, Seq<char>>(text@),
    }
}

/// Whether a URL keeps the byte `b` as it is: letters, digits, `-`, `.`,
/// `_` and `~`.
pub open spec fn is_unreserved(b: u8) -> bool {
    (0x30 <= b && b <= 0x39) || (0x41 <= b && b <= 0x5a) || (0x61 <= b && b <= 0x7a) || b == 0x2d
        || b == 0x2e || b == 0x5f || b == 0x7e
}

/// The upper-case hexadecimal digit of `d`, for `d` below 16.
pub open spec fn hex_digit(d: u8) -> char {
    if d < 10 {
        ((0x30 + d) as u8) as char
    } else {
        ((0x41 + d - 10) as u8) as char
    }
}

/// The percent-encoding of one byte.
pub open spec fn encoded_byte(b: u8) -> Seq<char> {
    if is_unreserved(b) {
        seq![b as char]
    } else {
        seq!['%', hex_digit(b / 16), hex_digit(b % 16)]
    }
}

/// The percent-encoding of `bytes`, byte by byte.
pub open spec fn percent_encoded(bytes: Seq<u8>) -> Seq<char>
    decreases bytes.len(),
{
    if bytes.len() == 0 {
        Seq::empty()
    } else {
        percent_encoded(bytes.drop_last()) + encoded_byte(bytes.last())
    }
}

/// Reads a `flate2::read::GzDecoder` over `input` to its end. The contract
/// claims that the outcome depends on the bytes of `input` alone, and names
/// it [`gz_decoded`].
#[verifier::external_body]
pub(crate) fn gz_decode(input: &[u8]) -> (res: Result<Vec<u8>, String>)
    ensures
        same_outcome(res, gz_decoded(input@)),
{
    let mut out: Vec<u8> = Vec::new();
    match flate2::read::GzDecoder::new(input).read_to_end(&mut out) {
        Ok(_) => Ok(out),
        Err(e) => Err(e.to_string()),
    }
}

/// Reads an `xz2::read::XzDecoder` over `input` to its end. The contract claims
/// that the outcome depends on the bytes of `input` alone, and names it
/// [`xz_decoded`].
#[verifier::external_body]
pub(crate) fn xz_decode(input: &[u8]) -> (res: Result<Vec<u8>, String>)
    ensures
        same_outcome(res, xz_decoded(input@)),
{
    let mut out: Vec<u8> = Vec::new();
    match xz2::read::XzDecoder::new(input).read_to_end(&mut out) {
        Ok(_) => Ok(out),
        Err(e) => Err(e.to_string()),
    }
}

/// Reads a `bzip2::read::BzDecoder` over `input` to its end. The contract
/// claims that the outcome depends on the bytes of `input` alone, and names
/// it [`bz2_decoded`].
#[verifier::external_body]
pub(crate) fn bz2_decode(input: &[u8]) -> (res: Result<Vec<u8>, String>)
    ensures
        same_outcome(res, bz2_decoded(input@)),
{
    let mut out: Vec<u8> = Vec::new();
    match bzip2::read::BzDecoder::new(input).read_to_end(&mut out) {
        Ok(_) => Ok(out),
        Err(e) => Err(e.to_string()),
    }
}

/// Calls `urlencoding::encode`. The contract claims what its documentation
/// says: every byte of the UTF-8 form of `data` is kept where it is a
/// letter, a digit or one of `-._~`, and otherwise written as `%` and two
/// upper-case hexadecimal digits.
#[verifier::external_body]
pub(crate) fn url_encode(data: &str) -> (res: String)
    ensures
        res@ == percent_encoded(encode_utf8(data@)),
{
    urlencoding::encode(data).into_owned()
}

/// Calls `String::from_utf8`. The contract claims that it gives a string
/// exactly for valid UTF-8, and then the text that the bytes encode.
#[verifier::external_body]
pub(crate) fn text_from_utf8(bytes: Vec<u8>) -> (res: Option<String>)
    ensures
        res.is_some() == valid_utf8(bytes@),
        res matches Some(text) ==> text@ == decode_utf8(bytes@),
{
    match String::from_utf8(bytes) {
        Ok(text) => Some(text),
        Err(_) => None,
    }
}

} // verus!
