//! The header sanitizer. The Windows code-generation step writes the
//! headers it derives from `.h.in` templates in 16-bit little-endian text,
//! which the downstream header parser does not accept. The sanitizer picks
//! those files by their naming convention, decodes their bytes, and hands
//! back the same characters in the 8-bit variable-width encoding, to be
//! written back in place of the original bytes. A malformed byte sequence is
//! fatal: there is no fallback encoding guess.

use vstd::prelude::*;
use crate::errors::BuildError;
use crate::pathname::{ends_with, spec_ends_with};

verus! {

/// The characters of `b` read as 16-bit little-endian text, or `None` when
/// `b` is malformed. Names the result of encoding_rs's UTF-16LE decoder,
/// which depends on the bytes alone.
pub uninterp spec fn utf16le_chars(b: Seq<u8>) -> Option<Seq<char>>;

/// The characters of `b` read as 8-bit variable-width text, or `None` when
/// `b` is malformed. Names the result of std's UTF-8 decoding of `b`.
pub uninterp spec fn utf8_chars(b: Seq<u8>) -> Option<Seq<char>>;

/// Relies on encoding_rs: `UTF_16LE.decode_without_bom_handling_and_without_replacement`
/// decodes the whole buffer with malformed sequences treated as fatal, so it
/// returns the characters exactly when the bytes are well-formed, and its
/// result depends on the bytes alone. The length bound keeps its internal
/// output-buffer size calculation, which its documentation warns may panic,
/// far from overflowing.
#[verifier::external_body]
fn decode_utf16le(b: &Vec<u8>) -> (r: Option<String>)
    requires
        b@.len() < usize::MAX / 8,
    ensures
        (r is Some) == (utf16le_chars(b@) is Some),
        r matches Some(s) ==> utf16le_chars(b@) == Some(s@),
{
    encoding_rs::UTF_16LE
        .decode_without_bom_handling_and_without_replacement(b.as_slice())
        .map(|cow| cow.into_owned())
}

/// Relies on str::as_bytes and the UTF-8 invariant of str: the bytes of a
/// string are the 8-bit variable-width encoding of its characters, and std
/// documents that decoding them yields the original string back.
#[verifier::external_body]
fn encode_utf8(s: &str) -> (r: Vec<u8>)
    ensures
        utf8_chars(r@) == Some(s@),
{
    s.as_bytes().to_vec()
}

/// Whether `name` names a template the Windows code-generation step derives
/// a header from.
pub open spec fn spec_is_generated_template(name: Seq<char>) -> bool {
    spec_ends_with(name, ".h.in"@)
}

/// The name of the header generated from the template `name`: the trailing
/// `.in` dropped.
pub open spec fn spec_generated_header(name: Seq<char>) -> Seq<char> {
    name.subrange(0, name.len() - 3)
}

/// The header file the Windows code-generation step produced from this file
/// name, if any: for a `.h.in` template, the `.h` file beside it.
pub fn generated_header_name(name: &str) -> (r: Option<String>)
    ensures
        (r is Some) == spec_is_generated_template(name@),
        r matches Some(t) ==> t@ == spec_generated_header(name@),
{
    if ends_with(name, ".h.in") {
        let n = name.unicode_len();
        proof {
            reveal_strlit(".h.in");
            assert(".h.in"@.len() == 5);
        }
        let stem = name.substring_char(0, n - 3);
        Some(String::from_str(stem))
    } else {
        None
    }
}

/// Sanitize the content of one generated header: decode `bytes` as 16-bit
/// little-endian text and return the same characters re-encoded as 8-bit
/// variable-width bytes, to overwrite the file with. Succeeds exactly when
/// `bytes` is well-formed; reading the result back as 8-bit text then
/// succeeds and reproduces the original logical character content.
pub fn sanitize_header(bytes: &Vec<u8>) -> (r: Result<Vec<u8>, BuildError>)
    requires
        bytes@.len() < usize::MAX / 8,
    ensures
        (r is Ok) == (utf16le_chars(bytes@) is Some),
        r matches Ok(out) ==> utf8_chars(out@) == utf16le_chars(bytes@),
        r matches Err(e) ==> e == BuildError::EncodingFailure,
{
    match decode_utf16le(bytes) {
        Some(text) => Ok(encode_utf8(text.as_str())),
        None => Err(BuildError::EncodingFailure),
    }
}

/// Sanitized bytes always read back as well-formed 8-bit text: the sanitizer
/// never leaves a header the downstream parser cannot read.
pub proof fn lemma_sanitized_reads_back(original: Seq<u8>, out: Seq<u8>)
    requires
        utf8_chars(out) == utf16le_chars(original),
        utf16le_chars(original) is Some,
    ensures
        utf8_chars(out) is Some,
        utf8_chars(out)->Some_0 == utf16le_chars(original)->Some_0,
{
}

} // verus!
