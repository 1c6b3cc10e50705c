//! Text handling for the connection layer: decoding payload bytes and
//! recognising terminal names.

use vstd::prelude::*;
use vstd::utf8::{decode_utf8, valid_utf8};

verus! {

/// The error of `String::from_utf8`, carried through and never inspected.
#[verifier::external_type_specification]
#[verifier::external_body]
pub struct ExFromUtf8Error(std::string::FromUtf8Error);

/// `String::from_utf8` succeeds exactly on well-formed UTF-8, and the string
/// it returns then holds the characters that the bytes encode.
pub assume_specification[ String::from_utf8 ](vec: Vec<u8>) -> (r: Result<
    String,
    std::string::FromUtf8Error,
>)
    ensures
        r is Ok <==> valid_utf8(vec@),
        r is Ok ==> r->Ok_0@ == decode_utf8(vec@),
;

/// The characters that `String::from_utf8_lossy` yields for the given bytes:
/// the decoded text, with each malformed stretch replaced by U+FFFD.
pub uninterp spec fn lossy_text(bytes: Seq<u8>) -> Seq<char>;

/// The characters that `str::to_lowercase` yields for the given text.
pub uninterp spec fn lowercase(text: Seq<char>) -> Seq<char>;

/// Calls `String::from_utf8_lossy` and takes ownership of the text. The
/// result is a function of the bytes alone, known here as [`lossy_text`].
#[verifier::external_body]
pub(crate) fn decode_lossy(bytes: &[u8]) -> (text: String)
    ensures
        text@ == lossy_text(bytes@),
{
    String::from_utf8_lossy(bytes).into_owned()
}

/// Calls `str::to_lowercase`. The result is a function of the text alone,
/// known here as [`lowercase`].
#[verifier::external_body]
pub(crate) fn to_lowercase(text: &str) -> (lowered: String)
    ensures
        lowered@ == lowercase(text@),
{
    text.to_lowercase()
}

/// Calls `str::starts_with` with a string pattern: whether `text` begins
/// with the characters of `prefix`.
#[verifier::external_body]
pub(crate) fn starts_with(text: &str, prefix: &str) -> (found: bool)
    ensures
        found == prefix@.is_prefix_of(text@),
{
    text.starts_with(prefix)
}

/// The characters that `str::trim` yields for the given text: the text
/// without its leading and trailing whitespace.
pub uninterp spec fn trimmed(text: Seq<char>) -> Seq<char>;

/// Calls `str::trim`. The result is a function of the text alone, known
/// here as [`trimmed`].
#[verifier::external_body]
pub(crate) fn trim(text: &str) -> (inner: &str)
    ensures
        inner@ == trimmed(text@),
{
    text.trim()
}

/// Collects characters into a `String` with `String::from_iter`: the string
/// holds the same characters in the same order.
#[verifier::external_body]
pub(crate) fn collect_chars(chars: Vec<char>) -> (text: String)
    ensures
        text@ == chars@,
{
    String::from_iter(chars)
}

/// Whether a lower-cased terminal name begins with one of the names of
/// terminals known to understand ANSI escapes.
pub open spec fn is_ansi_name(lowered: Seq<char>) -> bool {
    ||| "ansi"@.is_prefix_of(lowered)
    ||| "xterm"@.is_prefix_of(lowered)
    ||| "eterm"@.is_prefix_of(lowered)
    ||| "rxvt"@.is_prefix_of(lowered)
    ||| "tintin++"@.is_prefix_of(lowered)
    ||| "gosclient"@.is_prefix_of(lowered)
    ||| "mushclient"@.is_prefix_of(lowered)
    ||| "zmud"@.is_prefix_of(lowered)
    ||| "vt1"@.is_prefix_of(lowered)
    ||| "tinyfugue"@.is_prefix_of(lowered)
}

/// Checks a lower-cased terminal name against the known ANSI terminals.
pub fn known_ansi(lowered: &str) -> (known: bool)
    ensures
        known == is_ansi_name(lowered@),
{
    starts_with(lowered, "ansi") || starts_with(lowered, "xterm") || starts_with(lowered, "eterm")
        || starts_with(lowered, "rxvt") || starts_with(lowered, "tintin++") || starts_with(
        lowered,
        "gosclient",
    ) || starts_with(lowered, "mushclient") || starts_with(lowered, "zmud") || starts_with(
        lowered,
        "vt1",
    ) || starts_with(lowered, "tinyfugue")
}

/// Decodes bytes as UTF-8 text; `None` when they are not well-formed.
pub fn decode_text(bytes: Vec<u8>) -> (text: Option<String>)
    ensures
        text is Some <==> valid_utf8(bytes@),
        text is Some ==> text->Some_0@ == decode_utf8(bytes@),
{
    match String::from_utf8(bytes) {
        Ok(text) => Some(text),
        Err(_) => None,
    }
}

} // verus!
