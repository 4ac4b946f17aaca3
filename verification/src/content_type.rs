//! Content types: what the bytes of an upload say they are, and how content
//! types and file extensions map to each other. The tables behind both are
//! those of the crates `tika-magic` and `mime_guess`; this module gives
//! their answers names and leaves the decisions to verified code.

use crate::text::views;
use vstd::prelude::*;

verus! {

/// The content type that `tika_magic::from_u8` reads off `bytes`.
pub uninterp spec fn sniffed_type(bytes: Seq<u8>) -> Seq<char>;

/// The extensions that `mime_guess::get_mime_extensions_str` lists for the
/// content type `mime`, in its order; `None` where it knows none.
pub uninterp spec fn known_extensions(mime: Seq<char>) -> Option<Seq<Seq<char>>>;

/// The essence of the first content type that `mime_guess::from_ext` guesses
/// for the extension `ext`; `None` where it has no guess.
pub uninterp spec fn guessed_type(ext: Seq<char>) -> Option<Seq<char>>;

/// Calls `tika_magic::from_u8`, which matches `bytes` against its table of
/// magic numbers and falls back to `application/octet-stream`. The contract
/// claims only that the answer depends on the bytes alone.
#[verifier::external_body]
pub(crate) fn sniff(bytes: &[u8]) -> (r: String)
    ensures
        r@ == sniffed_type(bytes@),
{
    tika_magic::from_u8(bytes).to_string()
}

/// Calls `mime_guess::get_mime_extensions_str`, a lookup in a fixed table,
/// and copies the list it returns. The contract claims only that the answer
/// depends on `mime` alone.
#[verifier::external_body]
pub(crate) fn extensions_of(mime: &str) -> (r: Option<Vec<String>>)
    ensures
        r is Some <==> known_extensions(mime@) is Some,
        r matches Some(list) ==> views(list@) == known_extensions(mime@)->0,
{
    mime_guess::get_mime_extensions_str(mime).map(
        |list| list.iter().map(|ext| ext.to_string()).collect(),
    )
}

/// Calls `mime_guess::from_ext`, a lookup in a fixed table, takes the first
/// guess with `MimeGuess::first` and writes it without parameters with
/// `Mime::essence_str`. The contract claims only that the answer depends on
/// `ext` alone.
#[verifier::external_body]
pub(crate) fn type_of_extension(ext: &str) -> (r: Option<String>)
    ensures
        r is Some <==> guessed_type(ext@) is Some,
        r matches Some(mime) ==> mime@ == guessed_type(ext@)->0,
{
    mime_guess::from_ext(ext).first().map(|mime| mime.essence_str().to_string())
}

} // verus!
