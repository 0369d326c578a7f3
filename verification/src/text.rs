//! The text operations the library borrows from the standard library.

use vstd::prelude::*;
use vstd::utf8::{decode_utf8, valid_utf8};

verus! {

/// `String::from_utf8`, with the error dropped. The standard library accepts
/// the bytes exactly when they are valid UTF-8, and the string it builds
/// consists of the characters they encode.
#[verifier::external_body]
pub(crate) fn string_from_utf8(bytes: Vec<u8>) -> (r: Option<String>)
    ensures
        match r {
            Some(s) => valid_utf8(bytes@) && s@ == decode_utf8(bytes@),
            None => !valid_utf8(bytes@),
        },
{
    String::from_utf8(bytes).ok()
}

/// `str::split_once` with a character as the delimiter. The standard library
/// splits at the first occurrence of the delimiter and hands back what stands
/// before it and what stands after it, or nothing where the delimiter does
/// not occur. The contract says exactly that.
#[verifier::external_body]
pub(crate) fn str_split_once<'a>(s: &'a str, delimiter: char) -> (r: Option<(&'a str, &'a str)>)
    ensures
        match r {
            Some((head, tail)) => s@ == head@ + seq![delimiter] + tail@ && !head@.contains(
                delimiter,
            ),
            None => !s@.contains(delimiter),
        },
{
    s.split_once(delimiter)
}

} // verus!
