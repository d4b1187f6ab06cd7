//! The `application/x-www-form-urlencoded` syntax: a query string or form body
//! on one side, an ordered list of name and value pairs on the other.
//!
//! The syntax itself is `serde_urlencoded`'s business. What this module adds is
//! a name for each direction, so that the rest of the library can say exactly
//! which pairs it decoded and which pairs it asked to have encoded.

use vstd::prelude::*;

verus! {

/// A list of name and value pairs, as contracts see it.
pub type Pairs = Seq<(Seq<char>, Seq<char>)>;

/// `serde_urlencoded`'s decoding error, carried through unread.
#[verifier::external_type_specification]
#[verifier::external_body]
pub struct ExDecodeError(serde_urlencoded::de::Error);

/// `serde_urlencoded`'s encoding error, carried through unread.
#[verifier::external_type_specification]
#[verifier::external_body]
pub struct ExEncodeError(serde_urlencoded::ser::Error);

/// The pairs that `serde_urlencoded::from_str` reads out of `query` when asked
/// for a list of string pairs, or `None` where it reports an error.
pub uninterp spec fn form_decoding(query: Seq<char>) -> Option<Pairs>;

/// The text that `serde_urlencoded::to_string` writes for `pairs`, or `None`
/// where it reports an error.
pub uninterp spec fn form_encoding(pairs: Pairs) -> Option<Seq<char>>;

/// Calls `serde_urlencoded::from_str` for a `Vec<(String, String)>`.
///
/// Trusted: the result depends on `query` alone, which is all that equating it
/// with `form_decoding` claims.
#[verifier::external_body]
pub(crate) fn decode_pairs(query: &str) -> (out: Result<
    Vec<(String, String)>,
    serde_urlencoded::de::Error,
>)
    ensures
        match out {
            Ok(pairs) => form_decoding(query@) == Some(pairs.deep_view()),
            Err(_) => form_decoding(query@) is None,
        },
{
    serde_urlencoded::from_str::<Vec<(String, String)>>(query)
}

/// Calls `serde_urlencoded::to_string` on a list of string pairs.
///
/// Trusted: the result depends on `pairs` alone, which is all that equating it
/// with `form_encoding` claims.
#[verifier::external_body]
pub(crate) fn encode_pairs(pairs: &Vec<(String, String)>) -> (out: Result<
    String,
    serde_urlencoded::ser::Error,
>)
    ensures
        match out {
            Ok(text) => form_encoding(pairs.deep_view()) == Some(text@),
            Err(_) => form_encoding(pairs.deep_view()) is None,
        },
{
    serde_urlencoded::to_string(pairs)
}

} // verus!
