//! Addresses of hosted content: which texts are absolute URLs.

use vstd::prelude::*;

verus! {

/// What `url::Url::parse` makes of a text: in `Ok` the serialisation of the
/// URL that it read, in `Err` the message of its `ParseError`.
pub uninterp spec fn parsed_url(input: Seq<char>) -> Result<Seq<char>, Seq<char>>;

/// Parses `input` with `url::Url::parse`. A URL is handed back as its
/// serialisation (`String::from`), a `ParseError` as the text that its
/// `Display` writes.
///
/// The contract claims only that the outcome depends on `input` alone, by
/// giving it the name [`parsed_url`].
#[verifier::external_body]
pub(crate) fn parse_url(input: &str) -> (outcome: Result<String, String>)
    ensures
        match outcome {
            Ok(address) => parsed_url(input@) == Ok::<Seq<char>, Seq<char>>(address@),
            Err(reason) => parsed_url(input@) == Err::<Seq<char>, Seq<char>>(reason@),
        },
{
    match url::Url::parse(input) {
        Ok(address) => Ok(String::from(address)),
        Err(reason) => Err(reason.to_string()),
    }
}

} // verus!
