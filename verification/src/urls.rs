//! Web addresses.

use crate::text::text_of;
use vstd::prelude::*;

verus! {

/// The normal form of an absolute web address, or nothing where the text is no
/// absolute address: what `url::Url::parse` makes of the text, written out.
pub uninterp spec fn parsed_url(text: Seq<char>) -> Option<Seq<char>>;

/// Reads a web address with `url::Url::parse` and writes the result out again.
/// Which texts are addresses, and what their normal form is, depends on the text
/// alone; it is named `parsed_url` here and not described further.
#[verifier::external_body]
pub(crate) fn parse_url(text: &str) -> (parsed: Option<String>)
    ensures
        text_of(parsed) == parsed_url(text@),
{
    match url::Url::parse(text) {
        Ok(address) => Some(String::from(address)),
        Err(_) => None,
    }
}

} // verus!
