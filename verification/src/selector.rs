//! The selector: the path by which the user names the function to explain.

use crate::error::WhyNotError;
use crate::text::strip_prefix;
use syn_select::Selector;
use vstd::prelude::*;
use vstd::string::StringExecFns;

verus! {

/// A parsed selector of `syn_select`. Nothing of its inside is known here.
#[verifier::external_type_specification]
#[verifier::external_body]
pub struct ExSelector(syn_select::Selector);

/// The error with which `syn_select` rejects a text.
#[verifier::external_type_specification]
#[verifier::external_body]
pub struct ExSelectorError(syn_select::Error);

/// Whether `syn_select` takes `input` for a selector. Its parser cuts the
/// text at each `::` and takes a part that is `_` or that `syn` reads as an
/// identifier.
pub uninterp spec fn selector_accepts(input: Seq<char>) -> bool;

/// `<Selector as FromStr>::from_str` of `syn_select`. It succeeds on the
/// texts that `selector_accepts` names, a function of the text alone. The
/// empty text is refused before anything is parsed.
#[verifier::external_body]
fn selector_from_str(s: &str) -> (r: Result<Selector, syn_select::Error>)
    ensures
        r is Ok <==> selector_accepts(s@),
        s@.len() == 0 ==> r is Err,
{
    s.parse()
}

/// `<syn_select::Error as Display>::fmt`, through `to_string`: the error in words.
#[verifier::external_body]
fn selector_error_text(error: &syn_select::Error) -> String {
    error.to_string()
}

/// The selector without a leading `::` or `crate::`: with or without, it
/// names the same path from the root of the crate. Only one prefix is taken
/// off, and `::` is tried first.
pub open spec fn normalized_selector(s: Seq<char>) -> Seq<char> {
    if "::"@.is_prefix_of(s) {
        s.skip("::"@.len() as int)
    } else if "crate::"@.is_prefix_of(s) {
        s.skip("crate::"@.len() as int)
    } else {
        s
    }
}

/// Takes a leading `::` or `crate::` off the selector.
pub fn normalize_selector(s: &str) -> (r: &str)
    ensures
        r@ == normalized_selector(s@),
{
    match strip_prefix(s, "::") {
        Some(stripped) => {
            assert(stripped@ == s@.skip("::"@.len() as int));
            stripped
        },
        None => match strip_prefix(s, "crate::") {
            Some(stripped) => {
                assert(stripped@ == s@.skip("crate::"@.len() as int));
                stripped
            },
            None => s,
        },
    }
}

/// Parses a selector, after taking a leading `::` or `crate::` off it.
///
/// It succeeds exactly where `syn_select` takes the normalized text for a
/// selector; the error restates that text.
pub fn parse_selector(s: &str) -> (r: Result<Selector, WhyNotError>)
    ensures
        r is Ok <==> selector_accepts(normalized_selector(s@)),
        normalized_selector(s@).len() == 0 ==> r is Err,
        r matches Err(e) ==> e matches WhyNotError::InvalidSelector { selector, .. } && selector@
            == normalized_selector(s@),
{
    let stripped = normalize_selector(s);
    match selector_from_str(stripped) {
        Ok(selector) => Ok(selector),
        Err(error) => Err(
            WhyNotError::InvalidSelector {
                selector: String::from_str(stripped),
                reason: selector_error_text(&error),
            },
        ),
    }
}

} // verus!
