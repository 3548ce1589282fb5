//! What the outer tool hands to the analysis inside the compilation: the
//! mode, the selector and the colouring policy, each as the text of an
//! environment variable.

use crate::error::WhyNotError;
use crate::opts::Coloring;
use crate::selector::{normalized_selector, parse_selector, selector_accepts};
use crate::text::same_text;
use vstd::prelude::*;
use vstd::string::StringExecFns;

verus! {

/// The variable that holds the mode.
pub const ENV_VAR_WHYNOT_MODE: &'static str = "__CARGO-WHYNOT_MODE";

/// The variable that holds the colouring policy.
pub const ENV_VAR_WHYNOT_COLORING: &'static str = "__CARGO-WHYNOT_COLORING";

/// The variable that holds the selector.
pub const ENV_VAR_WHYNOT_SELECTOR: &'static str = "__CARGO-WHYNOT_SELECTOR";

/// What is said where the analysis was started without the outer tool.
pub const WHYNOT_RUSTC_WRAPPER_ERROR: &'static str = "ran `cargo whynot rustc` outside of wrapper";

/// What the analysis was asked for.
#[derive(Debug, PartialEq, Eq)]
pub struct Handoff {
    /// The selector, as it was given.
    pub selector: String,
    pub coloring: Coloring,
}

/// Whether `coloring` is the word of a colouring policy.
pub open spec fn is_coloring(coloring: Seq<char>) -> bool {
    coloring == Coloring::Auto.name() || coloring == Coloring::Always.name() || coloring
        == Coloring::Never.name()
}

/// Whether the three values are a request that can be served: the mode is
/// `safe`, and the selector and the colouring policy are there.
pub open spec fn is_handed_over(
    mode: Option<&str>,
    selector: Option<&str>,
    coloring: Option<&str>,
) -> bool {
    &&& mode matches Some(m) && m@ == "safe"@
    &&& selector is Some
    &&& coloring matches Some(c) && is_coloring(c@)
}

/// Reads what the outer tool handed over, before anything is analysed.
///
/// `mode`, `selector` and `coloring` are the values of the three
/// variables, `None` for one that is not set. Anything but a complete
/// request in mode `safe` means that the analysis was not started by the
/// outer tool, and fails with [`WhyNotError::EnvironmentMissing`]. A
/// complete request with a text that is no selector fails with
/// [`WhyNotError::InvalidSelector`].
pub fn read_handoff(mode: Option<&str>, selector: Option<&str>, coloring: Option<&str>) -> (r:
    Result<Handoff, WhyNotError>)
    ensures
        match r {
            Ok(handoff) => {
                &&& is_handed_over(mode, selector, coloring)
                &&& selector_accepts(normalized_selector(selector->0@))
                &&& handoff.selector@ == selector->0@
                &&& handoff.coloring.name() == coloring->0@
            },
            Err(WhyNotError::EnvironmentMissing) => !is_handed_over(mode, selector, coloring),
            Err(WhyNotError::InvalidSelector { selector: refused, .. }) => {
                &&& is_handed_over(mode, selector, coloring)
                &&& !selector_accepts(normalized_selector(selector->0@))
                &&& refused@ == normalized_selector(selector->0@)
            },
            Err(_) => false,
        },
{
    let in_mode = match mode {
        Some(mode) => same_text(mode, "safe"),
        None => false,
    };
    if !in_mode {
        return Err(WhyNotError::EnvironmentMissing);
    }
    let selector = match selector {
        Some(selector) => selector,
        None => {
            return Err(WhyNotError::EnvironmentMissing);
        },
    };
    let coloring = match coloring {
        Some(coloring) => match Coloring::from_str(coloring) {
            Ok(coloring) => coloring,
            Err(_) => {
                return Err(WhyNotError::EnvironmentMissing);
            },
        },
        None => {
            return Err(WhyNotError::EnvironmentMissing);
        },
    };
    match parse_selector(selector) {
        Ok(_) => Ok(Handoff { selector: String::from_str(selector), coloring }),
        Err(e) => Err(e),
    }
}

} // verus!
