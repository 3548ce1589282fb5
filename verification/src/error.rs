//! How the engine fails.

use vstd::prelude::*;
use vstd::string::StringExecFns;

verus! {

/// The failures of an analysis.
#[derive(Clone, Debug, PartialEq, Eq)]
pub enum WhyNotError {
    /// No function's path ends with the selector.
    SelectorNotFound { selector: String },
    /// The search was given no budget to classify a function with.
    InternalBudgetExceeded,
    /// The text is no selector; `reason` says why, in the parser's words.
    InvalidSelector { selector: String, reason: String },
    /// The analysis was started without what the outer tool hands to it.
    EnvironmentMissing,
    /// The text names no output mode.
    InvalidOutputMode { found: String },
    /// The text names no colouring policy.
    InvalidColoring { found: String },
}

impl WhyNotError {
    pub open spec fn spec_message(&self) -> Seq<char> {
        match *self {
            WhyNotError::SelectorNotFound { selector } => "no such function found: "@ + selector@,
            WhyNotError::InternalBudgetExceeded => "the search for the cause exceeded its budget"@,
            WhyNotError::InvalidSelector { selector, reason } => "invalid selector `"@ + selector@
                + "`: "@ + reason@,
            WhyNotError::EnvironmentMissing => "ran `cargo whynot rustc` outside of wrapper"@,
            WhyNotError::InvalidOutputMode { found } => "invalid output mode: "@ + found@,
            WhyNotError::InvalidColoring { found } =>
                "must be auto, always, or never, but found `"@ + found@ + "`"@,
        }
    }

    /// The failure in words, with the selector that was looked for.
    pub fn message(&self) -> (r: String)
        ensures
            r@ == self.spec_message(),
    {
        match self {
            WhyNotError::SelectorNotFound { selector } => {
                let mut s = String::from_str("no such function found: ");
                s.append(selector.as_str());
                s
            },
            WhyNotError::InternalBudgetExceeded => String::from_str(
                "the search for the cause exceeded its budget",
            ),
            WhyNotError::InvalidSelector { selector, reason } => {
                let mut s = String::from_str("invalid selector `");
                s.append(selector.as_str());
                s.append("`: ");
                s.append(reason.as_str());
                s
            },
            WhyNotError::EnvironmentMissing => String::from_str(
                "ran `cargo whynot rustc` outside of wrapper",
            ),
            WhyNotError::InvalidOutputMode { found } => {
                let mut s = String::from_str("invalid output mode: ");
                s.append(found.as_str());
                s
            },
            WhyNotError::InvalidColoring { found } => {
                let mut s = String::from_str("must be auto, always, or never, but found `");
                s.append(found.as_str());
                s.append("`");
                s
            },
        }
    }
}

} // verus!
