//! The options that reach the engine as text.

use crate::error::WhyNotError;
use crate::text::same_text;
use vstd::prelude::*;
use vstd::string::StringExecFns;

verus! {

/// The form in which findings are put out.
#[derive(Clone, Copy, Debug, PartialEq, Eq, Structural)]
pub enum OutputMode {
    Normal,
    Json,
}

impl OutputMode {
    /// The word that stands for the mode.
    pub open spec fn name(self) -> Seq<char> {
        match self {
            OutputMode::Normal => "normal"@,
            OutputMode::Json => "json"@,
        }
    }

    /// Reads a mode from its word, `normal` or `json`. Any other text is
    /// refused, and the error restates it.
    pub fn from_str(s: &str) -> (r: Result<OutputMode, WhyNotError>)
        ensures
            match r {
                Ok(mode) => s@ == mode.name(),
                Err(e) => {
                    &&& s@ != OutputMode::Normal.name()
                    &&& s@ != OutputMode::Json.name()
                    &&& e matches WhyNotError::InvalidOutputMode { found }
                    &&& found@ == s@
                },
            },
    {
        if same_text(s, "normal") {
            Ok(OutputMode::Normal)
        } else if same_text(s, "json") {
            Ok(OutputMode::Json)
        } else {
            Err(WhyNotError::InvalidOutputMode { found: String::from_str(s) })
        }
    }
}

/// When the report is coloured.
#[derive(Clone, Copy, Debug, PartialEq, Eq, Structural)]
pub enum Coloring {
    Auto,
    Always,
    Never,
}

impl Coloring {
    /// The word that stands for the policy.
    pub open spec fn name(self) -> Seq<char> {
        match self {
            Coloring::Auto => "auto"@,
            Coloring::Always => "always"@,
            Coloring::Never => "never"@,
        }
    }

    /// Reads a policy from its word: `auto`, `always` or `never`. Any other
    /// text is refused, and the error restates it.
    pub fn from_str(name: &str) -> (r: Result<Coloring, WhyNotError>)
        ensures
            match r {
                Ok(coloring) => name@ == coloring.name(),
                Err(e) => {
                    &&& name@ != Coloring::Auto.name()
                    &&& name@ != Coloring::Always.name()
                    &&& name@ != Coloring::Never.name()
                    &&& e matches WhyNotError::InvalidColoring { found }
                    &&& found@ == name@
                },
            },
    {
        if same_text(name, "auto") {
            Ok(Coloring::Auto)
        } else if same_text(name, "always") {
            Ok(Coloring::Always)
        } else if same_text(name, "never") {
            Ok(Coloring::Never)
        } else {
            Err(WhyNotError::InvalidColoring { found: String::from_str(name) })
        }
    }

    /// The word that stands for the policy, as `from_str` reads it.
    pub fn as_str(&self) -> (r: &'static str)
        ensures
            r@ == self.name(),
    {
        match self {
            Coloring::Auto => "auto",
            Coloring::Always => "always",
            Coloring::Never => "never",
        }
    }

    /// The word that stands for the policy, as a string of its own.
    pub fn to_string(&self) -> (r: String)
        ensures
            r@ == self.name(),
    {
        String::from_str(self.as_str())
    }
}

/// No two policies share a word, and no two modes do: a word is read as one
/// value only.
pub proof fn lemma_names_differ()
    ensures
        Coloring::Auto.name() != Coloring::Always.name(),
        Coloring::Auto.name() != Coloring::Never.name(),
        Coloring::Always.name() != Coloring::Never.name(),
        OutputMode::Normal.name() != OutputMode::Json.name(),
{
    reveal_strlit("auto");
    reveal_strlit("always");
    reveal_strlit("never");
    reveal_strlit("normal");
    reveal_strlit("json");
    assert("auto"@.len() == 4);
    assert("always"@.len() == 6);
    assert("never"@.len() == 5);
    assert("normal"@.len() == 6);
    assert("json"@.len() == 4);
}

} // verus!
