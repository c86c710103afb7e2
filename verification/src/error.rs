//! The library's error type.  Only construction-time conditions are errors:
//! an invalid pattern or an invalid user configuration.  Scan-time failures
//! are recorded as diagnostic strings beside a still-usable result.

use vstd::prelude::*;
use vstd::string::StringExecFns;

verus! {

/// A construction-time error: pattern errors carry the offending text.
#[derive(Debug)]
pub enum LintScoutError {
    /// A pattern text that the engine rejected.
    InvalidPattern { pattern: String },
    /// An invalid user-supplied scout configuration.
    Config(String),
}

impl LintScoutError {
    /// The error rendered as one line of text.
    pub fn message(&self) -> (r: String)
        ensures
            match self {
                LintScoutError::InvalidPattern { pattern } => r@ == "invalid regex pattern '"@
                    + pattern@ + "'"@,
                LintScoutError::Config(m) => r@ == "configuration error: "@ + m@,
            },
    {
        match self {
            LintScoutError::InvalidPattern { pattern } => {
                let mut s = String::from_str("invalid regex pattern '");
                s.append(pattern.as_str());
                s.append("'");
                s
            },
            LintScoutError::Config(m) => {
                let mut s = String::from_str("configuration error: ");
                s.append(m.as_str());
                s
            },
        }
    }
}

} // verus!
