//! The library's error type. Each variant carries a plain-text detail
//! string; `message` renders the variant with its customary prefix.
use vstd::prelude::*;
use vstd::string::StringExecFns;

verus! {

/// Error taxonomy of the tool.
#[derive(Debug, Clone, PartialEq)]
pub enum LunitoolError {
    /// Input/output error
    Io(String),
    /// System command error
    Command(String),
    /// Configuration error
    Config(String),
    /// Language error
    Language(String),
    /// UI error
    Ui(String),
    /// Generic error
    Generic(String),
}

/// Result type of the tool.
pub type LunitoolResult<T> = Result<T, LunitoolError>;

/// The display text of an error: its prefix followed by the detail.
pub open spec fn spec_error_message(e: LunitoolError) -> Seq<char> {
    match e {
        LunitoolError::Io(d) => "I/O error: "@ + d@,
        LunitoolError::Command(d) => "Command error: "@ + d@,
        LunitoolError::Config(d) => "Configuration error: "@ + d@,
        LunitoolError::Language(d) => "Language error: "@ + d@,
        LunitoolError::Ui(d) => "UI error: "@ + d@,
        LunitoolError::Generic(d) => d@,
    }
}

impl LunitoolError {
    /// Renders the error as display text.
    pub fn message(&self) -> (r: String)
        ensures
            r@ == spec_error_message(*self),
    {
        match self {
            LunitoolError::Io(d) => {
                let mut s = "I/O error: ".to_owned();
                s.append(d.as_str());
                s
            },
            LunitoolError::Command(d) => {
                let mut s = "Command error: ".to_owned();
                s.append(d.as_str());
                s
            },
            LunitoolError::Config(d) => {
                let mut s = "Configuration error: ".to_owned();
                s.append(d.as_str());
                s
            },
            LunitoolError::Language(d) => {
                let mut s = "Language error: ".to_owned();
                s.append(d.as_str());
                s
            },
            LunitoolError::Ui(d) => {
                let mut s = "UI error: ".to_owned();
                s.append(d.as_str());
                s
            },
            LunitoolError::Generic(d) => d.clone(),
        }
    }
}

} // verus!
