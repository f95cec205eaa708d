//! Failures that keep the detection service from being built.

use vstd::prelude::*;
use vstd::string::*;

verus! {

/// Why a detection service could not be constructed. Either failure is final:
/// nothing is retried and no service value exists afterwards.
#[derive(Debug, Clone)]
pub enum ConfigurationError {
    /// The prompt file at `path` could not be read.
    PromptUnreadable { path: String },
    /// The chat pipeline refused to build; `reason` is the refusal as the
    /// builder renders it for diagnostics.
    PipelineBuild { reason: String },
}

impl ConfigurationError {
    /// The text that `message` produces.
    pub open spec fn message_spec(self) -> Seq<char> {
        match self {
            ConfigurationError::PromptUnreadable { path } => "Error reading file: "@ + path@,
            ConfigurationError::PipelineBuild { reason } => "error in chain initialization: "@
                + reason@,
        }
    }

    /// A human-readable account of the failure.
    pub fn message(&self) -> (text: String)
        ensures
            text@ == self.message_spec(),
    {
        match self {
            ConfigurationError::PromptUnreadable { path } => {
                String::from_str("Error reading file: ").concat(path.as_str())
            },
            ConfigurationError::PipelineBuild { reason } => {
                String::from_str("error in chain initialization: ").concat(reason.as_str())
            },
        }
    }
}

} // verus!
