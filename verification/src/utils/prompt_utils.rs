//! Resolving a prompt template's name to its text.
//!
//! Prompts live in files below a fixed root. The caller reads the file at
//! [`prompt_path`] and hands what it got to [`load_prompt`].

use crate::error::ConfigurationError;
use vstd::prelude::*;
use vstd::string::*;

verus! {

/// Where the prompt named `prompt` is stored: the name appended to the root
/// directory of the prompts.
pub open spec fn prompt_path_spec(prompt: Seq<char>) -> Seq<char> {
    "src/prompts/"@ + prompt
}

/// The path of the file that holds the prompt named `prompt`.
pub fn prompt_path(prompt: &str) -> (path: String)
    ensures
        path@ == prompt_path_spec(prompt@),
{
    String::from_str("src/prompts/").concat(prompt)
}

/// Resolves the prompt named `prompt` to its text. `contents` is what reading
/// the file at `prompt_path(prompt)` gave, `None` if the read failed.
///
/// The text comes back unchanged. A failed read is a configuration error that
/// names the path; an empty file is still a prompt, never a failure.
pub fn load_prompt(prompt: &str, contents: Option<String>) -> (loaded: Result<
    String,
    ConfigurationError,
>)
    ensures
        contents matches Some(text) ==> loaded == Ok::<String, ConfigurationError>(text),
        contents is None ==> (loaded matches Err(ConfigurationError::PromptUnreadable { path })
            && path@ == prompt_path_spec(prompt@)),
{
    match contents {
        Some(text) => Ok(text),
        None => Err(ConfigurationError::PromptUnreadable { path: prompt_path(prompt) }),
    }
}

} // verus!
