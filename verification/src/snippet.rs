//! Turning a snippet into the text that gets copied.

use vstd::prelude::*;

use crate::config::SnippetConfig;
use crate::text::{concat, decode_lossy, strip_trailing_newlines, trim_trailing_newlines, utf8_lossy};

verus! {

/// What a snippet needs in order to produce its text.
#[derive(Debug)]
pub enum Resolution {
    /// The text itself (a body snippet, copied verbatim).
    Text(String),
    /// The shell command whose output is the text: run it with `sh -c`
    /// and finish with [`command_output_text`].
    RunCommand(String),
}

/// Why a snippet produced no text.
#[derive(Debug)]
pub enum SnippetError {
    /// The snippet with this key has neither a body nor a command.
    Invalid { key: String },
    /// The command of the snippet with this key failed; `stderr` is what
    /// it wrote to standard error.
    CommandFailed { key: String, stderr: String },
}

impl SnippetError {
    /// The text shown to the user for this error.
    pub open spec fn text(&self) -> Seq<char> {
        match self {
            SnippetError::Invalid { key } => "invalid snippet '"@ + key@ + "'"@,
            SnippetError::CommandFailed { key, stderr } => "command snippet '"@ + key@
                + "' failed: "@ + stderr@,
        }
    }

    /// The text shown to the user for this error.
    pub fn message(&self) -> (r: String)
        ensures
            r@ == self.text(),
    {
        match self {
            SnippetError::Invalid { key } => {
                let mut r = concat("invalid snippet '", key.as_str());
                r.append("'");
                r
            },
            SnippetError::CommandFailed { key, stderr } => {
                let mut r = concat("command snippet '", key.as_str());
                r.append("' failed: ");
                r.append(stderr.as_str());
                r
            },
        }
    }
}

/// What `snippet` needs to produce its text: its body when it has one
/// (even if it also has a command), else its command; a snippet with
/// neither is invalid.
pub fn resolve_snippet(snippet: &SnippetConfig) -> (r: Result<Resolution, SnippetError>)
    ensures
        snippet.body matches Some(b) ==> (r matches Ok(Resolution::Text(t)) && t@ == b@),
        snippet.body is None ==> (snippet.command matches Some(c) ==> (r matches Ok(
            Resolution::RunCommand(t),
        ) && t@ == c@)),
        snippet.body is None && snippet.command is None ==> (r matches Err(
            SnippetError::Invalid { key },
        ) && key@ == snippet.key@),
{
    if let Some(body) = &snippet.body {
        return Ok(Resolution::Text(body.clone()));
    }
    if let Some(command) = &snippet.command {
        return Ok(Resolution::RunCommand(command.clone()));
    }
    Err(SnippetError::Invalid { key: snippet.key.clone() })
}

/// The text of a command snippet once its command has run: on success the
/// decoded standard output without its trailing line breaks (other
/// trailing whitespace is kept); on failure an error carrying the decoded
/// standard error.
pub fn command_output_text(key: &str, success: bool, stdout: &[u8], stderr: &[u8]) -> (r: Result<
    String,
    SnippetError,
>)
    ensures
        success ==> (r matches Ok(t) && t@ == strip_trailing_newlines(utf8_lossy(stdout@))),
        !success ==> (r matches Err(SnippetError::CommandFailed { key: k, stderr: e }) && k@
            == key@ && e@ == utf8_lossy(stderr@)),
{
    if success {
        Ok(trim_trailing_newlines(decode_lossy(stdout)))
    } else {
        Err(SnippetError::CommandFailed { key: String::from_str(key), stderr: decode_lossy(stderr) })
    }
}

} // verus!
